//! UCSL — the Uten Core Sharing Library: a registry of shared `.uclib` /
//! `.ucch` modules found along a list of search paths, their optional
//! `.ucsl` manifests, and dependency records kept in module metadata.
use vstd::prelude::*;

use crate::bytecode::module::BYTECODE_VERSION;
use crate::names::{string_views, NameMap};
use crate::text::{
    file_name, file_name_of, joined, path_join, rfind_char, sort_strings, split_ext,
    split_extension, strictly_sorted,
};

verus! {

/// UCSL registry format version.
pub const UCSL_VERSION: u32 = 1;

/// Extension of a UCSL manifest file.
pub const UCSL_MANIFEST_EXT: &'static str = ".ucsl";

/// Metadata key under which a module lists its UCSL dependencies.
pub const UCSL_DEPS_KEY: &'static str = "ucsl_deps";

/// Metadata key for the library name of a module that is a shared library.
pub const UCSL_LIB_NAME_KEY: &'static str = "ucsl_name";

/// A UCSL shared-library manifest.
#[derive(Clone, Debug)]
pub struct UcslManifest {
    pub ucsl_version: u32,
    pub name: String,
    pub version: String,
    pub description: String,
    /// Exported function/value names.
    pub exports: Vec<String>,
    /// Names of the UCSL libraries this one depends on.
    pub dependencies: Vec<String>,
    /// Minimum bytecode version required.
    pub bytecode_version: u32,
}

/// Whether `m` is the manifest `UcslManifest::new` makes for `name`.
pub open spec fn is_default_manifest(m: UcslManifest, name: Seq<char>) -> bool {
    &&& m.ucsl_version == UCSL_VERSION
    &&& m.name@ == name
    &&& m.version@ == "0.1.0"@
    &&& m.description@.len() == 0
    &&& m.exports@.len() == 0
    &&& m.dependencies@.len() == 0
    &&& m.bytecode_version == BYTECODE_VERSION
}

impl UcslManifest {
    /// A manifest for library `name`: version 0.1.0, no exports or
    /// dependencies, the current bytecode version.
    pub fn new(name: &str) -> (m: Self)
        ensures
            is_default_manifest(m, name@),
    {
        proof {
            reveal_strlit("0.1.0");
        }
        UcslManifest {
            ucsl_version: UCSL_VERSION,
            name: name.to_owned(),
            version: String::from_str("0.1.0"),
            description: String::new(),
            exports: Vec::new(),
            dependencies: Vec::new(),
            bytecode_version: BYTECODE_VERSION,
        }
    }
}

/// A registered library: where its module lies and its manifest.
#[derive(Clone, Debug)]
pub struct UcslEntry {
    pub path: String,
    pub manifest: UcslManifest,
}

/// A dependency on a UCSL library, recorded at compile time.
#[derive(Clone, Debug)]
pub struct UcslDep {
    /// Library name (e.g. "stdlib", "math").
    pub name: String,
    /// Required version constraint, if any.
    pub version: Option<String>,
}

impl UcslDep {
    pub fn new(name: &str) -> (d: Self)
        ensures
            d.name@ == name@,
            d.version is None,
    {
        UcslDep { name: name.to_owned(), version: None }
    }
}

/// The standard search paths: `./ucsl`, `<home>/.utencore/ucsl` when a
/// home directory is known, `/usr/share/utencore/ucsl`, and `<dir>/ucsl`
/// and `<dir>/../ucsl` for the directory `dir` of the running executable
/// when it is known.
pub open spec fn default_search_paths(home: Option<Seq<char>>, exe_dir: Option<Seq<char>>) -> Seq<
    Seq<char>,
> {
    seq!["./ucsl"@] + (match home {
        Some(h) => seq![joined(joined(h, ".utencore"@), "ucsl"@)],
        None => Seq::empty(),
    }) + seq!["/usr/share/utencore/ucsl"@] + (match exe_dir {
        Some(d) => seq![joined(d, "ucsl"@), joined(d, "../ucsl"@)],
        None => Seq::empty(),
    })
}

/// The library a file provides: the stem of a `.uclib` or `.ucch` file
/// with a non-empty stem.
pub open spec fn library_name_of(path: Seq<char>) -> Option<Seq<char>> {
    let (stem, ext) = split_ext(file_name_of(path));
    if (ext == Some("uclib"@) || ext == Some("ucch"@)) && stem.len() > 0 {
        Some(stem)
    } else {
        None
    }
}

/// The companion manifest of a library file: the file with its extension
/// replaced by `ucsl`, as `Path::with_extension` does.
pub open spec fn manifest_path_of(path: Seq<char>) -> Seq<char> {
    let name = file_name_of(path);
    path.subrange(0, path.len() - name.len()) + split_ext(name).0 + ".ucsl"@
}

/// Where a candidate file name is looked for under search path `dir`:
/// a candidate holding a `/` is taken as it stands.
pub open spec fn candidate_path(dir: Seq<char>, cand: Seq<char>) -> Seq<char> {
    if cand.contains('/') {
        cand
    } else {
        joined(dir, cand)
    }
}

/// The four file names probed for library `name` in each search path.
pub open spec fn candidate_names(name: Seq<char>) -> Seq<Seq<char>> {
    seq![name + ".uclib"@, name + ".ucch"@, "ucsl/"@ + name + ".uclib"@, "ucsl/"@ + name + ".ucch"@]
}

/// The paths probed under each search path, in order.
pub open spec fn probes(dirs: Seq<Seq<char>>, name: Seq<char>) -> Seq<Seq<char>>
    decreases dirs.len(),
{
    if dirs.len() == 0 {
        Seq::empty()
    } else {
        let c = candidate_names(name);
        seq![
            candidate_path(dirs[0], c[0]),
            candidate_path(dirs[0], c[1]),
            candidate_path(dirs[0], c[2]),
            candidate_path(dirs[0], c[3]),
        ] + probes(dirs.drop_first(), name)
    }
}

/// The library a file provides, if any.
pub fn library_name(path: &str) -> (r: Option<String>)
    ensures
        r is Some <==> library_name_of(path@) is Some,
        r matches Some(n) ==> library_name_of(path@) == Some(n@),
{
    let name = file_name(path);
    let (stem, ext) = split_extension(name.as_str());
    proof {
        reveal_strlit("uclib");
        reveal_strlit("ucch");
    }
    let good_ext = match &ext {
        Some(e) => *e == String::from_str("uclib") || *e == String::from_str("ucch"),
        None => false,
    };
    if good_ext && stem.as_str().unicode_len() > 0 {
        Some(stem)
    } else {
        None
    }
}

/// The companion `.ucsl` manifest path of a library file.
pub fn manifest_path_for(path: &str) -> (r: String)
    ensures
        r@ == manifest_path_of(path@),
{
    let n = path.unicode_len();
    let name = file_name(path);
    let ln = name.as_str().unicode_len();
    let (stem, _ext) = split_extension(name.as_str());
    let mut r = String::from_str(path.substring_char(0, n - ln));
    r.append(stem.as_str());
    r.append(".ucsl");
    proof {
        reveal_strlit(".ucsl");
    }
    r
}

/// A registry of available UCSL shared libraries.
pub struct UcslRegistry {
    /// The discovered libraries, by name.
    pub libraries: NameMap<UcslEntry>,
    /// Search paths in priority order.
    pub search_paths: Vec<String>,
}

impl UcslRegistry {
    /// A registry with no libraries and the standard search paths, given
    /// the user's home directory and the running executable's directory
    /// where they are known.
    pub fn new(home: Option<&str>, exe_dir: Option<&str>) -> (r: Self)
        ensures
            r.libraries.view() == Map::<Seq<char>, UcslEntry>::empty(),
            string_views(r.search_paths@) == default_search_paths(
                match home {
                    Some(h) => Some(h@),
                    None => None,
                },
                match exe_dir {
                    Some(d) => Some(d@),
                    None => None,
                },
            ),
    {
        let mut reg = UcslRegistry { libraries: NameMap::new(), search_paths: Vec::new() };
        reg.add_default_paths(home, exe_dir);
        assert(string_views(reg.search_paths@) =~= default_search_paths(
            match home {
                Some(h) => Some(h@),
                None => None,
            },
            match exe_dir {
                Some(d) => Some(d@),
                None => None,
            },
        ));
        reg
    }

    /// Appends the standard search paths.
    pub fn add_default_paths(&mut self, home: Option<&str>, exe_dir: Option<&str>)
        ensures
            final(self).libraries.view() == old(self).libraries.view(),
            string_views(final(self).search_paths@) == string_views(old(self).search_paths@)
                + default_search_paths(
                match home {
                    Some(h) => Some(h@),
                    None => None,
                },
                match exe_dir {
                    Some(d) => Some(d@),
                    None => None,
                },
            ),
    {
        let ghost start = string_views(self.search_paths@);
        proof {
            reveal_strlit("./ucsl");
            reveal_strlit(".utencore");
            reveal_strlit("ucsl");
            reveal_strlit("/usr/share/utencore/ucsl");
            reveal_strlit("../ucsl");
        }
        self.search_paths.push(String::from_str("./ucsl"));
        let ghost p1 = string_views(self.search_paths@);
        match home {
            Some(h) => {
                let d = path_join(h, ".utencore");
                self.search_paths.push(path_join(d.as_str(), "ucsl"));
            },
            None => {},
        }
        let ghost p2 = string_views(self.search_paths@);
        self.search_paths.push(String::from_str("/usr/share/utencore/ucsl"));
        let ghost p3 = string_views(self.search_paths@);
        match exe_dir {
            Some(d) => {
                self.search_paths.push(path_join(d, "ucsl"));
                self.search_paths.push(path_join(d, "../ucsl"));
            },
            None => {},
        }
        let ghost hv = match home {
            Some(h) => Some(h@),
            None => None::<Seq<char>>,
        };
        let ghost dv = match exe_dir {
            Some(d) => Some(d@),
            None => None::<Seq<char>>,
        };
        assert(string_views(self.search_paths@) =~= start + default_search_paths(hv, dv));
    }

    /// Adds a search path.
    pub fn add_path(&mut self, path: &str)
        ensures
            final(self).libraries.view() == old(self).libraries.view(),
            string_views(final(self).search_paths@) == string_views(old(self).search_paths@).push(
                path@,
            ),
    {
        self.search_paths.push(path.to_owned());
        assert(string_views(self.search_paths@) =~= string_views(old(self).search_paths@).push(
            path@,
        ));
    }

    /// Registers the library file at `path` under the library name it
    /// provides, with `manifest` or else a default manifest; a file that
    /// provides no library, or a name already registered, is passed over.
    /// Returns whether the library was added.
    pub fn add_library(&mut self, path: &str, manifest: Option<UcslManifest>) -> (added: bool)
        ensures
            final(self).search_paths@ == old(self).search_paths@,
            added == (library_name_of(path@) matches Some(n) && !old(
                self,
            ).libraries.view().contains_key(n)),
            !added ==> final(self).libraries.view() == old(self).libraries.view(),
            added ==> {
                let n = library_name_of(path@)->0;
                let e = final(self).libraries.view()[n];
                &&& final(self).libraries.view() == old(self).libraries.view().insert(n, e)
                &&& e.path@ == path@
                &&& (manifest matches Some(m) ==> e.manifest == m)
                &&& (manifest is None ==> is_default_manifest(e.manifest, n))
            },
    {
        match library_name(path) {
            None => false,
            Some(name) => {
                if self.libraries.contains_key(name.as_str()) {
                    false
                } else {
                    let m = match manifest {
                        Some(m) => m,
                        None => UcslManifest::new(name.as_str()),
                    };
                    self.libraries.insert(name.as_str(), UcslEntry { path: path.to_owned(), manifest: m });
                    true
                }
            },
        }
    }

    /// Registers the library files found along the search paths, in the
    /// order found, each with its companion manifest when one was read.
    /// The first file that provides a name wins.
    pub fn discover(&mut self, found: Vec<(String, Option<UcslManifest>)>)
        ensures
            final(self).search_paths@ == old(self).search_paths@,
            forall|k: Seq<char>|
                #![trigger final(self).libraries.view().contains_key(k)]
                final(self).libraries.view().contains_key(k) <==> (old(
                    self).libraries.view().contains_key(k) || exists|i: int|
                    0 <= i < found@.len() && library_name_of(#[trigger] found@[i].0@) == Some(k)),
            forall|k: Seq<char>|
                #![trigger old(self).libraries.view().contains_key(k)]
                old(self).libraries.view().contains_key(k) ==> final(self).libraries.view()[k]
                    == old(self).libraries.view()[k],
            forall|k: Seq<char>|
                #![trigger final(self).libraries.view()[k]]
                !old(self).libraries.view().contains_key(k) && final(
                    self).libraries.view().contains_key(k) ==> exists|i: int|
                    0 <= i < found@.len() && provided_by(
                        found@,
                        k,
                        i,
                        final(self).libraries.view()[k],
                    ),
    {
        let ghost orig = found@;
        let ghost start = self.libraries.view();
        let n = found.len();
        let mut items = found;
        let mut rev: Vec<(String, Option<UcslManifest>)> = Vec::new();
        while items.len() > 0
            invariant
                items@.len() + rev@.len() == orig.len(),
                forall|t: int| 0 <= t < items@.len() ==> items@[t] == orig[t],
                forall|t: int|
                    0 <= t < rev@.len() ==> rev@[t] == orig[orig.len() - 1 - t],
            decreases items@.len(),
        {
            let item = items.pop().unwrap();
            rev.push(item);
        }
        let mut i: usize = 0;
        assert(discover_inv(orig, start, self.libraries.view(), 0));
        while rev.len() > 0
            invariant
                rev@.len() + i == orig.len(),
                orig.len() == n,
                forall|t: int|
                    0 <= t < rev@.len() ==> rev@[t] == orig[orig.len() - 1 - t],
                self.search_paths@ == old(self).search_paths@,
                discover_inv(orig, start, self.libraries.view(), i as int),
            decreases rev@.len(),
        {
            let ghost before = self.libraries.view();
            let item = rev.pop().unwrap();
            assert(item == orig[i as int]);
            let (path, manifest) = item;
            let added = self.add_library(path.as_str(), manifest);
            proof {
                lemma_discover_step(orig, start, before, self.libraries.view(), i as int, added);
            }
            i = i + 1;
        }
        proof {
            let fin = self.libraries.view();
            assert(orig == found@);
            assert forall|k: Seq<char>| !start.contains_key(k) && #[trigger] fin.contains_key(k)
                implies exists|j: int| 0 <= j < found@.len() && provided_by(found@, k, j, fin[k]) by {
                assert(fin[k] == fin[k]);
                let j = choose|j: int| 0 <= j < i && provided_by(orig, k, j, fin[k]);
                assert(0 <= j < found@.len() && provided_by(found@, k, j, fin[k]));
            }
        }
    }

    /// The library registered under `name`.
    pub fn find(&self, name: &str) -> (r: Option<&UcslEntry>)
        ensures
            r matches Some(e) ==> self.libraries.view().contains_key(name@) && *e
                == self.libraries.view()[name@],
            r is None ==> !self.libraries.view().contains_key(name@),
    {
        self.libraries.get(name)
    }

    /// The paths at which library `name` is looked for, in order: its
    /// registered path, then in each search path `<name>.uclib`,
    /// `<name>.ucch`, `ucsl/<name>.uclib` and `ucsl/<name>.ucch` (a name
    /// holding a `/` is taken as it stands). The library resolves to the
    /// first of them that exists.
    pub fn resolve_candidates(&self, name: &str) -> (r: Vec<String>)
        ensures
            string_views(r@) == (if self.libraries.view().contains_key(name@) {
                seq![self.libraries.view()[name@].path@]
            } else {
                Seq::<Seq<char>>::empty()
            }) + probes(string_views(self.search_paths@), name@),
    {
        let mut out: Vec<String> = Vec::new();
        match self.libraries.get(name) {
            Some(e) => out.push(e.path.clone()),
            None => {},
        }
        let ghost head = string_views(out@);
        let cands = candidate_list(name);
        assert(cands@.len() == string_views(cands@).len());
        let mut i: usize = 0;
        while i < self.search_paths.len()
            invariant
                i <= self.search_paths@.len(),
                string_views(cands@) == candidate_names(name@),
                cands@.len() == 4,
                string_views(out@) == head + probes(
                    string_views(self.search_paths@).subrange(0, i as int),
                    name@,
                ),
            decreases self.search_paths@.len() - i,
        {
            let dir = self.search_paths[i].as_str();
            let ghost before = string_views(out@);
            let mut j: usize = 0;
            while j < 4
                invariant
                    j <= 4,
                    string_views(cands@) == candidate_names(name@),
                    cands@.len() == 4,
                    string_views(out@).len() == before.len() + j,
                    string_views(out@).subrange(0, before.len() as int) == before,
                    forall|t: int|
                        0 <= t < j ==> string_views(out@)[before.len() + t] == candidate_path(
                            dir@,
                            candidate_names(name@)[t],
                        ),
                decreases 4 - j,
            {
                let c = cands[j].as_str();
                assert(c@ == candidate_names(name@)[j as int]);
                let p = match rfind_char(c, '/') {
                    Some(_) => String::from_str(c),
                    None => path_join(dir, c),
                };
                out.push(p);
                j = j + 1;
            }
            proof {
                let dirs = string_views(self.search_paths@);
                lemma_probes_push(dirs.subrange(0, i as int), dirs[i as int], name@);
                assert(dirs.subrange(0, i + 1) =~= dirs.subrange(0, i as int).push(dirs[i as int]));
                assert(string_views(out@) =~= before + seq![
                    candidate_path(dir@, candidate_names(name@)[0]),
                    candidate_path(dir@, candidate_names(name@)[1]),
                    candidate_path(dir@, candidate_names(name@)[2]),
                    candidate_path(dir@, candidate_names(name@)[3]),
                ]);
            }
            i = i + 1;
        }
        assert(string_views(self.search_paths@).subrange(0, self.search_paths@.len() as int)
            =~= string_views(self.search_paths@));
        out
    }

    /// The names of the registered libraries, sorted.
    pub fn list(&self) -> (r: Vec<String>)
        ensures
            string_views(r@).to_set() == self.libraries.view().dom(),
            string_views(r@).no_duplicates(),
            strictly_sorted(string_views(r@)),
    {
        let keys = self.libraries.keys();
        sort_strings(keys)
    }
}

/// Whether `found[i]` is the first item that provides library `k` and `e`
/// the entry registered for it: its path, and its manifest or else the
/// default one.
pub open spec fn provided_by(
    found: Seq<(String, Option<UcslManifest>)>,
    k: Seq<char>,
    i: int,
    e: UcslEntry,
) -> bool {
    &&& library_name_of(found[i].0@) == Some(k)
    &&& forall|j: int| 0 <= j < i ==> library_name_of(#[trigger] found[j].0@) != Some(k)
    &&& e.path@ == found[i].0@
    &&& (found[i].1 matches Some(m) ==> e.manifest == m)
    &&& (found[i].1 is None ==> is_default_manifest(e.manifest, k))
}

/// What `discover` keeps after handling the first `i` found files, from
/// the libraries `start` it began with to the libraries `cur`.
pub open spec fn discover_inv(
    found: Seq<(String, Option<UcslManifest>)>,
    start: Map<Seq<char>, UcslEntry>,
    cur: Map<Seq<char>, UcslEntry>,
    i: int,
) -> bool {
    &&& forall|k: Seq<char>|
        #![trigger cur.contains_key(k)]
        cur.contains_key(k) <==> (start.contains_key(k) || exists|j: int|
            0 <= j < i && library_name_of(#[trigger] found[j].0@) == Some(k))
    &&& forall|k: Seq<char>|
        #![trigger start.contains_key(k)]
        start.contains_key(k) ==> cur.contains_key(k) && cur[k] == start[k]
    &&& forall|k: Seq<char>|
        #![trigger cur[k]]
        !start.contains_key(k) && cur.contains_key(k) ==> exists|j: int|
            0 <= j < i && provided_by(found, k, j, cur[k])
}

/// Handling found file `i` as `add_library` does keeps `discover_inv`.
proof fn lemma_discover_step(
    found: Seq<(String, Option<UcslManifest>)>,
    start: Map<Seq<char>, UcslEntry>,
    before: Map<Seq<char>, UcslEntry>,
    after: Map<Seq<char>, UcslEntry>,
    i: int,
    added: bool,
)
    requires
        0 <= i < found.len(),
        discover_inv(found, start, before, i),
        added == (library_name_of(found[i].0@) matches Some(n) && !before.contains_key(n)),
        !added ==> after == before,
        added ==> {
            let n = library_name_of(found[i].0@)->0;
            let e = after[n];
            &&& after == before.insert(n, e)
            &&& e.path@ == found[i].0@
            &&& (found[i].1 matches Some(m) ==> e.manifest == m)
            &&& (found[i].1 is None ==> is_default_manifest(e.manifest, n))
        },
    ensures
        discover_inv(found, start, after, i + 1),
{
    let ln = library_name_of(found[i].0@);
    assert forall|k: Seq<char>| #[trigger] after.contains_key(k) <==> (start.contains_key(k)
        || exists|j: int| 0 <= j < i + 1 && library_name_of(#[trigger] found[j].0@) == Some(k)) by {
        if exists|j: int| 0 <= j < i + 1 && library_name_of(#[trigger] found[j].0@) == Some(k) {
            let j = choose|j: int| 0 <= j < i + 1 && library_name_of(#[trigger] found[j].0@) == Some(k);
            if j < i {
                assert(before.contains_key(k));
            }
        }
        if before.contains_key(k) && !start.contains_key(k) {
            let j = choose|j: int| 0 <= j < i && library_name_of(#[trigger] found[j].0@) == Some(k);
            assert(0 <= j < i + 1 && library_name_of(found[j].0@) == Some(k));
        }
    }
    assert forall|k: Seq<char>| #[trigger] start.contains_key(k) implies after.contains_key(k)
        && after[k] == start[k] by {
        assert(before.contains_key(k));
    }
    assert forall|k: Seq<char>| !start.contains_key(k) && #[trigger] after.contains_key(k)
        implies exists|j: int| 0 <= j < i + 1 && provided_by(found, k, j, after[k]) by {
        if added && ln == Some(k) {
            assert forall|j: int| 0 <= j < i implies library_name_of(#[trigger] found[j].0@) != Some(k) by {
                if library_name_of(found[j].0@) == Some(k) {
                    assert(before.contains_key(k));
                }
            }
            assert(provided_by(found, k, i, after[k]));
        } else {
            assert(before.contains_key(k));
            assert(after[k] == before[k]);
            let j = choose|j: int| 0 <= j < i && provided_by(found, k, j, before[k]);
            assert(provided_by(found, k, j, after[k]));
        }
    }
}

/// The four candidate file names of library `name`.
fn candidate_list(name: &str) -> (r: Vec<String>)
    ensures
        string_views(r@) == candidate_names(name@),
{
    proof {
        reveal_strlit(".uclib");
        reveal_strlit(".ucch");
        reveal_strlit("ucsl/");
    }
    let mut a = String::from_str(name);
    a.append(".uclib");
    let mut b = String::from_str(name);
    b.append(".ucch");
    let mut c = String::from_str("ucsl/");
    c.append(name);
    c.append(".uclib");
    let mut d = String::from_str("ucsl/");
    d.append(name);
    d.append(".ucch");
    let v = vec![a, b, c, d];
    assert(string_views(v@) =~= candidate_names(name@));
    v
}

/// Probing one more search path appends its four candidates.
proof fn lemma_probes_push(dirs: Seq<Seq<char>>, d: Seq<char>, name: Seq<char>)
    ensures
        probes(dirs.push(d), name) == probes(dirs, name) + seq![
            candidate_path(d, candidate_names(name)[0]),
            candidate_path(d, candidate_names(name)[1]),
            candidate_path(d, candidate_names(name)[2]),
            candidate_path(d, candidate_names(name)[3]),
        ],
    decreases dirs.len(),
{
    if dirs.len() == 0 {
        assert(dirs.push(d).drop_first() =~= Seq::<Seq<char>>::empty());
        assert(probes(Seq::<Seq<char>>::empty(), name) =~= Seq::<Seq<char>>::empty());
    } else {
        assert(dirs.push(d).drop_first() =~= dirs.drop_first().push(d));
        lemma_probes_push(dirs.drop_first(), d, name);
    }
}

} // verus!
