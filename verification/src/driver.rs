//! Logic shared by the command-line tools: finding the modules a source
//! file imports, where their sources and caches lie.
use vstd::prelude::*;

use crate::names::string_views;
use crate::opcodes::{opcode_info, Opcode};
use crate::text::{
    chars_of, contains_str, file_name, file_name_of, joined, last_index_of, path_join, rfind_char,
};

verus! {

/// Whether `c` is a whitespace character (Unicode `White_Space`, as
/// `char::is_whitespace` has it).
pub open spec fn is_ws(c: char) -> bool {
    ('\u{9}' <= c && c <= '\u{d}') || c == ' ' || c == '\u{85}' || c == '\u{a0}' || c == '\u{1680}'
        || ('\u{2000}' <= c && c <= '\u{200a}') || c == '\u{2028}' || c == '\u{2029}' || c
        == '\u{202f}' || c == '\u{205f}' || c == '\u{3000}'
}

/// Whether `c` is whitespace.
pub fn is_whitespace(c: char) -> (r: bool)
    ensures
        r == is_ws(c),
{
    ('\u{9}' <= c && c <= '\u{d}') || c == ' ' || c == '\u{85}' || c == '\u{a0}' || c == '\u{1680}'
        || ('\u{2000}' <= c && c <= '\u{200a}') || c == '\u{2028}' || c == '\u{2029}' || c
        == '\u{202f}' || c == '\u{205f}' || c == '\u{3000}'
}

/// The index of the first `c` in `s`.
pub open spec fn find_char(s: Seq<char>, c: char) -> Option<int>
    decreases s.len(),
{
    if s.len() == 0 {
        None
    } else if s[0] == c {
        Some(0)
    } else {
        match find_char(s.drop_first(), c) {
            Some(i) => Some(i + 1),
            None => None,
        }
    }
}

/// `find_char` finds the first occurrence.
pub proof fn lemma_find_char(s: Seq<char>, c: char, i: int)
    requires
        0 <= i <= s.len(),
        forall|j: int| 0 <= j < i ==> s[j] != c,
        i < s.len() ==> s[i] == c,
    ensures
        find_char(s, c) == (if i < s.len() {
            Some(i)
        } else {
            None::<int>
        }),
    decreases s.len(),
{
    if s.len() > 0 && i > 0 {
        lemma_find_char(s.drop_first(), c, i - 1);
    }
}

/// Where `find_char` finds `c`, it is there.
pub proof fn lemma_find_char_bounds(s: Seq<char>, c: char)
    ensures
        find_char(s, c) matches Some(i) ==> 0 <= i < s.len() && s[i] == c,
    decreases s.len(),
{
    if s.len() > 0 && s[0] != c {
        lemma_find_char_bounds(s.drop_first(), c);
    }
}

/// The lines of a text, as `str::lines` splits it: at each `\n`, with a
/// `\r` before it dropped; a final line ending adds no empty line.
pub open spec fn source_lines(s: Seq<char>) -> Seq<Seq<char>>
    decreases s.len(),
{
    if s.len() == 0 {
        Seq::empty()
    } else {
        proof {
            lemma_find_char_bounds(s, '\n');
        }
        match find_char(s, '\n') {
            Some(i) => {
                let line = s.subrange(0, i);
                let line = if line.len() > 0 && line.last() == '\r' {
                    line.drop_last()
                } else {
                    line
                };
                seq![line] + source_lines(s.subrange(i + 1, s.len() as int))
            },
            None => seq![s],
        }
    }
}

/// `s` without leading whitespace.
pub open spec fn trim_start(s: Seq<char>) -> Seq<char>
    decreases s.len(),
{
    if s.len() > 0 && is_ws(s[0]) {
        trim_start(s.drop_first())
    } else {
        s
    }
}

/// `s` without trailing whitespace.
pub open spec fn trim_end(s: Seq<char>) -> Seq<char>
    decreases s.len(),
{
    if s.len() > 0 && is_ws(s.last()) {
        trim_end(s.drop_last())
    } else {
        s
    }
}

/// `s` without leading or trailing whitespace.
pub open spec fn trim(s: Seq<char>) -> Seq<char> {
    trim_end(trim_start(s))
}

/// The characters of `t` up to its first whitespace.
pub open spec fn word_prefix(t: Seq<char>) -> Seq<char>
    decreases t.len(),
{
    if t.len() == 0 || is_ws(t[0]) {
        Seq::empty()
    } else {
        seq![t[0]] + word_prefix(t.drop_first())
    }
}

/// The first whitespace-separated word of `s`, as
/// `split_whitespace().next()` gives it.
pub open spec fn first_word(s: Seq<char>) -> Option<Seq<char>> {
    let t = trim_start(s);
    if t.len() == 0 {
        None
    } else {
        Some(word_prefix(t))
    }
}

/// The pieces of `s` between commas.
pub open spec fn split_commas(s: Seq<char>) -> Seq<Seq<char>>
    decreases s.len(),
{
    proof {
        lemma_find_char_bounds(s, ',');
    }
    match find_char(s, ',') {
        Some(i) => seq![s.subrange(0, i)] + split_commas(s.subrange(i + 1, s.len() as int)),
        None => seq![s],
    }
}

/// Whether `s` begins with `p`.
pub open spec fn starts_with(s: Seq<char>, p: Seq<char>) -> bool {
    p.len() <= s.len() && s.subrange(0, p.len() as int) == p
}

/// `deps` with `name` added, unless it is empty, relative (starts with
/// `.`) or there already.
pub open spec fn add_dep(deps: Seq<Seq<char>>, name: Seq<char>) -> Seq<Seq<char>> {
    if name.len() > 0 && name[0] != '.' && !deps.contains(name) {
        deps.push(name)
    } else {
        deps
    }
}

/// The modules named by the pieces of an `import a, b as c` list: the
/// first word of each.
pub open spec fn add_import_parts(parts: Seq<Seq<char>>, deps: Seq<Seq<char>>) -> Seq<Seq<char>>
    decreases parts.len(),
{
    if parts.len() == 0 {
        deps
    } else {
        add_import_parts(
            parts.drop_first(),
            add_dep(
                deps,
                match first_word(parts[0]) {
                    Some(w) => w,
                    None => Seq::empty(),
                },
            ),
        )
    }
}

/// The dependencies after one line: `from X import ...` adds `X`,
/// `import X, Y` adds each; comments and other lines add nothing.
pub open spec fn scan_line(line: Seq<char>, deps: Seq<Seq<char>>) -> Seq<Seq<char>> {
    let t = trim(line);
    if t.len() == 0 || t[0] == '#' {
        deps
    } else if starts_with(t, "from "@) {
        match first_word(t.subrange(5, t.len() as int)) {
            Some(m) => add_dep(deps, m),
            None => deps,
        }
    } else if starts_with(t, "import "@) {
        add_import_parts(split_commas(t.subrange(7, t.len() as int)), deps)
    } else {
        deps
    }
}

/// The dependencies after lines, in order.
pub open spec fn scan_lines(lines: Seq<Seq<char>>, deps: Seq<Seq<char>>) -> Seq<Seq<char>>
    decreases lines.len(),
{
    if lines.len() == 0 {
        deps
    } else {
        scan_lines(lines.drop_first(), scan_line(lines[0], deps))
    }
}

/// The modules a Python source imports, in order of first mention.
pub open spec fn imports_of(source: Seq<char>) -> Seq<Seq<char>> {
    scan_lines(source_lines(source), Seq::empty())
}

/// The first index at or after `a` in `cs[a..b]` holding no whitespace.
pub(crate) fn skip_ws(cs: &Vec<char>, a: usize, b: usize) -> (r: usize)
    requires
        a <= b <= cs@.len(),
    ensures
        a <= r <= b,
        trim_start(cs@.subrange(a as int, b as int)) == cs@.subrange(r as int, b as int),
    decreases b - a,
{
    if a < b && is_whitespace(cs[a]) {
        let r = skip_ws(cs, a + 1, b);
        assert(cs@.subrange(a as int, b as int).drop_first() =~= cs@.subrange(a + 1, b as int));
        r
    } else {
        a
    }
}

/// The end of `cs[a..b]` without trailing whitespace.
pub(crate) fn skip_ws_back(cs: &Vec<char>, a: usize, b: usize) -> (r: usize)
    requires
        a <= b <= cs@.len(),
    ensures
        a <= r <= b,
        trim_end(cs@.subrange(a as int, b as int)) == cs@.subrange(a as int, r as int),
    decreases b - a,
{
    if a < b && is_whitespace(cs[b - 1]) {
        let r = skip_ws_back(cs, a, b - 1);
        assert(cs@.subrange(a as int, b as int).drop_last() =~= cs@.subrange(a as int, b - 1));
        r
    } else {
        a + (b - a)
    }
}

/// The end of the word starting at `a` in `cs[a..b]`.
fn word_end(cs: &Vec<char>, a: usize, b: usize) -> (r: usize)
    requires
        a <= b <= cs@.len(),
    ensures
        a <= r <= b,
        word_prefix(cs@.subrange(a as int, b as int)) == cs@.subrange(a as int, r as int),
    decreases b - a,
{
    if a < b && !is_whitespace(cs[a]) {
        let r = word_end(cs, a + 1, b);
        assert(cs@.subrange(a as int, b as int).drop_first() =~= cs@.subrange(a + 1, b as int));
        assert(cs@.subrange(a as int, r as int) =~= seq![cs@[a as int]] + cs@.subrange(
            a + 1,
            r as int,
        ));
        r
    } else {
        assert(cs@.subrange(a as int, a as int) =~= Seq::<char>::empty());
        a
    }
}

/// Whether `cs[a..b]` begins with `lit`.
fn has_prefix(cs: &Vec<char>, a: usize, b: usize, lit: &str) -> (r: bool)
    requires
        a <= b <= cs@.len(),
    ensures
        r == starts_with(cs@.subrange(a as int, b as int), lit@),
{
    let n = lit.unicode_len();
    if n > b - a {
        return false;
    }
    let mut i: usize = 0;
    while i < n
        invariant
            i <= n == lit@.len(),
            a + n <= b <= cs@.len(),
            forall|j: int| 0 <= j < i ==> cs@[a + j] == lit@[j],
        decreases n - i,
    {
        if cs[a + i] != lit.get_char(i) {
            assert(cs@.subrange(a as int, b as int).subrange(0, n as int)[i as int] != lit@[i as int]);
            return false;
        }
        i = i + 1;
    }
    assert(cs@.subrange(a as int, b as int).subrange(0, n as int) =~= lit@);
    true
}

/// Adds the word that `cs[a..b]` starts with (after whitespace), as
/// `add_dep` does; an empty piece adds the empty name, which is passed
/// over.
fn add_word(source: &str, cs: &Vec<char>, a: usize, b: usize, deps: &mut Vec<String>)
    requires
        a <= b <= cs@.len(),
        cs@ == source@,
    ensures
        string_views(final(deps)@) == add_dep(
            string_views(old(deps)@),
            match first_word(cs@.subrange(a as int, b as int)) {
                Some(w) => w,
                None => Seq::empty(),
            },
        ),
{
    let p = skip_ws(cs, a, b);
    if p == b {
        return;
    }
    let q = word_end(cs, p, b);
    assert(cs@.subrange(p as int, b as int)[0] == cs@[p as int]);
    let word = String::from_str(source.substring_char(p, q));
    assert(word@ == cs@.subrange(p as int, q as int));
    if q > p && cs[p] != '.' && !contains_str(deps, &word) {
        let ghost before = deps@;
        deps.push(word);
        assert(string_views(deps@) =~= string_views(before).push(word@));
    }
}

/// Handles one line `cs[a..b]`.
fn scan_line_exec(source: &str, cs: &Vec<char>, a: usize, b: usize, deps: &mut Vec<String>)
    requires
        a <= b <= cs@.len(),
        cs@ == source@,
    ensures
        string_views(final(deps)@) == scan_line(cs@.subrange(a as int, b as int), string_views(
            old(deps)@,
        )),
{
    let ta = skip_ws(cs, a, b);
    let tb = skip_ws_back(cs, ta, b);
    let ghost t = cs@.subrange(ta as int, tb as int);
    assert(trim(cs@.subrange(a as int, b as int)) == t);
    if ta == tb || cs[ta] == '#' {
        return;
    }
    assert(t[0] == cs@[ta as int]);
    proof {
        reveal_strlit("from ");
        reveal_strlit("import ");
    }
    if has_prefix(cs, ta, tb, "from ") {
        assert(t.subrange(5, t.len() as int) =~= cs@.subrange(ta + 5, tb as int));
        let p = skip_ws(cs, ta + 5, tb);
        if p < tb {
            add_word(source, cs, ta + 5, tb, deps);
        }
        return;
    }
    if has_prefix(cs, ta, tb, "import ") {
        let start = ta + 7;
        assert(t.subrange(7, t.len() as int) =~= cs@.subrange(start as int, tb as int));
        let ghost target = scan_line(cs@.subrange(a as int, b as int), string_views(old(deps)@));
        let mut x: usize = start;
        let mut done = false;
        while !done
            invariant
                start <= x <= tb <= cs@.len(),
                cs@ == source@,
                !done ==> add_import_parts(
                    split_commas(cs@.subrange(x as int, tb as int)),
                    string_views(deps@),
                ) == target,
                done ==> string_views(deps@) == target,
            decreases tb - x, if done { 0int } else { 1int },
        {
            let mut y = x;
            while y < tb && cs[y] != ','
                invariant
                    x <= y <= tb <= cs@.len(),
                    forall|j: int| x <= j < y ==> cs@[j] != ',',
                decreases tb - y,
            {
                y = y + 1;
            }
            let ghost rest = cs@.subrange(x as int, tb as int);
            proof {
                lemma_find_char(rest, ',', y - x);
            }
            let ghost before = string_views(deps@);
            add_word(source, cs, x, y, deps);
            if y < tb {
                proof {
                    assert(rest.subrange(0, y - x) =~= cs@.subrange(x as int, y as int));
                    assert(rest.subrange(y - x + 1, rest.len() as int) =~= cs@.subrange(
                        y + 1,
                        tb as int,
                    ));
                    let parts = split_commas(rest);
                    assert(parts[0] == cs@.subrange(x as int, y as int));
                    assert(parts.drop_first() =~= split_commas(cs@.subrange(y + 1, tb as int)));
                }
                x = y + 1;
            } else {
                proof {
                    let parts = split_commas(rest);
                    assert(parts =~= seq![rest]);
                    assert(rest =~= cs@.subrange(x as int, y as int));
                    assert(parts.drop_first() =~= Seq::<Seq<char>>::empty());
                    let d1 = add_dep(
                        before,
                        match first_word(rest) {
                            Some(w) => w,
                            None => Seq::empty(),
                        },
                    );
                    assert(add_import_parts(parts, before) == add_import_parts(parts.drop_first(), d1));
                    assert(add_import_parts(Seq::<Seq<char>>::empty(), d1) == d1);
                }
                done = true;
            }
        }
        return;
    }
}

/// The modules a Python source imports (`import X`, `from X import Y`), in
/// order of first mention, without relative imports.
pub fn scan_imports(source: &str) -> (r: Vec<String>)
    ensures
        string_views(r@) == imports_of(source@),
{
    let cs = chars_of(source);
    let n = cs.len();
    let mut deps: Vec<String> = Vec::new();
    let mut pos: usize = 0;
    assert(string_views(deps@) =~= Seq::<Seq<char>>::empty());
    assert(cs@.subrange(0, n as int) =~= cs@);
    while pos < n
        invariant
            pos <= n == cs@.len(),
            cs@ == source@,
            scan_lines(source_lines(cs@.subrange(pos as int, n as int)), string_views(deps@))
                == imports_of(source@),
        decreases n - pos,
    {
        let mut e = pos;
        while e < n && cs[e] != '\n'
            invariant
                pos <= e <= n == cs@.len(),
                forall|j: int| pos <= j < e ==> cs@[j] != '\n',
            decreases n - e,
        {
            e = e + 1;
        }
        let ghost rest = cs@.subrange(pos as int, n as int);
        proof {
            lemma_find_char(rest, '\n', e - pos);
        }
        if e < n {
            let line_end = if e > pos && cs[e - 1] == '\r' {
                e - 1
            } else {
                e
            };
            proof {
                let line = rest.subrange(0, e - pos);
                assert(line =~= cs@.subrange(pos as int, e as int));
                if e > pos && cs@[e - 1] == '\r' {
                    assert(line.drop_last() =~= cs@.subrange(pos as int, line_end as int));
                }
                assert(rest.subrange(e - pos + 1, rest.len() as int) =~= cs@.subrange(
                    e + 1,
                    n as int,
                ));
            }
            let ghost before = string_views(deps@);
            scan_line_exec(source, &cs, pos, line_end, &mut deps);
            proof {
                let line = cs@.subrange(pos as int, line_end as int);
                let tail = source_lines(cs@.subrange(e + 1, n as int));
                assert(source_lines(rest) == seq![line] + tail);
                assert((seq![line] + tail).drop_first() =~= tail);
                assert((seq![line] + tail)[0] == line);
            }
            pos = e + 1;
        } else {
            proof {
                assert(rest =~= cs@.subrange(pos as int, n as int));
                assert(cs@.subrange(n as int, n as int) =~= Seq::<char>::empty());
            }
            let ghost before = string_views(deps@);
            scan_line_exec(source, &cs, pos, n, &mut deps);
            proof {
                assert(source_lines(rest) == seq![rest]);
                assert(seq![rest].drop_first() =~= Seq::<Seq<char>>::empty());
                assert(source_lines(Seq::<char>::empty()) == Seq::<Seq<char>>::empty());
                assert(scan_lines(seq![rest], before) == scan_lines(
                    Seq::<Seq<char>>::empty(),
                    scan_line(rest, before),
                ));
            }
            pos = n;
        }
    }
    deps
}

/// The directory part of a path, split at its last `/`: empty when there
/// is none, `/` for a path directly under the root.
pub open spec fn parent_of(p: Seq<char>) -> Seq<char> {
    match last_index_of(p, '/') {
        Some(i) => if i == 0 {
            seq!['/']
        } else {
            p.subrange(0, i)
        },
        None => Seq::empty(),
    }
}

/// `name` cut before its last `.`, if it has one.
pub open spec fn before_last_dot(name: Seq<char>) -> Seq<char> {
    match last_index_of(name, '.') {
        Some(i) => name.subrange(0, i),
        None => name,
    }
}

/// Where the compiled cache of a source file goes: `<dir>/.ucch/<stem>.ucch`
/// for `<dir>/<stem>.<ext>`; paths are split at their last `/`, and a path
/// naming no file (empty, or ending in `/`, `.` or `..`) has none.
pub open spec fn cache_path_of(source: Seq<char>) -> Option<Seq<char>> {
    let name = file_name_of(source);
    if name.len() == 0 || name == "."@ || name == ".."@ {
        None
    } else {
        Some(joined(joined(parent_of(source), ".ucch"@), before_last_dot(name) + ".ucch"@))
    }
}

/// The cache path of a source file.
pub fn cache_path_for(source: &str) -> (r: Option<String>)
    ensures
        r is Some <==> cache_path_of(source@) is Some,
        r matches Some(p) ==> cache_path_of(source@) == Some(p@),
{
    proof {
        reveal_strlit(".");
        reveal_strlit("..");
        reveal_strlit(".ucch");
        reveal_strlit("/");
    }
    let name = file_name(source);
    let nl = name.as_str().unicode_len();
    if nl == 0 || name == ".".to_owned() || name == "..".to_owned() {
        return None;
    }
    let parent = match rfind_char(source, '/') {
        Some(i) => if i == 0 {
            "/".to_owned()
        } else {
            String::from_str(source.substring_char(0, i))
        },
        None => String::new(),
    };
    let mut cache_name = match rfind_char(name.as_str(), '.') {
        Some(i) => String::from_str(name.as_str().substring_char(0, i)),
        None => name.clone(),
    };
    cache_name.append(".ucch");
    let dir = path_join(parent.as_str(), ".ucch");
    let r = path_join(dir.as_str(), cache_name.as_str());
    Some(r)
}

/// The files tried, in order, as the source of dependency `name`: in each
/// search path `<path>/<name>.py`, then `<path>/<name>/__init__.py`. The
/// source is the first of them that is a file.
pub open spec fn dep_source_candidates_of(name: Seq<char>, paths: Seq<Seq<char>>) -> Seq<Seq<char>>
    decreases paths.len(),
{
    if paths.len() == 0 {
        Seq::empty()
    } else {
        dep_source_candidates_of(name, paths.drop_last()) + seq![
            joined(paths.last(), name + ".py"@),
            joined(joined(paths.last(), name), "__init__.py"@),
        ]
    }
}

/// The files tried as the source of dependency `name`.
pub fn dep_source_candidates(name: &str, paths: &[String]) -> (r: Vec<String>)
    ensures
        string_views(r@) == dep_source_candidates_of(name@, string_views(paths@)),
{
    proof {
        reveal_strlit(".py");
        reveal_strlit("__init__.py");
    }
    let mut out: Vec<String> = Vec::new();
    let mut i: usize = 0;
    let mut file = String::from_str(name);
    file.append(".py");
    while i < paths.len()
        invariant
            i <= paths@.len(),
            file@ == name@ + ".py"@,
            string_views(out@) == dep_source_candidates_of(
                name@,
                string_views(paths@).take(i as int),
            ),
        decreases paths@.len() - i,
    {
        let base = paths[i].as_str();
        let a = path_join(base, file.as_str());
        let d = path_join(base, name);
        let b = path_join(d.as_str(), "__init__.py");
        let ghost before = out@;
        out.push(a);
        out.push(b);
        proof {
            let ps = string_views(paths@);
            assert(ps.take(i + 1).drop_last() =~= ps.take(i as int));
            assert(ps.take(i + 1).last() == paths@[i as int]@);
            assert(string_views(out@) =~= string_views(before) + seq![a@, b@]);
        }
        i = i + 1;
    }
    assert(string_views(paths@).take(paths@.len() as int) =~= string_views(paths@));
    out
}


// ── Disassembly ──

/// One decoded instruction: where it stands, its byte, its opcode (`None`
/// for a byte that names none) and its operand bytes.
pub struct Instr {
    pub offset: usize,
    pub byte: u8,
    pub op: Option<Opcode>,
    pub operands: Vec<u8>,
}

/// An instruction as a value.
pub open spec fn instr_view(i: Instr) -> (int, u8, Option<Opcode>, Seq<u8>) {
    (i.offset as int, i.byte, i.op, i.operands@)
}

/// Whether every instruction of `code` from `off` on has all its operand
/// bytes inside the code.
pub open spec fn decodes(code: Seq<u8>, off: int) -> bool
    decreases code.len() - off,
{
    if off < 0 || off >= code.len() {
        true
    } else {
        match Opcode::spec_from_byte(code[off]) {
            Some(op) => off + 1 + op.operand_size() <= code.len() && decodes(code, off + 1 + op.operand_size()),
            None => decodes(code, off + 1),
        }
    }
}

/// The instructions of `code` from `off` on: each opcode with the operand
/// bytes its size asks for; a byte that names no opcode stands alone.
pub open spec fn instrs(code: Seq<u8>, off: int) -> Seq<(int, u8, Option<Opcode>, Seq<u8>)>
    decreases code.len() - off,
{
    if off < 0 || off >= code.len() {
        Seq::empty()
    } else {
        match Opcode::spec_from_byte(code[off]) {
            Some(op) => {
                let end = off + 1 + op.operand_size();
                if end <= code.len() {
                    seq![(off, code[off], Some(op), code.subrange(off + 1, end))] + instrs(code, end)
                } else {
                    Seq::empty()
                }
            },
            None => seq![(off, code[off], None::<Opcode>, Seq::<u8>::empty())] + instrs(code, off + 1),
        }
    }
}

/// Whether `code` decodes without running past its end.
pub fn decodes_fully(code: &Vec<u8>) -> (r: bool)
    ensures
        r == decodes(code@, 0),
{
    let mut off: usize = 0;
    while off < code.len()
        invariant
            off <= code@.len(),
            decodes(code@, off as int) == decodes(code@, 0),
        decreases code@.len() - off,
    {
        match Opcode::from_byte(code[off]) {
            Some(op) => {
                let sz = opcode_info(op).operand_size as usize;
                if sz >= code.len() - off {
                    return false;
                }
                off = off + 1 + sz;
            },
            None => {
                off = off + 1;
            },
        }
    }
    true
}

/// The instructions of a function's code, in order.
pub fn disassemble(code: &Vec<u8>) -> (r: Vec<Instr>)
    requires
        decodes(code@, 0),
    ensures
        r@.map_values(|i: Instr| instr_view(i)) == instrs(code@, 0),
{
    let mut out: Vec<Instr> = Vec::new();
    let mut off: usize = 0;
    assert(out@.map_values(|i: Instr| instr_view(i)) =~= Seq::empty());
    while off < code.len()
        invariant
            off <= code@.len(),
            decodes(code@, off as int),
            out@.map_values(|i: Instr| instr_view(i)) + instrs(code@, off as int) == instrs(code@, 0),
        decreases code@.len() - off,
    {
        let b = code[off];
        let ghost before = out@;
        match Opcode::from_byte(b) {
            Some(op) => {
                let sz = opcode_info(op).operand_size as usize;
                let mut operands: Vec<u8> = Vec::new();
                let mut j: usize = 0;
                while j < sz
                    invariant
                        j <= sz,
                        off + 1 + sz <= code.len(),
                        operands@ == code@.subrange(off + 1, off + 1 + j),
                    decreases sz - j,
                {
                    operands.push(code[off + 1 + j]);
                    j = j + 1;
                    assert(operands@ =~= code@.subrange(off + 1, off + 1 + j));
                }
                let ins = Instr { offset: off, byte: b, op: Some(op), operands };
                out.push(ins);
                let ghost old_off = off as int;
                off = off + 1 + sz;
                assert(out@.map_values(|i: Instr| instr_view(i)) =~= before.map_values(|i: Instr| instr_view(i)).push(
                    instr_view(ins),
                ));
                assert(instrs(code@, old_off) =~= seq![instr_view(ins)] + instrs(code@, off as int));
            },
            None => {
                let ins = Instr { offset: off, byte: b, op: None, operands: Vec::new() };
                out.push(ins);
                let ghost old_off = off as int;
                off = off + 1;
                assert(out@.map_values(|i: Instr| instr_view(i)) =~= before.map_values(|i: Instr| instr_view(i)).push(
                    instr_view(ins),
                ));
                assert(instrs(code@, old_off) =~= seq![instr_view(ins)] + instrs(code@, off as int));
            },
        }
    }
    out
}

} // verus!
