//! The C interface bridge: C types and their sizes, struct layouts, and
//! the interface descriptors that compilers ship; loading libraries and
//! calling through them happens outside the library.
pub mod marshal;
pub mod structs;
pub mod ucif;

use vstd::prelude::*;

use crate::cib::marshal::{ctype_size, size_fits, CType};

verus! {

/// The calling convention handed to the foreign-function interface.
#[derive(Clone, Copy, Debug, PartialEq, Eq, Structural)]
pub enum FfiAbi {
    DefaultAbi,
}

impl FfiAbi {
    /// The convention's code in the foreign-function interface.
    pub fn code(&self) -> (r: u32)
        ensures
            r == 2,
    {
        match self {
            FfiAbi::DefaultAbi => 2,
        }
    }
}

/// The file a library is loaded from: a name with a `.` or a `/` is a file
/// name already, any other `name` is `libname.so`.
pub open spec fn library_file(name: Seq<char>) -> Seq<char> {
    if name.contains('.') || name.contains('/') {
        name
    } else {
        "lib"@ + name + ".so"@
    }
}

/// The file a library called `name` is loaded from.
pub fn library_file_name(name: &str) -> (r: String)
    ensures
        r@ == library_file(name@),
{
    let cs = crate::text::chars_of(name);
    let mut special = false;
    let mut i: usize = 0;
    while i < cs.len()
        invariant
            i <= cs@.len(),
            cs@ == name@,
            special == exists|j: int| 0 <= j < i && (cs@[j] == '.' || cs@[j] == '/'),
        decreases cs@.len() - i,
    {
        if cs[i] == '.' || cs[i] == '/' {
            special = true;
        }
        i = i + 1;
    }
    proof {
        if special {
            let j = choose|j: int| 0 <= j < cs@.len() && (cs@[j] == '.' || cs@[j] == '/');
            if cs@[j] == '.' {
                assert(name@.contains('.'));
            } else {
                assert(name@.contains('/'));
            }
        } else {
            assert(!name@.contains('.'));
            assert(!name@.contains('/'));
        }
    }
    if special {
        name.to_owned()
    } else {
        let mut s = "lib".to_owned();
        s.append(name);
        s.append(".so");
        s
    }
}

/// The files an interface called `name` is looked for in, in order: under
/// `ucif/`, in the working directory, and, where `with_interfaces_dir`,
/// under `interfaces/`.
pub open spec fn interface_files(name: Seq<char>, with_interfaces_dir: bool) -> Seq<Seq<char>> {
    let base = seq!["ucif/"@ + name + ".ucif"@, name + ".ucif"@];
    if with_interfaces_dir {
        base.push("interfaces/"@ + name + ".ucif"@)
    } else {
        base
    }
}

/// The files an interface is looked for in: all three places when the
/// interfaces that plugins ask for are loaded, the first two when one is
/// loaded by name.
pub fn interface_file_candidates(name: &str, with_interfaces_dir: bool) -> (r: Vec<String>)
    ensures
        crate::names::string_views(r@) == interface_files(name@, with_interfaces_dir),
{
    let mut out: Vec<String> = Vec::new();
    let mut a = "ucif/".to_owned();
    a.append(name);
    a.append(".ucif");
    out.push(a);
    let mut b = name.to_owned();
    b.append(".ucif");
    out.push(b);
    if with_interfaces_dir {
        let mut c = "interfaces/".to_owned();
        c.append(name);
        c.append(".ucif");
        out.push(c);
    }
    assert(crate::names::string_views(out@) =~= interface_files(name@, with_interfaces_dir));
    out
}

/// The stack slot an argument of type `t` is written into: its size, and
/// at least 8 bytes.
pub fn arg_slot_size(t: &CType) -> (r: usize)
    requires
        size_fits(*t),
    ensures
        r == (if ctype_size(*t) > 8 {
            ctype_size(*t)
        } else {
            8
        }),
{
    let s = t.size();
    if s > 8 {
        s
    } else {
        8
    }
}

} // verus!
