//! C struct layouts: each field at the next offset aligned to its own
//! alignment, the whole padded to the largest alignment.
use vstd::prelude::*;

use crate::cib::marshal::{copy_ctype, ctype_size, size_fits, CType};

verus! {

/// A field of a laid-out struct.
#[derive(Debug)]
pub struct CField {
    pub name: String,
    pub ctype: CType,
    pub offset: usize,
}

/// A laid-out struct.
#[derive(Debug)]
pub struct CStructLayout {
    pub name: String,
    pub fields: Vec<CField>,
    pub size: usize,
    pub alignment: usize,
}

/// `off` rounded up to a multiple of `a`.
pub open spec fn align_up(off: nat, a: nat) -> nat {
    if off % a == 0 {
        off
    } else {
        (off + (a - off % a)) as nat
    }
}

/// The offset just past the last of the fields `d`.
pub open spec fn end_offset(d: Seq<(String, CType)>) -> nat
    decreases d.len(),
{
    if d.len() == 0 {
        0
    } else {
        align_up(end_offset(d.drop_last()), ctype_size(d.last().1)) + ctype_size(d.last().1)
    }
}

/// The largest alignment among the fields `d`, and at least 1.
pub open spec fn max_align(d: Seq<(String, CType)>) -> nat
    decreases d.len(),
{
    if d.len() == 0 {
        1
    } else {
        let m = max_align(d.drop_last());
        let a = ctype_size(d.last().1);
        if a > m {
            a
        } else {
            m
        }
    }
}

/// The offset of field `i` of `d`.
pub open spec fn field_offset(d: Seq<(String, CType)>, i: int) -> nat {
    align_up(end_offset(d.take(i)), ctype_size(d[i].1))
}

/// The size of the struct with fields `d`.
pub open spec fn layout_size(d: Seq<(String, CType)>) -> nat {
    align_up(end_offset(d), max_align(d))
}

/// Fields that can be laid out: each has a nonzero size that fits, and so
/// does the whole.
pub open spec fn layout_ok(d: Seq<(String, CType)>) -> bool {
    &&& forall|i: int| 0 <= i < d.len() ==> size_fits(#[trigger] d[i].1) && ctype_size(d[i].1) > 0
    &&& layout_size(d) <= usize::MAX
}

proof fn lemma_align_up(off: nat, a: nat)
    requires
        a > 0,
    ensures
        off <= align_up(off, a) < off + a,
        align_up(off, a) % a == 0,
{
    broadcast use vstd::arithmetic::div_mod::lemma_mod_bound;

    if off % a != 0 {
        let q = off as int / a as int;
        vstd::arithmetic::div_mod::lemma_fundamental_div_mod(off as int, a as int);
        vstd::arithmetic::div_mod::lemma_mod_multiples_basic(q + 1, a as int);
        assert((q + 1) * a == a * q + a) by (nonlinear_arith);
        assert(off + (a - off % a) == (q + 1) * a);
    }
}

/// The end offset grows with each field.
proof fn lemma_end_offset_mono(d: Seq<(String, CType)>, i: int)
    requires
        0 <= i <= d.len(),
        forall|j: int| 0 <= j < d.len() ==> ctype_size(#[trigger] d[j].1) > 0,
    ensures
        end_offset(d.take(i)) <= end_offset(d),
        max_align(d) >= 1,
        max_align(d.take(i)) <= max_align(d),
    decreases d.len() - i,
{
    if i < d.len() {
        lemma_end_offset_mono(d, i + 1);
        let t = d.take(i + 1);
        assert(t.drop_last() =~= d.take(i));
        lemma_align_up(end_offset(d.take(i)), ctype_size(t.last().1));
    } else {
        assert(d.take(i) =~= d);
    }
    lemma_max_align_pos(d);
}

proof fn lemma_max_align_pos(d: Seq<(String, CType)>)
    ensures
        max_align(d) >= 1,
    decreases d.len(),
{
    if d.len() > 0 {
        lemma_max_align_pos(d.drop_last());
    }
}

proof fn lemma_max_align_covers(d: Seq<(String, CType)>, i: int)
    requires
        0 <= i < d.len(),
    ensures
        ctype_size(d[i].1) <= max_align(d),
    decreases d.len(),
{
    if i < d.len() - 1 {
        lemma_max_align_covers(d.drop_last(), i);
    }
}

/// A computed layout is sound: each field sits at an offset that is a
/// multiple of its size (its alignment), the fields follow one another in
/// order without overlapping, all of them end within the struct, every
/// field's alignment divides the struct's, and the struct's size is a
/// multiple of its alignment.
pub proof fn lemma_layout_sound(d: Seq<(String, CType)>, i: int)
    requires
        forall|j: int| 0 <= j < d.len() ==> ctype_size(#[trigger] d[j].1) > 0,
        0 <= i < d.len(),
    ensures
        field_offset(d, i) % ctype_size(d[i].1) == 0,
        i + 1 < d.len() ==> field_offset(d, i) + ctype_size(d[i].1) <= field_offset(d, i + 1),
        field_offset(d, i) + ctype_size(d[i].1) <= layout_size(d),
        ctype_size(d[i].1) <= max_align(d),
        layout_size(d) % max_align(d) == 0,
        end_offset(d) <= layout_size(d),
{
    let t = d.take(i + 1);
    assert(t.drop_last() =~= d.take(i));
    assert(t.last() == d[i]);
    lemma_align_up(end_offset(d.take(i)), ctype_size(d[i].1));
    assert(end_offset(t) == field_offset(d, i) + ctype_size(d[i].1));
    lemma_end_offset_mono(d, i + 1);
    lemma_max_align_pos(d);
    lemma_align_up(end_offset(d), max_align(d));
    lemma_max_align_covers(d, i);
    if i + 1 < d.len() {
        lemma_align_up(end_offset(d.take(i + 1)), ctype_size(d[i + 1].1));
    }
}

impl CStructLayout {
    /// Lays out the fields `field_decls` in order, each at the first offset
    /// that is a multiple of its alignment; the size is padded to the
    /// largest alignment.
    pub fn compute(name: &str, field_decls: &[(String, CType)]) -> (r: Self)
        requires
            layout_ok(field_decls@),
        ensures
            r.name@ == name@,
            r.fields@.len() == field_decls@.len(),
            forall|i: int|
                0 <= i < field_decls@.len() ==> (#[trigger] r.fields@[i]).name == field_decls@[i].0
                    && r.fields@[i].ctype == field_decls@[i].1 && r.fields@[i].offset
                    == field_offset(field_decls@, i),
            r.size == layout_size(field_decls@),
            r.alignment == max_align(field_decls@),
    {
        broadcast use vstd::arithmetic::div_mod::lemma_mod_bound;

        let ghost d = field_decls@;
        let mut fields: Vec<CField> = Vec::new();
        let mut offset: usize = 0;
        let mut max_a: usize = 1;
        let mut i: usize = 0;
        proof {
            lemma_end_offset_mono(d, 0);
            lemma_align_up(end_offset(d), max_align(d));
        }
        while i < field_decls.len()
            invariant
                d == field_decls@,
                layout_ok(d),
                i <= d.len(),
                offset == end_offset(d.take(i as int)),
                max_a == max_align(d.take(i as int)),
                end_offset(d) <= layout_size(d),
                fields@.len() == i,
                forall|j: int|
                    0 <= j < i ==> (#[trigger] fields@[j]).name == d[j].0 && fields@[j].ctype
                        == d[j].1 && fields@[j].offset == field_offset(d, j),
            decreases d.len() - i,
        {
            let (fname, ftype) = &field_decls[i];
            assert(size_fits(d[i as int].1) && ctype_size(d[i as int].1) > 0);
            let align = ftype.alignment();
            proof {
                lemma_end_offset_mono(d, i + 1);
                let t = d.take(i + 1);
                assert(t.drop_last() =~= d.take(i as int));
                assert(t.last() == d[i as int]);
                lemma_align_up(offset as nat, align as nat);
            }
            if align > max_a {
                max_a = align;
            }
            if offset % align != 0 {
                offset = offset + (align - offset % align);
            }
            fields.push(CField { name: fname.clone(), ctype: copy_ctype(ftype), offset });
            offset = offset + ftype.size();
            i = i + 1;
        }
        assert(d.take(d.len() as int) =~= d);
        if offset % max_a != 0 {
            offset = offset + (max_a - offset % max_a);
        }
        CStructLayout { name: name.to_string(), fields, size: offset, alignment: max_a }
    }

    /// The offset of the first field called `name`.
    pub fn offset_of(&self, name: &str) -> (r: Option<usize>)
        ensures
            match r {
                Some(o) => exists|i: int|
                    0 <= i < self.fields@.len() && (#[trigger] self.fields@[i]).name@ == name@
                        && o == self.fields@[i].offset && forall|j: int|
                        0 <= j < i ==> (#[trigger] self.fields@[j]).name@ != name@,
                None => forall|i: int|
                    0 <= i < self.fields@.len() ==> (#[trigger] self.fields@[i]).name@ != name@,
            },
    {
        let key = name.to_owned();
        let mut i: usize = 0;
        while i < self.fields.len()
            invariant
                i <= self.fields@.len(),
                key@ == name@,
                forall|j: int| 0 <= j < i ==> (#[trigger] self.fields@[j]).name@ != name@,
            decreases self.fields@.len() - i,
        {
            if self.fields[i].name == key {
                return Some(self.fields[i].offset);
            }
            i = i + 1;
        }
        None
    }
}

} // verus!
