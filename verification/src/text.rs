//! Text helpers shared by the library: character-wise string order,
//! sorting of names, and path arithmetic on `/`-separated paths.
use vstd::prelude::*;

use crate::names::string_views;

verus! {

/// Strict lexicographic order on character sequences, by code point; this is
/// the order of `str`'s `<` (UTF-8 preserves code-point order).
pub open spec fn lex_lt(a: Seq<char>, b: Seq<char>) -> bool
    decreases a.len(),
{
    if a.len() == 0 {
        b.len() > 0
    } else if b.len() == 0 {
        false
    } else if a[0] != b[0] {
        (a[0] as int) < (b[0] as int)
    } else {
        lex_lt(a.drop_first(), b.drop_first())
    }
}

/// `lex_lt` is irreflexive.
pub proof fn lemma_lex_lt_irreflexive(a: Seq<char>)
    ensures
        !lex_lt(a, a),
    decreases a.len(),
{
    if a.len() > 0 {
        lemma_lex_lt_irreflexive(a.drop_first());
    }
}

/// `lex_lt` is transitive.
pub proof fn lemma_lex_lt_transitive(a: Seq<char>, b: Seq<char>, c: Seq<char>)
    requires
        lex_lt(a, b),
        lex_lt(b, c),
    ensures
        lex_lt(a, c),
    decreases a.len(),
{
    if a.len() > 0 && b.len() > 0 && c.len() > 0 {
        if a[0] == b[0] && b[0] == c[0] {
            lemma_lex_lt_transitive(a.drop_first(), b.drop_first(), c.drop_first());
        }
    }
}

/// Two different sequences are ordered one way or the other.
pub proof fn lemma_lex_lt_total(a: Seq<char>, b: Seq<char>)
    requires
        a != b,
    ensures
        lex_lt(a, b) || lex_lt(b, a),
    decreases a.len(),
{
    if a.len() > 0 && b.len() > 0 && a[0] != b[0] {
        assert((a[0] as int) != (b[0] as int));
    } else if a.len() > 0 && b.len() > 0 && a[0] == b[0] {
        if a.drop_first() == b.drop_first() {
            assert(a =~= seq![a[0]] + a.drop_first());
            assert(b =~= seq![b[0]] + b.drop_first());
        }
        lemma_lex_lt_total(a.drop_first(), b.drop_first());
    } else if a.len() == 0 && b.len() == 0 {
        assert(a =~= b);
    }
}

/// Whether `s` is in strictly increasing `lex_lt` order.
pub open spec fn strictly_sorted(s: Seq<Seq<char>>) -> bool {
    forall|i: int, j: int| 0 <= i < j < s.len() ==> lex_lt(#[trigger] s[i], #[trigger] s[j])
}

/// Compares two strings in `lex_lt` order.
pub fn str_lt(a: &str, b: &str) -> (r: bool)
    ensures
        r == lex_lt(a@, b@),
{
    let la = a.unicode_len();
    let lb = b.unicode_len();
    let mut i: usize = 0;
    assert(a@.subrange(0, la as int) =~= a@);
    assert(b@.subrange(0, lb as int) =~= b@);
    while i < la && i < lb
        invariant
            la == a@.len(),
            lb == b@.len(),
            i <= la,
            i <= lb,
            a@.subrange(0, i as int) == b@.subrange(0, i as int),
            lex_lt(a@, b@) == lex_lt(a@.subrange(i as int, la as int), b@.subrange(i as int, lb as int)),
        decreases la - i,
    {
        let ca = a.get_char(i);
        let cb = b.get_char(i);
        let ghost sa = a@.subrange(i as int, la as int);
        let ghost sb = b@.subrange(i as int, lb as int);
        if ca != cb {
            assert(sa[0] == ca && sb[0] == cb);
            return ca < cb;
        }
        proof {
            assert(sa.drop_first() =~= a@.subrange(i + 1, la as int));
            assert(sb.drop_first() =~= b@.subrange(i + 1, lb as int));
            assert(a@.subrange(0, i + 1) =~= a@.subrange(0, i as int).push(ca));
            assert(b@.subrange(0, i + 1) =~= b@.subrange(0, i as int).push(cb));
        }
        i = i + 1;
    }
    i < lb
}

/// Sorts names in increasing `lex_lt` order. The input holds no name
/// twice.
pub fn sort_strings(v: Vec<String>) -> (r: Vec<String>)
    requires
        string_views(v@).no_duplicates(),
    ensures
        string_views(r@).to_set() == string_views(v@).to_set(),
        string_views(r@).no_duplicates(),
        strictly_sorted(string_views(r@)),
        r@.len() == v@.len(),
{
    let mut out: Vec<String> = Vec::new();
    let mut i: usize = 0;
    while i < v.len()
        invariant
            i <= v@.len(),
            string_views(v@).no_duplicates(),
            out@.len() == i,
            string_views(out@).to_set() == string_views(v@.subrange(0, i as int)).to_set(),
            strictly_sorted(string_views(out@)),
        decreases v@.len() - i,
    {
        let x = v[i].clone();
        let ghost xv = x@;
        let ghost before = string_views(out@);
        proof {
            assert(string_views(v@)[i as int] == xv);
            assert forall|k: int| 0 <= k < before.len() implies before[k] != xv by {
                assert(before.to_set().contains(before[k]));
                assert(string_views(v@.subrange(0, i as int)).contains(before[k]));
                let m = choose|m: int|
                    0 <= m < i && #[trigger] string_views(v@.subrange(0, i as int))[m]
                        == before[k];
                assert(string_views(v@)[m] == before[k]);
            }
        }
        let mut pos: usize = 0;
        while pos < out.len() && str_lt(out[pos].as_str(), x.as_str())
            invariant
                pos <= out@.len(),
                before == string_views(out@),
                xv == x@,
                strictly_sorted(before),
                forall|k: int| 0 <= k < pos ==> lex_lt(#[trigger] before[k], xv),
            decreases out@.len() - pos,
        {
            pos = pos + 1;
        }
        proof {
            if pos < out@.len() {
                assert(!lex_lt(before[pos as int], xv));
                assert(before[pos as int] != xv);
                lemma_lex_lt_total(before[pos as int], xv);
                assert forall|k: int| pos <= k < before.len() implies lex_lt(xv, #[trigger] before[k]) by {
                    if k > pos {
                        lemma_lex_lt_transitive(xv, before[pos as int], before[k]);
                    }
                }
            }
        }
        out.insert(pos, x);
        proof {
            let after = string_views(out@);
            assert(after =~= before.insert(pos as int, xv));
            assert forall|a: int, b: int| 0 <= a < b < after.len() implies lex_lt(
                #[trigger] after[a],
                #[trigger] after[b],
            ) by {
                if b < pos {
                } else if b == pos {
                } else if a < pos {
                    lemma_lex_lt_transitive(after[a], xv, after[b]);
                } else if a == pos {
                } else {
                }
            }
            let sub = string_views(v@.subrange(0, i as int));
            let sub2 = string_views(v@.subrange(0, i + 1));
            assert(sub2 =~= sub.push(xv));
            assert forall|y: Seq<char>| after.to_set().contains(y) <==> sub2.to_set().contains(y) by {
                if after.contains(y) {
                    let k = choose|k: int| 0 <= k < after.len() && after[k] == y;
                    if k < pos {
                        assert(before[k] == y);
                        assert(before.to_set().contains(y));
                        let m = choose|m: int| 0 <= m < sub.len() && sub[m] == y;
                        assert(sub2[m] == y);
                    } else if k > pos {
                        assert(before[k - 1] == y);
                        assert(before.to_set().contains(y));
                        let m = choose|m: int| 0 <= m < sub.len() && sub[m] == y;
                        assert(sub2[m] == y);
                    } else {
                        assert(sub2[i as int] == y);
                    }
                }
                if sub2.contains(y) {
                    let m = choose|m: int| 0 <= m < sub2.len() && sub2[m] == y;
                    if m < i {
                        assert(sub[m] == y);
                        assert(sub.to_set().contains(y));
                        assert(before.to_set().contains(y));
                        let k = choose|k: int| 0 <= k < before.len() && before[k] == y;
                        if k < pos {
                            assert(after[k] == y);
                        } else {
                            assert(after[k + 1] == y);
                        }
                    } else {
                        assert(after[pos as int] == y);
                    }
                }
            }
            assert(after.to_set() =~= sub2.to_set());
        }
        i = i + 1;
    }
    proof {
        assert(v@.subrange(0, v@.len() as int) =~= v@);
        let s = string_views(out@);
        assert forall|a: int, b: int| 0 <= a < s.len() && 0 <= b < s.len() && a != b implies s[a]
            != s[b] by {
            if a < b {
                assert(lex_lt(s[a], s[b]));
                lemma_lex_lt_irreflexive(s[a]);
            } else {
                assert(lex_lt(s[b], s[a]));
                lemma_lex_lt_irreflexive(s[a]);
            }
        }
    }
    out
}

/// `part` appended to the path `base`, as `Path::join` does on Unix: an
/// absolute `part` replaces `base`; otherwise a `/` separates them unless
/// `base` is empty or already ends in one.
pub open spec fn joined(base: Seq<char>, part: Seq<char>) -> Seq<char> {
    if part.len() > 0 && part[0] == '/' {
        part
    } else if base.len() == 0 || base.last() == '/' {
        base + part
    } else {
        base + seq!['/'] + part
    }
}

/// Joins two path pieces.
pub fn path_join(base: &str, part: &str) -> (r: String)
    ensures
        r@ == joined(base@, part@),
{
    let lp = part.unicode_len();
    let lb = base.unicode_len();
    if lp > 0 && part.get_char(0) == '/' {
        return String::from_str(part);
    }
    let mut s = String::from_str(base);
    if !(lb == 0 || base.get_char(lb - 1) == '/') {
        s.append("/");
        proof {
            reveal_strlit("/");
        }
    }
    s.append(part);
    s
}

/// The index of the last occurrence of `c` in `s`, if any.
pub open spec fn last_index_of(s: Seq<char>, c: char) -> Option<int> {
    if exists|i: int| 0 <= i < s.len() && s[i] == c {
        Some(choose|i: int| 0 <= i < s.len() && s[i] == c && forall|j: int| i < j < s.len() ==> s[j] != c)
    } else {
        None
    }
}

/// Finds the last occurrence of `c` in `s`.
pub fn rfind_char(s: &str, c: char) -> (r: Option<usize>)
    ensures
        match r {
            Some(i) => i < s@.len() && s@[i as int] == c && forall|j: int| i < j < s@.len() ==> s@[j] != c,
            None => forall|j: int| 0 <= j < s@.len() ==> s@[j] != c,
        },
        r matches Some(i) ==> last_index_of(s@, c) == Some(i as int),
        r is None ==> last_index_of(s@, c) is None,
{
    let n = s.unicode_len();
    let mut i: usize = n;
    while i > 0
        invariant
            i <= n,
            n == s@.len(),
            forall|j: int| i <= j < n ==> s@[j] != c,
        decreases i,
    {
        if s.get_char(i - 1) == c {
            let ghost k = (i - 1) as int;
            proof {
                let w = choose|w: int|
                    0 <= w < s@.len() && s@[w] == c && forall|j: int| w < j < s@.len() ==> s@[j] != c;
                assert(0 <= k < s@.len() && s@[k] == c && forall|j: int| k < j < s@.len() ==> s@[j] != c);
                if w < k {
                } else if w > k {
                    assert(s@[w] != c);
                }
            }
            return Some(i - 1);
        }
        i = i - 1;
    }
    None
}

/// The last component of a path: what follows its last `/`.
pub open spec fn file_name_of(p: Seq<char>) -> Seq<char> {
    match last_index_of(p, '/') {
        Some(i) => p.subrange(i + 1, p.len() as int),
        None => p,
    }
}

/// The (stem, extension) of a file name, split at its last `.` as
/// `Path::file_stem` and `Path::extension` do: a name whose only dot leads
/// it has no extension.
pub open spec fn split_ext(name: Seq<char>) -> (Seq<char>, Option<Seq<char>>) {
    match last_index_of(name, '.') {
        Some(i) => if i == 0 {
            (name, None)
        } else {
            (name.subrange(0, i), Some(name.subrange(i + 1, name.len() as int)))
        },
        None => (name, None),
    }
}

/// The last component of a path.
pub fn file_name(p: &str) -> (r: String)
    ensures
        r@ == file_name_of(p@),
        r@.len() <= p@.len(),
{
    let n = p.unicode_len();
    match rfind_char(p, '/') {
        Some(i) => String::from_str(p.substring_char(i + 1, n)),
        None => String::from_str(p),
    }
}

/// Splits a file name into stem and extension.
pub fn split_extension(name: &str) -> (r: (String, Option<String>))
    ensures
        r.0@ == split_ext(name@).0,
        r.1 is Some <==> split_ext(name@).1 is Some,
        r.1 matches Some(e) ==> split_ext(name@).1 == Some(e@),
{
    let n = name.unicode_len();
    match rfind_char(name, '.') {
        Some(i) => {
            if i == 0 {
                (String::from_str(name), None)
            } else {
                (
                    String::from_str(name.substring_char(0, i)),
                    Some(String::from_str(name.substring_char(i + 1, n))),
                )
            }
        },
        None => (String::from_str(name), None),
    }
}

/// The digit character for `d < 10`.
pub open spec fn digit_char(d: nat) -> char {
    if d == 0 {
        '0'
    } else if d == 1 {
        '1'
    } else if d == 2 {
        '2'
    } else if d == 3 {
        '3'
    } else if d == 4 {
        '4'
    } else if d == 5 {
        '5'
    } else if d == 6 {
        '6'
    } else if d == 7 {
        '7'
    } else if d == 8 {
        '8'
    } else {
        '9'
    }
}

/// The decimal representation of `n`, without leading zeros.
pub open spec fn decimal(n: nat) -> Seq<char>
    decreases n,
{
    if n < 10 {
        seq![digit_char(n)]
    } else {
        decimal(n / 10).push(digit_char(n % 10))
    }
}

fn digit_str(d: u32) -> (r: &'static str)
    requires
        d < 10,
    ensures
        r@ == seq![digit_char(d as nat)],
{
    proof {
        reveal_strlit("0");
        reveal_strlit("1");
        reveal_strlit("2");
        reveal_strlit("3");
        reveal_strlit("4");
        reveal_strlit("5");
        reveal_strlit("6");
        reveal_strlit("7");
        reveal_strlit("8");
        reveal_strlit("9");
    }
    if d == 0 {
        "0"
    } else if d == 1 {
        "1"
    } else if d == 2 {
        "2"
    } else if d == 3 {
        "3"
    } else if d == 4 {
        "4"
    } else if d == 5 {
        "5"
    } else if d == 6 {
        "6"
    } else if d == 7 {
        "7"
    } else if d == 8 {
        "8"
    } else {
        "9"
    }
}

/// The decimal representation of a number, as `format!("{n}")` writes it.
pub fn u32_to_decimal(n: u32) -> (r: String)
    ensures
        r@ == decimal(n as nat),
    decreases n,
{
    let mut s = if n >= 10 {
        u32_to_decimal(n / 10)
    } else {
        String::new()
    };
    s.append(digit_str(n % 10));
    s
}

/// The decimal representation of a `usize`, as `format!("{n}")` writes it.
pub fn usize_to_decimal(n: usize) -> (r: String)
    ensures
        r@ == decimal(n as nat),
    decreases n,
{
    let mut s = if n >= 10 {
        usize_to_decimal(n / 10)
    } else {
        String::new()
    };
    s.append(digit_str((n % 10) as u32));
    s
}

/// The uppercase hexadecimal digit for `d < 16`.
pub open spec fn hex_char(d: nat) -> char {
    if d < 10 {
        digit_char(d)
    } else if d == 10 {
        'A'
    } else if d == 11 {
        'B'
    } else if d == 12 {
        'C'
    } else if d == 13 {
        'D'
    } else if d == 14 {
        'E'
    } else {
        'F'
    }
}

/// `n` in uppercase hexadecimal, padded with zeros to `w` digits at the
/// least, as `format!("{:0w$X}", n)` writes it.
pub open spec fn hex_min(n: nat, w: nat) -> Seq<char>
    decreases n + w,
{
    if n < 16 && w <= 1 {
        seq![hex_char(n)]
    } else {
        hex_min(n / 16, if w > 0 { (w - 1) as nat } else { 0 }).push(hex_char(n % 16))
    }
}

fn hex_digit_str(d: u64) -> (r: &'static str)
    requires
        d < 16,
    ensures
        r@ == seq![hex_char(d as nat)],
{
    proof {
        reveal_strlit("A");
        reveal_strlit("B");
        reveal_strlit("C");
        reveal_strlit("D");
        reveal_strlit("E");
        reveal_strlit("F");
    }
    if d < 10 {
        digit_str(d as u32)
    } else if d == 10 {
        "A"
    } else if d == 11 {
        "B"
    } else if d == 12 {
        "C"
    } else if d == 13 {
        "D"
    } else if d == 14 {
        "E"
    } else {
        "F"
    }
}

/// `n` in uppercase hexadecimal, zero-padded to `w` digits at the least.
pub fn hex_padded(n: u64, w: u64) -> (r: String)
    ensures
        r@ == hex_min(n as nat, w as nat),
    decreases n + w,
{
    let mut s = if n < 16 && w <= 1 {
        String::new()
    } else {
        hex_padded(n / 16, if w > 0 { w - 1 } else { 0 })
    };
    s.append(hex_digit_str(n % 16));
    s
}

/// Whether `v` holds a string with the characters of `s`.
pub fn contains_str(v: &Vec<String>, s: &String) -> (r: bool)
    ensures
        r == string_views(v@).contains(s@),
{
    let mut i: usize = 0;
    while i < v.len()
        invariant
            i <= v@.len(),
            forall|j: int| 0 <= j < i ==> v@[j]@ != s@,
        decreases v@.len() - i,
    {
        if v[i] == *s {
            assert(string_views(v@)[i as int] == s@);
            return true;
        }
        i = i + 1;
    }
    proof {
        if string_views(v@).contains(s@) {
            let j = choose|j: int| 0 <= j < string_views(v@).len() && string_views(v@)[j] == s@;
            assert(v@[j]@ == s@);
        }
    }
    false
}

/// `char::to_string`: the one-character string.
#[verifier::external_body]
pub(crate) fn char_string(c: char) -> (r: String)
    ensures
        r@ == seq![c],
{
    c.to_string()
}

/// The string of the characters `cs[lo..hi]`.
pub fn string_of_chars(cs: &Vec<char>, lo: usize, hi: usize) -> (r: String)
    requires
        lo <= hi <= cs@.len(),
    ensures
        r@ == cs@.subrange(lo as int, hi as int),
{
    let mut s = String::new();
    let mut i = lo;
    while i < hi
        invariant
            lo <= i <= hi <= cs@.len(),
            s@ == cs@.subrange(lo as int, i as int),
        decreases hi - i,
    {
        let c = char_string(cs[i]);
        s.append(c.as_str());
        i = i + 1;
        assert(s@ =~= cs@.subrange(lo as int, i as int));
    }
    s
}

/// Whether `cs` starts with the characters of `p`.
pub fn starts_with_str(cs: &Vec<char>, p: &str) -> (r: bool)
    ensures
        r == (p@.len() <= cs@.len() && cs@.subrange(0, p@.len() as int) == p@),
{
    let ps = chars_of(p);
    if ps.len() > cs.len() {
        return false;
    }
    let mut i: usize = 0;
    while i < ps.len()
        invariant
            i <= ps@.len() <= cs@.len(),
            ps@ == p@,
            forall|j: int| 0 <= j < i ==> cs@[j] == ps@[j],
        decreases ps@.len() - i,
    {
        if cs[i] != ps[i] {
            assert(cs@.subrange(0, p@.len() as int)[i as int] != p@[i as int]);
            return false;
        }
        i = i + 1;
    }
    assert(cs@.subrange(0, p@.len() as int) =~= p@);
    true
}

/// The characters of a string.
pub fn chars_of(s: &str) -> (r: Vec<char>)
    ensures
        r@ == s@,
{
    broadcast use vstd::string::group_string_axioms;

    let mut v: Vec<char> = Vec::new();
    for ch in it: s.chars()
        invariant
            it.seq() == s@,
            it.index() == v@.len(),
            v@ == s@.take(v@.len() as int),
    {
        v.push(ch);
        assert(v@ =~= s@.take(v@.len() as int));
    }
    assert(v@.len() == s@.len());
    assert(v@ =~= s@);
    v
}

} // verus!
