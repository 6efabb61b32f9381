//! f-strings.
use vstd::prelude::*;

use crate::py2uc::ast::{expr_view, parts_view, Expr, FStringPart, PartV};
use crate::py2uc::grammar::expr;
use crate::py2uc::tokenizer::tokenize;
use crate::py2uc::grammar::{
    byte_chars, embedded, expr_end, field_expr, format_colon, fstring, fstring_done, quoted_end,
    utf8_bytes,
};
use crate::text::{char_string, chars_of, string_of_chars};
use super::{expr_res, floats_view, Parser};

verus! {

// ── f-strings ──

fn quoted_end_of(s: &Vec<char>, i: usize, q: char) -> (r: usize)
    requires
        i <= s@.len(),
        s@.len() < usize::MAX / 8,
    ensures
        r == quoted_end(s@, i as int, q),
        i <= r <= s@.len() + 1,
{
    let mut k = i;
    loop
        invariant
            i <= k <= s@.len(),
            s@.len() < usize::MAX / 8,
            quoted_end(s@, k as int, q) == quoted_end(s@, i as int, q),
        decreases s@.len() - k,
    {
        if k >= s.len() {
            return k;
        }
        if s[k] == q {
            return k + 1;
        }
        if s[k] == '\\' {
            if k + 2 >= s.len() {
                return k + 2;
            }
            k = k + 2;
        } else {
            k = k + 1;
        }
    }
}

/// Where the field that starts at `i` ends and the depth left.
fn expr_end_of(s: &Vec<char>, i: usize) -> (r: (usize, usize))
    requires
        i <= s@.len(),
        s@.len() < usize::MAX / 8,
    ensures
        (r.0 as int, r.1 as int) == expr_end(s@, i as int, 1),
        r.0 <= s@.len() + 2,
        r.1 == 0 ==> i <= r.0 < s@.len(),
{
    let mut k = i;
    let mut depth: usize = 1;
    loop
        invariant
            i <= k <= s@.len() + 2,
            s@.len() < usize::MAX / 8,
            1 <= depth <= k - i + 1,
            expr_end(s@, k as int, depth as int) == expr_end(s@, i as int, 1),
        decreases s@.len() + 2 - k,
    {
        if k >= s.len() {
            return (k, depth);
        }
        let c = s[k];
        if c == '{' {
            depth = depth + 1;
            k = k + 1;
        } else if c == '}' {
            if depth - 1 > 0 {
                depth = depth - 1;
                k = k + 1;
            } else {
                return (k, 0);
            }
        } else if c == '"' || c == '\'' {
            let q = quoted_end_of(s, k + 1, c);
            if !(k < q && q <= s.len() + 2) {
                return (q, depth);
            }
            k = q;
        } else {
            k = k + 1;
        }
    }
}

/// `s[lo..hi]` as a vector.
fn sub_chars(s: &Vec<char>, lo: usize, hi: usize) -> (r: Vec<char>)
    requires
        lo <= hi <= s@.len(),
    ensures
        r@ == s@.subrange(lo as int, hi as int),
{
    let mut out: Vec<char> = Vec::new();
    let mut i = lo;
    while i < hi
        invariant
            lo <= i <= hi <= s@.len(),
            out@ == s@.subrange(lo as int, i as int),
        decreases hi - i,
    {
        out.push(s[i]);
        i = i + 1;
        assert(out@ =~= s@.subrange(lo as int, i as int));
    }
    out
}

/// The first `:` outside brackets in `t`.
fn colon_of(t: &Vec<char>) -> (r: Option<usize>)
    ensures
        match r {
            Some(c) => format_colon(t@, 0, 0) == Some(c as int) && c < t@.len(),
            None => format_colon(t@, 0, 0) is None,
        },
{
    let mut j: usize = 0;
    let mut depth: usize = 0;
    while j < t.len()
        invariant
            j <= t@.len(),
            depth <= j,
            format_colon(t@, j as int, depth as nat) == format_colon(t@, 0, 0),
        decreases t@.len() - j,
    {
        let c = t[j];
        if c == '[' || c == '(' || c == '{' {
            depth = depth + 1;
        } else if c == ']' || c == ')' || c == '}' {
            if depth > 0 {
                depth = depth - 1;
            }
        } else if c == ':' && depth == 0 {
            return Some(j);
        }
        j = j + 1;
    }
    None
}

/// The expression of an f-string field.
fn field_expr_of(t: &Vec<char>) -> (r: String)
    ensures
        r@ == field_expr(t@),
        r@.len() <= t@.len(),
{
    let end = match colon_of(t) {
        Some(c) => c,
        None => t.len(),
    };
    proof {
        assert(t@.subrange(0, t@.len() as int) =~= t@);
    }
    let a = crate::driver::skip_ws(t, 0, end);
    let b = crate::driver::skip_ws_back(t, a, end);
    string_of_chars(t, a, b)
}

/// Adds the characters that stand for the UTF-8 bytes of `c` to `s`.
fn push_byte_chars(s: &mut String, c: char)
    ensures
        final(s)@ == old(s)@ + byte_chars(c),
{
    let v = c as u32;
    let ghost start = s@;
    let bs: Vec<u8> = if v < 0x80 {
        vec![v as u8]
    } else if v < 0x800 {
        vec![(0xC0 + v / 64) as u8, (0x80 + v % 64) as u8]
    } else if v < 0x10000 {
        vec![(0xE0 + v / 4096) as u8, (0x80 + (v / 64) % 64) as u8, (0x80 + v % 64) as u8]
    } else {
        vec![
            (0xF0 + v / 262144) as u8,
            (0x80 + (v / 4096) % 64) as u8,
            (0x80 + (v / 64) % 64) as u8,
            (0x80 + v % 64) as u8,
        ]
    };
    assert(bs@ =~= utf8_bytes(c));
    let mut i: usize = 0;
    while i < bs.len()
        invariant
            i <= bs@.len(),
            bs@ == utf8_bytes(c),
            s@ == start + bs@.take(i as int).map_values(|b: u8| b as char),
        decreases bs@.len() - i,
    {
        let ch = char_string(bs[i] as char);
        s.append(ch.as_str());
        i = i + 1;
        assert(bs@.take(i as int).map_values(|b: u8| b as char) =~= bs@.take(i - 1).map_values(
            |b: u8| b as char,
        ).push(bs@[i - 1] as char));
    }
    assert(bs@.take(bs@.len() as int) =~= bs@);
}

/// Copies a float table.
fn copy_floats(fl: &Vec<(String, u64)>) -> (r: Vec<(String, u64)>)
    ensures
        floats_view(r@) == floats_view(fl@),
{
    let mut out: Vec<(String, u64)> = Vec::new();
    let mut i: usize = 0;
    while i < fl.len()
        invariant
            i <= fl@.len(),
            floats_view(out@) == floats_view(fl@).take(i as int),
        decreases fl@.len() - i,
    {
        let e = (fl[i].0.clone(), fl[i].1);
        let ghost before = out@;
        out.push(e);
        assert(out@ =~= before.push(e));
        assert(floats_view(out@) =~= floats_view(before).push((e.0@, e.1)));
        assert(floats_view(fl@).take(i + 1) =~= floats_view(fl@).take(i as int).push(floats_view(fl@)[i as int]));
        i = i + 1;
    }
    assert(floats_view(fl@).take(fl@.len() as int) =~= floats_view(fl@));
    out
}

impl Parser {
    /// The pieces of the f-string `content`.
    pub(crate) fn fstring(&self, content: &String) -> (r: Vec<FStringPart>)
        requires
            self.wf(),
            content@.len() < self.n(),
        ensures
            parts_view(r@) == fstring(content@, self.fl(), 0, Seq::empty(), Seq::empty()),
        decreases content@.len(), content@.len() + 1, 10int,
    {
        let cs = chars_of(content.as_str());
        let len = cs.len();
        let ghost fl = self.fl();
        let ghost target = fstring(cs@, fl, 0, Seq::empty(), Seq::empty());
        let mut parts: Vec<FStringPart> = Vec::new();
        let mut literal = String::new();
        let mut i: usize = 0;
        assert(parts_view(parts@) =~= Seq::empty());
        loop
            invariant_except_break
                fstring(cs@, fl, i as int, literal@, parts_view(parts@)) == target,
            invariant
                self.wf(),
                self.fl() == fl,
                cs@ == content@,
                len == cs@.len(),
                len < self.n(),
                i <= len + 1,
            ensures
                fstring_done(literal@, parts_view(parts@)) == target,
            decreases len + 1 - i,
        {
            if i >= len {
                break;
            }
            let c = cs[i];
            if c == '{' {
                if i + 1 < len && cs[i + 1] == '{' {
                    let b = char_string('{');
                    let ghost l0 = literal@;
                    literal.append(b.as_str());
                    assert(literal@ =~= l0.push('{'));
                    i = i + 2;
                    continue;
                }
                let ghost lit0 = literal@;
                let ghost parts0 = parts_view(parts@);
                if !literal.as_str().is_empty() {
                    let ghost before = parts@;
                    let lit = FStringPart::Literal(literal);
                    parts.push(lit);
                    literal = String::new();
                    assert(before.push(lit).drop_last() =~= before);
                    assert(parts_view(parts@) == parts0.push(PartV::Literal(lit0)));
                }
                assert(literal@ =~= Seq::<char>::empty());
                let (j, depth) = expr_end_of(&cs, i + 1);
                if depth != 0 || j >= len {
                    let mut rest = "{".to_owned();
                    rest.append(string_of_chars(&cs, i, len).as_str());
                    proof {
                        reveal_strlit("{");
                    }
                    assert(rest@ =~= seq!['{'] + cs@.subrange(i as int, len as int));
                    literal = rest;
                    break;
                }
                let sub = sub_chars(&cs, i + 1, j);
                let text = field_expr_of(&sub);
                let e = if text.as_str().is_empty() {
                    Expr::Str(String::new())
                } else {
                    match self.embedded(&text) {
                        Ok(x) => x,
                        Err(_) => {
                            let mut m = "{".to_owned();
                            m.append(text.as_str());
                            m.append(":...}");
                            proof {
                                reveal_strlit("{");
                                reveal_strlit(":...}");
                            }
                            assert(m@ =~= "{"@ + text@ + ":...}"@);
                            Expr::Str(m)
                        },
                    }
                };
                assert(text@.len() < cs@.len());
                assert(text@ == field_expr(cs@.subrange(i + 1, j as int)));
                let ghost before = parts@;
                let part = FStringPart::Expr(e);
                parts.push(part);
                assert(before.push(part).drop_last() =~= before);
                assert(parts_view(parts@) == parts_view(before).push(PartV::Expr(expr_view(e))));
                assert(fstring(cs@, fl, i as int, lit0, parts0) == fstring(cs@, fl, j + 1, literal@, parts_view(parts@)));
                i = j + 1;
            } else if c == '}' && i + 1 < len && cs[i + 1] == '}' {
                let b = char_string('}');
                let ghost l0 = literal@;
                literal.append(b.as_str());
                assert(literal@ =~= l0.push('}'));
                i = i + 2;
            } else {
                push_byte_chars(&mut literal, c);
                i = i + 1;
                assert(fstring(cs@, fl, i as int, literal@, parts_view(parts@)) == target);
            }
        }
        let ghost lit0 = literal@;
        if !literal.as_str().is_empty() {
            let ghost before = parts@;
            let lit = FStringPart::Literal(literal);
            parts.push(lit);
            assert(before.push(lit).drop_last() =~= before);
            assert(parts_view(parts@) == parts_view(before).push(PartV::Literal(lit0)));
        }
        if parts.len() == 0 {
            let lit = FStringPart::Literal(String::new());
            parts.push(lit);
            assert(parts@.drop_last() =~= Seq::<FStringPart>::empty());
            assert(parts_view(parts@) == seq![PartV::Literal(Seq::<char>::empty())]);
        }
        parts
    }

    /// An f-string field's expression, parsed on its own.
    pub(crate) fn embedded(&self, text: &String) -> (r: Result<Expr, String>)
        requires
            self.wf(),
            text@.len() < self.n(),
        ensures
            expr_res(r) == embedded(text@, self.fl()),
        decreases text@.len(), 3 * text@.len() + 3, 50int,
    {
        let tokens = tokenize(text.as_str());
        let mut sub = Parser::with_tokens(tokens, copy_floats(&self.floats), Ghost(text@.len() as int));
        sub.expr(0)
    }
}

} // verus!
