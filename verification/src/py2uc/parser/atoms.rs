//! Operands and bracketed forms.
use vstd::prelude::*;

use crate::py2uc::ast::{expr_view, exprs_view, pairs_view, Expr, ExprV, UnaryOp};
use crate::py2uc::grammar::{
    atom, debug_kind, dict_items, dict_set, expect, expr, items, kind, kind_debug, lambda, list,
    paren, skip_parens,
};
use crate::py2uc::tokenizer::{kind_view, TokenKind};
use crate::py2uc::grammar::fstring;

use super::{lookup_float, expr_res, lemma_exprs_push, lemma_pairs_push, Parser};

verus! {

impl Parser {
    /// An operand.
    #[verifier::spinoff_prover]
    #[verifier::rlimit(40)]
    pub(crate) fn atom(&mut self) -> (r: Result<Expr, String>)
        requires
            old(self).wf(),
        ensures
            final(self).wf(),
            final(self).toks() == old(self).toks(),
            final(self).fl() == old(self).fl(),
            final(self).n() == old(self).n(),
            final(self).at() >= old(self).at(),
            (expr_res(r), final(self).at()) == atom(old(self).toks(), old(self).fl(), old(self).n(), old(self).at()),
            r is Ok ==> final(self).at() > old(self).at(),
        decreases old(self).n(), old(self).toks().len() - old(self).at(), 30int,
    {
        let ghost ts = self.toks();
        let k = self.kind_at();
        let pre = match k {
            TokenKind::Minus => Some(UnaryOp::USub),
            TokenKind::Plus => Some(UnaryOp::UAdd),
            TokenKind::BitNot => Some(UnaryOp::Invert),
            TokenKind::Not => Some(UnaryOp::Not),
            _ => None,
        };
        if let Some(op) = pre {
            self.advance();
            let x = self.expr(12)?;
            return Ok(Expr::UnaryOp { op, operand: Box::new(x) });
        }
        match k {
            TokenKind::Name(s) => {
                let nm = s.clone();
                self.advance();
                if matches!(*self.kind_at(), TokenKind::Walrus) {
                    self.advance();
                    let v = self.expr(0)?;
                    let target = Expr::Name(nm);
                    assert(expr_view(target) == ExprV::Name(nm@));
                    return Ok(Expr::NamedExpr { target: Box::new(target), value: Box::new(v) });
                }
                Ok(Expr::Name(nm))
            },
            TokenKind::Int => {
                let v = match self.token_at().int_value {
                    Some(v) => v,
                    None => 0,
                };
                self.advance();
                Ok(Expr::Int(v))
            },
            TokenKind::Float => {
                let bits = lookup_float(&self.floats, &self.token_at().lexeme);
                self.advance();
                Ok(Expr::Float(bits))
            },
            TokenKind::String(s) => {
                let t = s.clone();
                self.advance();
                Ok(Expr::Str(t))
            },
            TokenKind::KwTrue => {
                self.advance();
                Ok(Expr::Bool(true))
            },
            TokenKind::KwFalse => {
                self.advance();
                Ok(Expr::Bool(false))
            },
            TokenKind::KwNone => {
                self.advance();
                Ok(Expr::None_)
            },
            TokenKind::KwLambda => self.lambda(),
            TokenKind::KwYield => {
                self.advance();
                let x = self.expr(0)?;
                Ok(Expr::Yield(Some(Box::new(x))))
            },
            TokenKind::KwAwait => {
                self.advance();
                let x = self.expr(0)?;
                Ok(Expr::Await(Box::new(x)))
            },
            TokenKind::LParen => self.paren(),
            TokenKind::LBracket => self.list(),
            TokenKind::LBrace => self.dict_set(),
            TokenKind::Star => {
                self.advance();
                let x = self.expr(0)?;
                Ok(Expr::Starred(Box::new(x)))
            },
            TokenKind::Ellipsis => {
                self.advance();
                Ok(Expr::Ellipsis)
            },
            TokenKind::FStringStart => {
                let content = self.token_at().lexeme.clone();
                assert(ts[self.at()].kind is FStringStart);
                self.advance();
                let parts = self.fstring(&content);
                Ok(Expr::FString(parts))
            },
            _ => {
                let mut m = "Unexpected token: ".to_owned();
                m.append(debug_kind(k).as_str());
                proof {
                    reveal_strlit("Unexpected token: ");
                }
                assert(m@ =~= "Unexpected token: "@ + kind_debug(kind_view(*k)));
                Err(m)
            },
        }
    }

    /// Expressions after commas up to `close` (a `)`, `]` or `}`).
    #[verifier::loop_isolation(false)]
    pub(crate) fn items(&mut self, close: TokenKind, acc: Vec<Expr>) -> (r: Result<Vec<Expr>, String>)
        requires
            old(self).wf(),
            close is RParen || close is RBracket || close is RBrace,
        ensures
            final(self).wf(),
            final(self).toks() == old(self).toks(),
            final(self).fl() == old(self).fl(),
            final(self).n() == old(self).n(),
            final(self).at() >= old(self).at(),
            (match r {
                Ok(v) => Ok(exprs_view(v@)),
                Err(e) => Err(e@),
            }, final(self).at()) == items(old(self).toks(), old(self).fl(), old(self).n(), old(self).at(), kind_view(close), exprs_view(acc@)),
        decreases old(self).n(), old(self).toks().len() - old(self).at(), 18int,
    {
        let ghost ts = self.toks();
        let ghost acc0 = exprs_view(acc@);
        let mut acc = acc;
        loop
            invariant
                self.wf(),
                self.toks() == ts,
                ts == old(self).toks(),
                self.fl() == old(self).fl(),
                self.n() == old(self).n(),
                self.at() >= old(self).at(),
                close is RParen || close is RBracket || close is RBrace,
                items(ts, self.fl(), self.n(), self.at(), kind_view(close), exprs_view(acc@)) == items(
                    ts,
                    self.fl(),
                    self.n(),
                    old(self).at(),
                    kind_view(close),
                    acc0,
                ),
            decreases ts.len() - self.at(),
        {
            if !matches!(*self.kind_at(), TokenKind::Comma) {
                return Ok(acc);
            }
            self.advance();
            let at_close = match close {
                TokenKind::RParen => matches!(*self.kind_at(), TokenKind::RParen),
                TokenKind::RBracket => matches!(*self.kind_at(), TokenKind::RBracket),
                _ => matches!(*self.kind_at(), TokenKind::RBrace),
            };
            if at_close {
                return Ok(acc);
            }
            let x = self.expr(0)?;
            let ghost before = acc@;
            acc.push(x);
            proof {
                lemma_exprs_push(before, x);
            }
        }
    }
}

impl Parser {
    pub(crate) fn paren(&mut self) -> (r: Result<Expr, String>)
        requires
            old(self).wf(),
            kind(old(self).toks(), old(self).at()) is LParen,
        ensures
            final(self).wf(),
            final(self).toks() == old(self).toks(),
            final(self).fl() == old(self).fl(),
            final(self).n() == old(self).n(),
            final(self).at() >= old(self).at(),
            (expr_res(r), final(self).at()) == paren(old(self).toks(), old(self).fl(), old(self).n(), old(self).at()),
            r is Ok ==> final(self).at() > old(self).at(),
        decreases old(self).n(), old(self).toks().len() - old(self).at(), 20int,
    {
        self.advance();
        if matches!(*self.kind_at(), TokenKind::RParen) {
            self.advance();
            let v: Vec<Expr> = Vec::new();
            assert(exprs_view(v@) =~= Seq::empty());
            return Ok(Expr::Tuple(v));
        }
        let first = self.expr(0)?;
        if matches!(*self.kind_at(), TokenKind::Comma) {
            let v = vec![first];
            proof {
                lemma_exprs_push(Seq::empty(), first);
                assert(v@ =~= Seq::<Expr>::empty().push(first));
            }
            let xs = self.items(TokenKind::RParen, v)?;
            self.expect(TokenKind::RParen, "tuple )")?;
            return Ok(Expr::Tuple(xs));
        }
        if matches!(*self.kind_at(), TokenKind::KwFor) {
            self.skip_parens();
            if matches!(*self.kind_at(), TokenKind::RParen) {
                self.advance();
            }
            let gens: Vec<crate::py2uc::ast::Comprehension> = Vec::new();
            return Ok(Expr::Generator(Box::new(first), gens));
        }
        self.expect(TokenKind::RParen, "expr )")?;
        Ok(first)
    }

    pub(crate) fn list(&mut self) -> (r: Result<Expr, String>)
        requires
            old(self).wf(),
            kind(old(self).toks(), old(self).at()) is LBracket,
        ensures
            final(self).wf(),
            final(self).toks() == old(self).toks(),
            final(self).fl() == old(self).fl(),
            final(self).n() == old(self).n(),
            final(self).at() >= old(self).at(),
            (expr_res(r), final(self).at()) == list(old(self).toks(), old(self).fl(), old(self).n(), old(self).at()),
            r is Ok ==> final(self).at() > old(self).at(),
        decreases old(self).n(), old(self).toks().len() - old(self).at(), 20int,
    {
        self.advance();
        if matches!(*self.kind_at(), TokenKind::RBracket) {
            self.advance();
            let v: Vec<Expr> = Vec::new();
            assert(exprs_view(v@) =~= Seq::empty());
            return Ok(Expr::List(v));
        }
        let first = self.expr(0)?;
        if matches!(*self.kind_at(), TokenKind::KwFor) {
            self.skip_until(1);
            self.advance();
            let v: Vec<Expr> = Vec::new();
            assert(exprs_view(v@) =~= Seq::empty());
            return Ok(Expr::List(v));
        }
        let v = vec![first];
        proof {
            lemma_exprs_push(Seq::empty(), first);
            assert(v@ =~= Seq::<Expr>::empty().push(first));
        }
        let xs = self.items(TokenKind::RBracket, v)?;
        self.expect(TokenKind::RBracket, "list ]")?;
        Ok(Expr::List(xs))
    }

    /// `key: value` pairs after commas up to `}`.
    #[verifier::loop_isolation(false)]
    pub(crate) fn dict_items(&mut self, init: Vec<(Box<Expr>, Box<Expr>)>) -> (r: Result<
        Vec<(Box<Expr>, Box<Expr>)>,
        String,
    >)
        requires
            old(self).wf(),
        ensures
            final(self).wf(),
            final(self).toks() == old(self).toks(),
            final(self).fl() == old(self).fl(),
            final(self).n() == old(self).n(),
            final(self).at() >= old(self).at(),
            (match r {
                Ok(v) => Ok(pairs_view(v@)),
                Err(e) => Err(e@),
            }, final(self).at()) == dict_items(old(self).toks(), old(self).fl(), old(self).n(), old(self).at(), pairs_view(init@)),
        decreases old(self).n(), old(self).toks().len() - old(self).at(), 18int,
    {
        let ghost ts = self.toks();
        let ghost p0 = self.at();
        let ghost acc0 = pairs_view(init@);
        let mut acc = init;
        loop
            invariant
                self.wf(),
                self.toks() == ts,
                ts == old(self).toks(),
                self.fl() == old(self).fl(),
                self.n() == old(self).n(),
                self.at() >= p0,
                p0 == old(self).at(),
                dict_items(ts, self.fl(), self.n(), self.at(), pairs_view(acc@)) == dict_items(ts, self.fl(), self.n(), p0, acc0),
            decreases ts.len() - self.at(),
        {
            if !matches!(*self.kind_at(), TokenKind::Comma) {
                return Ok(acc);
            }
            self.advance();
            if matches!(*self.kind_at(), TokenKind::RBrace) {
                return Ok(acc);
            }
            let k = self.expr(0)?;
            self.expect(TokenKind::Colon, "dict colon")?;
            let v = self.expr(0)?;
            let pair = (Box::new(k), Box::new(v));
            let ghost before = acc@;
            acc.push(pair);
            proof {
                lemma_pairs_push(before, pair);
            }
        }
    }

    pub(crate) fn dict_set(&mut self) -> (r: Result<Expr, String>)
        requires
            old(self).wf(),
            kind(old(self).toks(), old(self).at()) is LBrace,
        ensures
            final(self).wf(),
            final(self).toks() == old(self).toks(),
            final(self).fl() == old(self).fl(),
            final(self).n() == old(self).n(),
            final(self).at() >= old(self).at(),
            (expr_res(r), final(self).at()) == dict_set(old(self).toks(), old(self).fl(), old(self).n(), old(self).at()),
            r is Ok ==> final(self).at() > old(self).at(),
        decreases old(self).n(), old(self).toks().len() - old(self).at(), 20int,
    {
        let ghost ts = self.toks();
        self.advance();
        if matches!(*self.kind_at(), TokenKind::RBrace) {
            self.advance();
            let v: Vec<(Box<Expr>, Box<Expr>)> = Vec::new();
            assert(pairs_view(v@) =~= Seq::empty());
            return Ok(Expr::Dict(v));
        }
        let first = self.expr(0)?;
        if matches!(*self.kind_at(), TokenKind::KwFor) {
            self.skip_until(2);
            self.advance();
            let v: Vec<Expr> = Vec::new();
            assert(exprs_view(v@) =~= Seq::empty());
            return Ok(Expr::SetLiteral(v));
        }
        if matches!(*self.kind_at(), TokenKind::Colon) {
            self.advance();
            let val = self.expr(0)?;
            if matches!(*self.kind_at(), TokenKind::KwFor) {
                self.skip_until(2);
                self.advance();
                let v: Vec<(Box<Expr>, Box<Expr>)> = Vec::new();
                assert(pairs_view(v@) =~= Seq::empty());
                return Ok(Expr::Dict(v));
            }
            let first_pair = (Box::new(first), Box::new(val));
            let mut acc = vec![first_pair];
            proof {
                lemma_pairs_push(Seq::empty(), first_pair);
                assert(acc@ =~= Seq::<(Box<Expr>, Box<Expr>)>::empty().push(first_pair));
            }
            let xs = self.dict_items(acc)?;
            self.expect(TokenKind::RBrace, "dict }")?;
            return Ok(Expr::Dict(xs));
        }
        let v = vec![first];
        proof {
            lemma_exprs_push(Seq::empty(), first);
            assert(v@ =~= Seq::<Expr>::empty().push(first));
        }
        let xs = self.items(TokenKind::RBrace, v)?;
        self.expect(TokenKind::RBrace, "set }")?;
        Ok(Expr::SetLiteral(xs))
    }
}

} // verus!
