//! Expressions: precedence climbing over infix operators.
use vstd::prelude::*;

use crate::py2uc::ast::{expr_view, exprs_view, BinOp, BoolOp, CmpOp, Expr, ExprV};
use crate::py2uc::grammar::{
    atom, call, cmp_chain, cmp_op_tok, expect, expr, expr_loop, infix, infix_bp, kind, name,
    subscript, ternary,
};
use crate::py2uc::tokenizer::TokenKind;

use super::{binop_of, cmp_of, infix_bp_of, expr_res, lemma_exprs_push, Parser};

verus! {

// ── Expressions ──

impl Parser {
    /// An expression binding at least as tightly as `min` (0 lowest, 14
    /// highest).
    pub fn expr(&mut self, min: u8) -> (r: Result<Expr, String>)
        requires
            old(self).wf(),
        ensures
            final(self).wf(),
            final(self).toks() == old(self).toks(),
            final(self).fl() == old(self).fl(),
            final(self).n() == old(self).n(),
            final(self).at() >= old(self).at(),
            (expr_res(r), final(self).at()) == expr(old(self).toks(), old(self).fl(), old(self).n(), old(self).at(), min),
            r is Ok ==> final(self).at() > old(self).at(),
        decreases old(self).n(), old(self).toks().len() - old(self).at(), 40int,
    {
        let ghost ts = self.toks();
        let ghost p0 = self.at();
        let mut lhs = self.atom()?;
        loop
            invariant
                self.wf(),
                self.toks() == ts,
                ts == old(self).toks(),
                self.fl() == old(self).fl(),
                self.n() == old(self).n(),
                self.at() > p0,
                p0 == old(self).at(),
                expr_loop(ts, self.fl(), self.n(), self.at(), expr_view(lhs), min) == expr(ts, self.fl(), self.n(), p0, min),
            decreases ts.len() - self.at(),
        {
            if matches!(self.tokens[self.pos].kind, TokenKind::LParen) {
                lhs = self.call(lhs)?;
            } else if matches!(self.tokens[self.pos].kind, TokenKind::LBracket) {
                lhs = self.subscript(lhs)?;
            } else if matches!(self.tokens[self.pos].kind, TokenKind::Dot) {
                self.advance();
                let a = self.name()?;
                lhs = Expr::Attribute { value: Box::new(lhs), attr: a };
            } else {
                match infix_bp_of(&self.tokens[self.pos].kind) {
                    None => {
                        return self.ternary(lhs);
                    },
                    Some((lbp, rbp)) => {
                        if lbp < min {
                            return self.ternary(lhs);
                        }
                        lhs = self.infix(lhs, rbp)?;
                    },
                }
            }
        }
    }

    /// `body if test else orelse`.
    pub(crate) fn ternary(&mut self, body: Expr) -> (r: Result<Expr, String>)
        requires
            old(self).wf(),
        ensures
            final(self).wf(),
            final(self).toks() == old(self).toks(),
            final(self).fl() == old(self).fl(),
            final(self).n() == old(self).n(),
            final(self).at() >= old(self).at(),
            (expr_res(r), final(self).at()) == ternary(old(self).toks(), old(self).fl(), old(self).n(), old(self).at(), expr_view(body)),
        decreases old(self).n(), old(self).toks().len() - old(self).at(), 25int,
    {
        if !matches!(self.tokens[self.pos].kind, TokenKind::KwIf) {
            return Ok(body);
        }
        self.advance();
        let test = self.expr(0)?;
        self.expect(TokenKind::KwElse, "ternary else")?;
        let orelse = self.expr(0)?;
        Ok(Expr::IfExpr { test: Box::new(test), body: Box::new(body), orelse: Box::new(orelse) })
    }

    /// The infix operator at the current token applied to `lhs`.
    pub(crate) fn infix(&mut self, lhs: Expr, rbp: u8) -> (r: Result<Expr, String>)
        requires
            old(self).wf(),
            infix_bp(kind(old(self).toks(), old(self).at())) is Some,
        ensures
            final(self).wf(),
            final(self).toks() == old(self).toks(),
            final(self).fl() == old(self).fl(),
            final(self).n() == old(self).n(),
            final(self).at() >= old(self).at(),
            (expr_res(r), final(self).at()) == infix(old(self).toks(), old(self).fl(), old(self).n(), old(self).at(), expr_view(lhs), rbp),
            r is Ok ==> final(self).at() > old(self).at(),
        decreases old(self).n(), old(self).toks().len() - old(self).at(), 25int,
    {
        let ghost ts = self.toks();
        let is_or = matches!(self.tokens[self.pos].kind, TokenKind::KwOr);
        let is_and = matches!(self.tokens[self.pos].kind, TokenKind::KwAnd);
        if is_or || is_and {
            let op = if is_or {
                BoolOp::Or
            } else {
                BoolOp::And
            };
            self.advance();
            let rhs = self.expr(rbp)?;
            let same = match &lhs {
                Expr::BoolOp { op: eo, .. } => *eo == op,
                _ => false,
            };
            if same {
                match lhs {
                    Expr::BoolOp { op: _, values } => {
                        let mut vs = values;
                        let ghost before = vs@;
                        vs.push(rhs);
                        proof {
                            lemma_exprs_push(before, rhs);
                        }
                        return Ok(Expr::BoolOp { op, values: vs });
                    },
                    _ => {
                        return Ok(lhs);
                    },
                }
            }
            let vs = vec![lhs, rhs];
            proof {
                assert(vs@ =~= seq![lhs].push(rhs));
                lemma_exprs_push(seq![lhs], rhs);
                lemma_exprs_push(Seq::empty(), lhs);
                assert(seq![lhs] =~= Seq::<Expr>::empty().push(lhs));
                assert(exprs_view(Seq::<Expr>::empty()) =~= Seq::<ExprV>::empty());
                assert(exprs_view(vs@) =~= seq![expr_view(lhs), expr_view(rhs)]);
            }
            return Ok(Expr::BoolOp { op, values: vs });
        }
        let c = cmp_of(&self.tokens[self.pos].kind);
        if c.is_some() {
            let mut ops: Vec<CmpOp> = Vec::new();
            let mut comps: Vec<Expr> = Vec::new();
            assert(exprs_view(comps@) =~= Seq::empty());
            loop
                invariant
                self.wf(),
                self.toks() == ts,
                ts == old(self).toks(),
                self.fl() == old(self).fl(),
                self.n() == old(self).n(),
                    self.at() >= old(self).at(),
                    cmp_chain(ts, self.fl(), self.n(), self.at(), rbp, ops@, exprs_view(comps@)) == cmp_chain(
                        ts,
                        self.fl(),
                        self.n(),
                        old(self).at(),
                        rbp,
                        Seq::empty(),
                        Seq::empty(),
                    ),
                    ops@.len() > 0 ==> self.at() > old(self).at(),
                    ops@.len() == 0 ==> self.at() == old(self).at(),
                    c is Some,
                    c == cmp_op_tok(kind(ts, old(self).at())),
                ensures
                    cmp_op_tok(kind(ts, self.at())) is None,
                decreases ts.len() - self.at(),
            {
                let op = match cmp_of(self.kind_at()) {
                    Some(op) => op,
                    None => {
                        break;
                    },
                };
                let ghost before = comps@;
                ops.push(op);
                self.advance();
                let x = self.expr(rbp)?;
                comps.push(x);
                proof {
                    lemma_exprs_push(before, x);
                }
            }
            return Ok(Expr::Compare { left: Box::new(lhs), ops, comparators: comps });
        }
        if matches!(self.tokens[self.pos].kind, TokenKind::Not) {
            self.advance();
            if matches!(self.tokens[self.pos].kind, TokenKind::KwIn) {
                self.advance();
                let x = self.expr(rbp)?;
                let comps = vec![x];
                assert(exprs_view(comps@) == seq![expr_view(x)]) by {
                    lemma_exprs_push(Seq::empty(), x);
                    assert(comps@ =~= Seq::<Expr>::empty().push(x));
                }
                let ops = vec![CmpOp::NotIn];
                assert(ops@ =~= seq![CmpOp::NotIn]);
                return Ok(Expr::Compare { left: Box::new(lhs), ops, comparators: comps });
            }
            return Err("Expected 'in' after 'not'".to_owned());
        }
        if matches!(self.tokens[self.pos].kind, TokenKind::Is) {
            self.advance();
            let is_not = matches!(self.tokens[self.pos].kind, TokenKind::Not);
            if is_not {
                self.advance();
            }
            let x = self.expr(rbp)?;
            let comps = vec![x];
            assert(exprs_view(comps@) == seq![expr_view(x)]) by {
                lemma_exprs_push(Seq::empty(), x);
                assert(comps@ =~= Seq::<Expr>::empty().push(x));
            }
            let ops = vec![if is_not { CmpOp::IsNot } else { CmpOp::Is }];
            assert(ops@ =~= seq![if is_not { CmpOp::IsNot } else { CmpOp::Is }]);
            return Ok(Expr::Compare { left: Box::new(lhs), ops, comparators: comps });
        }
        if matches!(self.tokens[self.pos].kind, TokenKind::KwIn) {
            self.advance();
            let x = self.expr(rbp)?;
            let comps = vec![x];
            assert(exprs_view(comps@) == seq![expr_view(x)]) by {
                lemma_exprs_push(Seq::empty(), x);
                assert(comps@ =~= Seq::<Expr>::empty().push(x));
            }
            let ops = vec![CmpOp::In];
            assert(ops@ =~= seq![CmpOp::In]);
            return Ok(Expr::Compare { left: Box::new(lhs), ops, comparators: comps });
        }
        let op = binop_of(&self.tokens[self.pos].kind);
        self.advance();
        let rhs = self.expr(rbp)?;
        Ok(Expr::BinOp { left: Box::new(lhs), op, right: Box::new(rhs) })
    }
}

} // verus!
