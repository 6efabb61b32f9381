//! Definitions, compound statements and assignments.
use vstd::prelude::*;

use crate::py2uc::ast::{
    expr_view, exprs_view, opt_expr_view, stmt_view, stmts_view, with_items_view, Expr, ExprV,
    Stmt, StmtV, WithItem,
};
use crate::py2uc::grammar::{
    annotation, assign_or_expr, class_def, expect, for_names, for_stmt, func_def, if_stmt,
    loop_else, name, skip_nl, skip_parens, targets, while_stmt, with_items, with_stmt,
};
use crate::py2uc::tokenizer::TokenKind;
use super::{
    aug_of, exprs_res, lemma_exprs_len, lemma_exprs_push, lemma_with_push, stmt_res, stmts_res,
    Parser,
};

verus! {

impl Parser {
    /// `def name(params) -> returns: body`.
    #[verifier::spinoff_prover]
    #[verifier::rlimit(100)]
    pub(crate) fn func_def(&mut self) -> (r: Result<Stmt, String>)
        requires
            old(self).wf(),
        ensures
            final(self).wf(),
            final(self).toks() == old(self).toks(),
            final(self).fl() == old(self).fl(),
            final(self).n() == old(self).n(),
            final(self).at() >= old(self).at(),
            (stmt_res(r), final(self).at()) == func_def(old(self).toks(), old(self).fl(), old(self).n(), old(self).at()),
        decreases old(self).n(), old(self).toks().len() - old(self).at(), 50int,
    {
        proof {
            reveal_with_fuel(func_def, 1);
        }
        if matches!(*self.kind_at(), TokenKind::EndOfFile) {
            return Err(String::new());
        }
        self.advance();
        let name = self.name()?;
        self.expect(TokenKind::LParen, "func (")?;
        let args = self.params()?;
        self.skip_until(0);
        self.expect(TokenKind::RParen, "func )")?;
        let ret = if matches!(*self.kind_at(), TokenKind::Arrow) {
            self.advance();
            let x = self.expr(0)?;
            assert(opt_expr_view(Some(x)) == Some(expr_view(x)));
            Some(x)
        } else {
            None
        };
        self.expect(TokenKind::Colon, "func :")?;
        let body = self.suite()?;
        let decorators: Vec<Expr> = Vec::new();
        assert(exprs_view(decorators@) =~= Seq::<ExprV>::empty());
        Ok(Stmt::FuncDef { name, args, body, decorators, returns: ret })
    }

    /// `class name(bases): body`.
    #[verifier::spinoff_prover]
    #[verifier::rlimit(100)]
    pub(crate) fn class_def(&mut self) -> (r: Result<Stmt, String>)
        requires
            old(self).wf(),
        ensures
            final(self).wf(),
            final(self).toks() == old(self).toks(),
            final(self).fl() == old(self).fl(),
            final(self).n() == old(self).n(),
            final(self).at() >= old(self).at(),
            (stmt_res(r), final(self).at()) == class_def(old(self).toks(), old(self).fl(), old(self).n(), old(self).at()),
        decreases old(self).n(), old(self).toks().len() - old(self).at(), 50int,
    {
        proof {
            reveal_with_fuel(class_def, 1);
        }
        if matches!(*self.kind_at(), TokenKind::EndOfFile) {
            return Err(String::new());
        }
        self.advance();
        let name = self.name()?;
        if matches!(*self.kind_at(), TokenKind::LParen) {
            self.advance();
            self.skip_parens();
            if matches!(*self.kind_at(), TokenKind::RParen) {
                self.advance();
            }
        }
        self.expect(TokenKind::Colon, "class :")?;
        let body = self.suite()?;
        let bases: Vec<Expr> = Vec::new();
        let decorators: Vec<Expr> = Vec::new();
        assert(exprs_view(decorators@) =~= Seq::<ExprV>::empty());
        Ok(Stmt::ClassDef { name, bases, body, decorators })
    }

    /// `if test: body`, then an `elif` chain or an `else` block.
    #[verifier::spinoff_prover]
    #[verifier::rlimit(100)]
    pub(crate) fn if_stmt(&mut self) -> (r: Result<Stmt, String>)
        requires
            old(self).wf(),
        ensures
            final(self).wf(),
            final(self).toks() == old(self).toks(),
            final(self).fl() == old(self).fl(),
            final(self).n() == old(self).n(),
            final(self).at() >= old(self).at(),
            (stmt_res(r), final(self).at()) == if_stmt(old(self).toks(), old(self).fl(), old(self).n(), old(self).at()),
        decreases old(self).n(), old(self).toks().len() - old(self).at(), 50int,
    {
        proof {
            reveal_with_fuel(if_stmt, 1);
        }
        if matches!(*self.kind_at(), TokenKind::EndOfFile) {
            return Err(String::new());
        }
        self.advance();
        let test = self.expr(0)?;
        self.expect(TokenKind::Colon, "if :")?;
        let body = self.suite()?;
        self.skip_nl();
        if matches!(*self.kind_at(), TokenKind::KwElif) {
            let s2 = self.if_stmt()?;
            let orelse = vec![s2];
            proof {
                assert(orelse@ =~= Seq::<Stmt>::empty().push(s2));
                assert(orelse@.drop_last() =~= Seq::<Stmt>::empty());
                assert(stmts_view(Seq::<Stmt>::empty()) =~= Seq::<StmtV>::empty());
                assert(stmts_view(orelse@) =~= seq![stmt_view(s2)]);
            }
            Ok(Stmt::If { test, body, orelse })
        } else if matches!(*self.kind_at(), TokenKind::KwElse) {
            self.advance();
            self.expect(TokenKind::Colon, "else :")?;
            let orelse = self.suite()?;
            Ok(Stmt::If { test, body, orelse })
        } else {
            let orelse: Vec<Stmt> = Vec::new();
            assert(stmts_view(orelse@) =~= Seq::<StmtV>::empty());
            Ok(Stmt::If { test, body, orelse })
        }
    }

    /// An `else:` block right after a loop body, if there is one.
    pub(crate) fn loop_else(&mut self) -> (r: Result<Vec<Stmt>, String>)
        requires
            old(self).wf(),
        ensures
            final(self).wf(),
            final(self).toks() == old(self).toks(),
            final(self).fl() == old(self).fl(),
            final(self).n() == old(self).n(),
            final(self).at() >= old(self).at(),
            (stmts_res(r), final(self).at()) == loop_else(old(self).toks(), old(self).fl(), old(self).n(), old(self).at()),
        decreases old(self).n(), old(self).toks().len() - old(self).at(), 72int,
    {
        if !matches!(*self.kind_at(), TokenKind::KwElse) {
            let v: Vec<Stmt> = Vec::new();
            assert(stmts_view(v@) =~= Seq::<StmtV>::empty());
            return Ok(v);
        }
        self.advance();
        self.expect(TokenKind::Colon, "else :")?;
        self.suite()
    }

    /// `while test: body`, with an optional `else` block.
    pub(crate) fn while_stmt(&mut self) -> (r: Result<Stmt, String>)
        requires
            old(self).wf(),
        ensures
            final(self).wf(),
            final(self).toks() == old(self).toks(),
            final(self).fl() == old(self).fl(),
            final(self).n() == old(self).n(),
            final(self).at() >= old(self).at(),
            (stmt_res(r), final(self).at()) == while_stmt(old(self).toks(), old(self).fl(), old(self).n(), old(self).at()),
        decreases old(self).n(), old(self).toks().len() - old(self).at(), 50int,
    {
        proof {
            reveal_with_fuel(while_stmt, 1);
        }
        if matches!(*self.kind_at(), TokenKind::EndOfFile) {
            return Err(String::new());
        }
        self.advance();
        let test = self.expr(0)?;
        self.expect(TokenKind::Colon, "while :")?;
        let body = self.suite()?;
        let orelse = self.loop_else()?;
        Ok(Stmt::While { test, body, orelse })
    }

    /// The loop variables of a `for`: names separated by commas.
    #[verifier::loop_isolation(false)]
    pub(crate) fn for_names(&mut self) -> (r: Result<Vec<Expr>, String>)
        requires
            old(self).wf(),
        ensures
            final(self).wf(),
            final(self).toks() == old(self).toks(),
            final(self).fl() == old(self).fl(),
            final(self).n() == old(self).n(),
            final(self).at() >= old(self).at(),
            (exprs_res(r), final(self).at()) == for_names(old(self).toks(), old(self).at(), Seq::empty()),
    {
        let ghost ts = self.toks();
        let ghost p0 = self.at();
        let mut names: Vec<Expr> = Vec::new();
        assert(exprs_view(names@) =~= Seq::<ExprV>::empty());
        loop
            invariant
                self.wf(),
                self.toks() == ts,
                self.fl() == old(self).fl(),
                self.n() == old(self).n(),
                self.at() >= p0,
                for_names(ts, self.at(), exprs_view(names@)) == for_names(ts, p0, Seq::empty()),
            decreases ts.len() - self.at(),
        {
            let nm = self.name()?;
            let x = Expr::Name(nm);
            let ghost before = names@;
            names.push(x);
            proof {
                lemma_exprs_push(before, x);
            }
            if matches!(*self.kind_at(), TokenKind::Comma) {
                self.advance();
            } else {
                return Ok(names);
            }
        }
    }

    /// `for names in iter: body`, with an optional `else` block.
    #[verifier::spinoff_prover]
    #[verifier::rlimit(100)]
    pub(crate) fn for_stmt(&mut self) -> (r: Result<Stmt, String>)
        requires
            old(self).wf(),
        ensures
            final(self).wf(),
            final(self).toks() == old(self).toks(),
            final(self).fl() == old(self).fl(),
            final(self).n() == old(self).n(),
            final(self).at() >= old(self).at(),
            (stmt_res(r), final(self).at()) == for_stmt(old(self).toks(), old(self).fl(), old(self).n(), old(self).at()),
        decreases old(self).n(), old(self).toks().len() - old(self).at(), 50int,
    {
        proof {
            reveal_with_fuel(for_stmt, 1);
        }
        if matches!(*self.kind_at(), TokenKind::EndOfFile) {
            return Err(String::new());
        }
        self.advance();
        let names = self.for_names()?;
        let ghost nv = exprs_view(names@);
        proof {
            lemma_exprs_len(names@);
        }
        let target = if names.len() == 1 {
            let ghost s = names@;
            proof {
                assert(s.drop_last() =~= Seq::<Expr>::empty());
                assert(exprs_view(s.drop_last()) =~= Seq::<ExprV>::empty());
            }
            let mut names = names;
            let t = names.pop().unwrap();
            assert(t == s[0]);
            assert(nv[0] == expr_view(t));
            t
        } else {
            Expr::Tuple(names)
        };
        self.expect(TokenKind::KwIn, "for in")?;
        let iter = self.expr(0)?;
        self.expect(TokenKind::Colon, "for :")?;
        let body = self.suite()?;
        let orelse = self.loop_else()?;
        Ok(Stmt::For { target, iter, body, orelse })
    }

    /// The items of a `with`.
    #[verifier::loop_isolation(false)]
    pub(crate) fn with_items(&mut self) -> (r: Result<Vec<WithItem>, String>)
        requires
            old(self).wf(),
        ensures
            final(self).wf(),
            final(self).toks() == old(self).toks(),
            final(self).fl() == old(self).fl(),
            final(self).n() == old(self).n(),
            final(self).at() >= old(self).at(),
            (match r {
                Ok(v) => Ok(with_items_view(v@)),
                Err(e) => Err(e@),
            }, final(self).at()) == with_items(old(self).toks(), old(self).fl(), old(self).n(), old(self).at(), Seq::empty()),
        decreases old(self).n(), old(self).toks().len() - old(self).at(), 48int,
    {
        let ghost ts = self.toks();
        let ghost p0 = self.at();
        let mut items: Vec<WithItem> = Vec::new();
        assert(with_items_view(items@) =~= Seq::<(ExprV, Option<ExprV>)>::empty());
        loop
            invariant
                self.wf(),
                self.toks() == ts,
                self.fl() == old(self).fl(),
                self.n() == old(self).n(),
                self.at() >= p0,
                with_items(ts, self.fl(), self.n(), self.at(), with_items_view(items@)) == with_items(
                    ts,
                    self.fl(),
                    self.n(),
                    p0,
                    Seq::empty(),
                ),
            decreases ts.len() - self.at(),
        {
            let ctx = self.expr(0)?;
            let vars = if matches!(*self.kind_at(), TokenKind::KwAs) {
                self.advance();
                let v = self.expr(0)?;
                assert(opt_expr_view(Some(v)) == Some(expr_view(v)));
                Some(v)
            } else {
                None
            };
            let item = WithItem { context_expr: ctx, optional_vars: vars };
            let ghost before = items@;
            items.push(item);
            proof {
                lemma_with_push(before, item);
            }
            if matches!(*self.kind_at(), TokenKind::Comma) {
                self.advance();
            } else {
                return Ok(items);
            }
        }
    }

    /// `with items: body`.
    pub(crate) fn with_stmt(&mut self) -> (r: Result<Stmt, String>)
        requires
            old(self).wf(),
        ensures
            final(self).wf(),
            final(self).toks() == old(self).toks(),
            final(self).fl() == old(self).fl(),
            final(self).n() == old(self).n(),
            final(self).at() >= old(self).at(),
            (stmt_res(r), final(self).at()) == with_stmt(old(self).toks(), old(self).fl(), old(self).n(), old(self).at()),
        decreases old(self).n(), old(self).toks().len() - old(self).at(), 50int,
    {
        proof {
            reveal_with_fuel(with_stmt, 1);
        }
        if matches!(*self.kind_at(), TokenKind::EndOfFile) {
            return Err(String::new());
        }
        self.advance();
        let items = self.with_items()?;
        self.expect(TokenKind::Colon, "with :")?;
        let body = self.suite()?;
        Ok(Stmt::With { items, body })
    }

    /// Further assignment targets after commas, after those in `init`.
    #[verifier::loop_isolation(false)]
    pub(crate) fn targets(&mut self, init: Vec<Expr>) -> (r: Result<Vec<Expr>, String>)
        requires
            old(self).wf(),
        ensures
            final(self).wf(),
            final(self).toks() == old(self).toks(),
            final(self).fl() == old(self).fl(),
            final(self).n() == old(self).n(),
            final(self).at() >= old(self).at(),
            (exprs_res(r), final(self).at()) == targets(old(self).toks(), old(self).fl(), old(self).n(), old(self).at(), exprs_view(init@)),
        decreases old(self).n(), old(self).toks().len() - old(self).at(), 48int,
    {
        let ghost ts = self.toks();
        let ghost p0 = self.at();
        let ghost acc0 = exprs_view(init@);
        let mut acc = init;
        loop
            invariant
                self.wf(),
                self.toks() == ts,
                self.fl() == old(self).fl(),
                self.n() == old(self).n(),
                self.at() >= p0,
                targets(ts, self.fl(), self.n(), self.at(), exprs_view(acc@)) == targets(ts, self.fl(), self.n(), p0, acc0),
            decreases ts.len() - self.at(),
        {
            if !matches!(*self.kind_at(), TokenKind::Comma) {
                return Ok(acc);
            }
            let p = self.pos;
            self.advance();
            self.skip_nl();
            if matches!(*self.kind_at(), TokenKind::Eq) {
                return Ok(acc);
            }
            let star = matches!(*self.kind_at(), TokenKind::Star);
            if star {
                self.advance();
            }
            let x = self.expr(0)?;
            let t = if star {
                Expr::Starred(Box::new(x))
            } else {
                x
            };
            let ghost before = acc@;
            acc.push(t);
            proof {
                lemma_exprs_push(before, t);
            }
            if self.pos <= p {
                return Ok(acc);
            }
        }
    }

    /// Past a type annotation.
    #[verifier::loop_isolation(false)]
    pub(crate) fn annotation(&mut self)
        requires
            old(self).wf(),
        ensures
            final(self).wf(),
            final(self).toks() == old(self).toks(),
            final(self).fl() == old(self).fl(),
            final(self).n() == old(self).n(),
            final(self).at() >= old(self).at(),
            final(self).at() == annotation(old(self).toks(), old(self).fl(), old(self).n(), old(self).at()),
        decreases old(self).n(), old(self).toks().len() - old(self).at(), 48int,
    {
        let ghost ts = self.toks();
        let ghost p0 = self.at();
        loop
            invariant
                self.wf(),
                self.toks() == ts,
                self.fl() == old(self).fl(),
                self.n() == old(self).n(),
                self.at() >= p0,
                annotation(ts, self.fl(), self.n(), self.at()) == annotation(ts, self.fl(), self.n(), p0),
            decreases ts.len() - self.at(),
        {
            let p = self.pos;
            let _ = self.expr(0);
            if !matches!(*self.kind_at(), TokenKind::LBracket) {
                return;
            }
            self.advance();
            let _ = self.expr(0);
            self.advance();
            if self.pos <= p {
                return;
            }
        }
    }

    /// An expression statement or an assignment.
    #[verifier::spinoff_prover]
    #[verifier::rlimit(100)]
    pub(crate) fn assign_or_expr(&mut self) -> (r: Result<Stmt, String>)
        requires
            old(self).wf(),
        ensures
            final(self).wf(),
            final(self).toks() == old(self).toks(),
            final(self).fl() == old(self).fl(),
            final(self).n() == old(self).n(),
            final(self).at() >= old(self).at(),
            (stmt_res(r), final(self).at()) == assign_or_expr(old(self).toks(), old(self).fl(), old(self).n(), old(self).at()),
        decreases old(self).n(), old(self).toks().len() - old(self).at(), 50int,
    {
        proof {
            reveal_with_fuel(assign_or_expr, 1);
        }
        let first = self.expr(0)?;
        self.skip_nl();
        let init = vec![first];
        proof {
            assert(init@ =~= Seq::<Expr>::empty().push(first));
            lemma_exprs_push(Seq::empty(), first);
            assert(exprs_view(Seq::<Expr>::empty()) =~= Seq::<ExprV>::empty());
            assert(exprs_view(init@) =~= seq![expr_view(first)]);
        }
        let tgts = self.targets(init)?;
        proof {
            lemma_exprs_len(tgts@);
        }
        if tgts.len() == 1 && matches!(*self.kind_at(), TokenKind::Colon) {
            self.advance();
            self.annotation();
        }
        let aug = aug_of(self.kind_at());
        if aug.is_some() || matches!(*self.kind_at(), TokenKind::Eq) {
            self.advance();
            let rhs = self.expr(0)?;
            return Ok(Stmt::Assign { targets: tgts, value: rhs, aug });
        }
        if tgts.len() == 1 {
            let ghost tv = exprs_view(tgts@);
            let ghost s = tgts@;
            proof {
                assert(s.drop_last() =~= Seq::<Expr>::empty());
                assert(exprs_view(s.drop_last()) =~= Seq::<ExprV>::empty());
            }
            let mut tgts = tgts;
            let t = tgts.pop().unwrap();
            assert(t == s[0]);
            assert(tv[0] == expr_view(t));
            Ok(Stmt::Expr(t))
        } else {
            Ok(Stmt::Expr(Expr::Tuple(tgts)))
        }
    }
}

} // verus!
