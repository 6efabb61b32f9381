//! Statements, blocks and the module.
use vstd::prelude::*;

use crate::py2uc::ast::{exprs_view, opt_expr_view, stmts_view, Expr, ExprV, Program, Stmt, StmtV};
use crate::py2uc::grammar::{
    block, decorated, decorators, expect, opt_expr, program, skip_block, skip_nl, skip_to_end,
    stmt, suite,
};
use crate::py2uc::tokenizer::TokenKind;
use super::{exprs_res, lemma_exprs_push, lemma_stmts_push, stmt_res, stmts_res, Parser};

verus! {

impl Parser {
    /// An indented block or a single statement after `:`.
    #[verifier::spinoff_prover]
    #[verifier::rlimit(100)]
    pub(crate) fn suite(&mut self) -> (r: Result<Vec<Stmt>, String>)
        requires
            old(self).wf(),
        ensures
            final(self).wf(),
            final(self).toks() == old(self).toks(),
            final(self).fl() == old(self).fl(),
            final(self).n() == old(self).n(),
            final(self).at() >= old(self).at(),
            (stmts_res(r), final(self).at()) == suite(old(self).toks(), old(self).fl(), old(self).n(), old(self).at()),
        decreases old(self).n(), old(self).toks().len() - old(self).at(), 70int,
    {
        self.skip_nl();
        if matches!(*self.kind_at(), TokenKind::Indent) {
            self.advance();
            let empty: Vec<Stmt> = Vec::new();
            assert(stmts_view(empty@) =~= Seq::<StmtV>::empty());
            let b = self.block(empty)?;
            self.skip_nl();
            if matches!(*self.kind_at(), TokenKind::Dedent) {
                self.advance();
            }
            return Ok(b);
        }
        let s = self.stmt()?;
        self.skip_nl();
        let v = vec![s];
        proof {
            assert(v@ =~= Seq::<Stmt>::empty().push(s));
            lemma_stmts_push(Seq::empty(), s);
            assert(stmts_view(Seq::<Stmt>::empty()) =~= Seq::<StmtV>::empty());
        }
        Ok(v)
    }

    /// The statements of a block up to the `Dedent` that ends it, after
    /// those in `acc`.
    #[verifier::loop_isolation(false)]
    #[verifier::spinoff_prover]
    #[verifier::rlimit(100)]
    pub(crate) fn block(&mut self, acc: Vec<Stmt>) -> (r: Result<Vec<Stmt>, String>)
        requires
            old(self).wf(),
        ensures
            final(self).wf(),
            final(self).toks() == old(self).toks(),
            final(self).fl() == old(self).fl(),
            final(self).n() == old(self).n(),
            final(self).at() >= old(self).at(),
            (stmts_res(r), final(self).at()) == block(old(self).toks(), old(self).fl(), old(self).n(), old(self).at(), stmts_view(acc@)),
        decreases old(self).n(), old(self).toks().len() - old(self).at(), 65int,
    {
        proof {
            reveal_with_fuel(stmt, 1);
        }
        let ghost ts = self.toks();
        let ghost p0 = self.at();
        let ghost acc0 = stmts_view(acc@);
        let mut acc = acc;
        loop
            invariant
                self.wf(),
                self.toks() == ts,
                self.fl() == old(self).fl(),
                self.n() == old(self).n(),
                self.at() >= p0,
                block(ts, self.fl(), self.n(), self.at(), stmts_view(acc@)) == block(ts, self.fl(), self.n(), p0, acc0),
            decreases ts.len() - self.at(),
        {
            let p = self.pos;
            self.skip_nl();
            if matches!(*self.kind_at(), TokenKind::Dedent) {
                let saved = self.pos;
                self.advance();
                self.skip_nl();
                if matches!(*self.kind_at(), TokenKind::Indent) {
                    self.advance();
                    continue;
                }
                self.pos = saved;
                return Ok(acc);
            }
            if matches!(*self.kind_at(), TokenKind::EndOfFile) {
                return Ok(acc);
            }
            let st = self.stmt()?;
            self.skip_nl();
            let ghost before = acc@;
            acc.push(st);
            proof {
                lemma_stmts_push(before, st);
            }
            if self.pos <= p {
                return Ok(acc);
            }
        }
    }

    /// An optional expression after `return` or `raise`.
    pub(crate) fn opt_expr(&mut self) -> (r: Option<Expr>)
        requires
            old(self).wf(),
        ensures
            final(self).wf(),
            final(self).toks() == old(self).toks(),
            final(self).fl() == old(self).fl(),
            final(self).n() == old(self).n(),
            final(self).at() >= old(self).at(),
            (opt_expr_view(r), final(self).at()) == opt_expr(old(self).toks(), old(self).fl(), old(self).n(), old(self).at()),
        decreases old(self).n(), old(self).toks().len() - old(self).at(), 55int,
    {
        self.skip_nl();
        let k = self.kind_at();
        if matches!(k, TokenKind::Newline) || matches!(k, TokenKind::EndOfFile) || matches!(k, TokenKind::Semicolon)
            || matches!(k, TokenKind::Dedent) || matches!(k, TokenKind::Colon) {
            return None;
        }
        match self.expr(0) {
            Ok(e) => Some(e),
            Err(_) => Some(Expr::None_),
        }
    }

    /// A statement, after any blank lines.
    #[verifier::spinoff_prover]
    #[verifier::rlimit(100)]
    pub(crate) fn stmt(&mut self) -> (r: Result<Stmt, String>)
        requires
            old(self).wf(),
        ensures
            final(self).wf(),
            final(self).toks() == old(self).toks(),
            final(self).fl() == old(self).fl(),
            final(self).n() == old(self).n(),
            final(self).at() >= old(self).at(),
            (stmt_res(r), final(self).at()) == stmt(old(self).toks(), old(self).fl(), old(self).n(), old(self).at()),
        decreases old(self).n(), old(self).toks().len() - old(self).at(), 60int,
    {
        proof {
            reveal_with_fuel(stmt, 1);
        }
        self.skip_nl();
        let k = self.kind_at();
        match k {
            TokenKind::KwDef => self.func_def(),
            TokenKind::KwClass => self.class_def(),
            TokenKind::KwIf => self.if_stmt(),
            TokenKind::KwWhile => self.while_stmt(),
            TokenKind::KwFor => self.for_stmt(),
            TokenKind::KwReturn => {
                self.advance();
                let v = self.opt_expr();
                Ok(Stmt::Return(v))
            },
            TokenKind::KwMatch => {
                self.advance();
                let _ = self.expr(0);
                self.expect(TokenKind::Colon, "match :")?;
                self.skip_nl();
                if matches!(*self.kind_at(), TokenKind::Indent) {
                    self.advance();
                    self.skip_block();
                }
                Ok(Stmt::Pass)
            },
            TokenKind::KwBreak => {
                self.advance();
                Ok(Stmt::Break)
            },
            TokenKind::KwContinue => {
                self.advance();
                Ok(Stmt::Continue)
            },
            TokenKind::KwPass => {
                self.advance();
                Ok(Stmt::Pass)
            },
            TokenKind::KwImport => self.import_stmt(),
            TokenKind::KwFrom => self.import_from(),
            TokenKind::KwTry => self.try_stmt(),
            TokenKind::KwAsync => {
                self.advance();
                if matches!(*self.kind_at(), TokenKind::KwDef) {
                    self.func_def()
                } else {
                    self.skip_to_end();
                    Ok(Stmt::Pass)
                }
            },
            TokenKind::KwRaise => {
                self.advance();
                let e = self.opt_expr();
                Ok(Stmt::Raise { exc: e, cause: None })
            },
            TokenKind::KwWith => self.with_stmt(),
            TokenKind::KwGlobal => {
                self.advance();
                let ns = self.parse_name_list();
                assert(ns@.map_values(|n: String| n@) =~= ns@.map_values(|x: String| x@));
                Ok(Stmt::Global(ns))
            },
            TokenKind::At => self.decorated(),
            _ => self.assign_or_expr(),
        }
    }

    /// The decorators `@expr` of a definition.
    #[verifier::loop_isolation(false)]
    pub(crate) fn decorators(&mut self) -> (r: Result<Vec<Expr>, String>)
        requires
            old(self).wf(),
        ensures
            final(self).wf(),
            final(self).toks() == old(self).toks(),
            final(self).fl() == old(self).fl(),
            final(self).n() == old(self).n(),
            final(self).at() >= old(self).at(),
            (exprs_res(r), final(self).at()) == decorators(old(self).toks(), old(self).fl(), old(self).n(), old(self).at(), Seq::empty()),
        decreases old(self).n(), old(self).toks().len() - old(self).at(), 54int,
    {
        let ghost ts = self.toks();
        let ghost p0 = self.at();
        let mut decs: Vec<Expr> = Vec::new();
        assert(exprs_view(decs@) =~= Seq::<ExprV>::empty());
        loop
            invariant
                self.wf(),
                self.toks() == ts,
                self.fl() == old(self).fl(),
                self.n() == old(self).n(),
                self.at() >= p0,
                decorators(ts, self.fl(), self.n(), self.at(), exprs_view(decs@)) == decorators(ts, self.fl(), self.n(), p0, Seq::empty()),
            decreases ts.len() - self.at(),
        {
            if !matches!(*self.kind_at(), TokenKind::At) {
                return Ok(decs);
            }
            let p = self.pos;
            self.advance();
            let d = self.expr(0)?;
            self.skip_nl();
            let ghost before = decs@;
            decs.push(d);
            proof {
                lemma_exprs_push(before, d);
            }
            if self.pos <= p {
                return Ok(decs);
            }
        }
    }

    /// A decorated function or class definition.
    pub(crate) fn decorated(&mut self) -> (r: Result<Stmt, String>)
        requires
            old(self).wf(),
        ensures
            final(self).wf(),
            final(self).toks() == old(self).toks(),
            final(self).fl() == old(self).fl(),
            final(self).n() == old(self).n(),
            final(self).at() >= old(self).at(),
            (stmt_res(r), final(self).at()) == decorated(old(self).toks(), old(self).fl(), old(self).n(), old(self).at()),
        decreases old(self).n(), old(self).toks().len() - old(self).at(), 55int,
    {
        proof {
            reveal_with_fuel(decorated, 1);
        }
        let decs = self.decorators()?;
        self.skip_nl();
        if matches!(*self.kind_at(), TokenKind::KwDef) {
            let f = self.func_def();
            match f {
                Ok(Stmt::FuncDef { name, args, body, decorators: _, returns: ret }) => Ok(
                    Stmt::FuncDef { name, args, body, decorators: decs, returns: ret },
                ),
                other => other,
            }
        } else if matches!(*self.kind_at(), TokenKind::KwClass) {
            let c = self.class_def();
            match c {
                Ok(Stmt::ClassDef { name, bases, body, decorators: _ }) => Ok(
                    Stmt::ClassDef { name, bases, body, decorators: decs },
                ),
                other => other,
            }
        } else {
            Err("Decorator on non-def/class".to_owned())
        }
    }

    /// The module: statements up to the end of file.
    #[verifier::loop_isolation(false)]
    #[verifier::spinoff_prover]
    #[verifier::rlimit(100)]
    pub fn parse(&mut self) -> (r: Result<Program, String>)
        requires
            old(self).wf(),
        ensures
            final(self).wf(),
            final(self).toks() == old(self).toks(),
            final(self).at() >= old(self).at(),
            (match r {
                Ok(p) => Ok(stmts_view(p.stmts@)),
                Err(e) => Err(e@),
            }, final(self).at()) == program(old(self).toks(), old(self).fl(), old(self).n(), old(self).at(), Seq::empty()),
    {
        let ghost ts = self.toks();
        let ghost p0 = self.at();
        let mut stmts: Vec<Stmt> = Vec::new();
        assert(stmts_view(stmts@) =~= Seq::<StmtV>::empty());
        loop
            invariant
                self.wf(),
                self.toks() == ts,
                self.fl() == old(self).fl(),
                self.n() == old(self).n(),
                self.at() >= p0,
                program(ts, self.fl(), self.n(), self.at(), stmts_view(stmts@)) == program(ts, self.fl(), self.n(), p0, Seq::empty()),
            decreases ts.len() - self.at(),
        {
            if matches!(*self.kind_at(), TokenKind::EndOfFile) {
                return Ok(Program { stmts });
            }
            let p = self.pos;
            self.skip_nl();
            if matches!(*self.kind_at(), TokenKind::EndOfFile) {
                return Ok(Program { stmts });
            }
            let st = self.stmt()?;
            let ghost before = stmts@;
            stmts.push(st);
            proof {
                lemma_stmts_push(before, st);
            }
            if self.pos <= p {
                return Ok(Program { stmts });
            }
        }
    }
}

} // verus!
