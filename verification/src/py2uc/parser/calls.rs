//! Calls, subscripts, lambdas and parameter lists.
use vstd::prelude::*;

use crate::py2uc::ast::{
    arg_names, args_view, expr_view, exprs_view, keywords_view, opt_expr_view, slice_view, Arg,
    Arguments, ArgsV, Expr, ExprV, Keyword, Slice, SliceV,
};
use crate::py2uc::grammar::{
    call, call_args, expect, expr, kind, lambda, list, name, no_args, params, params_loop,
    subscript,
};
use crate::py2uc::tokenizer::TokenKind;

use super::{expr_res, lemma_exprs_push, lemma_keywords_push, Parser};

verus! {

impl Parser {
    /// The arguments of a call from the current token on, after `args`
    /// and `kws`.
    pub(crate) fn call_args(&mut self, args: Vec<Expr>, kws: Vec<Keyword>) -> (r: Result<
        (Vec<Expr>, Vec<Keyword>),
        String,
    >)
        requires
            old(self).wf(),
        ensures
            final(self).wf(),
            final(self).toks() == old(self).toks(),
            final(self).fl() == old(self).fl(),
            final(self).n() == old(self).n(),
            final(self).at() >= old(self).at(),
            (match r {
                Ok((a, k)) => Ok((exprs_view(a@), keywords_view(k@))),
                Err(e) => Err(e@),
            }, final(self).at()) == call_args(
                old(self).toks(),
                old(self).fl(),
                old(self).n(),
                old(self).at(),
                exprs_view(args@),
                keywords_view(kws@),
            ),
        decreases old(self).n(), old(self).toks().len() - old(self).at(), 45int,
    {
        let mut args = args;
        let mut kws = kws;
        if matches!(*self.kind_at(), TokenKind::Star) || matches!(*self.kind_at(), TokenKind::DoubleStar) {
            self.advance();
            let x = self.expr(0)?;
            let st = Expr::Starred(Box::new(x));
            let ghost a0 = args@;
            args.push(st);
            proof {
                lemma_exprs_push(a0, st);
            }
        } else {
            let a = self.expr(0)?;
            if matches!(*self.kind_at(), TokenKind::Eq) {
                self.advance();
                match a {
                    Expr::Name(nm) => {
                        let v = self.expr(0)?;
                        let kwd = Keyword { name: Some(nm), value: v };
                        let ghost k0 = kws@;
                        kws.push(kwd);
                        proof {
                            lemma_keywords_push(k0, kwd);
                        }
                    },
                    _ => {
                        return Err("Keyword arg must be name".to_owned());
                    },
                }
            } else {
                let ghost a0 = args@;
                args.push(a);
                proof {
                    lemma_exprs_push(a0, a);
                }
            }
        }
        if matches!(*self.kind_at(), TokenKind::Comma) {
            self.advance();
            self.call_args(args, kws)
        } else {
            Ok((args, kws))
        }
    }

    /// A call of `func`.
    pub(crate) fn call(&mut self, func: Expr) -> (r: Result<Expr, String>)
        requires
            old(self).wf(),
            kind(old(self).toks(), old(self).at()) is LParen,
        ensures
            final(self).wf(),
            final(self).toks() == old(self).toks(),
            final(self).fl() == old(self).fl(),
            final(self).n() == old(self).n(),
            final(self).at() >= old(self).at(),
            (expr_res(r), final(self).at()) == call(old(self).toks(), old(self).fl(), old(self).n(), old(self).at(), expr_view(func)),
            r is Ok ==> final(self).at() > old(self).at(),
        decreases old(self).n(), old(self).toks().len() - old(self).at(), 20int,
    {
        self.advance();
        let (args, kw) = if matches!(*self.kind_at(), TokenKind::RParen) {
            let a: Vec<Expr> = Vec::new();
            let k: Vec<Keyword> = Vec::new();
            assert(exprs_view(a@) =~= Seq::empty());
            assert(keywords_view(k@) =~= Seq::empty());
            (a, k)
        } else {
            let a: Vec<Expr> = Vec::new();
            let k: Vec<Keyword> = Vec::new();
            assert(exprs_view(a@) =~= Seq::empty());
            assert(keywords_view(k@) =~= Seq::empty());
            self.call_args(a, k)?
        };
        self.expect(TokenKind::RParen, "call )")?;
        Ok(Expr::Call { func: Box::new(func), args, keywords: kw })
    }

    /// A subscript of `value`.
    #[verifier::spinoff_prover]
    #[verifier::rlimit(60)]
    pub(crate) fn subscript(&mut self, value: Expr) -> (r: Result<Expr, String>)
        requires
            old(self).wf(),
            kind(old(self).toks(), old(self).at()) is LBracket,
        ensures
            final(self).wf(),
            final(self).toks() == old(self).toks(),
            final(self).fl() == old(self).fl(),
            final(self).n() == old(self).n(),
            final(self).at() >= old(self).at(),
            (expr_res(r), final(self).at()) == subscript(old(self).toks(), old(self).fl(), old(self).n(), old(self).at(), expr_view(value)),
            r is Ok ==> final(self).at() > old(self).at(),
        decreases old(self).n(), old(self).toks().len() - old(self).at(), 20int,
    {
        self.advance();
        let lower = self.expr(0)?;
        let ghost lv = expr_view(lower);
        let slice = if matches!(*self.kind_at(), TokenKind::Colon) {
            self.advance();
            let upper = if matches!(*self.kind_at(), TokenKind::RBracket) || matches!(
                *self.kind_at(),
                TokenKind::Colon,
            ) {
                None
            } else {
                let u = self.expr(0)?;
                assert(opt_expr_view(Some(u)) == Some(expr_view(u)));
                Some(u)
            };
            let ghost uv = opt_expr_view(upper);
            let step = if matches!(*self.kind_at(), TokenKind::Colon) {
                self.advance();
                if matches!(*self.kind_at(), TokenKind::RBracket) {
                    None
                } else {
                    let st = self.expr(0)?;
                    assert(opt_expr_view(Some(st)) == Some(expr_view(st)));
                    Some(st)
                }
            } else {
                None
            };
            let ghost sv = opt_expr_view(step);
            let lw = Some(lower);
            assert(opt_expr_view(lw) == Some(lv));
            let sl = Slice::Range { lower: lw, upper, step };
            assert(slice_view(sl) == SliceV::Range { lower: Some(lv), upper: uv, step: sv });
            sl
        } else {
            let sl = Slice::Index(lower);
            assert(slice_view(sl) == SliceV::Index(lv));
            sl
        };
        let ghost slv = slice_view(slice);
        self.expect(TokenKind::RBracket, "sub ]")?;
        let r = Expr::Subscript { value: Box::new(value), slice: Box::new(slice) };
        assert(expr_view(r) == ExprV::Subscript { value: Box::new(expr_view(value)), slice: Box::new(slv) });
        return Ok(r);
    }

    /// `lambda params: body`.
    pub(crate) fn lambda(&mut self) -> (r: Result<Expr, String>)
        requires
            old(self).wf(),
            kind(old(self).toks(), old(self).at()) is KwLambda,
        ensures
            final(self).wf(),
            final(self).toks() == old(self).toks(),
            final(self).fl() == old(self).fl(),
            final(self).n() == old(self).n(),
            final(self).at() >= old(self).at(),
            (expr_res(r), final(self).at()) == lambda(old(self).toks(), old(self).fl(), old(self).n(), old(self).at()),
            r is Ok ==> final(self).at() > old(self).at(),
        decreases old(self).n(), old(self).toks().len() - old(self).at(), 20int,
    {
        self.advance();
        let args = self.params()?;
        self.expect(TokenKind::Colon, "lambda :")?;
        let body = self.expr(0)?;
        Ok(Expr::Lambda { args, body: Box::new(body) })
    }

    /// A parameter list.
    pub(crate) fn params(&mut self) -> (r: Result<Arguments, String>)
        requires
            old(self).wf(),
        ensures
            final(self).wf(),
            final(self).toks() == old(self).toks(),
            final(self).fl() == old(self).fl(),
            final(self).n() == old(self).n(),
            final(self).at() >= old(self).at(),
            (match r {
                Ok(a) => Ok(args_view(a)),
                Err(e) => Err(e@),
            }, final(self).at()) == params(old(self).toks(), old(self).fl(), old(self).n(), old(self).at()),
        decreases old(self).n(), old(self).toks().len() - old(self).at(), 16int,
    {
        let a = Arguments {
            args: Vec::new(),
            vararg: None,
            kwonlyargs: Vec::new(),
            kw_defaults: Vec::new(),
            kwarg: None,
            defaults: Vec::new(),
        };
        assert(args_view(a) =~= no_args());
        if matches!(*self.kind_at(), TokenKind::RParen) {
            return Ok(a);
        }
        self.params_loop(a, false)
    }

    /// One parameter of a list and the rest, after those in `a`.
    pub(crate) fn params_loop(&mut self, a: Arguments, saw_star: bool) -> (r: Result<Arguments, String>)
        requires
            old(self).wf(),
        ensures
            final(self).wf(),
            final(self).toks() == old(self).toks(),
            final(self).fl() == old(self).fl(),
            final(self).n() == old(self).n(),
            final(self).at() >= old(self).at(),
            (match r {
                Ok(a) => Ok(args_view(a)),
                Err(e) => Err(e@),
            }, final(self).at()) == params_loop(old(self).toks(), old(self).fl(), old(self).n(), old(self).at(), args_view(a), saw_star),
        decreases old(self).n(), old(self).toks().len() - old(self).at(), 14int,
    {
        let ghost av = args_view(a);
        let mut a = a;
        let mut saw_star = saw_star;
        if matches!(*self.kind_at(), TokenKind::DoubleStar) {
            self.advance();
            let nm = self.name()?;
            a.kwarg = Some(Box::new(Arg { arg: nm, annotation: None }));
            assert(args_view(a) == ArgsV { kwarg: Some(nm@), ..av });
            return Ok(a);
        }
        if matches!(*self.kind_at(), TokenKind::Star) {
            self.advance();
            if !(matches!(*self.kind_at(), TokenKind::Comma) || matches!(*self.kind_at(), TokenKind::RParen)) {
                let nm = self.name()?;
                a.vararg = Some(Box::new(Arg { arg: nm, annotation: None }));
                assert(args_view(a) == ArgsV { vararg: Some(nm@), ..av });
            }
            saw_star = true;
        } else {
            let nm = self.name()?;
            let has_def = matches!(*self.kind_at(), TokenKind::Eq);
            let arg = Arg { arg: nm, annotation: None };
            let ghost an = arg.arg@;
            if saw_star {
                if has_def {
                    self.advance();
                    let d = self.expr(0)?;
                    let ghost b = a.kw_defaults@;
                    a.kw_defaults.push(d);
                    proof {
                        lemma_exprs_push(b, d);
                    }
                }
                let ghost kb = a.kwonlyargs@;
                a.kwonlyargs.push(arg);
                assert(arg_names(a.kwonlyargs@) =~= arg_names(kb).push(an));
            } else {
                if has_def {
                    self.advance();
                    let d = self.expr(0)?;
                    let ghost b = a.defaults@;
                    a.defaults.push(d);
                    proof {
                        lemma_exprs_push(b, d);
                    }
                }
                let ghost ab = a.args@;
                a.args.push(arg);
                assert(arg_names(a.args@) =~= arg_names(ab).push(an));
            }
        }
        if matches!(*self.kind_at(), TokenKind::Comma) {
            self.advance();
            self.params_loop(a, saw_star)
        } else {
            Ok(a)
        }
    }
}

} // verus!
