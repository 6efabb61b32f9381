//! The Python parser: recursive descent over the token stream, with
//! precedence climbing for operators. What each rule builds is stated in
//! `grammar`.
use vstd::prelude::*;

use crate::py2uc::ast::{
    arg_names, expr_view, exprs_view, keywords_view, opt_arg_name, opt_expr_view, pairs_view,
    stmt_view, stmts_view, with_items_view, Alias, Arg, ArgsV, BinOp, CmpOp, Expr, ExprV, Keyword,
    Stmt, StmtV, WithItem,
};
use crate::py2uc::grammar::{
    adv, aug_assign, binop_tok, cmp_op_tok, count_dots, debug_kind, dotted_name, dotted_rest,
    expect, float_of, import_from, import_names, import_stmt, infix_bp, kind, list, name,
    name_list, skip_block, skip_nl, skip_parens, skip_to_close, skip_to_colon, skip_to_end,
    skip_to_rparen, skip_try, try_stmt, Floats, Toks,
};
use crate::py2uc::tokenizer::{
    kind_view, start_view, token_stream, token_view, tokenize, Token, TokenKind,
};

mod atoms;
mod calls;
mod exprs;
mod fstrings;
mod stmts;
mod compound;

verus! {

/// A parser over the tokens of one source text. Float literals take their
/// value from `floats` (literal text, bit pattern).
pub struct Parser {
    tokens: Vec<Token>,
    pos: usize,
    floats: Vec<(String, u64)>,
    bound: Ghost<int>,
}

/// The value of a float table.
pub open spec fn floats_view(fl: Seq<(String, u64)>) -> Floats {
    fl.map_values(|e: (String, u64)| (e.0@, e.1))
}

/// The tokens of a list.
pub open spec fn tokens_view(ts: Seq<Token>) -> Toks {
    ts.map_values(|t: Token| token_view(t))
}

/// A result with text, as a value.
pub open spec fn str_res(r: Result<String, String>) -> Result<Seq<char>, Seq<char>> {
    match r {
        Ok(x) => Ok(x@),
        Err(e) => Err(e@),
    }
}

/// A result with an expression, as a value.
pub open spec fn expr_res(r: Result<Expr, String>) -> Result<ExprV, Seq<char>> {
    match r {
        Ok(x) => Ok(expr_view(x)),
        Err(e) => Err(e@),
    }
}

proof fn lemma_exprs_push(s: Seq<Expr>, x: Expr)
    ensures
        exprs_view(s.push(x)) == exprs_view(s).push(expr_view(x)),
{
    assert(s.push(x).drop_last() =~= s);
}

proof fn lemma_pairs_push(s: Seq<(Box<Expr>, Box<Expr>)>, x: (Box<Expr>, Box<Expr>))
    ensures
        pairs_view(s.push(x)) == pairs_view(s).push((expr_view(*x.0), expr_view(*x.1))),
{
    assert(s.push(x).drop_last() =~= s);
}

proof fn lemma_keywords_push(s: Seq<Keyword>, x: Keyword)
    ensures
        keywords_view(s.push(x)) == keywords_view(s).push(
            (crate::py2uc::ast::opt_name(x.name), expr_view(x.value)),
        ),
{
    assert(s.push(x).drop_last() =~= s);
}

/// A parameter list being built, as a value.
pub open spec fn args_parts_view(
    args: Seq<Arg>,
    vararg: Option<Box<Arg>>,
    kwonly: Seq<Arg>,
    kwd: Seq<Expr>,
    kwarg: Option<Box<Arg>>,
    defaults: Seq<Expr>,
) -> ArgsV {
    ArgsV {
        args: arg_names(args),
        vararg: opt_arg_name(vararg),
        kwonlyargs: arg_names(kwonly),
        kw_defaults: exprs_view(kwd),
        kwarg: opt_arg_name(kwarg),
        defaults: exprs_view(defaults),
    }
}

/// A result with a statement, as a value.
pub open spec fn stmt_res(r: Result<Stmt, String>) -> Result<StmtV, Seq<char>> {
    match r {
        Ok(x) => Ok(stmt_view(x)),
        Err(e) => Err(e@),
    }
}

/// A result with statements, as a value.
pub open spec fn stmts_res(r: Result<Vec<Stmt>, String>) -> Result<Seq<StmtV>, Seq<char>> {
    match r {
        Ok(x) => Ok(stmts_view(x@)),
        Err(e) => Err(e@),
    }
}

/// A result with expressions, as a value.
pub open spec fn exprs_res(r: Result<Vec<Expr>, String>) -> Result<Seq<ExprV>, Seq<char>> {
    match r {
        Ok(x) => Ok(exprs_view(x@)),
        Err(e) => Err(e@),
    }
}

proof fn lemma_exprs_len(s: Seq<Expr>)
    ensures
        exprs_view(s).len() == s.len(),
    decreases s.len(),
{
    if s.len() > 0 {
        lemma_exprs_len(s.drop_last());
    }
}

proof fn lemma_stmts_push(s: Seq<Stmt>, x: Stmt)
    ensures
        stmts_view(s.push(x)) == stmts_view(s).push(stmt_view(x)),
{
    assert(s.push(x).drop_last() =~= s);
}

proof fn lemma_with_push(s: Seq<WithItem>, x: WithItem)
    ensures
        with_items_view(s.push(x)) == with_items_view(s).push(
            (expr_view(x.context_expr), crate::py2uc::ast::opt_expr_view(x.optional_vars)),
        ),
{
    assert(s.push(x).drop_last() =~= s);
}

/// The names of imports.
pub open spec fn alias_views(s: Seq<Alias>) -> Seq<(Seq<char>, Option<Seq<char>>)> {
    crate::py2uc::ast::aliases_view(s)
}

/// Whether `k` is a kind that `expect` is asked for.
pub open spec fn expectable(k: TokenKind) -> bool {
    k is Colon || k is LParen || k is RParen || k is RBracket || k is RBrace || k is KwElse || k is KwIn
        || k is KwImport
}

/// Every f-string in `ts` is shorter than `n`.
pub open spec fn fstrings_below(ts: Toks, n: int) -> bool {
    forall|i: int| 0 <= i < ts.len() && (#[trigger] ts[i]).kind is FStringStart ==> ts[i].lexeme.len() < n
}

impl Parser {
    /// The tokens.
    pub closed spec fn toks(&self) -> Toks {
        tokens_view(self.tokens@)
    }

    /// The float table.
    pub closed spec fn fl(&self) -> Floats {
        floats_view(self.floats@)
    }

    /// The position.
    pub closed spec fn at(&self) -> int {
        self.pos as int
    }

    /// The bound on f-string lengths.
    pub closed spec fn n(&self) -> int {
        self.bound@
    }

    /// The tokens end with `EndOfFile`, the position is among them, and
    /// their number leaves room for the counters.
    pub closed spec fn wf(&self) -> bool {
        &&& self.tokens@.len() >= 1
        &&& self.tokens@.len() < i64::MAX
        &&& self.tokens@.len() <= usize::MAX
        &&& self.toks().last().kind is EndOfFile
        &&& self.pos < self.tokens@.len()
        &&& fstrings_below(self.toks(), self.bound@)
        &&& 0 <= self.bound@ < usize::MAX / 8
    }

    /// A parser at the start of `tokens`, which end with `EndOfFile`; float
    /// literals take their value from `floats`; `n` bounds the f-strings.
    fn with_tokens(tokens: Vec<Token>, floats: Vec<(String, u64)>, n: Ghost<int>) -> (r: Self)
        requires
            tokens@.len() >= 1,
            tokens@.len() < i64::MAX,
            tokens_view(tokens@).last().kind is EndOfFile,
            fstrings_below(tokens_view(tokens@), n@),
            0 <= n@ < usize::MAX / 8,
        ensures
            r.wf(),
            r.toks() == tokens_view(tokens@),
            r.fl() == floats_view(floats@),
            r.at() == 0,
            r.n() == n@,
    {
        let _len = tokens.len();
        Parser { tokens, pos: 0, floats, bound: n }
    }

    /// A parser at the start of the tokens of `source`; float literals take
    /// their value from `floats` (literal text, bit pattern).
    pub fn new(source: &str, floats: Vec<(String, u64)>) -> (r: Self)
        requires
            source@.len() < usize::MAX / 8,
        ensures
            r.wf(),
            r.toks() == token_stream(source@, start_view()),
            r.fl() == floats_view(floats@),
            r.at() == 0,
            r.n() == source@.len(),
    {
        let tokens = tokenize(source);
        Parser::with_tokens(tokens, floats, Ghost(source@.len() as int))
    }

    /// The line and column of the current token.
    pub fn current_pos(&self) -> (r: (usize, usize))
        requires
            self.wf(),
        ensures
            r.0 == self.toks()[self.at()].line,
            r.1 == self.toks()[self.at()].col,
    {
        let t = &self.tokens[self.pos];
        (t.line, t.col)
    }

    fn token_at(&self) -> (r: &Token)
        requires
            self.wf(),
        ensures
            token_view(*r) == self.toks()[self.at()],
    {
        &self.tokens[self.pos]
    }

    fn kind_at(&self) -> (r: &TokenKind)
        requires
            self.wf(),
        ensures
            kind_view(*r) == kind(self.toks(), self.at()),
    {
        &self.tokens[self.pos].kind
    }

    fn advance(&mut self)
        requires
            old(self).wf(),
        ensures
            final(self).wf(),
            final(self).toks() == old(self).toks(),
            final(self).fl() == old(self).fl(),
            final(self).n() == old(self).n(),
            final(self).at() == adv(old(self).toks(), old(self).at()),
    {
        if self.pos < self.tokens.len() - 1 {
            self.pos = self.pos + 1;
        }
    }

    fn skip_nl(&mut self)
        requires
            old(self).wf(),
        ensures
            final(self).wf(),
            final(self).toks() == old(self).toks(),
            final(self).fl() == old(self).fl(),
            final(self).n() == old(self).n(),
            final(self).at() == skip_nl(old(self).toks(), old(self).at()),
            final(self).at() >= old(self).at(),
    {
        let ghost ts = self.toks();
        while matches!(self.tokens[self.pos].kind, TokenKind::Newline)
            invariant
                self.wf(),
                self.toks() == ts,
                ts == old(self).toks(),
                self.fl() == old(self).fl(),
                self.n() == old(self).n(),
                self.at() >= old(self).at(),
                skip_nl(ts, self.at()) == skip_nl(ts, old(self).at()),
            decreases ts.len() - self.at(),
        {
            self.advance();
        }
    }

    /// Moves on while the current token is not `stop` (a `)`, `]`, `}` or
    /// `:`) nor the end of file.
    fn skip_until(&mut self, stop: u8)
        requires
            old(self).wf(),
            stop < 4,
        ensures
            final(self).wf(),
            final(self).toks() == old(self).toks(),
            final(self).fl() == old(self).fl(),
            final(self).n() == old(self).n(),
            final(self).at() >= old(self).at(),
            stop == 0 ==> final(self).at() == skip_to_rparen(old(self).toks(), old(self).at()),
            stop == 1 ==> final(self).at() == skip_to_close(old(self).toks(), old(self).at(), false),
            stop == 2 ==> final(self).at() == skip_to_close(old(self).toks(), old(self).at(), true),
            stop == 3 ==> final(self).at() == skip_to_colon(old(self).toks(), old(self).at()),
    {
        let ghost ts = self.toks();
        loop
            invariant
                self.wf(),
                stop < 4,
                self.toks() == ts,
                ts == old(self).toks(),
                self.fl() == old(self).fl(),
                self.n() == old(self).n(),
                self.at() >= old(self).at(),
                stop == 0 ==> skip_to_rparen(ts, self.at()) == skip_to_rparen(ts, old(self).at()),
                stop == 1 ==> skip_to_close(ts, self.at(), false) == skip_to_close(ts, old(self).at(), false),
                stop == 2 ==> skip_to_close(ts, self.at(), true) == skip_to_close(ts, old(self).at(), true),
                stop == 3 ==> skip_to_colon(ts, self.at()) == skip_to_colon(ts, old(self).at()),
            ensures
                stop == 0 ==> self.at() == skip_to_rparen(ts, self.at()),
                stop == 1 ==> self.at() == skip_to_close(ts, self.at(), false),
                stop == 2 ==> self.at() == skip_to_close(ts, self.at(), true),
                stop == 3 ==> self.at() == skip_to_colon(ts, self.at()),
            decreases ts.len() - self.at(),
        {
            let k = &self.tokens[self.pos].kind;
            let at_stop = match k {
                TokenKind::EndOfFile => true,
                TokenKind::RParen => stop == 0,
                TokenKind::RBracket => stop == 1,
                TokenKind::RBrace => stop == 2,
                TokenKind::Colon => stop == 3,
                _ => false,
            };
            if at_stop {
                break;
            }
            self.advance();
        }
    }

    /// Moves to the end of file.
    fn skip_to_end(&mut self)
        requires
            old(self).wf(),
        ensures
            final(self).wf(),
            final(self).toks() == old(self).toks(),
            final(self).fl() == old(self).fl(),
            final(self).n() == old(self).n(),
            final(self).at() == skip_to_end(old(self).toks(), old(self).at()),
            final(self).at() >= old(self).at(),
    {
        let ghost ts = self.toks();
        while !matches!(self.tokens[self.pos].kind, TokenKind::EndOfFile)
            invariant
                self.wf(),
                self.toks() == ts,
                ts == old(self).toks(),
                self.fl() == old(self).fl(),
                self.n() == old(self).n(),
                self.at() >= old(self).at(),
                skip_to_end(ts, self.at()) == skip_to_end(ts, old(self).at()),
            decreases ts.len() - self.at(),
        {
            self.advance();
        }
    }

    /// Past a bracketed run that one `(` opened: stops on the `)` that
    /// closes it, or at end of file.
    fn skip_parens(&mut self)
        requires
            old(self).wf(),
        ensures
            final(self).wf(),
            final(self).toks() == old(self).toks(),
            final(self).fl() == old(self).fl(),
            final(self).n() == old(self).n(),
            final(self).at() == skip_parens(old(self).toks(), old(self).at(), 1),
            final(self).at() >= old(self).at(),
    {
        let ghost ts = self.toks();
        let mut depth: i64 = 1;
        loop
            invariant
                self.wf(),
                self.toks() == ts,
                ts == old(self).toks(),
                self.fl() == old(self).fl(),
                self.n() == old(self).n(),
                self.at() >= old(self).at(),
                0 < depth <= self.at() - old(self).at() + 1,
                skip_parens(ts, self.at(), depth as int) == skip_parens(ts, old(self).at(), 1),
            ensures
                self.wf(),
                self.toks() == ts,
                ts == old(self).toks(),
                self.fl() == old(self).fl(),
                self.n() == old(self).n(),
                self.at() >= old(self).at(),
                self.at() == skip_parens(ts, old(self).at(), 1),
            decreases ts.len() - self.at(), depth,
        {
            let is_l = matches!(self.tokens[self.pos].kind, TokenKind::LParen);
            let is_r = matches!(self.tokens[self.pos].kind, TokenKind::RParen);
            let is_end = matches!(self.tokens[self.pos].kind, TokenKind::EndOfFile);
            if is_end {
                break;
            }
            if is_l {
                depth = depth + 1;
                self.advance();
            } else if is_r {
                if depth - 1 > 0 {
                    depth = depth - 1;
                    self.advance();
                } else {
                    break;
                }
            } else {
                self.advance();
            }
        }
    }
}

impl Parser {
    /// Whether the current token is of kind `k`.
    fn at_kind(&self, k: &TokenKind) -> (r: bool)
        requires
            self.wf(),
            expectable(*k),
        ensures
            r == (kind(self.toks(), self.at()) == kind_view(*k)),
    {
        let t = &self.tokens[self.pos].kind;
        match k {
            TokenKind::Colon => matches!(t, TokenKind::Colon),
            TokenKind::LParen => matches!(t, TokenKind::LParen),
            TokenKind::RParen => matches!(t, TokenKind::RParen),
            TokenKind::RBracket => matches!(t, TokenKind::RBracket),
            TokenKind::RBrace => matches!(t, TokenKind::RBrace),
            TokenKind::KwElse => matches!(t, TokenKind::KwElse),
            TokenKind::KwIn => matches!(t, TokenKind::KwIn),
            _ => matches!(t, TokenKind::KwImport),
        }
    }

    /// A token of kind `k`, giving its text.
    fn expect(&mut self, k: TokenKind, ctx: &str) -> (r: Result<String, String>)
        requires
            old(self).wf(),
            expectable(k),
        ensures
            final(self).wf(),
            final(self).toks() == old(self).toks(),
            final(self).fl() == old(self).fl(),
            final(self).n() == old(self).n(),
            (str_res(r), final(self).at()) == expect(old(self).toks(), old(self).at(), kind_view(k), ctx@),
            r is Ok ==> final(self).at() > old(self).at(),
    {
        if self.at_kind(&k) {
            let lex = self.tokens[self.pos].lexeme.clone();
            self.advance();
            return Ok(lex);
        }
        let mut m = ctx.to_owned();
        m.append(": expected ");
        m.append(debug_kind(&k).as_str());
        m.append(", got ");
        m.append(debug_kind(&self.tokens[self.pos].kind).as_str());
        Err(m)
    }

    /// A name.
    fn name(&mut self) -> (r: Result<String, String>)
        requires
            old(self).wf(),
        ensures
            final(self).wf(),
            final(self).toks() == old(self).toks(),
            final(self).fl() == old(self).fl(),
            final(self).n() == old(self).n(),
            (str_res(r), final(self).at()) == name(old(self).toks(), old(self).at()),
            r is Ok ==> final(self).at() > old(self).at(),
    {
        let n = match &self.tokens[self.pos].kind {
            TokenKind::Name(n) => n.clone(),
            _ => {
                let mut m = "Expected name, got ".to_owned();
                m.append(debug_kind(&self.tokens[self.pos].kind).as_str());
                return Err(m);
            },
        };
        self.advance();
        Ok(n)
    }
}

/// `a` followed by `.` and `b`.
fn dotted(a: &String, b: &String) -> (r: String)
    ensures
        r@ == a@ + "."@ + b@,
{
    let mut s = a.clone();
    s.append(".");
    s.append(b.as_str());
    s
}

impl Parser {
    /// A dotted name.
    fn dotted_name(&mut self) -> (r: Result<String, String>)
        requires
            old(self).wf(),
        ensures
            final(self).wf(),
            final(self).toks() == old(self).toks(),
            final(self).fl() == old(self).fl(),
            final(self).n() == old(self).n(),
            (str_res(r), final(self).at()) == dotted_name(old(self).toks(), old(self).at()),
            final(self).at() >= old(self).at(),
            r is Ok ==> final(self).at() > old(self).at(),
    {
        let ghost ts = self.toks();
        let mut n = self.name()?;
        loop
            invariant
                self.wf(),
                self.toks() == ts,
                ts == old(self).toks(),
                self.fl() == old(self).fl(),
                self.n() == old(self).n(),
                self.at() > old(self).at(),
                dotted_rest(ts, self.at(), n@) == dotted_name(ts, old(self).at()),
            decreases ts.len() - self.at(),
        {
            if !matches!(self.tokens[self.pos].kind, TokenKind::Dot) {
                return Ok(n);
            }
            let ghost p = self.at();
            self.advance();
            let part = self.name()?;
            n = dotted(&n, &part);
        }
    }

    /// Names separated by commas.
    fn parse_name_list(&mut self) -> (r: Vec<String>)
        requires
            old(self).wf(),
        ensures
            final(self).wf(),
            final(self).toks() == old(self).toks(),
            final(self).fl() == old(self).fl(),
            final(self).n() == old(self).n(),
            (r@.map_values(|x: String| x@), final(self).at()) == name_list(old(self).toks(), old(self).at(), Seq::empty()),
            final(self).at() >= old(self).at(),
    {
        let ghost ts = self.toks();
        let mut ns: Vec<String> = Vec::new();
        assert(ns@.map_values(|x: String| x@) =~= Seq::<Seq<char>>::empty());
        loop
            invariant
                self.wf(),
                self.toks() == ts,
                ts == old(self).toks(),
                self.fl() == old(self).fl(),
                self.n() == old(self).n(),
                self.at() >= old(self).at(),
                name_list(ts, self.at(), ns@.map_values(|x: String| x@)) == name_list(ts, old(self).at(), Seq::empty()),
            decreases ts.len() - self.at(),
        {
            let ghost before = ns@;
            let n = match &self.tokens[self.pos].kind {
                TokenKind::Name(n) => n.clone(),
                _ => return ns,
            };
            self.advance();
            ns.push(n);
            assert(ns@.map_values(|x: String| x@) =~= before.map_values(|x: String| x@).push(n@));
            if matches!(self.tokens[self.pos].kind, TokenKind::Comma) {
                self.advance();
            } else {
                return ns;
            }
        }
    }

    /// Imported names, each optionally renamed; dotted where `dotted`.
    fn import_names(&mut self, dotted: bool) -> (r: Result<Vec<Alias>, String>)
        requires
            old(self).wf(),
        ensures
            final(self).wf(),
            final(self).toks() == old(self).toks(),
            final(self).fl() == old(self).fl(),
            final(self).n() == old(self).n(),
            (match r {
                Ok(v) => Ok(alias_views(v@)),
                Err(e) => Err(e@),
            }, final(self).at()) == import_names(old(self).toks(), old(self).at(), dotted, Seq::empty()),
            final(self).at() >= old(self).at(),
    {
        let ghost ts = self.toks();
        let mut names: Vec<Alias> = Vec::new();
        assert(alias_views(names@) =~= Seq::empty());
        loop
            invariant
                self.wf(),
                self.toks() == ts,
                ts == old(self).toks(),
                self.fl() == old(self).fl(),
                self.n() == old(self).n(),
                self.at() >= old(self).at(),
                import_names(ts, self.at(), dotted, alias_views(names@)) == import_names(ts, old(self).at(), dotted, Seq::empty()),
            decreases ts.len() - self.at(),
        {
            let ghost p = self.at();
            let ghost before = names@;
            let n = if dotted {
                self.dotted_name()?
            } else {
                self.name()?
            };
            let asname = if matches!(self.tokens[self.pos].kind, TokenKind::KwAs) {
                self.advance();
                Some(self.name()?)
            } else {
                None
            };
            let a = Alias { name: n, asname };
            names.push(a);
            assert(alias_views(names@) =~= alias_views(before).push(crate::py2uc::ast::alias_view(a)));
            if matches!(self.tokens[self.pos].kind, TokenKind::Comma) {
                self.advance();
            } else {
                return Ok(names);
            }
        }
    }

    /// `import a.b as c, ...`.
    fn import_stmt(&mut self) -> (r: Result<Stmt, String>)
        requires
            old(self).wf(),
        ensures
            final(self).wf(),
            final(self).toks() == old(self).toks(),
            final(self).fl() == old(self).fl(),
            final(self).n() == old(self).n(),
            (stmt_res(r), final(self).at()) == import_stmt(old(self).toks(), old(self).at()),
            final(self).at() >= old(self).at(),
    {
        self.advance();
        let names = self.import_names(true)?;
        Ok(Stmt::Import { names })
    }

    /// `from .module import names`.
    fn import_from(&mut self) -> (r: Result<Stmt, String>)
        requires
            old(self).wf(),
        ensures
            final(self).wf(),
            final(self).toks() == old(self).toks(),
            final(self).fl() == old(self).fl(),
            final(self).n() == old(self).n(),
            (stmt_res(r), final(self).at()) == import_from(old(self).toks(), old(self).at()),
            final(self).at() >= old(self).at(),
    {
        let ghost ts = self.toks();
        self.advance();
        let ghost p1 = self.at();
        let mut level: usize = 0;
        while matches!(self.tokens[self.pos].kind, TokenKind::Dot)
            invariant
                self.wf(),
                self.toks() == ts,
                ts == old(self).toks(),
                self.fl() == old(self).fl(),
                self.n() == old(self).n(),
                self.at() >= p1,
                p1 >= old(self).at(),
                level <= self.at() - p1,
                level <= self.pos,
                count_dots(ts, self.at(), level as nat) == count_dots(ts, p1, 0),
            decreases ts.len() - self.at(),
        {
            level = level + 1;
            self.advance();
        }
        let module = if matches!(self.tokens[self.pos].kind, TokenKind::Name(_)) {
            Some(self.dotted_name()?)
        } else {
            None
        };
        self.expect(TokenKind::KwImport, "from import")?;
        if matches!(self.tokens[self.pos].kind, TokenKind::Star) {
            self.advance();
            let star = Alias { name: "*".to_owned(), asname: None };
            let names = vec![star];
            assert(alias_views(names@) =~= seq![("*"@, None::<Seq<char>>)]);
            return Ok(Stmt::ImportFrom { module, names, level });
        }
        let names = self.import_names(false)?;
        Ok(Stmt::ImportFrom { module, names, level })
    }

    /// Past an indented block one level deep: past the `Dedent` that
    /// closes it, or at end of file.
    fn skip_block(&mut self)
        requires
            old(self).wf(),
        ensures
            final(self).wf(),
            final(self).toks() == old(self).toks(),
            final(self).fl() == old(self).fl(),
            final(self).n() == old(self).n(),
            final(self).at() == skip_block(old(self).toks(), old(self).at(), 1),
            final(self).at() >= old(self).at(),
    {
        let ghost ts = self.toks();
        let mut depth: i64 = 1;
        loop
            invariant
                self.wf(),
                self.toks() == ts,
                ts == old(self).toks(),
                self.fl() == old(self).fl(),
                self.n() == old(self).n(),
                self.at() >= old(self).at(),
                -(self.at() - old(self).at()) <= depth <= self.at() - old(self).at() + 1,
                skip_block(ts, self.at(), depth as int) == skip_block(ts, old(self).at(), 1),
            decreases ts.len() - self.at(),
        {
            if self.pos >= self.tokens.len() - 1 || matches!(self.tokens[self.pos].kind, TokenKind::EndOfFile) {
                return;
            }
            if matches!(self.tokens[self.pos].kind, TokenKind::Indent) {
                depth = depth + 1;
                self.advance();
            } else if matches!(self.tokens[self.pos].kind, TokenKind::Dedent) {
                depth = depth - 1;
                self.advance();
                if depth == 0 {
                    return;
                }
            } else {
                self.advance();
            }
        }
    }

    /// Past the blocks of a `try` and its handlers.
    fn skip_try(&mut self)
        requires
            old(self).wf(),
        ensures
            final(self).wf(),
            final(self).toks() == old(self).toks(),
            final(self).fl() == old(self).fl(),
            final(self).n() == old(self).n(),
            final(self).at() == skip_try(old(self).toks(), old(self).at(), 1),
            final(self).at() >= old(self).at(),
    {
        let ghost ts = self.toks();
        let mut depth: i64 = 1;
        loop
            invariant
                self.wf(),
                self.toks() == ts,
                ts == old(self).toks(),
                self.fl() == old(self).fl(),
                self.n() == old(self).n(),
                self.at() >= old(self).at(),
                -(self.at() - old(self).at()) <= depth <= self.at() - old(self).at() + 1,
                skip_try(ts, self.at(), depth as int) == skip_try(ts, old(self).at(), 1),
            decreases ts.len() - self.at(),
        {
            if self.pos >= self.tokens.len() - 1 || matches!(self.tokens[self.pos].kind, TokenKind::EndOfFile) {
                return;
            }
            if matches!(self.tokens[self.pos].kind, TokenKind::Indent) {
                depth = depth + 1;
                self.advance();
            } else if matches!(self.tokens[self.pos].kind, TokenKind::Dedent) {
                depth = depth - 1;
                self.advance();
                if depth == 0 {
                    let k = &self.tokens[self.pos].kind;
                    if matches!(k, TokenKind::KwExcept) || matches!(k, TokenKind::KwFinally) || matches!(k, TokenKind::KwElse) {
                        let ghost p1 = self.at();
                        self.skip_until(3);
                        if matches!(self.tokens[self.pos].kind, TokenKind::Colon) {
                            self.advance();
                        }
                        self.skip_nl();
                        if matches!(self.tokens[self.pos].kind, TokenKind::Indent) {
                            self.advance();
                            depth = 1;
                        }
                    } else {
                        return;
                    }
                }
            } else {
                self.advance();
            }
        }
    }

    /// `try:` and its handlers, passed over.
    fn try_stmt(&mut self) -> (r: Result<Stmt, String>)
        requires
            old(self).wf(),
        ensures
            final(self).wf(),
            final(self).toks() == old(self).toks(),
            final(self).fl() == old(self).fl(),
            final(self).n() == old(self).n(),
            (stmt_res(r), final(self).at()) == try_stmt(old(self).toks(), old(self).at()),
            final(self).at() >= old(self).at(),
    {
        self.advance();
        self.expect(TokenKind::Colon, "try :")?;
        self.skip_nl();
        if matches!(self.tokens[self.pos].kind, TokenKind::Indent) {
            self.advance();
        }
        self.skip_try();
        Ok(Stmt::Pass)
    }
}

// ── Operators ──

fn infix_bp_of(k: &TokenKind) -> (r: Option<(u8, u8)>)
    ensures
        r == infix_bp(kind_view(*k)),
{
    match k {
        TokenKind::KwOr => Some((1, 2)),
        TokenKind::KwAnd => Some((2, 3)),
        TokenKind::EqEq | TokenKind::NotEq | TokenKind::Lt | TokenKind::Gt | TokenKind::LtE
        | TokenKind::GtE | TokenKind::KwIn | TokenKind::Is => Some((4, 5)),
        TokenKind::Pipe => Some((5, 6)),
        TokenKind::BitXor => Some((6, 7)),
        TokenKind::BitAnd => Some((7, 8)),
        TokenKind::LShift | TokenKind::RShift => Some((8, 9)),
        TokenKind::Plus | TokenKind::Minus => Some((9, 10)),
        TokenKind::Star | TokenKind::Slash | TokenKind::Percent | TokenKind::FloorDiv
        | TokenKind::At => Some((10, 11)),
        TokenKind::DoubleStar => Some((13, 13)),
        _ => None,
    }
}

fn binop_of(k: &TokenKind) -> (r: BinOp)
    ensures
        r == binop_tok(kind_view(*k)),
{
    match k {
        TokenKind::Plus => BinOp::Add,
        TokenKind::Minus => BinOp::Sub,
        TokenKind::Star => BinOp::Mul,
        TokenKind::Slash => BinOp::Div,
        TokenKind::Percent => BinOp::Mod,
        TokenKind::DoubleStar => BinOp::Pow,
        TokenKind::FloorDiv => BinOp::FloorDiv,
        TokenKind::LShift => BinOp::LShift,
        TokenKind::RShift => BinOp::RShift,
        TokenKind::Pipe => BinOp::BitOr,
        TokenKind::BitXor => BinOp::BitXor,
        TokenKind::BitAnd => BinOp::BitAnd,
        TokenKind::At => BinOp::MatMult,
        _ => BinOp::Add,
    }
}

fn cmp_of(k: &TokenKind) -> (r: Option<CmpOp>)
    ensures
        r == cmp_op_tok(kind_view(*k)),
{
    match k {
        TokenKind::EqEq => Some(CmpOp::Eq),
        TokenKind::NotEq => Some(CmpOp::NotEq),
        TokenKind::Lt => Some(CmpOp::Lt),
        TokenKind::Gt => Some(CmpOp::Gt),
        TokenKind::LtE => Some(CmpOp::LtE),
        TokenKind::GtE => Some(CmpOp::GtE),
        _ => None,
    }
}

fn aug_of(k: &TokenKind) -> (r: Option<BinOp>)
    ensures
        r == aug_assign(kind_view(*k)),
{
    match k {
        TokenKind::PlusEq => Some(BinOp::Add),
        TokenKind::MinusEq => Some(BinOp::Sub),
        TokenKind::StarEq => Some(BinOp::Mul),
        TokenKind::SlashEq => Some(BinOp::Div),
        TokenKind::PercentEq => Some(BinOp::Mod),
        TokenKind::DoubleStarEq => Some(BinOp::Pow),
        _ => None,
    }
}

/// The bit pattern of the float literal `text` in `fl`.
fn lookup_float(fl: &Vec<(String, u64)>, text: &String) -> (r: u64)
    ensures
        r == float_of(floats_view(fl@), text@),
{
    let mut i: usize = 0;
    assert(floats_view(fl@).skip(0) =~= floats_view(fl@));
    while i < fl.len()
        invariant
            i <= fl@.len(),
            float_of(floats_view(fl@).skip(i as int), text@) == float_of(floats_view(fl@), text@),
        decreases fl@.len() - i,
    {
        assert(floats_view(fl@).skip(i as int)[0] == (fl@[i as int].0@, fl@[i as int].1));
        if fl[i].0 == *text {
            return fl[i].1;
        }
        assert(floats_view(fl@).skip(i as int).drop_first() =~= floats_view(fl@).skip(i + 1));
        i = i + 1;
    }
    assert(floats_view(fl@).skip(i as int) =~= Seq::empty());
    0
}


} // verus!
