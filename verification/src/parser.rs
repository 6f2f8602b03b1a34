//! The parser: recursive descent over the token sequence with
//! precedence climbing, building the expression tree or accumulating
//! parse errors with panic-mode recovery.
//!
//! The spec functions `p_*` form the mathematical parser: one function
//! per grammar shape, with the five left-associative binary levels
//! (sequence, equality, comparison, term, factor) folded into the
//! level-indexed [`p_bin`].  Each returns what it parsed, the position
//! it stopped at, and the recovery errors it recorded; the methods of
//! [`Parser`] are proved to compute exactly those outcomes.

use vstd::prelude::*;
use vstd::string::StringExecFns;
use crate::expr::{Expr, ExprV};
use crate::token::{ErrV, LitV, Literal, Token, TokenType, TokenV, tt_name};
use crate::primary_expr::{PrimaryExprValue, prim_to_expr};
use crate::scanner::toks_v;
use crate::text::lemma_push_mid;

verus! {

/// A syntactic error: the 1-based line of the offending token and a
/// message.
#[derive(Clone, Debug)]
pub struct ParseError {
    pub line: usize,
    pub message: String,
}

impl View for ParseError {
    type V = ErrV;

    open spec fn view(&self) -> ErrV {
        ErrV { line: self.line as nat, msg: self.message@ }
    }
}

/// The views of a sequence of parse errors.
pub open spec fn perrs_v(es: Seq<ParseError>) -> Seq<ErrV> {
    es.map_values(|e: ParseError| e@)
}

/// Well-formedness of a token sequence as the parser needs it: it
/// ends with an end-of-input token, which the lexer always appends.
pub open spec fn wf_toks(ts: Seq<TokenV>) -> bool {
    &&& ts.len() >= 1
    &&& ts[ts.len() - 1].kind == TokenType::EOF
}

/// What one grammar shape parses: the expression or the fatal error,
/// the position the parse stopped at, and the recovery errors it
/// recorded.
pub ghost struct POut {
    pub res: Result<ExprV, ErrV>,
    pub next: int,
    pub errs: Seq<ErrV>,
}

/// The operator kinds of the five left-associative binary levels,
/// lowest precedence first: sequence, equality, comparison, term,
/// factor.
pub open spec fn level_op(lvl: int, k: TokenType) -> bool {
    if lvl == 0 {
        k == TokenType::Comma
    } else if lvl == 1 {
        k == TokenType::EqualEqual || k == TokenType::BangEqual
    } else if lvl == 2 {
        k == TokenType::Greater || k == TokenType::GreaterEqual || k == TokenType::Less || k
            == TokenType::LessEqual
    } else if lvl == 3 {
        k == TokenType::Minus || k == TokenType::Plus
    } else {
        k == TokenType::Slash || k == TokenType::Star
    }
}

/// The kinds the unary level consumes.
pub open spec fn is_unary_op(k: TokenType) -> bool {
    k == TokenType::Bang || k == TokenType::Minus
}

/// The kinds a literal primary starts with.
pub open spec fn is_primary_start(k: TokenType) -> bool {
    k == TokenType::String || k == TokenType::Identifier || k == TokenType::Number || k
        == TokenType::True || k == TokenType::False || k == TokenType::Nil
}

/// The binary-operator kinds that trigger missing-operand recovery at
/// the primary level.
pub open spec fn is_recovery_op(k: TokenType) -> bool {
    k == TokenType::Plus || k == TokenType::Star || k == TokenType::Slash || k == TokenType::Greater
        || k == TokenType::GreaterEqual || k == TokenType::Less || k == TokenType::LessEqual || k
        == TokenType::EqualEqual || k == TokenType::BangEqual
}

/// The literal value a primary token stands for: its payload for a
/// string, identifier or number token (nil if, impossibly, the payload
/// is absent), and the boolean or nil value of the three keyword
/// kinds.
pub open spec fn primary_lit(t: TokenV) -> LitV {
    if t.kind == TokenType::True {
        LitV::Bool(true)
    } else if t.kind == TokenType::False {
        LitV::Bool(false)
    } else if t.kind == TokenType::Nil {
        LitV::Nil
    } else if t.lit is Some {
        t.lit->0
    } else {
        LitV::Nil
    }
}

/// Consuming one token unconditionally: refused only at the end of
/// the input.
pub open spec fn p_consume(ts: Seq<TokenV>, j: int) -> (Result<(), ErrV>, int) {
    if !(0 <= j < ts.len()) {
        (Err(ErrV { line: 1, msg: "Beyond tokens' length"@ }), j)
    } else if ts[j].kind == TokenType::EOF {
        (Err(ErrV { line: ts[j].line, msg: "Beyond tokens' length"@ }), j)
    } else {
        (Ok(()), j + 1)
    }
}

/// Consuming one token of the given kind: refused at the end of the
/// input, and on any other kind with an expected-after-expression
/// message at the offending token's line.
pub open spec fn p_consume_kind(ts: Seq<TokenV>, j: int, k: TokenType) -> (Result<(), ErrV>, int) {
    if !(0 <= j < ts.len()) {
        (Err(ErrV { line: 1, msg: "Beyond tokens' length"@ }), j)
    } else if ts[j].kind == TokenType::EOF {
        (Err(ErrV { line: ts[j].line, msg: "Beyond tokens' length"@ }), j)
    } else if ts[j].kind != k {
        (
            Err(ErrV { line: ts[j].line, msg: "Expected "@ + tt_name(k) + " after expression."@ }),
            j,
        )
    } else {
        (Ok(()), j + 1)
    }
}

/// The primary level: a literal token, a parenthesized sub-expression,
/// or missing-operand recovery before a binary operator.
pub open spec fn p_primary(ts: Seq<TokenV>, i: int) -> POut
    decreases ts.len() - i, 1int,
{
    if !(0 <= i < ts.len()) {
        POut {
            res: Err(ErrV { line: 1, msg: "Invalid expression (primary)"@ }),
            next: i,
            errs: Seq::empty(),
        }
    } else {
        let t = ts[i];
        if t.kind != TokenType::EOF && is_primary_start(t.kind) {
            POut { res: Ok(ExprV::Lit(primary_lit(t))), next: i + 1, errs: Seq::empty() }
        } else if t.kind != TokenType::EOF && t.kind == TokenType::LeftParen {
            let r = p_expression(ts, i + 1);
            match r.res {
                Err(e) => POut { res: Err(e), next: r.next, errs: r.errs },
                Ok(inner) => {
                    let (c, n2) = p_consume_kind(ts, r.next, TokenType::RightParen);
                    match c {
                        Err(e) => POut { res: Err(e), next: r.next, errs: r.errs },
                        Ok(u) => POut {
                            res: Ok(ExprV::Grouping(Box::new(inner))),
                            next: n2,
                            errs: r.errs,
                        },
                    }
                },
            }
        } else if is_recovery_op(t.kind) {
            let e0 = ErrV { line: t.line, msg: "Expected operand before "@ + t.lexeme };
            let r = p_expression(ts, i + 1);
            match r.res {
                Ok(inner) => POut {
                    res: Ok(ExprV::Grouping(Box::new(inner))),
                    next: r.next,
                    errs: seq![e0] + r.errs,
                },
                Err(e) => POut { res: Err(e), next: r.next, errs: seq![e0] + r.errs },
            }
        } else {
            POut {
                res: Err(ErrV { line: t.line, msg: "Invalid expression (primary)"@ }),
                next: i,
                errs: Seq::empty(),
            }
        }
    }
}

/// The unary level: a `!` or prefix `-` applied to a primary.
pub open spec fn p_unary(ts: Seq<TokenV>, i: int) -> POut
    decreases ts.len() - i, 2int,
{
    if 0 <= i < ts.len() && ts[i].kind != TokenType::EOF && is_unary_op(ts[i].kind) {
        let op = ts[i];
        let r = p_primary(ts, i + 1);
        match r.res {
            Ok(p) => POut {
                res: Ok(ExprV::Unary { op, right: Box::new(p) }),
                next: r.next,
                errs: r.errs,
            },
            Err(e) => POut { res: Err(e), next: r.next, errs: r.errs },
        }
    } else {
        p_primary(ts, i)
    }
}

/// The operator loop of binary level `lvl`: left-associative chaining
/// of the level's operators over its sub-level.
pub open spec fn p_bin_rest(ts: Seq<TokenV>, j: int, acc: ExprV, lvl: int) -> POut
    decreases ts.len() - j, 12 - 2 * lvl,
{
    if !(0 <= lvl <= 4) {
        POut { res: Ok(acc), next: j, errs: Seq::empty() }
    } else if 0 <= j < ts.len() && ts[j].kind != TokenType::EOF && level_op(lvl, ts[j].kind) {
        let op = ts[j];
        let r2 = if lvl == 0 {
            p_ternary(ts, j + 1)
        } else if lvl >= 4 {
            p_unary(ts, j + 1)
        } else {
            p_bin(ts, j + 1, lvl + 1)
        };
        match r2.res {
            Err(e) => POut { res: Err(e), next: r2.next, errs: r2.errs },
            Ok(rhs) => {
                let node = ExprV::Binary { left: Box::new(acc), op, right: Box::new(rhs) };
                if j + 1 <= r2.next <= ts.len() {
                    let rest = p_bin_rest(ts, r2.next, node, lvl);
                    POut { res: rest.res, next: rest.next, errs: r2.errs + rest.errs }
                } else {
                    POut { res: Ok(node), next: r2.next, errs: r2.errs }
                }
            },
        }
    } else {
        POut { res: Ok(acc), next: j, errs: Seq::empty() }
    }
}

/// Binary level `lvl`: its sub-level once, then its operator loop.
pub open spec fn p_bin(ts: Seq<TokenV>, i: int, lvl: int) -> POut
    decreases ts.len() - i, 13 - 2 * lvl,
{
    if !(0 <= lvl <= 4) {
        POut {
            res: Err(ErrV { line: 1, msg: "Invalid expression (primary)"@ }),
            next: i,
            errs: Seq::empty(),
        }
    } else {
        let r = if lvl == 0 {
            p_ternary(ts, i)
        } else if lvl >= 4 {
            p_unary(ts, i)
        } else {
            p_bin(ts, i, lvl + 1)
        };
        match r.res {
            Err(e) => r,
            Ok(acc) => {
                if i < r.next <= ts.len() {
                    let rest = p_bin_rest(ts, r.next, acc, lvl);
                    POut { res: rest.res, next: rest.next, errs: r.errs + rest.errs }
                } else {
                    r
                }
            },
        }
    }
}

/// The ternary level: right-associative `? :`, degenerating to its
/// condition when no `?` follows.
pub open spec fn p_ternary(ts: Seq<TokenV>, i: int) -> POut
    decreases ts.len() - i, 12int,
{
    let r = p_bin(ts, i, 1);
    match r.res {
        Err(e) => r,
        Ok(cond) => {
            let j = r.next;
            if i <= j < ts.len() && ts[j].kind != TokenType::EOF && ts[j].kind
                == TokenType::Question {
                let rp = p_ternary(ts, j + 1);
                match rp.res {
                    Err(e) => POut { res: Err(e), next: rp.next, errs: r.errs + rp.errs },
                    Ok(pos) => {
                        let (c, n2) = p_consume_kind(ts, rp.next, TokenType::Colon);
                        match c {
                            Err(e) => POut { res: Err(e), next: rp.next, errs: r.errs + rp.errs },
                            Ok(u) => {
                                if i < n2 <= ts.len() {
                                    let rn = p_ternary(ts, n2);
                                    match rn.res {
                                        Err(e) => POut {
                                            res: Err(e),
                                            next: rn.next,
                                            errs: r.errs + rp.errs + rn.errs,
                                        },
                                        Ok(neg) => POut {
                                            res: Ok(
                                                ExprV::Ternary {
                                                    cond: Box::new(cond),
                                                    pos: Box::new(pos),
                                                    neg: Box::new(neg),
                                                },
                                            ),
                                            next: rn.next,
                                            errs: r.errs + rp.errs + rn.errs,
                                        },
                                    }
                                } else {
                                    POut { res: Ok(cond), next: n2, errs: r.errs + rp.errs }
                                }
                            },
                        }
                    },
                }
            } else {
                r
            }
        },
    }
}

/// The whole expression grammar, from its lowest precedence level,
/// the comma sequence.
pub open spec fn p_expression(ts: Seq<TokenV>, i: int) -> POut
    decreases ts.len() - i, 14int,
{
    p_bin(ts, i, 0)
}

/// The equality level, `==` and `!=`.
pub open spec fn p_equality(ts: Seq<TokenV>, i: int) -> POut {
    p_bin(ts, i, 1)
}

/// The comparison level, `>`, `>=`, `<`, `<=`.
pub open spec fn p_comparison(ts: Seq<TokenV>, i: int) -> POut {
    p_bin(ts, i, 2)
}

/// The term level, `+` and binary `-`.
pub open spec fn p_term(ts: Seq<TokenV>, i: int) -> POut {
    p_bin(ts, i, 3)
}

/// The factor level, `*` and `/`.
pub open spec fn p_factor(ts: Seq<TokenV>, i: int) -> POut {
    p_bin(ts, i, 4)
}

/// The parse of a full token sequence: the expression tree exactly
/// when no error, fatal or recovered, is outstanding; otherwise the
/// accumulated error list, recovery errors in detection order and the
/// fatal error, if any, last.
pub open spec fn p_parse(ts: Seq<TokenV>) -> Result<ExprV, Seq<ErrV>> {
    let r = p_expression(ts, 0);
    match r.res {
        Ok(e) => if r.errs.len() == 0 {
            Ok(e)
        } else {
            Err(r.errs)
        },
        Err(e) => Err(r.errs.push(e)),
    }
}

/// The statement-boundary kinds the synchronization helper stops
/// before.
pub open spec fn is_sync_start(k: TokenType) -> bool {
    k == TokenType::Class || k == TokenType::Fn || k == TokenType::Var || k == TokenType::For || k
        == TokenType::If || k == TokenType::While || k == TokenType::Print || k
        == TokenType::Return
}

/// Where synchronization stops, scanning from `j`: at the end of the
/// input, just past a semicolon, or before a token that starts a
/// statement.
pub open spec fn sync_end(ts: Seq<TokenV>, j: int) -> int
    decreases ts.len() - j,
{
    if !(0 <= j < ts.len()) {
        j
    } else if ts[j].kind == TokenType::EOF {
        j
    } else if ts[j - 1].kind == TokenType::Semicolon {
        j
    } else if is_sync_start(ts[j].kind) {
        j
    } else {
        sync_end(ts, j + 1)
    }
}

proof fn lem_primary(ts: Seq<TokenV>, i: int)
    requires
        wf_toks(ts),
        0 <= i < ts.len(),
    ensures
        ({
            let o = p_primary(ts, i);
            &&& i <= o.next < ts.len()
            &&& o.res is Ok ==> o.next > i
        }),
    decreases ts.len() - i, 1int,
{
    let t = ts[i];
    if t.kind != TokenType::EOF {
        assert(i != ts.len() - 1);
    }
    if t.kind != TokenType::EOF && is_primary_start(t.kind) {
    } else if t.kind != TokenType::EOF && t.kind == TokenType::LeftParen {
        lem_expression(ts, i + 1);
    } else if is_recovery_op(t.kind) {
        lem_expression(ts, i + 1);
    }
}

proof fn lem_unary(ts: Seq<TokenV>, i: int)
    requires
        wf_toks(ts),
        0 <= i < ts.len(),
    ensures
        ({
            let o = p_unary(ts, i);
            &&& i <= o.next < ts.len()
            &&& o.res is Ok ==> o.next > i
        }),
    decreases ts.len() - i, 2int,
{
    if ts[i].kind != TokenType::EOF && is_unary_op(ts[i].kind) {
        assert(i != ts.len() - 1);
        lem_primary(ts, i + 1);
    } else {
        lem_primary(ts, i);
    }
}

proof fn lem_bin_rest(ts: Seq<TokenV>, j: int, acc: ExprV, lvl: int)
    requires
        wf_toks(ts),
        0 <= j < ts.len(),
        0 <= lvl <= 4,
    ensures
        ({
            let o = p_bin_rest(ts, j, acc, lvl);
            j <= o.next < ts.len()
        }),
    decreases ts.len() - j, 12 - 2 * lvl,
{
    if ts[j].kind != TokenType::EOF && level_op(lvl, ts[j].kind) {
        assert(j != ts.len() - 1);
        if lvl == 0 {
            lem_ternary(ts, j + 1);
        } else if lvl >= 4 {
            lem_unary(ts, j + 1);
        } else {
            lem_bin(ts, j + 1, lvl + 1);
        }
        let r2 = if lvl == 0 {
            p_ternary(ts, j + 1)
        } else if lvl >= 4 {
            p_unary(ts, j + 1)
        } else {
            p_bin(ts, j + 1, lvl + 1)
        };
        if r2.res is Ok {
            let node = ExprV::Binary { left: Box::new(acc), op: ts[j], right: Box::new(r2.res->Ok_0) };
            lem_bin_rest(ts, r2.next, node, lvl);
        }
    }
}

proof fn lem_bin(ts: Seq<TokenV>, i: int, lvl: int)
    requires
        wf_toks(ts),
        0 <= i < ts.len(),
        0 <= lvl <= 4,
    ensures
        ({
            let o = p_bin(ts, i, lvl);
            &&& i <= o.next < ts.len()
            &&& o.res is Ok ==> o.next > i
        }),
    decreases ts.len() - i, 13 - 2 * lvl,
{
    if lvl == 0 {
        lem_ternary(ts, i);
    } else if lvl >= 4 {
        lem_unary(ts, i);
    } else {
        lem_bin(ts, i, lvl + 1);
    }
    let r = if lvl == 0 {
        p_ternary(ts, i)
    } else if lvl >= 4 {
        p_unary(ts, i)
    } else {
        p_bin(ts, i, lvl + 1)
    };
    if r.res is Ok {
        lem_bin_rest(ts, r.next, r.res->Ok_0, lvl);
    }
}

proof fn lem_ternary(ts: Seq<TokenV>, i: int)
    requires
        wf_toks(ts),
        0 <= i < ts.len(),
    ensures
        ({
            let o = p_ternary(ts, i);
            &&& i <= o.next < ts.len()
            &&& o.res is Ok ==> o.next > i
        }),
    decreases ts.len() - i, 12int,
{
    lem_bin(ts, i, 1);
    let r = p_bin(ts, i, 1);
    if r.res is Ok {
        let j = r.next;
        if i <= j < ts.len() && ts[j].kind != TokenType::EOF && ts[j].kind == TokenType::Question {
            assert(j != ts.len() - 1);
            lem_ternary(ts, j + 1);
            let rp = p_ternary(ts, j + 1);
            if rp.res is Ok {
                let (c, n2) = p_consume_kind(ts, rp.next, TokenType::Colon);
                if c is Ok {
                    assert(rp.next != ts.len() - 1);
                    lem_ternary(ts, n2);
                }
            }
        }
    }
}

proof fn lem_expression(ts: Seq<TokenV>, i: int)
    requires
        wf_toks(ts),
        0 <= i < ts.len(),
    ensures
        ({
            let o = p_expression(ts, i);
            &&& i <= o.next < ts.len()
            &&& o.res is Ok ==> o.next > i
        }),
    decreases ts.len() - i, 14int,
{
    lem_bin(ts, i, 0);
}

/// Whether an executable parse result carries exactly the value of a
/// spec parse result.
pub open spec fn res_matches(r: Result<Expr, ParseError>, v: Result<ExprV, ErrV>) -> bool {
    match r {
        Ok(e) => v is Ok && e@ == v->Ok_0,
        Err(pe) => v is Err && pe@ == v->Err_0,
    }
}

/// The recursive-descent parser's working state: the tokens, the
/// cursor, and the recovery errors collected so far.
pub struct Parser {
    pub tokens: Vec<Token>,
    pub current: usize,
    pub errors: Vec<ParseError>,
}

impl Parser {
    /// The parser's well-formedness: the tokens are a well-formed
    /// sequence and the cursor stays on a token.
    pub open spec fn wf(self) -> bool {
        &&& wf_toks(toks_v(self.tokens@))
        &&& self.current < self.tokens@.len()
    }

    /// What a grammar-shape method leaves behind: the tokens
    /// untouched, the cursor at the outcome's stop position, the
    /// outcome's recovery errors appended, and the result carrying
    /// exactly the outcome's value or fatal error.
    pub open spec fn level_post(
        pre: Parser,
        post: Parser,
        r: Result<Expr, ParseError>,
        o: POut,
    ) -> bool {
        &&& post.wf()
        &&& post.tokens == pre.tokens
        &&& post.current as int == o.next
        &&& perrs_v(post.errors@) == perrs_v(pre.errors@) + o.errs
        &&& res_matches(r, o.res)
    }

    /// Builds a parser at the beginning of a well-formed token
    /// sequence.
    pub fn new(tokens: Vec<Token>) -> (p: Parser)
        requires
            wf_toks(toks_v(tokens@)),
        ensures
            p.wf(),
            p.tokens == tokens,
            p.current == 0,
            p.errors@ == Seq::<ParseError>::empty(),
    {
        Parser { tokens, current: 0, errors: Vec::new() }
    }

    /// Records a recovery error.
    fn report_error(&mut self, message: String, line: usize)
        ensures
            final(self).tokens == old(self).tokens,
            final(self).current == old(self).current,
            final(self).errors@ == old(self).errors@.push(ParseError { line, message: message }),
    {
        self.errors.push(ParseError { line, message });
    }

    /// The kind of the token under the cursor.
    fn peek_kind(&self) -> (k: TokenType)
        requires
            self.current < self.tokens@.len(),
        ensures
            k == toks_v(self.tokens@)[self.current as int].kind,
    {
        self.tokens[self.current].token_type
    }

    /// A copy of the token under the cursor.
    fn peek_dup(&self) -> (t: Token)
        requires
            self.current < self.tokens@.len(),
        ensures
            t@ == toks_v(self.tokens@)[self.current as int],
    {
        self.tokens[self.current].dup()
    }

    /// Moves the cursor past the current token, which must not be the
    /// end-of-input token.
    fn bump(&mut self)
        requires
            old(self).wf(),
            toks_v(old(self).tokens@)[old(self).current as int].kind != TokenType::EOF,
        ensures
            final(self).wf(),
            final(self).tokens == old(self).tokens,
            final(self).errors == old(self).errors,
            final(self).current == old(self).current + 1,
    {
        let n = self.tokens.len();
        proof {
            let ts = toks_v(self.tokens@);
            assert(ts[ts.len() - 1].kind == TokenType::EOF);
            assert(self.current as int != ts.len() - 1);
        }
        self.current = self.current + 1;
    }

    /// Consumes one token unconditionally, refusing only at the end
    /// of the input.
    fn consume(&mut self) -> (r: Result<(), ParseError>)
        requires
            old(self).wf(),
        ensures
            final(self).wf(),
            final(self).tokens == old(self).tokens,
            final(self).errors == old(self).errors,
            ({
                let (c, n2) = p_consume(toks_v(old(self).tokens@), old(self).current as int);
                &&& final(self).current as int == n2
                &&& match r {
                    Ok(u) => c is Ok,
                    Err(pe) => c is Err && pe@ == c->Err_0,
                }
            }),
    {
        let line = self.tokens[self.current].line;
        let k = self.peek_kind();
        if k == TokenType::EOF {
            return Err(ParseError { line, message: String::from_str("Beyond tokens' length") });
        }
        self.bump();
        Ok(())
    }

    /// Consumes one token of the given kind, or reports which kind
    /// was expected after the expression, at the offending token's
    /// line.
    fn consume_if(&mut self, token_type: TokenType) -> (r: Result<(), ParseError>)
        requires
            old(self).wf(),
        ensures
            final(self).wf(),
            final(self).tokens == old(self).tokens,
            final(self).errors == old(self).errors,
            ({
                let (c, n2) = p_consume_kind(
                    toks_v(old(self).tokens@),
                    old(self).current as int,
                    token_type,
                );
                &&& final(self).current as int == n2
                &&& match r {
                    Ok(u) => c is Ok,
                    Err(pe) => c is Err && pe@ == c->Err_0,
                }
            }),
    {
        let line = self.tokens[self.current].line;
        let k = self.peek_kind();
        if k == TokenType::EOF {
            return Err(ParseError { line, message: String::from_str("Beyond tokens' length") });
        }
        if k != token_type {
            let mut message = String::from_str("Expected ");
            message.append(token_type.name().as_str());
            message.append(" after expression.");
            return Err(ParseError { line, message });
        }
        self.bump();
        Ok(())
    }

    /// The primary level.
    fn primary(&mut self) -> (r: Result<PrimaryExprValue, ParseError>)
        requires
            old(self).wf(),
        ensures
            ({
                let o = p_primary(toks_v(old(self).tokens@), old(self).current as int);
                &&& final(self).wf()
                &&& final(self).tokens == old(self).tokens
                &&& final(self).current as int == o.next
                &&& perrs_v(final(self).errors@) == perrs_v(old(self).errors@) + o.errs
                &&& match r {
                    Ok(p) => o.res is Ok && prim_to_expr(p@) == o.res->Ok_0,
                    Err(pe) => o.res is Err && pe@ == o.res->Err_0,
                }
            }),
        decreases old(self).tokens@.len() - old(self).current, 1int,
    {
        let ghost ts = toks_v(old(self).tokens@);
        let ghost i = old(self).current as int;
        let k = self.peek_kind();
        if k != TokenType::EOF && (k == TokenType::String || k == TokenType::Identifier || k
            == TokenType::Number || k == TokenType::True || k == TokenType::False || k
            == TokenType::Nil) {
            let prev = self.peek_dup();
            self.bump();
            let lit = match prev.token_type {
                TokenType::True => Literal::Boolean(true),
                TokenType::False => Literal::Boolean(false),
                TokenType::Nil => Literal::Nil,
                _ => match prev.literal {
                    Some(l) => l,
                    None => Literal::Nil,
                },
            };
            proof {
                assert(perrs_v(self.errors@) =~= perrs_v(old(self).errors@) + Seq::<ErrV>::empty());
            }
            return Ok(PrimaryExprValue::Literal(lit));
        }
        if k == TokenType::LeftParen {
            self.bump();
            let inner = match self.expression() {
                Ok(x) => x,
                Err(e) => {
                    return Err(e);
                },
            };
            match self.consume_if(TokenType::RightParen) {
                Ok(u) => (),
                Err(e) => {
                    return Err(e);
                },
            }
            return Ok(PrimaryExprValue::Grouping(inner));
        }
        if k == TokenType::Plus || k == TokenType::Star || k == TokenType::Slash || k
            == TokenType::Greater || k == TokenType::GreaterEqual || k == TokenType::Less || k
            == TokenType::LessEqual || k == TokenType::EqualEqual || k == TokenType::BangEqual {
            let tok = self.peek_dup();
            let mut message = String::from_str("Expected operand before ");
            message.append(tok.lexeme.as_str());
            let line = tok.line;
            self.report_error(message, line);
            proof {
                assert(perrs_v(self.errors@) =~= perrs_v(old(self).errors@).push(
                    ErrV { line: ts[i].line, msg: "Expected operand before "@ + ts[i].lexeme },
                ));
            }
            match self.consume() {
                Ok(u) => (),
                Err(e) => {
                    return vstd::pervasive::unreached();
                },
            }
            let r = self.expression();
            proof {
                lemma_push_mid(
                    perrs_v(old(self).errors@),
                    ErrV { line: ts[i].line, msg: "Expected operand before "@ + ts[i].lexeme },
                    p_expression(ts, i + 1).errs,
                );
            }
            match r {
                Ok(x) => {
                    return Ok(PrimaryExprValue::Grouping(x));
                },
                Err(e) => {
                    return Err(e);
                },
            }
        }
        let line = self.tokens[self.current].line;
        proof {
            assert(perrs_v(self.errors@) =~= perrs_v(old(self).errors@) + Seq::<ErrV>::empty());
        }
        Err(ParseError { line, message: String::from_str("Invalid expression (primary)") })
    }

    /// The unary level.
    fn unary(&mut self) -> (r: Result<Expr, ParseError>)
        requires
            old(self).wf(),
        ensures
            Parser::level_post(
                *old(self),
                *final(self),
                r,
                p_unary(toks_v(old(self).tokens@), old(self).current as int),
            ),
        decreases old(self).tokens@.len() - old(self).current, 2int,
    {
        let k = self.peek_kind();
        if k != TokenType::EOF && (k == TokenType::Bang || k == TokenType::Minus) {
            let op = self.peek_dup();
            self.bump();
            match self.primary() {
                Ok(value) => {
                    return Ok(Expr::Unary { operator: op, right: Box::new(value.into_expr()) });
                },
                Err(e) => {
                    return Err(e);
                },
            }
        }
        match self.primary() {
            Ok(value) => Ok(value.into_expr()),
            Err(e) => Err(e),
        }
    }

    /// Whether the token kind drives binary level `lvl`.
    fn is_level_op(lvl: u8, k: TokenType) -> (b: bool)
        ensures
            b == level_op(lvl as int, k),
    {
        if lvl == 0 {
            k == TokenType::Comma
        } else if lvl == 1 {
            k == TokenType::EqualEqual || k == TokenType::BangEqual
        } else if lvl == 2 {
            k == TokenType::Greater || k == TokenType::GreaterEqual || k == TokenType::Less || k
                == TokenType::LessEqual
        } else if lvl == 3 {
            k == TokenType::Minus || k == TokenType::Plus
        } else {
            k == TokenType::Slash || k == TokenType::Star
        }
    }

    /// The operator loop of binary level `lvl`.
    fn bin_rest(&mut self, acc: Expr, lvl: u8) -> (r: Result<Expr, ParseError>)
        requires
            old(self).wf(),
            lvl <= 4,
        ensures
            Parser::level_post(
                *old(self),
                *final(self),
                r,
                p_bin_rest(toks_v(old(self).tokens@), old(self).current as int, acc@, lvl as int),
            ),
        decreases old(self).tokens@.len() - old(self).current, 12 - 2 * (lvl as int),
    {
        let ghost ts = toks_v(old(self).tokens@);
        let ghost j = old(self).current as int;
        let ghost accv = acc@;
        let k = self.peek_kind();
        if k == TokenType::EOF || !Parser::is_level_op(lvl, k) {
            proof {
                assert(perrs_v(self.errors@) =~= perrs_v(old(self).errors@) + Seq::<ErrV>::empty());
            }
            return Ok(acc);
        }
        let op = self.peek_dup();
        self.bump();
        let rhs = match (if lvl == 0 {
            self.ternary()
        } else if lvl >= 4 {
            self.unary()
        } else {
            self.bin_level(lvl + 1)
        }) {
            Ok(x) => x,
            Err(e) => {
                return Err(e);
            },
        };
        proof {
            if lvl == 0 {
                lem_ternary(ts, j + 1);
            } else if lvl >= 4 {
                lem_unary(ts, j + 1);
            } else {
                lem_bin(ts, j + 1, lvl as int + 1);
            }
        }
        let ghost r2 = if lvl == 0 {
            p_ternary(ts, j + 1)
        } else if lvl >= 4 {
            p_unary(ts, j + 1)
        } else {
            p_bin(ts, j + 1, lvl as int + 1)
        };
        let node = Expr::Binary { left: Box::new(acc), operator: op, right: Box::new(rhs) };
        let ghost nodev = node@;
        let res = self.bin_rest(node, lvl);
        proof {
            assert(perrs_v(self.errors@) =~= perrs_v(old(self).errors@) + (r2.errs + p_bin_rest(
                ts,
                r2.next,
                nodev,
                lvl as int,
            ).errs));
        }
        res
    }

    /// Binary level `lvl`: its sub-level once, then its operator
    /// loop.
    fn bin_level(&mut self, lvl: u8) -> (r: Result<Expr, ParseError>)
        requires
            old(self).wf(),
            lvl <= 4,
        ensures
            Parser::level_post(
                *old(self),
                *final(self),
                r,
                p_bin(toks_v(old(self).tokens@), old(self).current as int, lvl as int),
            ),
        decreases old(self).tokens@.len() - old(self).current, 13 - 2 * (lvl as int),
    {
        let ghost ts = toks_v(old(self).tokens@);
        let ghost i = old(self).current as int;
        let acc = match (if lvl == 0 {
            self.ternary()
        } else if lvl >= 4 {
            self.unary()
        } else {
            self.bin_level(lvl + 1)
        }) {
            Ok(x) => x,
            Err(e) => {
                return Err(e);
            },
        };
        proof {
            if lvl == 0 {
                lem_ternary(ts, i);
            } else if lvl >= 4 {
                lem_unary(ts, i);
            } else {
                lem_bin(ts, i, lvl as int + 1);
            }
        }
        let ghost r = if lvl == 0 {
            p_ternary(ts, i)
        } else if lvl >= 4 {
            p_unary(ts, i)
        } else {
            p_bin(ts, i, lvl as int + 1)
        };
        let ghost accv = acc@;
        let res = self.bin_rest(acc, lvl);
        proof {
            assert(perrs_v(self.errors@) =~= perrs_v(old(self).errors@) + (r.errs + p_bin_rest(
                ts,
                r.next,
                accv,
                lvl as int,
            ).errs));
        }
        res
    }

    /// The sequence level: the comma operator, left-associative.
    fn block(&mut self) -> (r: Result<Expr, ParseError>)
        requires
            old(self).wf(),
        ensures
            Parser::level_post(
                *old(self),
                *final(self),
                r,
                p_bin(toks_v(old(self).tokens@), old(self).current as int, 0),
            ),
        decreases old(self).tokens@.len() - old(self).current, 15int,
    {
        self.bin_level(0)
    }

    /// The equality level: `==` and `!=`, left-associative.
    fn equality(&mut self) -> (r: Result<Expr, ParseError>)
        requires
            old(self).wf(),
        ensures
            Parser::level_post(
                *old(self),
                *final(self),
                r,
                p_equality(toks_v(old(self).tokens@), old(self).current as int),
            ),
        decreases old(self).tokens@.len() - old(self).current, 15int,
    {
        self.bin_level(1)
    }

    /// The comparison level: `>`, `>=`, `<`, `<=`, left-associative.
    fn comparison(&mut self) -> (r: Result<Expr, ParseError>)
        requires
            old(self).wf(),
        ensures
            Parser::level_post(
                *old(self),
                *final(self),
                r,
                p_comparison(toks_v(old(self).tokens@), old(self).current as int),
            ),
        decreases old(self).tokens@.len() - old(self).current, 15int,
    {
        self.bin_level(2)
    }

    /// The term level: `+` and binary `-`, left-associative.
    fn term(&mut self) -> (r: Result<Expr, ParseError>)
        requires
            old(self).wf(),
        ensures
            Parser::level_post(
                *old(self),
                *final(self),
                r,
                p_term(toks_v(old(self).tokens@), old(self).current as int),
            ),
        decreases old(self).tokens@.len() - old(self).current, 15int,
    {
        self.bin_level(3)
    }

    /// The factor level: `*` and `/`, left-associative.
    fn factor(&mut self) -> (r: Result<Expr, ParseError>)
        requires
            old(self).wf(),
        ensures
            Parser::level_post(
                *old(self),
                *final(self),
                r,
                p_factor(toks_v(old(self).tokens@), old(self).current as int),
            ),
        decreases old(self).tokens@.len() - old(self).current, 15int,
    {
        self.bin_level(4)
    }

    /// The ternary level.
    fn ternary(&mut self) -> (r: Result<Expr, ParseError>)
        requires
            old(self).wf(),
        ensures
            Parser::level_post(
                *old(self),
                *final(self),
                r,
                p_ternary(toks_v(old(self).tokens@), old(self).current as int),
            ),
        decreases old(self).tokens@.len() - old(self).current, 12int,
    {
        let ghost ts = toks_v(old(self).tokens@);
        let ghost i = old(self).current as int;
        let cond = match self.bin_level(1) {
            Ok(x) => x,
            Err(e) => {
                return Err(e);
            },
        };
        proof {
            lem_bin(ts, i, 1);
        }
        let ghost j = self.current as int;
        let k = self.peek_kind();
        if k == TokenType::Question {
            self.bump();
            let pos = match self.ternary() {
                Ok(x) => x,
                Err(e) => {
                    proof {
                        assert(perrs_v(self.errors@) =~= perrs_v(old(self).errors@) + (p_bin(
                            ts,
                            i,
                            1,
                        ).errs + p_ternary(ts, j + 1).errs));
                    }
                    return Err(e);
                },
            };
            proof {
                lem_ternary(ts, j + 1);
            }
            match self.consume_if(TokenType::Colon) {
                Ok(u) => (),
                Err(e) => {
                    proof {
                        assert(perrs_v(self.errors@) =~= perrs_v(old(self).errors@) + (p_bin(
                            ts,
                            i,
                            1,
                        ).errs + p_ternary(ts, j + 1).errs));
                    }
                    return Err(e);
                },
            }
            let ghost n2 = self.current as int;
            let neg = match self.ternary() {
                Ok(x) => x,
                Err(e) => {
                    proof {
                        assert(perrs_v(self.errors@) =~= perrs_v(old(self).errors@) + (p_bin(
                            ts,
                            i,
                            1,
                        ).errs + p_ternary(ts, j + 1).errs + p_ternary(ts, n2).errs));
                    }
                    return Err(e);
                },
            };
            proof {
                assert(perrs_v(self.errors@) =~= perrs_v(old(self).errors@) + (p_bin(ts, i, 1).errs
                    + p_ternary(ts, j + 1).errs + p_ternary(ts, n2).errs));
            }
            return Ok(
                Expr::Ternary {
                    condition: Box::new(cond),
                    positive: Box::new(pos),
                    negative: Box::new(neg),
                },
            );
        }
        Ok(cond)
    }

    /// The whole expression grammar.
    fn expression(&mut self) -> (r: Result<Expr, ParseError>)
        requires
            old(self).wf(),
        ensures
            Parser::level_post(
                *old(self),
                *final(self),
                r,
                p_expression(toks_v(old(self).tokens@), old(self).current as int),
            ),
        decreases old(self).tokens@.len() - old(self).current, 14int,
    {
        self.bin_level(0)
    }

    /// Skips tokens up to a statement boundary: past a semicolon, or
    /// to just before a token that starts a statement, or to the end
    /// of the input.  Unreachable from the expression grammar; kept
    /// for statement-level recovery.
    fn synchronize(&mut self)
        requires
            old(self).wf(),
        ensures
            final(self).wf(),
            final(self).tokens == old(self).tokens,
            final(self).errors == old(self).errors,
            ({
                let ts = toks_v(old(self).tokens@);
                let j = if ts[old(self).current as int].kind == TokenType::EOF {
                    old(self).current as int
                } else {
                    old(self).current + 1
                };
                final(self).current as int == sync_end(ts, j)
            }),
    {
        let ghost ts = toks_v(old(self).tokens@);
        let k0 = self.peek_kind();
        if k0 != TokenType::EOF {
            self.bump();
        }
        let ghost j0 = self.current as int;
        loop
            invariant
                self.wf(),
                self.tokens == old(self).tokens,
                self.errors == old(self).errors,
                toks_v(self.tokens@) == ts,
                0 <= j0 <= self.current as int,
                j0 == 0 ==> ts[0].kind == TokenType::EOF,
                sync_end(ts, j0) == sync_end(ts, self.current as int),
            ensures
                self.wf(),
                self.tokens == old(self).tokens,
                self.errors == old(self).errors,
                self.current as int == sync_end(ts, j0),
            decreases self.tokens@.len() - self.current,
        {
            let k = self.peek_kind();
            if k == TokenType::EOF {
                break ;
            }
            if self.current > 0 {
                let prev_kind = self.tokens[self.current - 1].token_type;
                if prev_kind == TokenType::Semicolon {
                    break ;
                }
            }
            if k == TokenType::Class || k == TokenType::Fn || k == TokenType::Var || k
                == TokenType::For || k == TokenType::If || k == TokenType::While || k
                == TokenType::Print || k == TokenType::Return {
                break ;
            }
            self.bump();
        }
    }

    /// Parses the token sequence into an expression tree: exactly the
    /// outcome of [`p_parse`] — the tree when no error, fatal or
    /// recovered, is outstanding, otherwise every accumulated error,
    /// the recovery errors in detection order and the fatal error, if
    /// any, last.
    pub fn parse(self) -> (r: Result<Expr, Vec<ParseError>>)
        requires
            self.wf(),
            self.current == 0,
            self.errors@ == Seq::<ParseError>::empty(),
        ensures
            ({
                match (r, p_parse(toks_v(self.tokens@))) {
                    (Ok(e), Ok(v)) => e@ == v,
                    (Err(es), Err(vs)) => perrs_v(es@) == vs,
                    _ => false,
                }
            }),
    {
        let ghost ts = toks_v(self.tokens@);
        let mut p = self;
        proof {
            assert(perrs_v(p.errors@) =~= Seq::<ErrV>::empty());
        }
        let r = p.expression();
        proof {
            assert(perrs_v(p.errors@) =~= p_expression(ts, 0).errs);
        }
        match r {
            Ok(x) => {
                if p.errors.len() == 0 {
                    Ok(x)
                } else {
                    Err(p.errors)
                }
            },
            Err(e) => {
                let ghost ev = e@;
                p.errors.push(e);
                proof {
                    assert(perrs_v(p.errors@) =~= p_expression(ts, 0).errs.push(ev));
                }
                Err(p.errors)
            },
        }
    }
}

} // verus!
