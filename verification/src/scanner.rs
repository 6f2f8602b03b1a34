//! The lexer: a single left-to-right pass over the source characters
//! that produces the token sequence, or the full list of lexical
//! errors.
//!
//! The spec function [`scan_from`] is the mathematical lexer: it maps
//! the characters from a position, together with the current 1-based
//! line, to the tokens, the errors and the final line of the remainder
//! of the input.  [`Scanner::scan_tokens`] is proved to produce exactly
//! that, with an end-of-input token appended on success.

use vstd::prelude::*;
use vstd::string::StringExecFns;
use crate::float_bits::f64_of_text;
use crate::text::{
    lemma_push_mid,
    chars_vec,
    digit,
    alpha,
    ident_char,
    is_digit,
    is_alpha,
    is_ident_char,
    string_from_range,
    push_char,
};
use crate::token::{ErrV, LitV, Literal, Token, TokenType, TokenV};

verus! {

/// A lexical error: the 1-based line it was found on and its message.
#[derive(Clone, Debug)]
pub struct ScanError {
    pub line: usize,
    pub message: String,
}

impl View for ScanError {
    type V = ErrV;

    open spec fn view(&self) -> ErrV {
        ErrV { line: self.line as nat, msg: self.message@ }
    }
}

/// What scanning the rest of the input yields: the tokens, the errors,
/// and the line counter after the last character.
pub ghost struct ScanOut {
    pub toks: Seq<TokenV>,
    pub errs: Seq<ErrV>,
    pub line: nat,
}

/// The views of a sequence of tokens.
pub open spec fn toks_v(ts: Seq<Token>) -> Seq<TokenV> {
    ts.map_values(|t: Token| t@)
}

/// The views of a sequence of scan errors.
pub open spec fn errs_v(es: Seq<ScanError>) -> Seq<ErrV> {
    es.map_values(|e: ScanError| e@)
}

/// The end of the run of decimal digits starting at `i`.
pub open spec fn digits_end(s: Seq<char>, i: int) -> int
    decreases s.len() - i,
{
    if 0 <= i < s.len() && is_digit(s[i]) {
        digits_end(s, i + 1)
    } else {
        i
    }
}

/// The end of the run of identifier characters starting at `i`.
pub open spec fn ident_end(s: Seq<char>, i: int) -> int
    decreases s.len() - i,
{
    if 0 <= i < s.len() && is_ident_char(s[i]) {
        ident_end(s, i + 1)
    } else {
        i
    }
}

/// The position of the next newline at or after `i`, or the end of the
/// input: where a line comment stops being consumed.
pub open spec fn comment_end(s: Seq<char>, i: int) -> int
    decreases s.len() - i,
{
    if 0 <= i < s.len() && s[i] != '\n' {
        comment_end(s, i + 1)
    } else {
        i
    }
}

/// Scans the body of a string literal from `i`: the position of the
/// closing quote (or the end of the input if there is none), and the
/// line counter after the newlines the body contains.
pub open spec fn string_scan(s: Seq<char>, i: int, line: nat) -> (int, nat)
    decreases s.len() - i,
{
    if i < 0 || i >= s.len() {
        (s.len() as int, line)
    } else if s[i] == '"' {
        (i, line)
    } else {
        string_scan(s, i + 1, if s[i] == '\n' { line + 1 } else { line })
    }
}

proof fn lemma_digits_end(s: Seq<char>, i: int)
    requires
        0 <= i <= s.len(),
    ensures
        i <= digits_end(s, i) <= s.len(),
    decreases s.len() - i,
{
    if i < s.len() && is_digit(s[i]) {
        lemma_digits_end(s, i + 1);
    }
}

proof fn lemma_ident_end(s: Seq<char>, i: int)
    requires
        0 <= i <= s.len(),
    ensures
        i <= ident_end(s, i) <= s.len(),
    decreases s.len() - i,
{
    if i < s.len() && is_ident_char(s[i]) {
        lemma_ident_end(s, i + 1);
    }
}

proof fn lemma_comment_end(s: Seq<char>, i: int)
    requires
        0 <= i <= s.len(),
    ensures
        i <= comment_end(s, i) <= s.len(),
    decreases s.len() - i,
{
    if i < s.len() && s[i] != '\n' {
        lemma_comment_end(s, i + 1);
    }
}

proof fn lemma_string_scan(s: Seq<char>, i: int, line: nat)
    requires
        0 <= i <= s.len(),
    ensures
        i <= string_scan(s, i, line).0 <= s.len(),
        string_scan(s, i, line).1 >= line,
        string_scan(s, i, line).0 < s.len() ==> s[string_scan(s, i, line).0] == '"',
    decreases s.len() - i,
{
    if i < s.len() && s[i] != '"' {
        lemma_string_scan(s, i + 1, if s[i] == '\n' { line + 1 } else { line });
    }
}

/// The keyword a word denotes, if any.
pub open spec fn keyword_kind(w: Seq<char>) -> Option<TokenType> {
    if w == "and"@ {
        Some(TokenType::And)
    } else if w == "class"@ {
        Some(TokenType::Class)
    } else if w == "else"@ {
        Some(TokenType::Else)
    } else if w == "false"@ {
        Some(TokenType::False)
    } else if w == "fn"@ {
        Some(TokenType::Fn)
    } else if w == "for"@ {
        Some(TokenType::For)
    } else if w == "if"@ {
        Some(TokenType::If)
    } else if w == "nil"@ {
        Some(TokenType::Nil)
    } else if w == "or"@ {
        Some(TokenType::Or)
    } else if w == "print"@ {
        Some(TokenType::Print)
    } else if w == "return"@ {
        Some(TokenType::Return)
    } else if w == "super"@ {
        Some(TokenType::Super)
    } else if w == "this"@ {
        Some(TokenType::This)
    } else if w == "true"@ {
        Some(TokenType::True)
    } else if w == "var"@ {
        Some(TokenType::Var)
    } else if w == "while"@ {
        Some(TokenType::While)
    } else {
        None
    }
}

/// Looks a word up in the keyword table.
fn keyword_lookup(text: &String) -> (r: Option<TokenType>)
    ensures
        r == keyword_kind(text@),
{
    if *text == String::from_str("and") {
        Some(TokenType::And)
    } else if *text == String::from_str("class") {
        Some(TokenType::Class)
    } else if *text == String::from_str("else") {
        Some(TokenType::Else)
    } else if *text == String::from_str("false") {
        Some(TokenType::False)
    } else if *text == String::from_str("fn") {
        Some(TokenType::Fn)
    } else if *text == String::from_str("for") {
        Some(TokenType::For)
    } else if *text == String::from_str("if") {
        Some(TokenType::If)
    } else if *text == String::from_str("nil") {
        Some(TokenType::Nil)
    } else if *text == String::from_str("or") {
        Some(TokenType::Or)
    } else if *text == String::from_str("print") {
        Some(TokenType::Print)
    } else if *text == String::from_str("return") {
        Some(TokenType::Return)
    } else if *text == String::from_str("super") {
        Some(TokenType::Super)
    } else if *text == String::from_str("this") {
        Some(TokenType::This)
    } else if *text == String::from_str("true") {
        Some(TokenType::True)
    } else if *text == String::from_str("var") {
        Some(TokenType::Var)
    } else if *text == String::from_str("while") {
        Some(TokenType::While)
    } else {
        None
    }
}

/// A token of `kind` for the single character at `i`.
pub open spec fn tok1(s: Seq<char>, i: int, kind: TokenType, line: nat) -> TokenV {
    TokenV { kind, lexeme: s.subrange(i, i + 1), lit: None, line }
}

/// A token of `kind` for the two characters at `i`.
pub open spec fn tok2(s: Seq<char>, i: int, kind: TokenType, line: nat) -> TokenV {
    TokenV { kind, lexeme: s.subrange(i, i + 2), lit: None, line }
}

/// Prepends a token to a scan outcome.
pub open spec fn out_tok(t: TokenV, o: ScanOut) -> ScanOut {
    ScanOut { toks: seq![t] + o.toks, errs: o.errs, line: o.line }
}

/// Prepends an error to a scan outcome.
pub open spec fn out_err(e: ErrV, o: ScanOut) -> ScanOut {
    ScanOut { toks: o.toks, errs: seq![e] + o.errs, line: o.line }
}

/// The mathematical lexer: scanning the input from position `i` with
/// the line counter at `line`, following the longest-match-first
/// recognition rules of the language.
pub open spec fn scan_from(s: Seq<char>, i: int, line: nat) -> ScanOut
    decreases s.len() - i,
    via scan_from_dec
{
    if i < 0 || i >= s.len() {
        ScanOut { toks: Seq::empty(), errs: Seq::empty(), line }
    } else {
        let c = s[i];
        if c == '(' {
            out_tok(tok1(s, i, TokenType::LeftParen, line), scan_from(s, i + 1, line))
        } else if c == ')' {
            out_tok(tok1(s, i, TokenType::RightParen, line), scan_from(s, i + 1, line))
        } else if c == '{' {
            out_tok(tok1(s, i, TokenType::LeftBrace, line), scan_from(s, i + 1, line))
        } else if c == '}' {
            out_tok(tok1(s, i, TokenType::RightBrace, line), scan_from(s, i + 1, line))
        } else if c == ',' {
            out_tok(tok1(s, i, TokenType::Comma, line), scan_from(s, i + 1, line))
        } else if c == '.' {
            out_tok(tok1(s, i, TokenType::Dot, line), scan_from(s, i + 1, line))
        } else if c == '-' {
            out_tok(tok1(s, i, TokenType::Minus, line), scan_from(s, i + 1, line))
        } else if c == '+' {
            out_tok(tok1(s, i, TokenType::Plus, line), scan_from(s, i + 1, line))
        } else if c == ';' {
            out_tok(tok1(s, i, TokenType::Semicolon, line), scan_from(s, i + 1, line))
        } else if c == '*' {
            out_tok(tok1(s, i, TokenType::Star, line), scan_from(s, i + 1, line))
        } else if c == '?' {
            out_tok(tok1(s, i, TokenType::Question, line), scan_from(s, i + 1, line))
        } else if c == ':' {
            out_tok(tok1(s, i, TokenType::Colon, line), scan_from(s, i + 1, line))
        } else if c == '!' {
            if i + 1 < s.len() && s[i + 1] == '=' {
                out_tok(tok2(s, i, TokenType::BangEqual, line), scan_from(s, i + 2, line))
            } else {
                out_tok(tok1(s, i, TokenType::Bang, line), scan_from(s, i + 1, line))
            }
        } else if c == '=' {
            if i + 1 < s.len() && s[i + 1] == '=' {
                out_tok(tok2(s, i, TokenType::EqualEqual, line), scan_from(s, i + 2, line))
            } else {
                out_tok(tok1(s, i, TokenType::Equal, line), scan_from(s, i + 1, line))
            }
        } else if c == '<' {
            if i + 1 < s.len() && s[i + 1] == '=' {
                out_tok(tok2(s, i, TokenType::LessEqual, line), scan_from(s, i + 2, line))
            } else {
                out_tok(tok1(s, i, TokenType::Less, line), scan_from(s, i + 1, line))
            }
        } else if c == '>' {
            if i + 1 < s.len() && s[i + 1] == '=' {
                out_tok(tok2(s, i, TokenType::GreaterEqual, line), scan_from(s, i + 2, line))
            } else {
                out_tok(tok1(s, i, TokenType::Greater, line), scan_from(s, i + 1, line))
            }
        } else if c == '/' {
            if i + 1 < s.len() && s[i + 1] == '/' {
                scan_from(s, comment_end(s, i + 2), line)
            } else {
                out_tok(tok1(s, i, TokenType::Slash, line), scan_from(s, i + 1, line))
            }
        } else if c == ' ' || c == '\r' || c == '\t' {
            scan_from(s, i + 1, line)
        } else if c == '\n' {
            scan_from(s, i + 1, line + 1)
        } else if c == '"' {
            let (j, l2) = string_scan(s, i + 1, line);
            if j >= s.len() {
                out_err(
                    ErrV { line: l2, msg: "Unterminated string"@ },
                    scan_from(s, s.len() as int, l2),
                )
            } else {
                out_tok(
                    TokenV {
                        kind: TokenType::String,
                        lexeme: s.subrange(i, j + 1),
                        lit: Some(LitV::Str(s.subrange(i + 1, j))),
                        line: l2,
                    },
                    scan_from(s, j + 1, l2),
                )
            }
        } else if is_digit(c) {
            let j1 = digits_end(s, i + 1);
            let end = if j1 + 1 < s.len() && s[j1] == '.' && is_digit(s[j1 + 1]) {
                digits_end(s, j1 + 1)
            } else {
                j1
            };
            out_tok(
                TokenV {
                    kind: TokenType::Number,
                    lexeme: s.subrange(i, end),
                    lit: Some(LitV::Num(f64_of_text(s.subrange(i, end)))),
                    line,
                },
                scan_from(s, end, line),
            )
        } else if is_alpha(c) {
            let j = ident_end(s, i + 1);
            let word = s.subrange(i, j);
            match keyword_kind(word) {
                Some(kind) => out_tok(
                    TokenV { kind, lexeme: word, lit: None, line },
                    scan_from(s, j, line),
                ),
                None => out_tok(
                    TokenV {
                        kind: TokenType::Identifier,
                        lexeme: word,
                        lit: Some(LitV::Str(word)),
                        line,
                    },
                    scan_from(s, j, line),
                ),
            }
        } else {
            out_err(
                ErrV { line, msg: "Unexpected character: "@.push(c) },
                scan_from(s, i + 1, line),
            )
        }
    }
}

#[via_fn]
proof fn scan_from_dec(s: Seq<char>, i: int, line: nat) {
    if 0 <= i < s.len() {
        if s[i] == '/' && i + 1 < s.len() && s[i + 1] == '/' {
            lemma_comment_end(s, i + 2);
        }
        if s[i] == '"' {
            lemma_string_scan(s, i + 1, line);
        }
        if is_digit(s[i]) {
            lemma_digits_end(s, i + 1);
            let j1 = digits_end(s, i + 1);
            if j1 + 1 < s.len() && s[j1] == '.' && is_digit(s[j1 + 1]) {
                lemma_digits_end(s, j1 + 1);
            }
        }
        if is_alpha(s[i]) {
            lemma_ident_end(s, i + 1);
        }
    }
}

/// The lexer's working state: the source characters, the tokens and
/// errors collected so far, the bounds of the lexeme being scanned, and
/// the current 1-based line.
pub struct Scanner {
    pub source: Vec<char>,
    pub tokens: Vec<Token>,
    pub start: usize,
    pub current: usize,
    pub line: usize,
    pub errors: Vec<ScanError>,
}

impl Scanner {
    /// The scanner's well-formedness: the cursor stays inside the
    /// source and the line counter cannot outrun the characters
    /// consumed, which keeps it from overflowing.
    pub open spec fn wf(self) -> bool {
        &&& self.current <= self.source@.len()
        &&& self.source@.len() < usize::MAX
        &&& 1 <= self.line
        &&& self.line <= 1 + self.current
    }

    /// Builds a scanner over a source string, at its beginning.
    pub fn new(source: String) -> (s: Scanner)
        requires
            source@.len() < usize::MAX,
        ensures
            s.wf(),
            s.source@ == source@,
            s.tokens@ =~= Seq::<Token>::empty(),
            s.errors@ =~= Seq::<ScanError>::empty(),
            s.start == 0,
            s.current == 0,
            s.line == 1,
    {
        Scanner {
            source: chars_vec(source.as_str()),
            tokens: Vec::new(),
            start: 0,
            current: 0,
            line: 1,
            errors: Vec::new(),
        }
    }

    /// Records a lexical error.
    fn error(&mut self, line: usize, message: String)
        ensures
            final(self).errors@ == old(self).errors@.push(
                ScanError { line, message: message },
            ),
            final(self).source == old(self).source,
            final(self).tokens == old(self).tokens,
            final(self).start == old(self).start,
            final(self).current == old(self).current,
            final(self).line == old(self).line,
    {
        self.errors.push(ScanError { line, message });
    }

    /// Appends a token for the current lexeme `source[start..current]`.
    fn add_token(&mut self, token_type: TokenType, literal: Option<Literal>)
        requires
            old(self).start <= old(self).current <= old(self).source@.len(),
        ensures
            toks_v(final(self).tokens@) == toks_v(old(self).tokens@).push(
                TokenV {
                    kind: token_type,
                    lexeme: old(self).source@.subrange(
                        old(self).start as int,
                        old(self).current as int,
                    ),
                    lit: match literal {
                        Some(l) => Some(l@),
                        None => None,
                    },
                    line: old(self).line as nat,
                },
            ),
            final(self).source == old(self).source,
            final(self).errors == old(self).errors,
            final(self).start == old(self).start,
            final(self).current == old(self).current,
            final(self).line == old(self).line,
    {
        let lexeme = string_from_range(&self.source, self.start, self.current);
        let token = Token::new(token_type, lexeme, literal, self.line);
        self.tokens.push(token);
        proof {
            assert(toks_v(self.tokens@) =~= toks_v(old(self).tokens@).push(token@));
        }
    }

    /// Whether the cursor has passed the last character.
    fn is_at_end(&self) -> (r: bool)
        ensures
            r == (self.current >= self.source@.len()),
    {
        self.current >= self.source.len()
    }

    /// Consumes and returns the character under the cursor.
    fn advance(&mut self) -> (c: char)
        requires
            old(self).current < old(self).source@.len() < usize::MAX,
        ensures
            c == old(self).source@[old(self).current as int],
            final(self).current == old(self).current + 1,
            final(self).source == old(self).source,
            final(self).tokens == old(self).tokens,
            final(self).errors == old(self).errors,
            final(self).start == old(self).start,
            final(self).line == old(self).line,
    {
        let c = self.source[self.current];
        self.current = self.current + 1;
        c
    }

    /// The character under the cursor, or `'\0'` past the end.
    fn peek(&self) -> (c: char)
        requires
            self.current <= self.source@.len(),
        ensures
            c == if self.current < self.source@.len() {
                self.source@[self.current as int]
            } else {
                '\0'
            },
    {
        if self.is_at_end() {
            return '\0';
        }
        self.source[self.current]
    }

    /// The character after the cursor, or `'\0'` past the end.
    fn peek_next(&self) -> (c: char)
        requires
            self.current <= self.source@.len(),
            self.source@.len() < usize::MAX,
        ensures
            c == if self.current + 1 < self.source@.len() {
                self.source@[self.current + 1]
            } else {
                '\0'
            },
    {
        if self.current + 1 >= self.source.len() {
            return '\0';
        }
        self.source[self.current + 1]
    }

    /// Consumes the character under the cursor when it is `expected`.
    fn consume_if(&mut self, expected: char) -> (r: bool)
        requires
            old(self).current <= old(self).source@.len(),
            old(self).source@.len() < usize::MAX,
        ensures
            r == (old(self).current < old(self).source@.len() && old(self).source@[old(
                self,
            ).current as int] == expected),
            final(self).current == if r {
                old(self).current + 1
            } else {
                old(self).current as int
            },
            final(self).source == old(self).source,
            final(self).tokens == old(self).tokens,
            final(self).errors == old(self).errors,
            final(self).start == old(self).start,
            final(self).line == old(self).line,
    {
        if self.is_at_end() {
            return false;
        }
        if self.peek() != expected {
            return false;
        }
        self.advance();
        true
    }

    /// Scans the rest of a string literal, the opening quote already
    /// consumed: emits the token, or records an unterminated-string
    /// error at the line where scanning stopped.
    fn string(&mut self)
        requires
            old(self).wf(),
            old(self).start < old(self).source@.len(),
            old(self).start + 1 == old(self).current,
            old(self).source@[old(self).start as int] == '"',
        ensures
            final(self).wf(),
            final(self).source == old(self).source,
            final(self).start == old(self).start,
            ({
                let s = old(self).source@;
                let (j, l2) = string_scan(s, old(self).current as int, old(self).line as nat);
                if j >= s.len() {
                    &&& final(self).current == s.len()
                    &&& final(self).line as nat == l2
                    &&& final(self).tokens == old(self).tokens
                    &&& errs_v(final(self).errors@) == errs_v(old(self).errors@).push(
                        ErrV { line: l2, msg: "Unterminated string"@ },
                    )
                } else {
                    &&& final(self).current as int == j + 1
                    &&& final(self).line as nat == l2
                    &&& final(self).errors == old(self).errors
                    &&& toks_v(final(self).tokens@) == toks_v(old(self).tokens@).push(
                        TokenV {
                            kind: TokenType::String,
                            lexeme: s.subrange(old(self).start as int, j + 1),
                            lit: Some(LitV::Str(s.subrange(old(self).start + 1, j))),
                            line: l2,
                        },
                    )
                }
            }),
    {
        let ghost s = old(self).source@;
        let ghost cur0 = old(self).current as int;
        let ghost line0 = old(self).line as nat;
        while self.peek() != '"' && !self.is_at_end()
            invariant
                self.wf(),
                self.source == old(self).source,
                self.source@ == s,
                self.start == old(self).start,
                self.tokens == old(self).tokens,
                self.errors == old(self).errors,
                cur0 <= self.current as int,
                string_scan(s, cur0, line0) == string_scan(
                    s,
                    self.current as int,
                    self.line as nat,
                ),
            decreases s.len() - self.current,
        {
            if self.peek() == '\n' {
                self.line = self.line + 1;
            }
            self.advance();
        }
        if self.is_at_end() {
            self.error(self.line, String::from_str("Unterminated string"));
            proof {
                assert(errs_v(self.errors@) =~= errs_v(old(self).errors@).push(
                    ErrV { line: self.line as nat, msg: "Unterminated string"@ },
                ));
            }
            return ;
        }
        self.advance();
        let value = string_from_range(&self.source, self.start + 1, self.current - 1);
        self.add_token(TokenType::String, Some(Literal::String(value)));
    }

    /// Scans the rest of a number literal, the first digit already
    /// consumed: a maximal digit run, then a fraction only when a `.`
    /// is directly followed by a digit.
    fn number(&mut self)
        requires
            old(self).wf(),
            old(self).start < old(self).source@.len(),
            old(self).start + 1 == old(self).current,
            is_digit(old(self).source@[old(self).start as int]),
        ensures
            final(self).wf(),
            final(self).source == old(self).source,
            final(self).start == old(self).start,
            final(self).errors == old(self).errors,
            final(self).line == old(self).line,
            ({
                let s = old(self).source@;
                let j1 = digits_end(s, old(self).current as int);
                let end = if j1 + 1 < s.len() && s[j1] == '.' && is_digit(s[j1 + 1]) {
                    digits_end(s, j1 + 1)
                } else {
                    j1
                };
                &&& final(self).current as int == end
                &&& toks_v(final(self).tokens@) == toks_v(old(self).tokens@).push(
                    TokenV {
                        kind: TokenType::Number,
                        lexeme: s.subrange(old(self).start as int, end),
                        lit: Some(
                            LitV::Num(f64_of_text(s.subrange(old(self).start as int, end))),
                        ),
                        line: old(self).line as nat,
                    },
                )
            }),
    {
        let ghost s = old(self).source@;
        let ghost cur0 = old(self).current as int;
        while digit(self.peek()) && !self.is_at_end()
            invariant
                self.wf(),
                self.source == old(self).source,
                self.source@ == s,
                self.start == old(self).start,
                self.tokens == old(self).tokens,
                self.errors == old(self).errors,
                self.line == old(self).line,
                cur0 <= self.current as int,
                digits_end(s, cur0) == digits_end(s, self.current as int),
            decreases s.len() - self.current,
        {
            self.advance();
        }
        let ghost j1 = digits_end(s, cur0);
        if self.peek() == '.' && digit(self.peek_next()) {
            self.advance();
            while digit(self.peek())
                invariant
                    self.wf(),
                    self.source == old(self).source,
                    self.source@ == s,
                    self.start == old(self).start,
                    self.tokens == old(self).tokens,
                    self.errors == old(self).errors,
                    self.line == old(self).line,
                    j1 + 1 <= self.current as int,
                    digits_end(s, j1 + 1) == digits_end(s, self.current as int),
                decreases s.len() - self.current,
            {
                self.advance();
            }
        }
        let text = string_from_range(&self.source, self.start, self.current);
        let bits = crate::float_bits::f64_parse(text.as_str());
        self.add_token(TokenType::Number, Some(Literal::Number(bits)));
    }

    /// Scans the rest of an identifier, the first letter already
    /// consumed, and resolves it against the keyword table.
    fn identifier(&mut self)
        requires
            old(self).wf(),
            old(self).start < old(self).source@.len(),
            old(self).start + 1 == old(self).current,
        ensures
            final(self).wf(),
            final(self).source == old(self).source,
            final(self).start == old(self).start,
            final(self).errors == old(self).errors,
            final(self).line == old(self).line,
            ({
                let s = old(self).source@;
                let j = ident_end(s, old(self).current as int);
                let word = s.subrange(old(self).start as int, j);
                &&& final(self).current as int == j
                &&& toks_v(final(self).tokens@) == toks_v(old(self).tokens@).push(
                    match keyword_kind(word) {
                        Some(kind) => TokenV {
                            kind,
                            lexeme: word,
                            lit: None,
                            line: old(self).line as nat,
                        },
                        None => TokenV {
                            kind: TokenType::Identifier,
                            lexeme: word,
                            lit: Some(LitV::Str(word)),
                            line: old(self).line as nat,
                        },
                    },
                )
            }),
    {
        let ghost s = old(self).source@;
        let ghost cur0 = old(self).current as int;
        while ident_char(self.peek())
            invariant
                self.wf(),
                self.source == old(self).source,
                self.source@ == s,
                self.start == old(self).start,
                self.tokens == old(self).tokens,
                self.errors == old(self).errors,
                self.line == old(self).line,
                cur0 <= self.current as int,
                ident_end(s, cur0) == ident_end(s, self.current as int),
            decreases s.len() - self.current,
        {
            self.advance();
        }
        let text = string_from_range(&self.source, self.start, self.current);
        match keyword_lookup(&text) {
            Some(token_type) => {
                self.add_token(token_type, None);
            },
            None => {
                self.add_token(TokenType::Identifier, Some(Literal::String(text)));
            },
        }
    }

    /// Scans one lexeme starting at the cursor: appends at most one
    /// token or one error and always consumes at least one character.
    fn scan_token(&mut self)
        requires
            old(self).wf(),
            old(self).start == old(self).current,
            old(self).current < old(self).source@.len(),
        ensures
            final(self).wf(),
            final(self).source == old(self).source,
            old(self).current < final(self).current,
            ({
                let s = old(self).source@;
                let o0 = scan_from(s, old(self).current as int, old(self).line as nat);
                let o1 = scan_from(s, final(self).current as int, final(self).line as nat);
                &&& toks_v(final(self).tokens@) + o1.toks == toks_v(old(self).tokens@) + o0.toks
                &&& errs_v(final(self).errors@) + o1.errs == errs_v(old(self).errors@) + o0.errs
                &&& o1.line == o0.line
            }),
    {
        let ghost s = old(self).source@;
        let ghost i = old(self).current as int;
        let ghost l = old(self).line as nat;
        let c = self.advance();
        if c == '(' {
            self.add_token(TokenType::LeftParen, None);
            proof {
                lemma_push_mid(toks_v(old(self).tokens@), tok1(s, i, TokenType::LeftParen, l), scan_from(s, i + 1, l).toks);
            }
        } else if c == ')' {
            self.add_token(TokenType::RightParen, None);
            proof {
                lemma_push_mid(toks_v(old(self).tokens@), tok1(s, i, TokenType::RightParen, l), scan_from(s, i + 1, l).toks);
            }
        } else if c == '{' {
            self.add_token(TokenType::LeftBrace, None);
            proof {
                lemma_push_mid(toks_v(old(self).tokens@), tok1(s, i, TokenType::LeftBrace, l), scan_from(s, i + 1, l).toks);
            }
        } else if c == '}' {
            self.add_token(TokenType::RightBrace, None);
            proof {
                lemma_push_mid(toks_v(old(self).tokens@), tok1(s, i, TokenType::RightBrace, l), scan_from(s, i + 1, l).toks);
            }
        } else if c == ',' {
            self.add_token(TokenType::Comma, None);
            proof {
                lemma_push_mid(toks_v(old(self).tokens@), tok1(s, i, TokenType::Comma, l), scan_from(s, i + 1, l).toks);
            }
        } else if c == '.' {
            self.add_token(TokenType::Dot, None);
            proof {
                lemma_push_mid(toks_v(old(self).tokens@), tok1(s, i, TokenType::Dot, l), scan_from(s, i + 1, l).toks);
            }
        } else if c == '-' {
            self.add_token(TokenType::Minus, None);
            proof {
                lemma_push_mid(toks_v(old(self).tokens@), tok1(s, i, TokenType::Minus, l), scan_from(s, i + 1, l).toks);
            }
        } else if c == '+' {
            self.add_token(TokenType::Plus, None);
            proof {
                lemma_push_mid(toks_v(old(self).tokens@), tok1(s, i, TokenType::Plus, l), scan_from(s, i + 1, l).toks);
            }
        } else if c == ';' {
            self.add_token(TokenType::Semicolon, None);
            proof {
                lemma_push_mid(toks_v(old(self).tokens@), tok1(s, i, TokenType::Semicolon, l), scan_from(s, i + 1, l).toks);
            }
        } else if c == '*' {
            self.add_token(TokenType::Star, None);
            proof {
                lemma_push_mid(toks_v(old(self).tokens@), tok1(s, i, TokenType::Star, l), scan_from(s, i + 1, l).toks);
            }
        } else if c == '?' {
            self.add_token(TokenType::Question, None);
            proof {
                lemma_push_mid(toks_v(old(self).tokens@), tok1(s, i, TokenType::Question, l), scan_from(s, i + 1, l).toks);
            }
        } else if c == ':' {
            self.add_token(TokenType::Colon, None);
            proof {
                lemma_push_mid(toks_v(old(self).tokens@), tok1(s, i, TokenType::Colon, l), scan_from(s, i + 1, l).toks);
            }
        } else if c == '!' {
            if self.consume_if('=') {
                self.add_token(TokenType::BangEqual, None);
                proof {
                    lemma_push_mid(toks_v(old(self).tokens@), tok2(s, i, TokenType::BangEqual, l), scan_from(s, i + 2, l).toks);
                }
            } else {
                self.add_token(TokenType::Bang, None);
                proof {
                    lemma_push_mid(toks_v(old(self).tokens@), tok1(s, i, TokenType::Bang, l), scan_from(s, i + 1, l).toks);
                }
            }
        } else if c == '=' {
            if self.consume_if('=') {
                self.add_token(TokenType::EqualEqual, None);
                proof {
                    lemma_push_mid(toks_v(old(self).tokens@), tok2(s, i, TokenType::EqualEqual, l), scan_from(s, i + 2, l).toks);
                }
            } else {
                self.add_token(TokenType::Equal, None);
                proof {
                    lemma_push_mid(toks_v(old(self).tokens@), tok1(s, i, TokenType::Equal, l), scan_from(s, i + 1, l).toks);
                }
            }
        } else if c == '<' {
            if self.consume_if('=') {
                self.add_token(TokenType::LessEqual, None);
                proof {
                    lemma_push_mid(toks_v(old(self).tokens@), tok2(s, i, TokenType::LessEqual, l), scan_from(s, i + 2, l).toks);
                }
            } else {
                self.add_token(TokenType::Less, None);
                proof {
                    lemma_push_mid(toks_v(old(self).tokens@), tok1(s, i, TokenType::Less, l), scan_from(s, i + 1, l).toks);
                }
            }
        } else if c == '>' {
            if self.consume_if('=') {
                self.add_token(TokenType::GreaterEqual, None);
                proof {
                    lemma_push_mid(toks_v(old(self).tokens@), tok2(s, i, TokenType::GreaterEqual, l), scan_from(s, i + 2, l).toks);
                }
            } else {
                self.add_token(TokenType::Greater, None);
                proof {
                    lemma_push_mid(toks_v(old(self).tokens@), tok1(s, i, TokenType::Greater, l), scan_from(s, i + 1, l).toks);
                }
            }
        } else if c == '/' {
            if self.consume_if('/') {
                while self.peek() != '\n' && !self.is_at_end()
                    invariant
                        self.wf(),
                        self.source == old(self).source,
                        self.source@ == s,
                        self.tokens == old(self).tokens,
                        self.errors == old(self).errors,
                        self.line == old(self).line,
                        i + 2 <= self.current as int,
                        comment_end(s, i + 2) == comment_end(s, self.current as int),
                    decreases s.len() - self.current,
                {
                    self.advance();
                }
            } else {
                self.add_token(TokenType::Slash, None);
                proof {
                    lemma_push_mid(toks_v(old(self).tokens@), tok1(s, i, TokenType::Slash, l), scan_from(s, i + 1, l).toks);
                }
            }
        } else if c == ' ' || c == '\r' || c == '\t' {
            // whitespace is discarded
        } else if c == '\n' {
            self.line = self.line + 1;
        } else if c == '"' {
            self.string();
            proof {
                let (j, l2) = string_scan(s, i + 1, l);
                lemma_string_scan(s, i + 1, l);
                if j >= s.len() {
                    lemma_push_mid(
                        errs_v(old(self).errors@),
                        ErrV { line: l2, msg: "Unterminated string"@ },
                        scan_from(s, s.len() as int, l2).errs,
                    );
                } else {
                    lemma_push_mid(
                        toks_v(old(self).tokens@),
                        TokenV {
                            kind: TokenType::String,
                            lexeme: s.subrange(i, j + 1),
                            lit: Some(LitV::Str(s.subrange(i + 1, j))),
                            line: l2,
                        },
                        scan_from(s, j + 1, l2).toks,
                    );
                }
            }
        } else if digit(c) {
            self.number();
            proof {
                let j1 = digits_end(s, i + 1);
                lemma_digits_end(s, i + 1);
                let end = if j1 + 1 < s.len() && s[j1] == '.' && is_digit(s[j1 + 1]) {
                    lemma_digits_end(s, j1 + 1);
                    digits_end(s, j1 + 1)
                } else {
                    j1
                };
                lemma_push_mid(
                    toks_v(old(self).tokens@),
                    TokenV {
                        kind: TokenType::Number,
                        lexeme: s.subrange(i, end),
                        lit: Some(LitV::Num(f64_of_text(s.subrange(i, end)))),
                        line: l,
                    },
                    scan_from(s, end, l).toks,
                );
            }
        } else if alpha(c) {
            self.identifier();
            proof {
                let j = ident_end(s, i + 1);
                lemma_ident_end(s, i + 1);
                let word = s.subrange(i, j);
                match keyword_kind(word) {
                    Some(kind) => {
                        lemma_push_mid(
                            toks_v(old(self).tokens@),
                            TokenV { kind, lexeme: word, lit: None, line: l },
                            scan_from(s, j, l).toks,
                        );
                    },
                    None => {
                        lemma_push_mid(
                            toks_v(old(self).tokens@),
                            TokenV {
                                kind: TokenType::Identifier,
                                lexeme: word,
                                lit: Some(LitV::Str(word)),
                                line: l,
                            },
                            scan_from(s, j, l).toks,
                        );
                    },
                }
            }
        } else {
            let mut message = String::from_str("Unexpected character: ");
            push_char(&mut message, c);
            let line_now = self.line;
            self.error(line_now, message);
            proof {
                assert(errs_v(self.errors@) =~= errs_v(old(self).errors@).push(
                    ErrV { line: l, msg: "Unexpected character: "@.push(c) },
                ));
                lemma_push_mid(
                    errs_v(old(self).errors@),
                    ErrV { line: l, msg: "Unexpected character: "@.push(c) },
                    scan_from(s, i + 1, l).errs,
                );
            }
        }
    }

    /// Scans the whole source: the full token sequence with an
    /// end-of-input token appended when no lexical error was found,
    /// and the full error list otherwise.
    pub fn scan_tokens(self) -> (r: Result<Vec<Token>, Vec<ScanError>>)
        requires
            self.wf(),
            self.current == 0,
            self.line == 1,
            self.tokens@ == Seq::<Token>::empty(),
            self.errors@ == Seq::<ScanError>::empty(),
        ensures
            ({
                let o = scan_from(self.source@, 0, 1);
                if o.errs.len() == 0 {
                    &&& r is Ok
                    &&& toks_v(r->Ok_0@) == o.toks.push(
                        TokenV {
                            kind: TokenType::EOF,
                            lexeme: Seq::empty(),
                            lit: None,
                            line: o.line,
                        },
                    )
                } else {
                    &&& r is Err
                    &&& errs_v(r->Err_0@) == o.errs
                }
            }),
    {
        let ghost s = self.source@;
        let mut sc = self;
        proof {
            assert(toks_v(sc.tokens@) =~= Seq::<TokenV>::empty());
            assert(errs_v(sc.errors@) =~= Seq::<ErrV>::empty());
            assert(toks_v(sc.tokens@) + scan_from(s, 0, 1).toks =~= scan_from(s, 0, 1).toks);
            assert(errs_v(sc.errors@) + scan_from(s, 0, 1).errs =~= scan_from(s, 0, 1).errs);
        }
        while !sc.is_at_end()
            invariant
                sc.wf(),
                sc.source@ == s,
                toks_v(sc.tokens@) + scan_from(s, sc.current as int, sc.line as nat).toks
                    == scan_from(s, 0, 1).toks,
                errs_v(sc.errors@) + scan_from(s, sc.current as int, sc.line as nat).errs
                    == scan_from(s, 0, 1).errs,
                scan_from(s, sc.current as int, sc.line as nat).line == scan_from(s, 0, 1).line,
            decreases s.len() - sc.current,
        {
            sc.start = sc.current;
            sc.scan_token();
        }
        proof {
            assert(toks_v(sc.tokens@) =~= scan_from(s, 0, 1).toks);
            assert(errs_v(sc.errors@) =~= scan_from(s, 0, 1).errs);
        }
        let eof = Token::new(TokenType::EOF, String::new(), None, sc.line);
        sc.tokens.push(eof);
        proof {
            assert(toks_v(sc.tokens@) =~= scan_from(s, 0, 1).toks.push(
                TokenV {
                    kind: TokenType::EOF,
                    lexeme: Seq::empty(),
                    lit: None,
                    line: scan_from(s, 0, 1).line,
                },
            ));
        }
        if sc.errors.len() > 0 {
            return Err(sc.errors);
        }
        Ok(sc.tokens)
    }
}

/// The input from `i` on consists solely of whitespace and line
/// comments.
pub open spec fn only_blanks_and_comments(s: Seq<char>, i: int) -> bool
    decreases s.len() - i,
    via only_blanks_and_comments_dec
{
    if i < 0 || i >= s.len() {
        true
    } else if s[i] == ' ' || s[i] == '\r' || s[i] == '\t' || s[i] == '\n' {
        only_blanks_and_comments(s, i + 1)
    } else if s[i] == '/' && i + 1 < s.len() && s[i + 1] == '/' {
        only_blanks_and_comments(s, comment_end(s, i + 2))
    } else {
        false
    }
}

#[via_fn]
proof fn only_blanks_and_comments_dec(s: Seq<char>, i: int) {
    if 0 <= i < s.len() && s[i] == '/' && i + 1 < s.len() && s[i + 1] == '/' {
        lemma_comment_end(s, i + 2);
    }
}

/// An input consisting solely of whitespace and comments scans to an
/// empty token sequence and no errors.
pub proof fn lemma_blank_input_scans_to_nothing(s: Seq<char>, i: int, line: nat)
    requires
        only_blanks_and_comments(s, i),
    ensures
        scan_from(s, i, line).toks =~= Seq::<TokenV>::empty(),
        scan_from(s, i, line).errs =~= Seq::<ErrV>::empty(),
    decreases s.len() - i,
{
    if 0 <= i < s.len() {
        if s[i] == '\n' {
            lemma_blank_input_scans_to_nothing(s, i + 1, line + 1);
        } else if s[i] == ' ' || s[i] == '\r' || s[i] == '\t' {
            lemma_blank_input_scans_to_nothing(s, i + 1, line);
        } else {
            lemma_comment_end(s, i + 2);
            lemma_blank_input_scans_to_nothing(s, comment_end(s, i + 2), line);
        }
    }
}

/// The shape of a well-formed numeric literal: a run of digits,
/// optionally followed by a point and a second run of digits, with
/// nothing after it.
pub open spec fn numeral_shape(s: Seq<char>) -> bool {
    let d = digits_end(s, 0);
    &&& s.len() > 0
    &&& is_digit(s[0])
    &&& (d == s.len() || (d + 1 < s.len() && s[d] == '.' && is_digit(s[d + 1]) && digits_end(
        s,
        d + 1,
    ) == s.len()))
}

/// A well-formed numeric literal scans to exactly one number token:
/// its lexeme is the whole input, its payload is the binary64 value
/// the numeral denotes, and no error is reported.
pub proof fn lemma_numeral_scans_to_one_token(s: Seq<char>)
    requires
        numeral_shape(s),
    ensures
        scan_from(s, 0, 1).toks =~= seq![
            TokenV {
                kind: TokenType::Number,
                lexeme: s,
                lit: Some(LitV::Num(f64_of_text(s))),
                line: 1,
            },
        ],
        scan_from(s, 0, 1).errs =~= Seq::<ErrV>::empty(),
{
    lemma_digits_end(s, 1);
    let j1 = digits_end(s, 1);
    assert(digits_end(s, 0) == j1);
    assert(scan_from(s, s.len() as int, 1) == (ScanOut {
        toks: Seq::<TokenV>::empty(),
        errs: Seq::<ErrV>::empty(),
        line: 1nat,
    }));
    if j1 + 1 < s.len() && s[j1] == '.' && is_digit(s[j1 + 1]) {
        lemma_digits_end(s, j1 + 1);
        assert(digits_end(s, j1 + 1) == s.len());
        assert(s.subrange(0, s.len() as int) =~= s);
    } else {
        assert(j1 == s.len());
        assert(s.subrange(0, s.len() as int) =~= s);
    }
}

} // verus!