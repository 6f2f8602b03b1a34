//! The token and literal model: what the lexer produces and what the
//! parser and the evaluator consume.

use vstd::prelude::*;
use vstd::string::StringExecFns;
use crate::float_bits::f64_text;

verus! {

/// A literal value, both as the payload of a literal token and as a
/// runtime value.  A number is a 64-bit IEEE 754 value carried as its
/// raw bit pattern.
#[derive(Clone, Debug)]
pub enum Literal {
    String(String),
    Number(u64),
    Boolean(bool),
    Nil,
}

/// The mathematical shape of a [`Literal`].
pub ghost enum LitV {
    Str(Seq<char>),
    Num(u64),
    Bool(bool),
    Nil,
}

impl View for Literal {
    type V = LitV;

    open spec fn view(&self) -> LitV {
        match self {
            Literal::String(s) => LitV::Str(s@),
            Literal::Number(n) => LitV::Num(*n),
            Literal::Boolean(b) => LitV::Bool(*b),
            Literal::Nil => LitV::Nil,
        }
    }
}

/// The canonical text of a literal value: a string is itself, a number
/// its shortest round-tripping decimal form, a boolean `true` or
/// `false`, and nil the word `nil`.
pub open spec fn lit_text(l: LitV) -> Seq<char> {
    match l {
        LitV::Str(t) => t,
        LitV::Num(b) => f64_text(b),
        LitV::Bool(b) => if b {
            "true"@
        } else {
            "false"@
        },
        LitV::Nil => "nil"@,
    }
}

impl Literal {
    /// The string payload, if this literal is a string.
    pub fn as_string(&self) -> (r: Option<&String>)
        ensures
            match self@ {
                LitV::Str(t) => r is Some && r->0@ == t,
                _ => r is None,
            },
    {
        match self {
            Literal::String(s) => Some(s),
            _ => None,
        }
    }

    /// The number payload, as its bit pattern, if this literal is a
    /// number.
    pub fn as_number(&self) -> (r: Option<u64>)
        ensures
            match self@ {
                LitV::Num(n) => r == Some(n),
                _ => r is None,
            },
    {
        match self {
            Literal::Number(n) => Some(*n),
            _ => None,
        }
    }

    /// The boolean payload, if this literal is a boolean.
    pub fn as_bool(&self) -> (r: Option<bool>)
        ensures
            match self@ {
                LitV::Bool(b) => r == Some(b),
                _ => r is None,
            },
    {
        match self {
            Literal::Boolean(b) => Some(*b),
            _ => None,
        }
    }

    /// Whether this literal is nil.
    pub fn is_nil(&self) -> (r: bool)
        ensures
            r == (self@ is Nil),
    {
        matches!(self, Literal::Nil)
    }

    /// An equal literal value.
    pub fn dup(&self) -> (r: Literal)
        ensures
            r@ == self@,
    {
        match self {
            Literal::String(s) => Literal::String(s.clone()),
            Literal::Number(n) => Literal::Number(*n),
            Literal::Boolean(b) => Literal::Boolean(*b),
            Literal::Nil => Literal::Nil,
        }
    }

    /// The canonical text of this literal value.
    pub fn text(&self) -> (r: String)
        ensures
            r@ == lit_text(self@),
    {
        match self {
            Literal::String(s) => s.clone(),
            Literal::Number(n) => crate::float_bits::f64_display(*n),
            Literal::Boolean(b) => if *b {
                String::from_str("true")
            } else {
                String::from_str("false")
            },
            Literal::Nil => String::from_str("nil"),
        }
    }
}

/// The kind of a token.  Two kinds are equal exactly when their tags
/// are: no kind carries a payload.
#[derive(Clone, Copy, Debug, PartialEq, Eq, Structural)]
pub enum TokenType {
    LeftParen,
    RightParen,
    LeftBrace,
    RightBrace,
    Comma,
    Dot,
    Minus,
    Plus,
    Semicolon,
    Slash,
    Star,
    Bang,
    BangEqual,
    Equal,
    EqualEqual,
    Greater,
    GreaterEqual,
    Less,
    LessEqual,
    Identifier,
    String,
    Number,
    And,
    Class,
    Else,
    False,
    Fn,
    For,
    If,
    Nil,
    Or,
    Print,
    Return,
    Super,
    This,
    True,
    Var,
    While,
    Question,
    Colon,
    EOF,
}

/// The display name of a token kind.
pub open spec fn tt_name(t: TokenType) -> Seq<char> {
    match t {
        TokenType::LeftParen => "LeftParen"@,
        TokenType::RightParen => "RightParen"@,
        TokenType::LeftBrace => "LeftBrace"@,
        TokenType::RightBrace => "RightBrace"@,
        TokenType::Comma => "Comma"@,
        TokenType::Dot => "Dot"@,
        TokenType::Minus => "Minus"@,
        TokenType::Plus => "Plus"@,
        TokenType::Semicolon => "Semicolon"@,
        TokenType::Slash => "Slash"@,
        TokenType::Star => "Star"@,
        TokenType::Bang => "Bang"@,
        TokenType::BangEqual => "BangEqual"@,
        TokenType::Equal => "Equal"@,
        TokenType::EqualEqual => "EqualEqual"@,
        TokenType::Greater => "Greater"@,
        TokenType::GreaterEqual => "GreaterEqual"@,
        TokenType::Less => "Less"@,
        TokenType::LessEqual => "LessEqual"@,
        TokenType::Identifier => "Identifier"@,
        TokenType::String => "String"@,
        TokenType::Number => "Number"@,
        TokenType::And => "And"@,
        TokenType::Class => "Class"@,
        TokenType::Else => "Else"@,
        TokenType::False => "False"@,
        TokenType::Fn => "Fn"@,
        TokenType::For => "For"@,
        TokenType::If => "If"@,
        TokenType::Nil => "Nil"@,
        TokenType::Or => "Or"@,
        TokenType::Print => "Print"@,
        TokenType::Return => "Return"@,
        TokenType::Super => "Super"@,
        TokenType::This => "This"@,
        TokenType::True => "True"@,
        TokenType::Var => "Var"@,
        TokenType::While => "While"@,
        TokenType::Question => "Question"@,
        TokenType::Colon => "Colon"@,
        TokenType::EOF => "EOF"@,
    }
}

impl TokenType {
    /// The display name of this token kind.
    pub fn name(&self) -> (r: String)
        ensures
            r@ == tt_name(*self),
    {
        match self {
            TokenType::LeftParen => String::from_str("LeftParen"),
            TokenType::RightParen => String::from_str("RightParen"),
            TokenType::LeftBrace => String::from_str("LeftBrace"),
            TokenType::RightBrace => String::from_str("RightBrace"),
            TokenType::Comma => String::from_str("Comma"),
            TokenType::Dot => String::from_str("Dot"),
            TokenType::Minus => String::from_str("Minus"),
            TokenType::Plus => String::from_str("Plus"),
            TokenType::Semicolon => String::from_str("Semicolon"),
            TokenType::Slash => String::from_str("Slash"),
            TokenType::Star => String::from_str("Star"),
            TokenType::Bang => String::from_str("Bang"),
            TokenType::BangEqual => String::from_str("BangEqual"),
            TokenType::Equal => String::from_str("Equal"),
            TokenType::EqualEqual => String::from_str("EqualEqual"),
            TokenType::Greater => String::from_str("Greater"),
            TokenType::GreaterEqual => String::from_str("GreaterEqual"),
            TokenType::Less => String::from_str("Less"),
            TokenType::LessEqual => String::from_str("LessEqual"),
            TokenType::Identifier => String::from_str("Identifier"),
            TokenType::String => String::from_str("String"),
            TokenType::Number => String::from_str("Number"),
            TokenType::And => String::from_str("And"),
            TokenType::Class => String::from_str("Class"),
            TokenType::Else => String::from_str("Else"),
            TokenType::False => String::from_str("False"),
            TokenType::Fn => String::from_str("Fn"),
            TokenType::For => String::from_str("For"),
            TokenType::If => String::from_str("If"),
            TokenType::Nil => String::from_str("Nil"),
            TokenType::Or => String::from_str("Or"),
            TokenType::Print => String::from_str("Print"),
            TokenType::Return => String::from_str("Return"),
            TokenType::Super => String::from_str("Super"),
            TokenType::This => String::from_str("This"),
            TokenType::True => String::from_str("True"),
            TokenType::Var => String::from_str("Var"),
            TokenType::While => String::from_str("While"),
            TokenType::Question => String::from_str("Question"),
            TokenType::Colon => String::from_str("Colon"),
            TokenType::EOF => String::from_str("EOF"),
        }
    }
}

/// The mathematical shape of an error record, shared by the lexical,
/// syntactic and runtime error kinds: a 1-based source line and a
/// human-readable message.
pub ghost struct ErrV {
    pub line: nat,
    pub msg: Seq<char>,
}

/// A token: its kind, the exact source text it was built from, an
/// optional literal payload, and the 1-based source line it stands on.
#[derive(Clone, Debug)]
pub struct Token {
    pub token_type: TokenType,
    pub lexeme: String,
    pub literal: Option<Literal>,
    pub line: usize,
}

/// The mathematical shape of a [`Token`].
pub ghost struct TokenV {
    pub kind: TokenType,
    pub lexeme: Seq<char>,
    pub lit: Option<LitV>,
    pub line: nat,
}

impl View for Token {
    type V = TokenV;

    open spec fn view(&self) -> TokenV {
        TokenV {
            kind: self.token_type,
            lexeme: self.lexeme@,
            lit: match &self.literal {
                Some(l) => Some(l@),
                None => None,
            },
            line: self.line as nat,
        }
    }
}

impl Token {
    /// Builds a token from its parts.
    pub fn new(token_type: TokenType, lexeme: String, literal: Option<Literal>, line: usize) -> (t:
        Token)
        ensures
            t@ == (TokenV {
                kind: token_type,
                lexeme: lexeme@,
                lit: match literal {
                    Some(l) => Some(l@),
                    None => None,
                },
                line: line as nat,
            }),
    {
        Token { token_type, lexeme, literal, line }
    }

    /// An equal token.
    pub fn dup(&self) -> (r: Token)
        ensures
            r@ == self@,
    {
        Token {
            token_type: self.token_type,
            lexeme: self.lexeme.clone(),
            literal: match &self.literal {
                Some(l) => Some(l.dup()),
                None => None,
            },
            line: self.line,
        }
    }
}

} // verus!
