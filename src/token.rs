use vstd::prelude::*;

verus! {

/// The lexical category of a token, with the payload of identifiers and
/// integer literals.
#[derive(Debug, Clone, PartialEq, Eq)]
pub enum TokenType {
    // keywords
    Fn,
    Var,
    Int,
    Char,
    Struct,
    Enum,
    Return,
    If,
    Else,
    While,
    For,
    Break,
    Continue,
    Void,
    Const,
    Static,
    Extern,
    Typedef,
    Sizeof,
    Switch,
    Case,
    Default,
    Do,
    Goto,
    Union,
    // values
    Identifier(String),
    IntegerLiteral(i64),
    // operators
    Add,
    Sub,
    Mul,
    Div,
    Eq,
    Neq,
    Lt,
    Gt,
    Leq,
    Geq,
    Assign,
    And,
    Or,
    Not,
    Inc,
    Dec,
    AddrOf,
    Deref,
    Mod,
    Xor,
    Shl,
    Shr,
    // punctuation
    LParen,
    RParen,
    LBrace,
    RBrace,
    SemiColon,
    Colon,
    Comma,
    LArrow,
    RArrow,
    Eof,
}

/// Two token types are the same when they are the same variant and carry the
/// same payload (an identifier's characters, a literal's value).
pub open spec fn same_token_type(a: TokenType, b: TokenType) -> bool {
    match (a, b) {
        (TokenType::Identifier(x), TokenType::Identifier(y)) => x@ == y@,
        (TokenType::Identifier(_), _) => false,
        (_, TokenType::Identifier(_)) => false,
        _ => a == b,
    }
}

impl TokenType {
    /// A copy of this token type.
    pub fn duplicate(&self) -> (r: TokenType)
        ensures
            r == *self,
    {
        match self {
            TokenType::Identifier(x) => TokenType::Identifier(x.clone()),
            TokenType::IntegerLiteral(v) => TokenType::IntegerLiteral(*v),
            TokenType::Fn => TokenType::Fn,
            TokenType::Var => TokenType::Var,
            TokenType::Int => TokenType::Int,
            TokenType::Char => TokenType::Char,
            TokenType::Struct => TokenType::Struct,
            TokenType::Enum => TokenType::Enum,
            TokenType::Return => TokenType::Return,
            TokenType::If => TokenType::If,
            TokenType::Else => TokenType::Else,
            TokenType::While => TokenType::While,
            TokenType::For => TokenType::For,
            TokenType::Break => TokenType::Break,
            TokenType::Continue => TokenType::Continue,
            TokenType::Void => TokenType::Void,
            TokenType::Const => TokenType::Const,
            TokenType::Static => TokenType::Static,
            TokenType::Extern => TokenType::Extern,
            TokenType::Typedef => TokenType::Typedef,
            TokenType::Sizeof => TokenType::Sizeof,
            TokenType::Switch => TokenType::Switch,
            TokenType::Case => TokenType::Case,
            TokenType::Default => TokenType::Default,
            TokenType::Do => TokenType::Do,
            TokenType::Goto => TokenType::Goto,
            TokenType::Union => TokenType::Union,
            TokenType::Add => TokenType::Add,
            TokenType::Sub => TokenType::Sub,
            TokenType::Mul => TokenType::Mul,
            TokenType::Div => TokenType::Div,
            TokenType::Eq => TokenType::Eq,
            TokenType::Neq => TokenType::Neq,
            TokenType::Lt => TokenType::Lt,
            TokenType::Gt => TokenType::Gt,
            TokenType::Leq => TokenType::Leq,
            TokenType::Geq => TokenType::Geq,
            TokenType::Assign => TokenType::Assign,
            TokenType::And => TokenType::And,
            TokenType::Or => TokenType::Or,
            TokenType::Not => TokenType::Not,
            TokenType::Inc => TokenType::Inc,
            TokenType::Dec => TokenType::Dec,
            TokenType::AddrOf => TokenType::AddrOf,
            TokenType::Deref => TokenType::Deref,
            TokenType::Mod => TokenType::Mod,
            TokenType::Xor => TokenType::Xor,
            TokenType::Shl => TokenType::Shl,
            TokenType::Shr => TokenType::Shr,
            TokenType::LParen => TokenType::LParen,
            TokenType::RParen => TokenType::RParen,
            TokenType::LBrace => TokenType::LBrace,
            TokenType::RBrace => TokenType::RBrace,
            TokenType::SemiColon => TokenType::SemiColon,
            TokenType::Colon => TokenType::Colon,
            TokenType::Comma => TokenType::Comma,
            TokenType::LArrow => TokenType::LArrow,
            TokenType::RArrow => TokenType::RArrow,
            TokenType::Eof => TokenType::Eof,
        }
    }

    /// Compares two token types variant by variant, identifiers by their text.
    pub fn same_as(&self, other: &TokenType) -> (r: bool)
        ensures
            r == same_token_type(*self, *other),
    {
        match (self, other) {
            (TokenType::Identifier(x), TokenType::Identifier(y)) => x.eq(y),
            (TokenType::IntegerLiteral(x), TokenType::IntegerLiteral(y)) => *x == *y,
            (TokenType::Fn, TokenType::Fn) => true,
            (TokenType::Var, TokenType::Var) => true,
            (TokenType::Int, TokenType::Int) => true,
            (TokenType::Char, TokenType::Char) => true,
            (TokenType::Struct, TokenType::Struct) => true,
            (TokenType::Enum, TokenType::Enum) => true,
            (TokenType::Return, TokenType::Return) => true,
            (TokenType::If, TokenType::If) => true,
            (TokenType::Else, TokenType::Else) => true,
            (TokenType::While, TokenType::While) => true,
            (TokenType::For, TokenType::For) => true,
            (TokenType::Break, TokenType::Break) => true,
            (TokenType::Continue, TokenType::Continue) => true,
            (TokenType::Void, TokenType::Void) => true,
            (TokenType::Const, TokenType::Const) => true,
            (TokenType::Static, TokenType::Static) => true,
            (TokenType::Extern, TokenType::Extern) => true,
            (TokenType::Typedef, TokenType::Typedef) => true,
            (TokenType::Sizeof, TokenType::Sizeof) => true,
            (TokenType::Switch, TokenType::Switch) => true,
            (TokenType::Case, TokenType::Case) => true,
            (TokenType::Default, TokenType::Default) => true,
            (TokenType::Do, TokenType::Do) => true,
            (TokenType::Goto, TokenType::Goto) => true,
            (TokenType::Union, TokenType::Union) => true,
            (TokenType::Add, TokenType::Add) => true,
            (TokenType::Sub, TokenType::Sub) => true,
            (TokenType::Mul, TokenType::Mul) => true,
            (TokenType::Div, TokenType::Div) => true,
            (TokenType::Eq, TokenType::Eq) => true,
            (TokenType::Neq, TokenType::Neq) => true,
            (TokenType::Lt, TokenType::Lt) => true,
            (TokenType::Gt, TokenType::Gt) => true,
            (TokenType::Leq, TokenType::Leq) => true,
            (TokenType::Geq, TokenType::Geq) => true,
            (TokenType::Assign, TokenType::Assign) => true,
            (TokenType::And, TokenType::And) => true,
            (TokenType::Or, TokenType::Or) => true,
            (TokenType::Not, TokenType::Not) => true,
            (TokenType::Inc, TokenType::Inc) => true,
            (TokenType::Dec, TokenType::Dec) => true,
            (TokenType::AddrOf, TokenType::AddrOf) => true,
            (TokenType::Deref, TokenType::Deref) => true,
            (TokenType::Mod, TokenType::Mod) => true,
            (TokenType::Xor, TokenType::Xor) => true,
            (TokenType::Shl, TokenType::Shl) => true,
            (TokenType::Shr, TokenType::Shr) => true,
            (TokenType::LParen, TokenType::LParen) => true,
            (TokenType::RParen, TokenType::RParen) => true,
            (TokenType::LBrace, TokenType::LBrace) => true,
            (TokenType::RBrace, TokenType::RBrace) => true,
            (TokenType::SemiColon, TokenType::SemiColon) => true,
            (TokenType::Colon, TokenType::Colon) => true,
            (TokenType::Comma, TokenType::Comma) => true,
            (TokenType::LArrow, TokenType::LArrow) => true,
            (TokenType::RArrow, TokenType::RArrow) => true,
            (TokenType::Eof, TokenType::Eof) => true,
            _ => false,
        }
    }
}

/// A source range: 1-based lines, 0-based columns, end column inclusive.
#[derive(Debug, Clone, Copy, PartialEq, Eq, Structural)]
pub struct Span {
    pub start_line: usize,
    pub end_line: usize,
    pub start_col: usize,
    pub end_col: usize,
}

impl Span {
    pub fn new(start_line: usize, end_line: usize, start_col: usize, end_col: usize) -> (r: Self)
        ensures
            r == (Span { start_line, end_line, start_col, end_col }),
    {
        Span { start_line, end_line, start_col, end_col }
    }

    /// The span that starts where `self` starts and ends where `other` ends.
    pub fn merge(&self, other: &Span) -> (r: Self)
        ensures
            r == (Span {
                start_line: self.start_line,
                end_line: other.end_line,
                start_col: self.start_col,
                end_col: other.end_col,
            }),
    {
        Span {
            start_line: self.start_line,
            end_line: other.end_line,
            start_col: self.start_col,
            end_col: other.end_col,
        }
    }
}

/// A token: its type and where it stands in the source.
#[derive(Debug, Clone)]
pub struct Token {
    pub token_type: TokenType,
    pub span: Span,
}

impl Token {
    pub fn new(token_type: TokenType, span: Span) -> (r: Self)
        ensures
            r.token_type == token_type,
            r.span == span,
    {
        Token { token_type, span }
    }

    pub fn get_span(&self) -> (r: &Span)
        ensures
            *r == self.span,
    {
        &self.span
    }

    pub fn get_type(&self) -> (r: &TokenType)
        ensures
            *r == self.token_type,
    {
        &self.token_type
    }

    pub fn matches(&self, other: &TokenType) -> (r: bool)
        ensures
            r == same_token_type(self.token_type, *other),
    {
        self.token_type.same_as(other)
    }

    /// An identifier, or a keyword that can name a type.
    pub fn is_a_name(&self) -> (r: bool)
        ensures
            r == (self.token_type is Identifier || self.token_type is Int
                || self.token_type is Char || self.token_type is Void
                || self.token_type is Struct || self.token_type is Enum),
    {
        match self.token_type {
            TokenType::Identifier(_) => true,
            TokenType::Int | TokenType::Char | TokenType::Void | TokenType::Struct
            | TokenType::Enum => true,
            _ => false,
        }
    }

    pub fn is_an_identifier(&self) -> (r: bool)
        ensures
            r == self.token_type is Identifier,
    {
        match self.token_type {
            TokenType::Identifier(_) => true,
            _ => false,
        }
    }

    pub fn is_an_integer_literal(&self) -> (r: bool)
        ensures
            r == self.token_type is IntegerLiteral,
    {
        match self.token_type {
            TokenType::IntegerLiteral(_) => true,
            _ => false,
        }
    }
}

} // verus!
