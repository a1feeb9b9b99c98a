use crate::lexer::span::{TextSpan, TextSpanView};
use vstd::prelude::*;

verus! {

/// The lexical class of a token. The text of an identifier or of a literal
/// is held by the token's span, not by its kind.
#[derive(Clone, Copy, Debug, PartialEq, Eq, Structural)]
pub enum TokenKind {
    // Separators
    LeftParen,
    RightParen,
    LeftBrace,
    RightBrace,
    LeftBracket,
    RightBracket,
    Comma,
    Dot,
    Colon,
    Semicolon,
    Arrow,
    // Literals
    Identifier,
    String,
    Rational,
    Integer,
    Boolean,
    // Keywords
    Fn,
    Let,
    If,
    Else,
    While,
    For,
    In,
    Return,
    Break,
    Continue,
    Use,
    Export,
    True,
    False,
    Null,
    // Operators
    Plus,
    Minus,
    Asterisk,
    Slash,
    Equals,
    Ampersand,
    Pipe,
    Caret,
    DoubleAsterisk,
    Percent,
    Tilde,
    GreaterThan,
    LessThan,
    GreaterThanEquals,
    LessThanEquals,
    EqualsEquals,
    BangEquals,
    Bang,
    And,
    Or,
    Increment,
    Decrement,
    MinusEquals,
    PlusEquals,
    // Sentinels
    EOF,
    Whitespace,
    Bad,
    Comment,
}

impl TokenKind {
    /// The name under which a kind appears in diagnostics.
    pub open spec fn spec_name(self) -> Seq<char> {
        match self {
            TokenKind::LeftParen => "LeftParen"@,
            TokenKind::RightParen => "RightParen"@,
            TokenKind::LeftBrace => "LeftBrace"@,
            TokenKind::RightBrace => "RightBrace"@,
            TokenKind::LeftBracket => "LeftBracket"@,
            TokenKind::RightBracket => "RightBracket"@,
            TokenKind::Comma => "Comma"@,
            TokenKind::Dot => "Dot"@,
            TokenKind::Colon => "Colon"@,
            TokenKind::Semicolon => "Semicolon"@,
            TokenKind::Arrow => "Arrow"@,
            TokenKind::Identifier => "Identifier"@,
            TokenKind::String => "String"@,
            TokenKind::Rational => "Rational"@,
            TokenKind::Integer => "Integer"@,
            TokenKind::Boolean => "Boolean"@,
            TokenKind::Fn => "Fn"@,
            TokenKind::Let => "Let"@,
            TokenKind::If => "If"@,
            TokenKind::Else => "Else"@,
            TokenKind::While => "While"@,
            TokenKind::For => "For"@,
            TokenKind::In => "In"@,
            TokenKind::Return => "Return"@,
            TokenKind::Break => "Break"@,
            TokenKind::Continue => "Continue"@,
            TokenKind::Use => "Use"@,
            TokenKind::Export => "Export"@,
            TokenKind::True => "True"@,
            TokenKind::False => "False"@,
            TokenKind::Null => "Null"@,
            TokenKind::Plus => "Plus"@,
            TokenKind::Minus => "Minus"@,
            TokenKind::Asterisk => "Asterisk"@,
            TokenKind::Slash => "Slash"@,
            TokenKind::Equals => "Equals"@,
            TokenKind::Ampersand => "Ampersand"@,
            TokenKind::Pipe => "Pipe"@,
            TokenKind::Caret => "Caret"@,
            TokenKind::DoubleAsterisk => "DoubleAsterisk"@,
            TokenKind::Percent => "Percent"@,
            TokenKind::Tilde => "Tilde"@,
            TokenKind::GreaterThan => "GreaterThan"@,
            TokenKind::LessThan => "LessThan"@,
            TokenKind::GreaterThanEquals => "GreaterThanEquals"@,
            TokenKind::LessThanEquals => "LessThanEquals"@,
            TokenKind::EqualsEquals => "EqualsEquals"@,
            TokenKind::BangEquals => "BangEquals"@,
            TokenKind::Bang => "Bang"@,
            TokenKind::And => "And"@,
            TokenKind::Or => "Or"@,
            TokenKind::Increment => "Increment"@,
            TokenKind::Decrement => "Decrement"@,
            TokenKind::MinusEquals => "MinusEquals"@,
            TokenKind::PlusEquals => "PlusEquals"@,
            TokenKind::EOF => "EOF"@,
            TokenKind::Whitespace => "Whitespace"@,
            TokenKind::Bad => "Bad"@,
            TokenKind::Comment => "Comment"@,
        }
    }

    pub fn name(&self) -> (text: &'static str)
        ensures
            text@ == self.spec_name(),
    {
        match self {
            TokenKind::LeftParen => "LeftParen",
            TokenKind::RightParen => "RightParen",
            TokenKind::LeftBrace => "LeftBrace",
            TokenKind::RightBrace => "RightBrace",
            TokenKind::LeftBracket => "LeftBracket",
            TokenKind::RightBracket => "RightBracket",
            TokenKind::Comma => "Comma",
            TokenKind::Dot => "Dot",
            TokenKind::Colon => "Colon",
            TokenKind::Semicolon => "Semicolon",
            TokenKind::Arrow => "Arrow",
            TokenKind::Identifier => "Identifier",
            TokenKind::String => "String",
            TokenKind::Rational => "Rational",
            TokenKind::Integer => "Integer",
            TokenKind::Boolean => "Boolean",
            TokenKind::Fn => "Fn",
            TokenKind::Let => "Let",
            TokenKind::If => "If",
            TokenKind::Else => "Else",
            TokenKind::While => "While",
            TokenKind::For => "For",
            TokenKind::In => "In",
            TokenKind::Return => "Return",
            TokenKind::Break => "Break",
            TokenKind::Continue => "Continue",
            TokenKind::Use => "Use",
            TokenKind::Export => "Export",
            TokenKind::True => "True",
            TokenKind::False => "False",
            TokenKind::Null => "Null",
            TokenKind::Plus => "Plus",
            TokenKind::Minus => "Minus",
            TokenKind::Asterisk => "Asterisk",
            TokenKind::Slash => "Slash",
            TokenKind::Equals => "Equals",
            TokenKind::Ampersand => "Ampersand",
            TokenKind::Pipe => "Pipe",
            TokenKind::Caret => "Caret",
            TokenKind::DoubleAsterisk => "DoubleAsterisk",
            TokenKind::Percent => "Percent",
            TokenKind::Tilde => "Tilde",
            TokenKind::GreaterThan => "GreaterThan",
            TokenKind::LessThan => "LessThan",
            TokenKind::GreaterThanEquals => "GreaterThanEquals",
            TokenKind::LessThanEquals => "LessThanEquals",
            TokenKind::EqualsEquals => "EqualsEquals",
            TokenKind::BangEquals => "BangEquals",
            TokenKind::Bang => "Bang",
            TokenKind::And => "And",
            TokenKind::Or => "Or",
            TokenKind::Increment => "Increment",
            TokenKind::Decrement => "Decrement",
            TokenKind::MinusEquals => "MinusEquals",
            TokenKind::PlusEquals => "PlusEquals",
            TokenKind::EOF => "EOF",
            TokenKind::Whitespace => "Whitespace",
            TokenKind::Bad => "Bad",
            TokenKind::Comment => "Comment",
        }
    }
}

/// A classified lexical unit together with its place in the source text.
#[derive(Debug, PartialEq, Eq)]
pub struct Token {
    pub kind: TokenKind,
    pub span: TextSpan,
}

/// The mathematical value of a [`Token`].
pub struct TokenView {
    pub kind: TokenKind,
    pub span: TextSpanView,
}

impl View for Token {
    type V = TokenView;

    open spec fn view(&self) -> TokenView {
        TokenView { kind: self.kind, span: self.span@ }
    }
}

/// The values of the tokens of a vector, in their order.
pub open spec fn tokens_view(tokens: Vec<Token>) -> Seq<TokenView> {
    Seq::new(tokens.len() as nat, |i: int| tokens[i]@)
}

impl Token {
    pub fn new(kind: TokenKind, span: TextSpan) -> (token: Self)
        ensures
            token@ == (TokenView { kind, span: span@ }),
    {
        Self { kind, span }
    }

    /// The source text of the token.
    pub fn literal(&self) -> (text: String)
        ensures
            text@ == self@.span.literal,
    {
        self.span.literal.clone()
    }
}

impl Clone for Token {
    fn clone(&self) -> (res: Self)
        ensures
            res == *self,
    {
        Token { kind: self.kind, span: self.span.clone() }
    }
}

} // verus!
