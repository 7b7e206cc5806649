//! Tokens: the classified, literal-preserving units of lexical structure.

use vstd::prelude::*;

verus! {

/// What a token is, apart from the text it was read from.
#[derive(Clone, Copy, Debug, PartialEq, Eq, Structural)]
pub enum TokenKind {
    /// A word that is no keyword.
    Ident,
    /// A run of decimal digits, kept as text.
    Integer,
    /// `=`.
    Assign,
    /// `==`.
    Equal,
    /// `!=`.
    NotEqual,
    /// `!`.
    Bang,
    /// `+`.
    Plus,
    /// `-`.
    Minus,
    /// `*`.
    Asterisk,
    /// `/`.
    Slash,
    /// `<`.
    LessThan,
    /// `>`.
    GreaterThan,
    /// `(`.
    LParen,
    /// `)`.
    RParen,
    /// `,`.
    Comma,
    /// The keyword `def`.
    Method,
    /// The keyword `return`.
    Return,
    /// The keyword `end`.
    End,
    /// The keyword `if`.
    If,
    /// The keyword `else`.
    Else,
    /// The keyword `true`.
    True,
    /// The keyword `false`.
    False,
    /// One space or newline.
    Whitespace,
    /// One character that starts no other token.
    Illegal,
}

/// The mathematical content of a token: its kind and the exact characters of
/// the source that it was read from.
pub struct Lexeme {
    pub kind: TokenKind,
    pub text: Seq<char>,
}

/// An individual word or sign of the language. Each variant carries the
/// literal text that was matched in the source.
#[derive(Debug)]
pub enum Token {
    Ident(String),
    Integer(String),
    Assign(String),
    Equal(String),
    NotEqual(String),
    Bang(String),
    Plus(String),
    Minus(String),
    Asterisk(String),
    Slash(String),
    LessThan(String),
    GreaterThan(String),
    LParen(String),
    RParen(String),
    Comma(String),
    Method(String),
    Return(String),
    End(String),
    If(String),
    Else(String),
    True(String),
    False(String),
    Whitespace(String),
    Illegal(String),
}

impl View for Token {
    type V = Lexeme;

    open spec fn view(&self) -> Lexeme {
        Lexeme { kind: self.kind_spec(), text: self.literal_spec()@ }
    }
}

/// Two tokens are equal where they are of the same kind and carry the same
/// text.
impl PartialEq for Token {
    fn eq(&self, other: &Token) -> (equal: bool) {
        self.kind() == other.kind() && *self.literal() == *other.literal()
    }
}

impl vstd::std_specs::cmp::PartialEqSpecImpl for Token {
    open spec fn obeys_eq_spec() -> bool {
        true
    }

    open spec fn eq_spec(&self, other: &Token) -> bool {
        self@ == other@
    }
}

/// The mathematical contents of a sequence of tokens, one by one.
pub open spec fn lexemes(tokens: Seq<Token>) -> Seq<Lexeme> {
    tokens.map_values(|t: Token| t@)
}

impl Token {
    /// The kind of this token.
    pub open spec fn kind_spec(&self) -> TokenKind {
        match self {
            Token::Ident(_) => TokenKind::Ident,
            Token::Integer(_) => TokenKind::Integer,
            Token::Assign(_) => TokenKind::Assign,
            Token::Equal(_) => TokenKind::Equal,
            Token::NotEqual(_) => TokenKind::NotEqual,
            Token::Bang(_) => TokenKind::Bang,
            Token::Plus(_) => TokenKind::Plus,
            Token::Minus(_) => TokenKind::Minus,
            Token::Asterisk(_) => TokenKind::Asterisk,
            Token::Slash(_) => TokenKind::Slash,
            Token::LessThan(_) => TokenKind::LessThan,
            Token::GreaterThan(_) => TokenKind::GreaterThan,
            Token::LParen(_) => TokenKind::LParen,
            Token::RParen(_) => TokenKind::RParen,
            Token::Comma(_) => TokenKind::Comma,
            Token::Method(_) => TokenKind::Method,
            Token::Return(_) => TokenKind::Return,
            Token::End(_) => TokenKind::End,
            Token::If(_) => TokenKind::If,
            Token::Else(_) => TokenKind::Else,
            Token::True(_) => TokenKind::True,
            Token::False(_) => TokenKind::False,
            Token::Whitespace(_) => TokenKind::Whitespace,
            Token::Illegal(_) => TokenKind::Illegal,
        }
    }

    /// The literal text carried by this token.
    pub open spec fn literal_spec(&self) -> &String {
        match self {
            Token::Ident(text) => text,
            Token::Integer(text) => text,
            Token::Assign(text) => text,
            Token::Equal(text) => text,
            Token::NotEqual(text) => text,
            Token::Bang(text) => text,
            Token::Plus(text) => text,
            Token::Minus(text) => text,
            Token::Asterisk(text) => text,
            Token::Slash(text) => text,
            Token::LessThan(text) => text,
            Token::GreaterThan(text) => text,
            Token::LParen(text) => text,
            Token::RParen(text) => text,
            Token::Comma(text) => text,
            Token::Method(text) => text,
            Token::Return(text) => text,
            Token::End(text) => text,
            Token::If(text) => text,
            Token::Else(text) => text,
            Token::True(text) => text,
            Token::False(text) => text,
            Token::Whitespace(text) => text,
            Token::Illegal(text) => text,
        }
    }

    #[verifier::when_used_as_spec(kind_spec)]
    pub fn kind(&self) -> (kind: TokenKind)
        ensures
            kind == self.kind_spec(),
    {
        match self {
            Token::Ident(_) => TokenKind::Ident,
            Token::Integer(_) => TokenKind::Integer,
            Token::Assign(_) => TokenKind::Assign,
            Token::Equal(_) => TokenKind::Equal,
            Token::NotEqual(_) => TokenKind::NotEqual,
            Token::Bang(_) => TokenKind::Bang,
            Token::Plus(_) => TokenKind::Plus,
            Token::Minus(_) => TokenKind::Minus,
            Token::Asterisk(_) => TokenKind::Asterisk,
            Token::Slash(_) => TokenKind::Slash,
            Token::LessThan(_) => TokenKind::LessThan,
            Token::GreaterThan(_) => TokenKind::GreaterThan,
            Token::LParen(_) => TokenKind::LParen,
            Token::RParen(_) => TokenKind::RParen,
            Token::Comma(_) => TokenKind::Comma,
            Token::Method(_) => TokenKind::Method,
            Token::Return(_) => TokenKind::Return,
            Token::End(_) => TokenKind::End,
            Token::If(_) => TokenKind::If,
            Token::Else(_) => TokenKind::Else,
            Token::True(_) => TokenKind::True,
            Token::False(_) => TokenKind::False,
            Token::Whitespace(_) => TokenKind::Whitespace,
            Token::Illegal(_) => TokenKind::Illegal,
        }
    }

    #[verifier::when_used_as_spec(literal_spec)]
    pub fn literal(&self) -> (text: &String)
        ensures
            text == self.literal_spec(),
    {
        match self {
            Token::Ident(text) => text,
            Token::Integer(text) => text,
            Token::Assign(text) => text,
            Token::Equal(text) => text,
            Token::NotEqual(text) => text,
            Token::Bang(text) => text,
            Token::Plus(text) => text,
            Token::Minus(text) => text,
            Token::Asterisk(text) => text,
            Token::Slash(text) => text,
            Token::LessThan(text) => text,
            Token::GreaterThan(text) => text,
            Token::LParen(text) => text,
            Token::RParen(text) => text,
            Token::Comma(text) => text,
            Token::Method(text) => text,
            Token::Return(text) => text,
            Token::End(text) => text,
            Token::If(text) => text,
            Token::Else(text) => text,
            Token::True(text) => text,
            Token::False(text) => text,
            Token::Whitespace(text) => text,
            Token::Illegal(text) => text,
        }
    }
}

} // verus!
