//! Tokens, and the mathematical lexemes that stand for them in contracts.

use vstd::prelude::*;

verus! {

/// An atomic lexical unit of the source language.
#[derive(Debug, PartialEq, Eq)]
pub enum Token {
    OpenBrace,
    CloseBrace,
    OpenParenth,
    CloseParenth,
    Semicolon,
    KeywordInt,
    KeywordReturn,
    Identifier(String),
    Integer(u32),
}

/// The variant of a token or lexeme, without its payload.
#[derive(Debug, Clone, Copy, PartialEq, Eq, Structural)]
pub enum TokenKind {
    OpenBrace,
    CloseBrace,
    OpenParenth,
    CloseParenth,
    Semicolon,
    KeywordInt,
    KeywordReturn,
    Identifier,
    Integer,
}

/// The mathematical value of a token: an identifier carries its text as a
/// sequence of characters, an integer literal its unbounded numeric value.
pub enum Lexeme {
    OpenBrace,
    CloseBrace,
    OpenParenth,
    CloseParenth,
    Semicolon,
    KeywordInt,
    KeywordReturn,
    Identifier(Seq<char>),
    Integer(nat),
}

impl Lexeme {
    /// The variant of this lexeme.
    pub open spec fn kind(self) -> TokenKind {
        match self {
            Lexeme::OpenBrace => TokenKind::OpenBrace,
            Lexeme::CloseBrace => TokenKind::CloseBrace,
            Lexeme::OpenParenth => TokenKind::OpenParenth,
            Lexeme::CloseParenth => TokenKind::CloseParenth,
            Lexeme::Semicolon => TokenKind::Semicolon,
            Lexeme::KeywordInt => TokenKind::KeywordInt,
            Lexeme::KeywordReturn => TokenKind::KeywordReturn,
            Lexeme::Identifier(_) => TokenKind::Identifier,
            Lexeme::Integer(_) => TokenKind::Integer,
        }
    }

    /// Whether a token can hold this lexeme: an integer literal must fit in
    /// 32 unsigned bits, every other lexeme always fits.
    pub open spec fn representable(self) -> bool {
        self matches Lexeme::Integer(n) ==> n <= u32::MAX
    }
}

impl View for Token {
    type V = Lexeme;

    open spec fn view(&self) -> Lexeme {
        match *self {
            Token::OpenBrace => Lexeme::OpenBrace,
            Token::CloseBrace => Lexeme::CloseBrace,
            Token::OpenParenth => Lexeme::OpenParenth,
            Token::CloseParenth => Lexeme::CloseParenth,
            Token::Semicolon => Lexeme::Semicolon,
            Token::KeywordInt => Lexeme::KeywordInt,
            Token::KeywordReturn => Lexeme::KeywordReturn,
            Token::Identifier(s) => Lexeme::Identifier(s@),
            Token::Integer(n) => Lexeme::Integer(n as nat),
        }
    }
}

impl Clone for Token {
    fn clone(&self) -> (copy: Token)
        ensures
            copy == *self,
    {
        match self {
            Token::OpenBrace => Token::OpenBrace,
            Token::CloseBrace => Token::CloseBrace,
            Token::OpenParenth => Token::OpenParenth,
            Token::CloseParenth => Token::CloseParenth,
            Token::Semicolon => Token::Semicolon,
            Token::KeywordInt => Token::KeywordInt,
            Token::KeywordReturn => Token::KeywordReturn,
            Token::Identifier(text) => Token::Identifier(text.clone()),
            Token::Integer(value) => Token::Integer(*value),
        }
    }
}

impl Token {
    /// The variant of this token.
    pub fn kind(&self) -> (k: TokenKind)
        ensures
            k == self@.kind(),
    {
        match self {
            Token::OpenBrace => TokenKind::OpenBrace,
            Token::CloseBrace => TokenKind::CloseBrace,
            Token::OpenParenth => TokenKind::OpenParenth,
            Token::CloseParenth => TokenKind::CloseParenth,
            Token::Semicolon => TokenKind::Semicolon,
            Token::KeywordInt => TokenKind::KeywordInt,
            Token::KeywordReturn => TokenKind::KeywordReturn,
            Token::Identifier(_) => TokenKind::Identifier,
            Token::Integer(_) => TokenKind::Integer,
        }
    }
}

/// The lexemes of a token sequence, in order.
pub open spec fn lexemes_of(tokens: Seq<Token>) -> Seq<Lexeme> {
    tokens.map_values(|t: Token| t@)
}

/// The lexemes of a token sequence with one more token are those of the
/// sequence, then that of the token.
pub proof fn lemma_lexemes_of_push(tokens: Seq<Token>, token: Token)
    ensures
        lexemes_of(tokens.push(token)) == lexemes_of(tokens).push(token@),
{
    assert(lexemes_of(tokens.push(token)) =~= lexemes_of(tokens).push(token@));
}

} // verus!
