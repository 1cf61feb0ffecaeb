//! The recursive-descent parser: one function for each grammar rule, all
//! reading from one cursor over the tokens.

use crate::ast::{Expression, Function, Program, Statement};
use crate::error::{ParseError, Rule};
use crate::grammar::{expression_at, function_at, mismatch, parsed, program_at, statement_at};
use crate::token::{lexemes_of, Lexeme, Token, TokenKind};
use vstd::prelude::*;

verus! {

/// A position in a borrowed token sequence. Everything before the position
/// has been consumed.
pub struct TokenCursor<'a> {
    tokens: &'a Vec<Token>,
    pos: usize,
}

impl<'a> TokenCursor<'a> {
    /// The lexemes of all the tokens, consumed or not.
    pub closed spec fn lexemes(&self) -> Seq<Lexeme> {
        lexemes_of(self.tokens@)
    }

    /// The number of tokens consumed so far.
    pub closed spec fn position(&self) -> nat {
        self.pos as nat
    }

    /// The lexeme of the next token, where there is one.
    pub open spec fn next_lexeme(&self) -> Lexeme
        recommends
            self.position() < self.lexemes().len(),
    {
        self.lexemes()[self.position() as int]
    }

    /// Whether `self` is `before` after `rule` took, or failed to take, a
    /// token of kind `expected`: advanced by one token where the next token
    /// is of that kind, and unmoved otherwise.
    pub open spec fn stepped(&self, before: &Self, expected: TokenKind, rule: Rule) -> bool {
        &&& self.lexemes() == before.lexemes()
        &&& self.position() == before.position() + if mismatch(
            before.lexemes(),
            before.position(),
            expected,
            rule,
        ) is None {
            1nat
        } else {
            0nat
        }
    }

    /// The position is a machine index, and so is the place behind the
    /// last token: the position that an error holds is the position of
    /// the cursor that met it.
    pub proof fn lemma_position_fits(&self)
        ensures
            self.position() <= usize::MAX,
            self.lexemes().len() <= usize::MAX,
    {
        assert(self.tokens@.len() == self.tokens.len());
    }

    /// A cursor before the first token.
    pub fn new(tokens: &'a Vec<Token>) -> (cursor: TokenCursor<'a>)
        ensures
            cursor.lexemes() == lexemes_of(tokens@),
            cursor.position() == 0,
    {
        TokenCursor { tokens, pos: 0 }
    }

    /// The number of tokens consumed so far.
    pub fn consumed(&self) -> (n: usize)
        ensures
            n == self.position(),
    {
        self.pos
    }

    /// Consumes the next token where it is of kind `expected`. Where the
    /// tokens are exhausted or the next token is of another kind, nothing is
    /// consumed and the error names `rule` and `expected`.
    pub fn expect(&mut self, expected: TokenKind, rule: Rule) -> (r: Result<(), ParseError>)
        ensures
            final(self).stepped(old(self), expected, rule),
            mismatch(old(self).lexemes(), old(self).position(), expected, rule) matches Some(e)
                ==> r == Err::<(), ParseError>(e),
            mismatch(old(self).lexemes(), old(self).position(), expected, rule) is None
                ==> r is Ok,
            r matches Err(e) ==> e.position() == old(self).position(),
    {
        if self.pos >= self.tokens.len() {
            return Err(ParseError::ExhaustedInput { rule, expected, position: self.pos });
        }
        let found = self.tokens[self.pos].kind();
        if found != expected {
            return Err(ParseError::UnexpectedToken { rule, expected, found, position: self.pos });
        }
        self.pos = self.pos + 1;
        Ok(())
    }

    /// Consumes the next token where it is an identifier, and returns its
    /// text. Otherwise nothing is consumed and the error names `rule`.
    pub fn expect_identifier(&mut self, rule: Rule) -> (r: Result<String, ParseError>)
        ensures
            final(self).stepped(old(self), TokenKind::Identifier, rule),
            mismatch(old(self).lexemes(), old(self).position(), TokenKind::Identifier, rule)
                matches Some(e) ==> r == Err::<String, ParseError>(e),
            mismatch(old(self).lexemes(), old(self).position(), TokenKind::Identifier, rule)
                is None ==> (r matches Ok(id) && Lexeme::Identifier(id@)
                == old(self).next_lexeme()),
            r matches Err(e) ==> e.position() == old(self).position(),
    {
        let expected = TokenKind::Identifier;
        if self.pos >= self.tokens.len() {
            return Err(ParseError::ExhaustedInput { rule, expected, position: self.pos });
        }
        match &self.tokens[self.pos] {
            Token::Identifier(id) => {
                self.pos = self.pos + 1;
                Ok(id.clone())
            },
            other => Err(
                ParseError::UnexpectedToken {
                    rule,
                    expected,
                    found: other.kind(),
                    position: self.pos,
                },
            ),
        }
    }

    /// Consumes the next token where it is an integer literal, and returns
    /// its value. Otherwise nothing is consumed and the error names `rule`.
    pub fn expect_integer(&mut self, rule: Rule) -> (r: Result<u32, ParseError>)
        ensures
            final(self).stepped(old(self), TokenKind::Integer, rule),
            mismatch(old(self).lexemes(), old(self).position(), TokenKind::Integer, rule)
                matches Some(e) ==> r == Err::<u32, ParseError>(e),
            mismatch(old(self).lexemes(), old(self).position(), TokenKind::Integer, rule)
                is None ==> (r matches Ok(value) && Lexeme::Integer(value as nat)
                == old(self).next_lexeme()),
            r matches Err(e) ==> e.position() == old(self).position(),
    {
        let expected = TokenKind::Integer;
        if self.pos >= self.tokens.len() {
            return Err(ParseError::ExhaustedInput { rule, expected, position: self.pos });
        }
        match &self.tokens[self.pos] {
            Token::Integer(value) => {
                self.pos = self.pos + 1;
                Ok(*value)
            },
            other => Err(
                ParseError::UnexpectedToken {
                    rule,
                    expected,
                    found: other.kind(),
                    position: self.pos,
                },
            ),
        }
    }
}

/// `expression := Integer`
///
/// Consumes the tokens of one expression. On an error the cursor rests on
/// the token that could not be accepted.
pub fn parse_expression(cursor: &mut TokenCursor) -> (r: Result<Expression, ParseError>)
    ensures
        final(cursor).lexemes() == old(cursor).lexemes(),
        expression_at(old(cursor).lexemes(), old(cursor).position()) matches Ok((expression, end))
            ==> (r matches Ok(node) && node@ == expression && final(cursor).position() == end),
        expression_at(old(cursor).lexemes(), old(cursor).position()) matches Err(e)
            ==> (r == Err::<Expression, ParseError>(e) && final(cursor).position() == e.position()),
{
    let value = cursor.expect_integer(Rule::Expression)?;
    Ok(Expression { int: value })
}

/// `statement := KeywordReturn expression Semicolon`
///
/// Consumes the tokens of one statement. On an error the cursor rests on
/// the token that could not be accepted.
pub fn parse_statement(cursor: &mut TokenCursor) -> (r: Result<Statement, ParseError>)
    ensures
        final(cursor).lexemes() == old(cursor).lexemes(),
        statement_at(old(cursor).lexemes(), old(cursor).position()) matches Ok((statement, end))
            ==> (r matches Ok(node) && node@ == statement && final(cursor).position() == end),
        statement_at(old(cursor).lexemes(), old(cursor).position()) matches Err(e)
            ==> (r == Err::<Statement, ParseError>(e) && final(cursor).position() == e.position()),
{
    cursor.expect(TokenKind::KeywordReturn, Rule::Statement)?;
    let expression = parse_expression(cursor)?;
    cursor.expect(TokenKind::Semicolon, Rule::Statement)?;
    Ok(Statement { expression })
}

/// `function := KeywordInt Identifier OpenParenth CloseParenth OpenBrace statement CloseBrace`
///
/// Consumes the tokens of one function. On an error the cursor rests on
/// the token that could not be accepted.
pub fn parse_function(cursor: &mut TokenCursor) -> (r: Result<Function, ParseError>)
    ensures
        final(cursor).lexemes() == old(cursor).lexemes(),
        function_at(old(cursor).lexemes(), old(cursor).position()) matches Ok((function, end))
            ==> (r matches Ok(node) && node@ == function && final(cursor).position() == end),
        function_at(old(cursor).lexemes(), old(cursor).position()) matches Err(e)
            ==> (r == Err::<Function, ParseError>(e) && final(cursor).position() == e.position()),
{
    cursor.expect(TokenKind::KeywordInt, Rule::Function)?;
    let id = cursor.expect_identifier(Rule::Function)?;
    cursor.expect(TokenKind::OpenParenth, Rule::Function)?;
    cursor.expect(TokenKind::CloseParenth, Rule::Function)?;
    cursor.expect(TokenKind::OpenBrace, Rule::Function)?;
    let statement = parse_statement(cursor)?;
    cursor.expect(TokenKind::CloseBrace, Rule::Function)?;
    Ok(Function { id, statement })
}

/// `program := function`
///
/// Consumes the tokens of one program. On an error the cursor rests on the
/// token that could not be accepted.
pub fn parse_program(cursor: &mut TokenCursor) -> (r: Result<Program, ParseError>)
    ensures
        final(cursor).lexemes() == old(cursor).lexemes(),
        program_at(old(cursor).lexemes(), old(cursor).position()) matches Ok((program, end))
            ==> (r matches Ok(node) && node@ == program && final(cursor).position() == end),
        program_at(old(cursor).lexemes(), old(cursor).position()) matches Err(e)
            ==> (r == Err::<Program, ParseError>(e) && final(cursor).position() == e.position()),
{
    let function = parse_function(cursor)?;
    Ok(Program { function })
}

/// Parses the program that `tokens` starts with. Tokens behind it are not
/// looked at. Fails with the first token that the grammar cannot accept.
pub fn parse(tokens: &Vec<Token>) -> (r: Result<Program, ParseError>)
    ensures
        parsed(lexemes_of(tokens@)) matches Ok(program)
            ==> (r matches Ok(node) && node@ == program),
        parsed(lexemes_of(tokens@)) matches Err(e) ==> r == Err::<Program, ParseError>(e),
{
    let mut cursor = TokenCursor::new(tokens);
    parse_program(&mut cursor)
}

} // verus!
