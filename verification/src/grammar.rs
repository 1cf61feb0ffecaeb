//! The grammar, as functions from a lexeme sequence and a position to the
//! node that starts there and the position behind it.
//!
//! ```text
//! program    := function
//! function   := KeywordInt Identifier OpenParenth CloseParenth OpenBrace statement CloseBrace
//! statement  := KeywordReturn expression Semicolon
//! expression := Integer
//! ```

use crate::ast::{ExpressionModel, FunctionModel, ProgramModel, StatementModel};
use crate::error::{ParseError, Rule};
use crate::token::{Lexeme, TokenKind};
use vstd::prelude::*;

verus! {

/// Why `rule` cannot take a token of kind `expected` at `pos`: the tokens
/// end there, or the token there is of another kind. `None` where it can.
pub open spec fn mismatch(
    tokens: Seq<Lexeme>,
    pos: nat,
    expected: TokenKind,
    rule: Rule,
) -> Option<ParseError> {
    if pos >= tokens.len() {
        Some(ParseError::ExhaustedInput { rule, expected, position: pos as usize })
    } else if tokens[pos as int].kind() != expected {
        Some(
            ParseError::UnexpectedToken {
                rule,
                expected,
                found: tokens[pos as int].kind(),
                position: pos as usize,
            },
        )
    } else {
        None
    }
}

/// `expression := Integer`
pub open spec fn expression_at(tokens: Seq<Lexeme>, pos: nat) -> Result<
    (ExpressionModel, nat),
    ParseError,
> {
    if let Some(e) = mismatch(tokens, pos, TokenKind::Integer, Rule::Expression) {
        Err(e)
    } else {
        Ok((ExpressionModel { int: tokens[pos as int]->Integer_0 }, pos + 1))
    }
}

/// `statement := KeywordReturn expression Semicolon`
pub open spec fn statement_at(tokens: Seq<Lexeme>, pos: nat) -> Result<
    (StatementModel, nat),
    ParseError,
> {
    if let Some(e) = mismatch(tokens, pos, TokenKind::KeywordReturn, Rule::Statement) {
        Err(e)
    } else {
        match expression_at(tokens, pos + 1) {
            Err(e) => Err(e),
            Ok((expression, end)) => {
                if let Some(e) = mismatch(tokens, end, TokenKind::Semicolon, Rule::Statement) {
                    Err(e)
                } else {
                    Ok((StatementModel { expression }, end + 1))
                }
            },
        }
    }
}

/// `function := KeywordInt Identifier OpenParenth CloseParenth OpenBrace statement CloseBrace`
pub open spec fn function_at(tokens: Seq<Lexeme>, pos: nat) -> Result<
    (FunctionModel, nat),
    ParseError,
> {
    if let Some(e) = mismatch(tokens, pos, TokenKind::KeywordInt, Rule::Function) {
        Err(e)
    } else if let Some(e) = mismatch(tokens, pos + 1, TokenKind::Identifier, Rule::Function) {
        Err(e)
    } else if let Some(e) = mismatch(tokens, pos + 2, TokenKind::OpenParenth, Rule::Function) {
        Err(e)
    } else if let Some(e) = mismatch(tokens, pos + 3, TokenKind::CloseParenth, Rule::Function) {
        Err(e)
    } else if let Some(e) = mismatch(tokens, pos + 4, TokenKind::OpenBrace, Rule::Function) {
        Err(e)
    } else {
        match statement_at(tokens, pos + 5) {
            Err(e) => Err(e),
            Ok((statement, end)) => {
                if let Some(e) = mismatch(tokens, end, TokenKind::CloseBrace, Rule::Function) {
                    Err(e)
                } else {
                    Ok(
                        (
                            FunctionModel { id: tokens[pos as int + 1]->Identifier_0, statement },
                            end + 1,
                        ),
                    )
                }
            },
        }
    }
}

/// `program := function`
pub open spec fn program_at(tokens: Seq<Lexeme>, pos: nat) -> Result<
    (ProgramModel, nat),
    ParseError,
> {
    match function_at(tokens, pos) {
        Err(e) => Err(e),
        Ok((function, end)) => Ok((ProgramModel { function }, end)),
    }
}

/// The program that a lexeme sequence starts with, or the first error.
/// Lexemes behind the program are not looked at.
pub open spec fn parsed(tokens: Seq<Lexeme>) -> Result<ProgramModel, ParseError> {
    match program_at(tokens, 0) {
        Err(e) => Err(e),
        Ok((program, _)) => Ok(program),
    }
}

/// The nine lexemes of the program `int <id>() { return <value>; }`.
pub open spec fn minimal_program(id: Seq<char>, value: nat) -> Seq<Lexeme> {
    seq![
        Lexeme::KeywordInt,
        Lexeme::Identifier(id),
        Lexeme::OpenParenth,
        Lexeme::CloseParenth,
        Lexeme::OpenBrace,
        Lexeme::KeywordReturn,
        Lexeme::Integer(value),
        Lexeme::Semicolon,
        Lexeme::CloseBrace,
    ]
}

/// The kinds of the nine lexemes of a minimal program, in order.
pub open spec fn program_kinds() -> Seq<TokenKind> {
    seq![
        TokenKind::KeywordInt,
        TokenKind::Identifier,
        TokenKind::OpenParenth,
        TokenKind::CloseParenth,
        TokenKind::OpenBrace,
        TokenKind::KeywordReturn,
        TokenKind::Integer,
        TokenKind::Semicolon,
        TokenKind::CloseBrace,
    ]
}

/// The program whose function is named `id` and returns `value`.
pub open spec fn program_model(id: Seq<char>, value: nat) -> ProgramModel {
    ProgramModel {
        function: FunctionModel {
            id,
            statement: StatementModel { expression: ExpressionModel { int: value } },
        },
    }
}

} // verus!
