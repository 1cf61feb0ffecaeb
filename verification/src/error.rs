//! The errors of lexing and parsing.

use crate::token::TokenKind;
use vstd::prelude::*;

verus! {

/// Why lexing failed.
#[derive(Debug, Clone, Copy, PartialEq, Eq, Structural)]
pub enum LexError {
    /// A run of digits denotes a value above `u32::MAX`.
    Overflow,
    /// The regex engine rejected the pattern of a character class. This is
    /// what an error of the engine is mapped to; the engine accepts the
    /// patterns of the two classes of the lexer, so lexing never fails
    /// with it.
    Pattern,
}

/// The grammar rules that consume tokens of their own.
#[derive(Debug, Clone, Copy, PartialEq, Eq, Structural)]
pub enum Rule {
    Function,
    Statement,
    Expression,
}

/// Why parsing failed: the first token that the grammar could not accept.
#[derive(Debug, Clone, Copy, PartialEq, Eq, Structural)]
pub enum ParseError {
    /// The token at `position` is of kind `found`, where `rule` requires a
    /// token of kind `expected`.
    UnexpectedToken { rule: Rule, expected: TokenKind, found: TokenKind, position: usize },
    /// The tokens end at `position`, where `rule` still requires a token of
    /// kind `expected`.
    ExhaustedInput { rule: Rule, expected: TokenKind, position: usize },
}

impl ParseError {
    /// The index, in the token sequence, at which parsing stopped.
    pub open spec fn spec_position(&self) -> usize {
        match *self {
            ParseError::UnexpectedToken { position, .. } => position,
            ParseError::ExhaustedInput { position, .. } => position,
        }
    }

    /// The index, in the token sequence, at which parsing stopped.
    #[verifier::when_used_as_spec(spec_position)]
    pub fn position(&self) -> (p: usize)
        ensures
            p == self.spec_position(),
    {
        match self {
            ParseError::UnexpectedToken { position, .. } => *position,
            ParseError::ExhaustedInput { position, .. } => *position,
        }
    }

    /// The rule that was being parsed when parsing stopped.
    pub open spec fn spec_rule(&self) -> Rule {
        match *self {
            ParseError::UnexpectedToken { rule, .. } => rule,
            ParseError::ExhaustedInput { rule, .. } => rule,
        }
    }

    /// The rule that was being parsed when parsing stopped.
    #[verifier::when_used_as_spec(spec_rule)]
    pub fn rule(&self) -> (r: Rule)
        ensures
            r == self.spec_rule(),
    {
        match self {
            ParseError::UnexpectedToken { rule, .. } => *rule,
            ParseError::ExhaustedInput { rule, .. } => *rule,
        }
    }

    /// The kind of token that the rule required.
    pub open spec fn spec_expected(&self) -> TokenKind {
        match *self {
            ParseError::UnexpectedToken { expected, .. } => expected,
            ParseError::ExhaustedInput { expected, .. } => expected,
        }
    }

    /// The kind of token that the rule required.
    #[verifier::when_used_as_spec(spec_expected)]
    pub fn expected(&self) -> (k: TokenKind)
        ensures
            k == self.spec_expected(),
    {
        match self {
            ParseError::UnexpectedToken { expected, .. } => *expected,
            ParseError::ExhaustedInput { expected, .. } => *expected,
        }
    }
}

} // verus!
