//! Laws of parsing: what holds of the parse of every lexeme sequence.

use crate::ast::ProgramModel;
use crate::error::ParseError;
use crate::grammar::{
    expression_at, function_at, minimal_program, parsed, program_at, program_kinds, program_model,
    statement_at,
};
use crate::token::Lexeme;
use vstd::prelude::*;

verus! {

/// Each rule consumes exactly the lexemes of its production: one for an
/// expression, three for a statement, nine for a function and for a
/// program.
pub proof fn lemma_rules_consume_their_lexemes(tokens: Seq<Lexeme>, pos: nat)
    ensures
        expression_at(tokens, pos) matches Ok((_, end)) ==> end == pos + 1,
        statement_at(tokens, pos) matches Ok((_, end)) ==> end == pos + 3,
        function_at(tokens, pos) matches Ok((_, end)) ==> end == pos + 9,
        program_at(tokens, pos) matches Ok((_, end)) ==> end == pos + 9,
{
}

/// Parsing yields a given program exactly on the sequences that begin with
/// the nine lexemes of the minimal program of its name and value. So a
/// program that comes out was written in the tokens, and what follows the
/// ninth lexeme has no influence.
pub proof fn lemma_parsed_exactly_minimal_prefix(tokens: Seq<Lexeme>, program: ProgramModel)
    ensures
        parsed(tokens) == Ok::<ProgramModel, ParseError>(program) <==> tokens.len() >= 9
            && tokens.take(9) == minimal_program(
            program.function.id,
            program.function.statement.expression.int,
        ),
{
    let minimal = minimal_program(
        program.function.id,
        program.function.statement.expression.int,
    );
    if tokens.len() >= 9 && tokens.take(9) == minimal {
        assert forall|k: int| 0 <= k < 9 implies tokens[k] == minimal[k] by {
            assert(tokens.take(9)[k] == tokens[k]);
        }
    }
    if parsed(tokens) == Ok::<ProgramModel, ParseError>(program) {
        assert(tokens.take(9) =~= minimal);
    }
}

/// A minimal program parses to the program of its name and value.
pub proof fn lemma_minimal_program_parses(id: Seq<char>, value: nat)
    ensures
        parsed(minimal_program(id, value)) == Ok::<ProgramModel, ParseError>(
            program_model(id, value),
        ),
{
    let minimal = minimal_program(id, value);
    assert(minimal.take(9) =~= minimal);
    lemma_parsed_exactly_minimal_prefix(minimal, program_model(id, value));
}

/// Lexemes behind a program that parses are ignored.
pub proof fn lemma_trailing_lexemes_ignored(tokens: Seq<Lexeme>, rest: Seq<Lexeme>)
    requires
        parsed(tokens) is Ok,
    ensures
        parsed(tokens + rest) == parsed(tokens),
{
    let program = parsed(tokens)->Ok_0;
    lemma_parsed_exactly_minimal_prefix(tokens, program);
    assert((tokens + rest).take(9) =~= tokens.take(9));
    lemma_parsed_exactly_minimal_prefix(tokens + rest, program);
}

/// Whether `e` tells of the first of the first nine places of `tokens` that
/// is empty or holds a lexeme of another kind than a minimal program has
/// there.
pub open spec fn first_mismatch(tokens: Seq<Lexeme>, e: ParseError) -> bool {
    &&& 0 <= e.position() < 9
    &&& e.position() <= tokens.len()
    &&& forall|k: int| 0 <= k < e.position() ==> (#[trigger] tokens[k]).kind() == program_kinds()[k]
    &&& e.expected() == program_kinds()[e.position() as int]
    &&& e is ExhaustedInput <==> e.position() == tokens.len()
    &&& e matches ParseError::UnexpectedToken { found, .. } ==> found
        == tokens[e.position() as int].kind() && found != e.expected()
}

/// Parsing succeeds exactly where each of the first nine places holds a
/// lexeme of the kind that a minimal program has there. Where one of them
/// is empty or holds a lexeme of another kind, parsing fails, and the
/// error names the first such place.
pub proof fn lemma_parse_succeeds_exactly(tokens: Seq<Lexeme>)
    ensures
        parsed(tokens) is Ok <==> tokens.len() >= 9 && forall|k: int|
            0 <= k < 9 ==> (#[trigger] tokens[k]).kind() == program_kinds()[k],
        parsed(tokens) matches Err(e) ==> first_mismatch(tokens, e),
{
    if tokens.len() >= 9 && forall|k: int|
        0 <= k < 9 ==> (#[trigger] tokens[k]).kind() == program_kinds()[k] {
        assert(tokens[0].kind() == program_kinds()[0]);
        assert(tokens[1].kind() == program_kinds()[1]);
        assert(tokens[2].kind() == program_kinds()[2]);
        assert(tokens[3].kind() == program_kinds()[3]);
        assert(tokens[4].kind() == program_kinds()[4]);
        assert(tokens[5].kind() == program_kinds()[5]);
        assert(tokens[6].kind() == program_kinds()[6]);
        assert(tokens[7].kind() == program_kinds()[7]);
        assert(tokens[8].kind() == program_kinds()[8]);
    }
}

/// Fatal on mismatch: parsing fails on every sequence in which one of the
/// first nine places is empty or holds a lexeme of another kind than a
/// minimal program has there.
pub proof fn lemma_wrong_kind_is_fatal(tokens: Seq<Lexeme>, k: int)
    requires
        0 <= k < 9,
        k >= tokens.len() || tokens[k].kind() != program_kinds()[k],
    ensures
        parsed(tokens) is Err,
{
    lemma_parse_succeeds_exactly(tokens);
}

/// Parsing fails on a minimal program from which one lexeme was removed.
pub proof fn lemma_missing_lexeme_is_fatal(id: Seq<char>, value: nat, k: int)
    requires
        0 <= k < 9,
    ensures
        parsed(minimal_program(id, value).remove(k)) is Err,
{
    lemma_wrong_kind_is_fatal(minimal_program(id, value).remove(k), 8);
}

/// Parsing fails on every arrangement of nine lexemes taken from a minimal
/// program, in whatever order and however often each, but the program
/// itself.
pub proof fn lemma_rearranged_lexemes_are_fatal(tokens: Seq<Lexeme>, id: Seq<char>, value: nat)
    requires
        tokens.len() == 9,
        forall|k: int|
            0 <= k < 9 ==> exists|j: int|
                0 <= j < 9 && #[trigger] tokens[k] == #[trigger] minimal_program(id, value)[j],
        tokens != minimal_program(id, value),
    ensures
        parsed(tokens) is Err,
{
    let minimal = minimal_program(id, value);
    if parsed(tokens) is Ok {
        lemma_parse_succeeds_exactly(tokens);
        assert forall|k: int| 0 <= k < 9 implies tokens[k] == minimal[k] by {
            let j = choose|j: int| 0 <= j < 9 && tokens[k] == minimal[j];
            assert(tokens[k].kind() == program_kinds()[k]);
            assert(minimal[j].kind() == program_kinds()[j]);
        }
        assert(tokens =~= minimal);
    }
}

} // verus!
