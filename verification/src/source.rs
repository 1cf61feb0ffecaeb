//! Source texts of minimal programs, and what the front end makes of them.

use crate::ast::ProgramModel;
use crate::classes::{is_digit, is_letter, CharClass};
use crate::error::ParseError;
use crate::grammar::{minimal_program, parsed, program_model};
use crate::grammar_laws::lemma_minimal_program_parses;
use crate::lexeme_laws::{
    lemma_ignored_text, lemma_lexemes_of_concatenation, lemma_punctuation_alone,
    lemma_run_is_one_lexeme,
};
use crate::lexemes::{
    all_representable, decimal_value, digit_value, ignored, lexemes, punctuation, run_lexeme,
    KEYWORD_INT, KEYWORD_RETURN,
};
use crate::token::Lexeme;
use vstd::prelude::*;

verus! {

/// Whether the lexer passes over every character of `s`.
pub open spec fn is_gap(s: Seq<char>) -> bool {
    forall|k: int| 0 <= k < s.len() ==> ignored(#[trigger] s[k])
}

/// Whether `s` can name a function: a word of letters that is no keyword.
pub open spec fn is_name(s: Seq<char>) -> bool {
    &&& s.len() > 0
    &&& forall|k: int| 0 <= k < s.len() ==> is_letter(#[trigger] s[k])
    &&& s != KEYWORD_INT@
    &&& s != KEYWORD_RETURN@
}

/// Whether `s` is a decimal numeral: one digit or more.
pub open spec fn is_numeral(s: Seq<char>) -> bool {
    &&& s.len() > 0
    &&& forall|k: int| 0 <= k < s.len() ==> is_digit(#[trigger] s[k])
}

/// The text `int <name>() { return <numeral>; }` with `gaps[0]` before the
/// first token, `gaps[9]` behind the last one, and `gaps[1]` to `gaps[8]`
/// between the tokens.
pub open spec fn minimal_source(gaps: Seq<Seq<char>>, name: Seq<char>, numeral: Seq<char>) -> Seq<
    char,
> {
    gaps[0] + KEYWORD_INT@ + gaps[1] + name + gaps[2] + seq!['('] + gaps[3] + seq![')'] + gaps[4]
        + seq!['{'] + gaps[5] + KEYWORD_RETURN@ + gaps[6] + numeral + gaps[7] + seq![';'] + gaps[8]
        + seq!['}'] + gaps[9]
}

/// Whether `s` ends with a character of `class`.
spec fn ends_with(s: Seq<char>, class: CharClass) -> bool {
    s.len() > 0 && class.contains(s.last())
}

/// Ignored characters behind a text add no lexeme, and no run ends with
/// them.
proof fn lemma_append_gap(prefix: Seq<char>, gap: Seq<char>)
    requires
        is_gap(gap),
    ensures
        lexemes(prefix + gap) == lexemes(prefix),
        forall|class: CharClass| #[trigger]
            ends_with(prefix + gap, class) ==> ends_with(prefix, class),
{
    if gap.len() > 0 {
        assert(ignored(gap.first()));
        assert(ignored(gap.last()));
        assert((prefix + gap).last() == gap.last());
    } else {
        assert(prefix + gap =~= prefix);
    }
    lemma_lexemes_of_concatenation(prefix, gap);
    lemma_ignored_text(gap, 0);
    assert(lexemes(prefix) + Seq::<Lexeme>::empty() =~= lexemes(prefix));
}

/// A punctuation character behind a text adds its lexeme, and no run ends
/// with it.
proof fn lemma_append_punctuation(prefix: Seq<char>, c: char)
    requires
        punctuation(c) is Some,
    ensures
        lexemes(prefix + seq![c]) == lexemes(prefix).push(punctuation(c)->Some_0),
        forall|class: CharClass| !#[trigger] ends_with(prefix + seq![c], class),
{
    let piece = seq![c];
    assert(piece.first() == c);
    assert((prefix + piece).last() == c);
    lemma_lexemes_of_concatenation(prefix, piece);
    lemma_punctuation_alone(c);
    assert(lexemes(prefix) + seq![punctuation(c)->Some_0] =~= lexemes(prefix).push(
        punctuation(c)->Some_0,
    ));
}

/// A run behind a text that does not end with a character of its class
/// adds its one lexeme, and the whole ends with a character of that class
/// and of no other.
proof fn lemma_append_run(prefix: Seq<char>, run: Seq<char>, class: CharClass)
    requires
        run.len() > 0,
        forall|k: int| 0 <= k < run.len() ==> class.contains(#[trigger] run[k]),
        !ends_with(prefix, class),
    ensures
        lexemes(prefix + run) == lexemes(prefix).push(run_lexeme(class, run)),
        forall|other: CharClass| #[trigger] ends_with(prefix + run, other) <==> other == class,
{
    assert(class.contains(run.first()));
    assert(class.contains(run.last()));
    assert((prefix + run).last() == run.last());
    lemma_lexemes_of_concatenation(prefix, run);
    lemma_run_is_one_lexeme(run, class);
    assert(lexemes(prefix) + seq![run_lexeme(class, run)] =~= lexemes(prefix).push(
        run_lexeme(class, run),
    ));
}

/// The front end on a minimal program: whatever ignored characters stand
/// between the tokens, with one at least between `int` and the name, the
/// text has the nine lexemes of the minimal program with that name and the
/// value of that numeral, and these parse to the program with that name
/// and value. The lexemes fit in tokens exactly when the value is at most
/// `u32::MAX`.
pub proof fn lemma_minimal_source(gaps: Seq<Seq<char>>, name: Seq<char>, numeral: Seq<char>)
    requires
        gaps.len() == 10,
        forall|k: int| 0 <= k < 10 ==> is_gap(#[trigger] gaps[k]),
        gaps[1].len() > 0,
        is_name(name),
        is_numeral(numeral),
    ensures
        lexemes(minimal_source(gaps, name, numeral)) == minimal_program(
            name,
            decimal_value(numeral),
        ),
        parsed(lexemes(minimal_source(gaps, name, numeral))) == Ok::<ProgramModel, ParseError>(
            program_model(name, decimal_value(numeral)),
        ),
        all_representable(lexemes(minimal_source(gaps, name, numeral))) <==> decimal_value(numeral)
            <= u32::MAX,
{
    reveal_strlit("int");
    reveal_strlit("return");
    let letter = CharClass::Letter;
    let digit = CharClass::Digit;
    let value = decimal_value(numeral);
    let empty = Seq::<char>::empty();

    assert(is_gap(gaps[0]));
    lemma_append_gap(empty, gaps[0]);
    let s0 = gaps[0];
    assert(empty + gaps[0] =~= s0);
    assert(lexemes(empty) =~= Seq::<Lexeme>::empty());
    assert(!ends_with(s0, letter)) by {
        assert(ends_with(empty + gaps[0], letter) ==> ends_with(empty, letter));
    }

    lemma_append_run(s0, KEYWORD_INT@, letter);
    let s1 = s0 + KEYWORD_INT@;

    assert(is_gap(gaps[1]));
    lemma_append_gap(s1, gaps[1]);
    let s2 = s1 + gaps[1];
    assert(!ends_with(s2, letter)) by {
        assert(ignored(gaps[1].last()));
        assert(s2.last() == gaps[1].last());
    }

    lemma_append_run(s2, name, letter);
    let s3 = s2 + name;

    assert(is_gap(gaps[2]));
    lemma_append_gap(s3, gaps[2]);
    let s4 = s3 + gaps[2];

    lemma_append_punctuation(s4, '(');
    let s5 = s4 + seq!['('];

    assert(is_gap(gaps[3]));
    lemma_append_gap(s5, gaps[3]);
    let s6 = s5 + gaps[3];

    lemma_append_punctuation(s6, ')');
    let s7 = s6 + seq![')'];

    assert(is_gap(gaps[4]));
    lemma_append_gap(s7, gaps[4]);
    let s8 = s7 + gaps[4];

    lemma_append_punctuation(s8, '{');
    let s9 = s8 + seq!['{'];

    assert(is_gap(gaps[5]));
    lemma_append_gap(s9, gaps[5]);
    let s10 = s9 + gaps[5];
    assert(!ends_with(s10, letter)) by {
        assert(!ends_with(s9, letter));
        assert(ends_with(s9 + gaps[5], letter) ==> ends_with(s9, letter));
    }

    lemma_append_run(s10, KEYWORD_RETURN@, letter);
    let s11 = s10 + KEYWORD_RETURN@;

    assert(is_gap(gaps[6]));
    lemma_append_gap(s11, gaps[6]);
    let s12 = s11 + gaps[6];
    assert(!ends_with(s12, digit)) by {
        assert(ends_with(s11, digit) <==> digit == letter);
        assert(ends_with(s11 + gaps[6], digit) ==> ends_with(s11, digit));
    }

    lemma_append_run(s12, numeral, digit);
    let s13 = s12 + numeral;

    assert(is_gap(gaps[7]));
    lemma_append_gap(s13, gaps[7]);
    let s14 = s13 + gaps[7];

    lemma_append_punctuation(s14, ';');
    let s15 = s14 + seq![';'];

    assert(is_gap(gaps[8]));
    lemma_append_gap(s15, gaps[8]);
    let s16 = s15 + gaps[8];

    lemma_append_punctuation(s16, '}');
    let s17 = s16 + seq!['}'];

    assert(is_gap(gaps[9]));
    lemma_append_gap(s17, gaps[9]);
    let s18 = s17 + gaps[9];

    assert(s18 == minimal_source(gaps, name, numeral));
    assert(lexemes(s18) =~= minimal_program(name, value));
    lemma_minimal_program_parses(name, value);
    assert(minimal_program(name, value)[6] == Lexeme::Integer(value));
}

/// The character of a decimal digit.
pub open spec fn digit_char(d: nat) -> char {
    ('0' as nat + d) as char
}

/// The decimal numeral of a number, without leading zeros.
pub open spec fn numeral_of(n: nat) -> Seq<char>
    decreases n,
{
    if n < 10 {
        seq![digit_char(n)]
    } else {
        numeral_of(n / 10).push(digit_char(n % 10))
    }
}

/// Every number has a numeral that denotes it.
pub proof fn lemma_numeral_of(n: nat)
    ensures
        is_numeral(numeral_of(n)),
        decimal_value(numeral_of(n)) == n,
    decreases n,
{
    if n < 10 {
        let s = numeral_of(n);
        assert(s.drop_last() =~= Seq::<char>::empty());
        assert(decimal_value(s.drop_last()) == 0);
        assert(digit_value(digit_char(n)) == n);
    } else {
        lemma_numeral_of(n / 10);
        let s = numeral_of(n);
        assert(s.drop_last() =~= numeral_of(n / 10));
        assert(s.last() == digit_char(n % 10));
        assert(digit_value(digit_char(n % 10)) == n % 10);
    }
}

/// The front end on the minimal program of a name and a number: the text
/// written with the numeral of `value` parses to the program that returns
/// `value`, and its lexemes fit in tokens exactly when `value` is at most
/// `u32::MAX`.
pub proof fn lemma_minimal_source_of_number(gaps: Seq<Seq<char>>, name: Seq<char>, value: nat)
    requires
        gaps.len() == 10,
        forall|k: int| 0 <= k < 10 ==> is_gap(#[trigger] gaps[k]),
        gaps[1].len() > 0,
        is_name(name),
    ensures
        lexemes(minimal_source(gaps, name, numeral_of(value))) == minimal_program(name, value),
        parsed(lexemes(minimal_source(gaps, name, numeral_of(value)))) == Ok::<
            ProgramModel,
            ParseError,
        >(program_model(name, value)),
        all_representable(lexemes(minimal_source(gaps, name, numeral_of(value)))) <==> value
            <= u32::MAX,
{
    lemma_numeral_of(value);
    lemma_minimal_source(gaps, name, numeral_of(value));
}

} // verus!
