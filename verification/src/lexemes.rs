//! What lexing means: the lexemes of a character sequence.
//!
//! A lexeme starts at every punctuation character and at the first
//! character of every maximal run of letters or of digits. A punctuation
//! character is its own lexeme; a run of letters is a keyword or an
//! identifier; a run of digits is an integer literal. Every other
//! character belongs to a run that started earlier, or is ignored.

use crate::classes::{is_digit, is_letter, CharClass};
use crate::token::Lexeme;
use vstd::prelude::*;

verus! {

/// The spelling of the keyword `int`.
pub const KEYWORD_INT: &'static str = "int";

/// The spelling of the keyword `return`.
pub const KEYWORD_RETURN: &'static str = "return";

/// The lexeme of a punctuation character, `None` for any other character.
pub open spec fn punctuation(c: char) -> Option<Lexeme> {
    if c == '{' {
        Some(Lexeme::OpenBrace)
    } else if c == '}' {
        Some(Lexeme::CloseBrace)
    } else if c == '(' {
        Some(Lexeme::OpenParenth)
    } else if c == ')' {
        Some(Lexeme::CloseParenth)
    } else if c == ';' {
        Some(Lexeme::Semicolon)
    } else {
        None
    }
}

/// The lexeme of a word: a keyword where the word spells one exactly, an
/// identifier with the word as its text otherwise.
pub open spec fn word_lexeme(word: Seq<char>) -> Lexeme {
    if word == KEYWORD_INT@ {
        Lexeme::KeywordInt
    } else if word == KEYWORD_RETURN@ {
        Lexeme::KeywordReturn
    } else {
        Lexeme::Identifier(word)
    }
}

/// The number that a decimal digit stands for.
pub open spec fn digit_value(c: char) -> nat
    recommends
        is_digit(c),
{
    (c as nat - '0' as nat) as nat
}

/// The number that a sequence of decimal digits denotes, most significant
/// digit first. The empty sequence denotes 0.
pub open spec fn decimal_value(digits: Seq<char>) -> nat
    decreases digits.len(),
{
    if digits.len() == 0 {
        0
    } else {
        10 * decimal_value(digits.drop_last()) + digit_value(digits.last())
    }
}

/// The lexeme of a run of characters of `class`.
pub open spec fn run_lexeme(class: CharClass, run: Seq<char>) -> Lexeme {
    match class {
        CharClass::Letter => word_lexeme(run),
        CharClass::Digit => Lexeme::Integer(decimal_value(run)),
    }
}

/// The position behind the longest stretch of characters of `class` that
/// begins at `start`: `start` itself where no such character stands there.
pub open spec fn run_end(s: Seq<char>, start: int, class: CharClass) -> int
    decreases s.len() - start,
{
    if 0 <= start < s.len() && class.contains(s[start]) {
        run_end(s, start + 1, class)
    } else {
        start
    }
}

/// Whether the character at `i` begins a run of `class`: it belongs to the
/// class and the character before it, if there is one, does not.
pub open spec fn starts_run(s: Seq<char>, i: int, class: CharClass) -> bool {
    class.contains(s[i]) && !(i > 0 && class.contains(s[i - 1]))
}

/// The lexeme that starts at position `i`, if one starts there.
pub open spec fn lexeme_at(s: Seq<char>, i: int) -> Option<Lexeme> {
    if punctuation(s[i]) is Some {
        punctuation(s[i])
    } else if starts_run(s, i, CharClass::Letter) {
        Some(run_lexeme(CharClass::Letter, s.subrange(i, run_end(s, i, CharClass::Letter))))
    } else if starts_run(s, i, CharClass::Digit) {
        Some(run_lexeme(CharClass::Digit, s.subrange(i, run_end(s, i, CharClass::Digit))))
    } else {
        None
    }
}

/// The lexemes that start at position `from` or behind it, in order.
pub open spec fn lexemes_from(s: Seq<char>, from: int) -> Seq<Lexeme>
    decreases s.len() - from,
{
    if from < 0 || from >= s.len() {
        Seq::empty()
    } else {
        match lexeme_at(s, from) {
            Some(lexeme) => seq![lexeme] + lexemes_from(s, from + 1),
            None => lexemes_from(s, from + 1),
        }
    }
}

/// The lexemes of a source text, in order.
pub open spec fn lexemes(s: Seq<char>) -> Seq<Lexeme> {
    lexemes_from(s, 0)
}

/// Whether every lexeme of the sequence fits in a token.
pub open spec fn all_representable(lexemes: Seq<Lexeme>) -> bool {
    forall|k: int| 0 <= k < lexemes.len() ==> (#[trigger] lexemes[k]).representable()
}

/// Whether a run of `class` would extend from the end of `a` into the
/// beginning of `b`, were the two joined.
pub open spec fn joins_run(a: Seq<char>, b: Seq<char>, class: CharClass) -> bool {
    a.len() > 0 && b.len() > 0 && class.contains(a.last()) && class.contains(b.first())
}

/// Whether the place where `a` ends and `b` begins would fall inside a run
/// of letters or of digits, were the two joined.
pub open spec fn splits_run(a: Seq<char>, b: Seq<char>) -> bool {
    joins_run(a, b, CharClass::Letter) || joins_run(a, b, CharClass::Digit)
}

/// Whether the lexer passes over `c`: it is no punctuation, no letter and
/// no digit.
pub open spec fn ignored(c: char) -> bool {
    punctuation(c) is None && !is_letter(c) && !is_digit(c)
}

} // verus!
