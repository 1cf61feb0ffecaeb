//! The two character classes of the lexer, letters and digits, and the
//! compiled regular expressions that recognise them.

use crate::error::LexError;
use regex::Regex;
use vstd::prelude::*;

verus! {

/// The pattern of the letter class.
pub const LETTER_CLASS: &'static str = "[a-zA-Z]";

/// The pattern of the digit class.
pub const DIGIT_RUN: &'static str = "[0-9]+";

/// Whether `c` is one of the 52 ASCII letters.
pub open spec fn is_letter(c: char) -> bool {
    ('a' <= c && c <= 'z') || ('A' <= c && c <= 'Z')
}

/// Whether `c` is one of the ten ASCII digits.
pub open spec fn is_digit(c: char) -> bool {
    '0' <= c && c <= '9'
}

/// A class of characters that forms runs in the source text.
#[derive(Debug, Clone, Copy, PartialEq, Eq, Structural)]
pub enum CharClass {
    Letter,
    Digit,
}

impl CharClass {
    /// Whether `c` belongs to the class.
    pub open spec fn contains(self, c: char) -> bool {
        match self {
            CharClass::Letter => is_letter(c),
            CharClass::Digit => is_digit(c),
        }
    }
}

/// A compiled regular expression of the `regex` crate. Opaque here.
#[verifier::external_type_specification]
#[verifier::external_body]
pub struct ExRegex(regex::Regex);

/// The error of the `regex` crate for a pattern that does not compile.
/// Opaque here.
#[verifier::external_type_specification]
#[verifier::external_body]
pub struct ExRegexError(regex::Error);

/// The pattern text of a regular expression that `Regex::new` compiled,
/// with the options that `Regex::new` uses. Of a regular expression that
/// was built in another way nothing is said.
pub uninterp spec fn regex_pattern(re: Regex) -> Seq<char>;

/// Calls `Regex::new`. Claims that a regular expression that comes back
/// was compiled from `pattern`, and that one comes back for each of the
/// two patterns of this module. `Regex::new` returns an error for a
/// pattern that is not in the syntax of the `regex` crate and for one that
/// compiles to more than its size limit of ten mebibytes, and for no
/// other. Both patterns are in that syntax, a bracketed class of ranges
/// and one or more of such a class, and compile to a few states. Of other
/// patterns it is left open whether they compile.
#[verifier::external_body]
fn compile(pattern: &str) -> (r: Result<Regex, regex::Error>)
    ensures
        r matches Ok(re) ==> regex_pattern(re) == pattern@,
        (pattern@ == LETTER_CLASS@ || pattern@ == DIGIT_RUN@) ==> r is Ok,
{
    Regex::new(pattern)
}

/// Calls `Regex::is_match` on the text that consists of `c` alone, which
/// is true where the pattern matches anywhere in the text. Claims what
/// the syntax of the `regex` crate gives for the two patterns of this
/// module: the bracketed ranges `[a-zA-Z]` match a text of one character
/// exactly when the character is an ASCII letter, and one or more of
/// `[0-9]` exactly when it is an ASCII digit. Of other patterns nothing
/// is claimed.
#[verifier::external_body]
fn matches_char(re: &Regex, c: char) -> (b: bool)
    ensures
        regex_pattern(*re) == LETTER_CLASS@ ==> b == is_letter(c),
        regex_pattern(*re) == DIGIT_RUN@ ==> b == is_digit(c),
{
    re.is_match(&c.to_string())
}

/// The compiled regular expressions of the two character classes.
pub struct Classifier {
    letter: Regex,
    digit: Regex,
}

impl Classifier {
    #[verifier::type_invariant]
    spec fn compiled(self) -> bool {
        &&& regex_pattern(self.letter) == LETTER_CLASS@
        &&& regex_pattern(self.digit) == DIGIT_RUN@
    }

    /// Compiles the two patterns. Always succeeds: the regex engine
    /// accepts both. An error of the engine would come out as
    /// `LexError::Pattern`.
    pub fn new() -> (r: Result<Classifier, LexError>)
        ensures
            r is Ok,
    {
        let letter = match compile(LETTER_CLASS) {
            Ok(re) => re,
            Err(_) => { return Err(LexError::Pattern); },
        };
        let digit = match compile(DIGIT_RUN) {
            Ok(re) => re,
            Err(_) => { return Err(LexError::Pattern); },
        };
        Ok(Classifier { letter, digit })
    }

    /// Whether `c` belongs to `class`.
    pub fn contains(&self, class: CharClass, c: char) -> (b: bool)
        ensures
            b == class.contains(c),
    {
        proof {
            use_type_invariant(self);
        }
        match class {
            CharClass::Letter => matches_char(&self.letter, c),
            CharClass::Digit => matches_char(&self.digit, c),
        }
    }
}

} // verus!
