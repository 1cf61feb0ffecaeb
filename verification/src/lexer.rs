//! The lexer: one pass over the characters of the source text, with an
//! explicit cursor.

use crate::classes::{CharClass, Classifier};
use crate::error::LexError;
use crate::lexeme_laws::{
    lemma_decimal_value_grows, lemma_lexemes_from_run, lemma_run_end, lemma_run_end_inside,
};
use crate::lexemes::{
    all_representable, decimal_value, digit_value, lexemes, lexemes_from, punctuation, run_end,
    word_lexeme, KEYWORD_INT, KEYWORD_RETURN,
};
use crate::token::{lemma_lexemes_of_push, lexemes_of, Token};
use vstd::prelude::*;
use vstd::string::StrSliceExecFns;

verus! {

/// `String::push` appends one character to the text.
pub assume_specification[ String::push ](s: &mut String, c: char)
    ensures
        final(s)@ == old(s)@.push(c),
;

/// The token of a punctuation character, `None` for any other character.
fn punctuation_token(c: char) -> (r: Option<Token>)
    ensures
        r matches Some(token) ==> punctuation(c) == Some(token@),
        r is None ==> punctuation(c) is None,
{
    if c == '{' {
        Some(Token::OpenBrace)
    } else if c == '}' {
        Some(Token::CloseBrace)
    } else if c == '(' {
        Some(Token::OpenParenth)
    } else if c == ')' {
        Some(Token::CloseParenth)
    } else if c == ';' {
        Some(Token::Semicolon)
    } else {
        None
    }
}

/// Whether the characters from `start` to `end` spell `word`.
fn spells(chars: &Vec<char>, start: usize, end: usize, word: &str) -> (b: bool)
    requires
        start <= end <= chars.len(),
    ensures
        b == (chars@.subrange(start as int, end as int) == word@),
{
    let n = word.unicode_len();
    if end - start != n {
        return false;
    }
    let mut k: usize = 0;
    while k < n
        invariant
            start <= end <= chars.len(),
            end - start == n,
            n == word@.len(),
            k <= n,
            forall|j: int| 0 <= j < k ==> chars@[start + j] == word@[j],
        decreases n - k,
    {
        if chars[start + k] != word.get_char(k) {
            assert(chars@.subrange(start as int, end as int)[k as int] != word@[k as int]);
            return false;
        }
        k = k + 1;
    }
    assert(chars@.subrange(start as int, end as int) =~= word@);
    true
}

/// The token of the word that the characters from `start` to `end` spell:
/// a keyword, or an identifier with a copy of the word as its text.
fn word_token(chars: &Vec<char>, start: usize, end: usize) -> (token: Token)
    requires
        start <= end <= chars.len(),
    ensures
        token@ == word_lexeme(chars@.subrange(start as int, end as int)),
{
    if spells(chars, start, end, KEYWORD_INT) {
        Token::KeywordInt
    } else if spells(chars, start, end, KEYWORD_RETURN) {
        Token::KeywordReturn
    } else {
        let mut text = String::new();
        let mut k: usize = start;
        while k < end
            invariant
                start <= k <= end <= chars.len(),
                text@ == chars@.subrange(start as int, k as int),
            decreases end - k,
        {
            text.push(chars[k]);
            k = k + 1;
            assert(text@ =~= chars@.subrange(start as int, k as int));
        }
        Token::Identifier(text)
    }
}

/// The number that the digits from `start` to `end` denote, `None` where it
/// is above `u32::MAX`.
fn number(chars: &Vec<char>, start: usize, end: usize) -> (r: Option<u32>)
    requires
        start <= end <= chars.len(),
        forall|k: int| start <= k < end ==> CharClass::Digit.contains(#[trigger] chars@[k]),
    ensures
        r matches Some(n) ==> n == decimal_value(chars@.subrange(start as int, end as int)),
        r is None ==> decimal_value(chars@.subrange(start as int, end as int)) > u32::MAX,
{
    let mut value: u64 = 0;
    let mut k: usize = start;
    while k < end
        invariant
            start <= k <= end <= chars.len(),
            forall|j: int| start <= j < end ==> CharClass::Digit.contains(#[trigger] chars@[j]),
            value == decimal_value(chars@.subrange(start as int, k as int)),
            value <= u32::MAX,
        decreases end - k,
    {
        let c = chars[k];
        assert(CharClass::Digit.contains(chars@[k as int]));
        let digit: u64 = (c as u64) - ('0' as u64);
        value = value * 10 + digit;
        k = k + 1;
        proof {
            let longer = chars@.subrange(start as int, k as int);
            assert(longer.drop_last() == chars@.subrange(start as int, k - 1));
            assert(longer.last() == c);
            assert(digit == digit_value(c));
        }
        if value > u32::MAX as u64 {
            proof {
                lemma_decimal_value_grows(chars@, start as int, k as int, end as int);
            }
            return None;
        }
    }
    Some(value as u32)
}

/// The characters of a text, in order.
fn characters(source: &str) -> (chars: Vec<char>)
    ensures
        chars@ == source@,
{
    let mut chars: Vec<char> = Vec::new();
    for c in it: source.chars()
        invariant
            chars@ == it.seq().take(it.index()),
    {
        chars.push(c);
    }
    chars
}

/// Whether no run of letters or of digits extends over position `i`.
spec fn between_runs(s: Seq<char>, i: int) -> bool {
    0 < i < s.len() ==> {
        &&& !(CharClass::Letter.contains(s[i - 1]) && CharClass::Letter.contains(s[i]))
        &&& !(CharClass::Digit.contains(s[i - 1]) && CharClass::Digit.contains(s[i]))
    }
}

/// The position behind the run of `class` that begins at `start`: `start`
/// itself where no character of the class stands there.
fn scan_run(classifier: &Classifier, chars: &Vec<char>, start: usize, class: CharClass) -> (end:
    usize)
    requires
        start <= chars.len(),
    ensures
        end == run_end(chars@, start as int, class),
        start <= end <= chars.len(),
{
    let mut end: usize = start;
    while end < chars.len() && classifier.contains(class, chars[end])
        invariant
            start <= end <= chars.len(),
            forall|k: int| start <= k < end ==> class.contains(#[trigger] chars@[k]),
        decreases chars.len() - end,
    {
        end = end + 1;
    }
    proof {
        lemma_run_end_inside(chars@, start as int, end as int, class);
    }
    end
}

/// The tokens of a source text, in order: one for every punctuation
/// character and one for every maximal run of letters or of digits, read
/// with the character classes of `classifier`. Every other character is
/// skipped. Fails where a run of digits denotes a number above `u32::MAX`,
/// and only there.
pub fn lex_with(classifier: &Classifier, source: &str) -> (r: Result<Vec<Token>, LexError>)
    ensures
        r is Ok <==> all_representable(lexemes(source@)),
        r matches Ok(tokens) ==> lexemes_of(tokens@) == lexemes(source@),
        r matches Err(e) ==> e == LexError::Overflow,
{
    let chars = characters(source);
    let mut tokens: Vec<Token> = Vec::new();
    let mut i: usize = 0;
    while i < chars.len()
        invariant
            chars@ == source@,
            i <= chars.len(),
            between_runs(chars@, i as int),
            lexemes(chars@) == lexemes_of(tokens@) + lexemes_from(chars@, i as int),
        decreases chars.len() - i,
    {
        let c = chars[i];
        let ghost before = tokens@;
        if let Some(token) = punctuation_token(c) {
            proof {
                lemma_lexemes_of_push(before, token);
            }
            tokens.push(token);
            i = i + 1;
        } else if classifier.contains(CharClass::Letter, c) {
            let end = scan_run(classifier, &chars, i + 1, CharClass::Letter);
            let token = word_token(&chars, i, end);
            proof {
                lemma_lexemes_from_run(chars@, i as int, CharClass::Letter);
                lemma_run_end(chars@, i as int, CharClass::Letter);
                lemma_lexemes_of_push(before, token);
            }
            tokens.push(token);
            i = end;
        } else if classifier.contains(CharClass::Digit, c) {
            let end = scan_run(classifier, &chars, i + 1, CharClass::Digit);
            proof {
                lemma_lexemes_from_run(chars@, i as int, CharClass::Digit);
                lemma_run_end(chars@, i as int, CharClass::Digit);
            }
            match number(&chars, i, end) {
                Some(n) => {
                    proof {
                        lemma_lexemes_of_push(before, Token::Integer(n));
                    }
                    tokens.push(Token::Integer(n));
                },
                None => {
                    assert(!lexemes(chars@)[before.len() as int].representable());
                    return Err(LexError::Overflow);
                },
            }
            i = end;
        } else {
            i = i + 1;
        }
    }
    assert(lexemes(chars@) =~= lexemes_of(tokens@));
    Ok(tokens)
}

/// The tokens of a source text, in order: one for every punctuation
/// character and one for every maximal run of letters or of digits. Every
/// other character is skipped. Compiles the character classes, then reads
/// the text with them as `lex_with` does. Fails where a run of digits
/// denotes a number above `u32::MAX`, and only there.
pub fn lex(source: &str) -> (r: Result<Vec<Token>, LexError>)
    ensures
        r is Ok <==> all_representable(lexemes(source@)),
        r matches Ok(tokens) ==> lexemes_of(tokens@) == lexemes(source@),
        r matches Err(e) ==> e == LexError::Overflow,
{
    match Classifier::new() {
        Ok(classifier) => lex_with(&classifier, source),
        Err(e) => Err(e),
    }
}

} // verus!
