use compy::classes::{CharClass, Classifier};
use compy::error::LexError;
use compy::lexer::{lex, lex_with};
use compy::token::{Token, TokenKind};

fn id(text: &str) -> Token {
    Token::Identifier(text.to_string())
}

#[test]
fn lexes_the_minimal_program() {
    let tokens = lex("int main() { return 2; }").unwrap();
    assert_eq!(
        tokens,
        vec![
            Token::KeywordInt,
            id("main"),
            Token::OpenParenth,
            Token::CloseParenth,
            Token::OpenBrace,
            Token::KeywordReturn,
            Token::Integer(2),
            Token::Semicolon,
            Token::CloseBrace,
        ]
    );
}

#[test]
fn whitespace_is_irrelevant() {
    let tokens = lex("int f(){return 42;}").unwrap();
    assert_eq!(
        tokens,
        vec![
            Token::KeywordInt,
            id("f"),
            Token::OpenParenth,
            Token::CloseParenth,
            Token::OpenBrace,
            Token::KeywordReturn,
            Token::Integer(42),
            Token::Semicolon,
            Token::CloseBrace,
        ]
    );
}

#[test]
fn missing_expression_still_lexes() {
    let tokens = lex("int main() { return; }").unwrap();
    assert_eq!(
        tokens,
        vec![
            Token::KeywordInt,
            id("main"),
            Token::OpenParenth,
            Token::CloseParenth,
            Token::OpenBrace,
            Token::KeywordReturn,
            Token::Semicolon,
            Token::CloseBrace,
        ]
    );
}

#[test]
fn empty_source_has_no_tokens() {
    assert_eq!(lex(""), Ok(vec![]));
}

#[test]
fn keyword_prefix_is_an_identifier() {
    let tokens = lex("int integer() { return 1; }").unwrap();
    assert_eq!(tokens[0], Token::KeywordInt);
    assert_eq!(tokens[1], id("integer"));
    assert_eq!(tokens.len(), 9);
}

#[test]
fn keywords_match_exactly() {
    assert_eq!(lex("int"), Ok(vec![Token::KeywordInt]));
    assert_eq!(lex("return"), Ok(vec![Token::KeywordReturn]));
    assert_eq!(lex("in"), Ok(vec![id("in")]));
    assert_eq!(lex("Int"), Ok(vec![id("Int")]));
    assert_eq!(lex("returns"), Ok(vec![id("returns")]));
    assert_eq!(lex("RETURN"), Ok(vec![id("RETURN")]));
    assert_eq!(lex("intreturn"), Ok(vec![id("intreturn")]));
}

#[test]
fn every_punctuation_character_is_a_token() {
    assert_eq!(
        lex("{}();"),
        Ok(vec![
            Token::OpenBrace,
            Token::CloseBrace,
            Token::OpenParenth,
            Token::CloseParenth,
            Token::Semicolon,
        ])
    );
    assert_eq!(lex(";;"), Ok(vec![Token::Semicolon, Token::Semicolon]));
}

#[test]
fn unrecognised_characters_are_skipped() {
    assert_eq!(lex(" \t\r\n"), Ok(vec![]));
    assert_eq!(lex("+-*/=<>[],.!?#\"'_"), Ok(vec![]));
    assert_eq!(lex("a_b"), Ok(vec![id("a"), id("b")]));
    assert_eq!(lex("x=1+2"), Ok(vec![id("x"), Token::Integer(1), Token::Integer(2)]));
}

#[test]
fn letters_and_digits_are_ascii_only() {
    assert_eq!(lex("\u{e9}"), Ok(vec![]));
    assert_eq!(lex("caf\u{e9}s"), Ok(vec![id("caf"), id("s")]));
    assert_eq!(lex("\u{663}"), Ok(vec![]));
    assert_eq!(lex("1\u{663}2"), Ok(vec![Token::Integer(1), Token::Integer(2)]));
    assert_eq!(lex("\u{1F600}"), Ok(vec![]));
}

#[test]
fn a_run_of_letters_is_one_token() {
    assert_eq!(lex("abcdefghijklmnopqrstuvwxyz"), Ok(vec![id("abcdefghijklmnopqrstuvwxyz")]));
    assert_eq!(lex("ABCDEFGHIJKLMNOPQRSTUVWXYZ"), Ok(vec![id("ABCDEFGHIJKLMNOPQRSTUVWXYZ")]));
    let long: String = std::iter::repeat('q').take(1000).collect();
    assert_eq!(lex(&long), Ok(vec![id(&long)]));
}

#[test]
fn a_run_of_digits_is_one_token() {
    assert_eq!(lex("0123456789"), Ok(vec![Token::Integer(123456789)]));
    assert_eq!(lex("0"), Ok(vec![Token::Integer(0)]));
    assert_eq!(lex("007"), Ok(vec![Token::Integer(7)]));
    assert_eq!(lex("0000000000000000000000001"), Ok(vec![Token::Integer(1)]));
}

#[test]
fn letters_and_digits_do_not_merge() {
    assert_eq!(lex("abc123"), Ok(vec![id("abc"), Token::Integer(123)]));
    assert_eq!(lex("123abc"), Ok(vec![Token::Integer(123), id("abc")]));
    assert_eq!(lex("return2"), Ok(vec![Token::KeywordReturn, Token::Integer(2)]));
    assert_eq!(lex("a1b2"), Ok(vec![id("a"), Token::Integer(1), id("b"), Token::Integer(2)]));
}

#[test]
fn largest_integer_fits() {
    assert_eq!(lex("4294967295"), Ok(vec![Token::Integer(u32::MAX)]));
    assert_eq!(lex("return 4294967295;").unwrap()[1], Token::Integer(4294967295));
}

#[test]
fn integer_overflow_is_an_error() {
    assert_eq!(lex("4294967296"), Err(LexError::Overflow));
    assert_eq!(lex("99999999999999999999999999999999"), Err(LexError::Overflow));
    assert_eq!(lex("int main() { return 4294967296; }"), Err(LexError::Overflow));
    assert_eq!(lex("1 2 3 10000000000 4"), Err(LexError::Overflow));
    assert_eq!(lex("42949672950"), Err(LexError::Overflow));
}

#[test]
fn lexing_distributes_over_concatenation() {
    let pieces = ["int main", "() { return", " 2; }", "", "x", ";", " ", "12", "ab "];
    for a in pieces {
        for b in pieces {
            let splits = match (a.chars().last(), b.chars().next()) {
                (Some(x), Some(y)) => {
                    (x.is_ascii_alphabetic() && y.is_ascii_alphabetic())
                        || (x.is_ascii_digit() && y.is_ascii_digit())
                }
                _ => false,
            };
            if !splits {
                let mut expected = lex(a).unwrap();
                expected.extend(lex(b).unwrap());
                assert_eq!(lex(&format!("{}{}", a, b)), Ok(expected));
            }
        }
    }
}

#[test]
fn a_join_inside_a_run_merges_tokens() {
    assert_eq!(lex("ab"), Ok(vec![id("ab")]));
    assert_eq!(lex("a"), Ok(vec![id("a")]));
    assert_eq!(lex("b"), Ok(vec![id("b")]));
    assert_eq!(lex("12"), Ok(vec![Token::Integer(12)]));
    assert_eq!(lex("in"), Ok(vec![id("in")]));
    assert_eq!(lex("t"), Ok(vec![id("t")]));
}

#[test]
fn lex_with_agrees_with_lex() {
    let classifier = Classifier::new().unwrap();
    for source in ["", "int main() { return 2; }", "a1;b2", "  {{ }} "] {
        assert_eq!(lex_with(&classifier, source), lex(source));
    }
    assert_eq!(lex_with(&classifier, "4294967296"), Err(LexError::Overflow));
    assert_eq!(lex_with(&classifier, "x 7"), Ok(vec![id("x"), Token::Integer(7)]));
}

#[test]
fn classifier_compiles() {
    assert!(Classifier::new().is_ok());
}

#[test]
fn classifier_knows_letters() {
    let classifier = Classifier::new().unwrap();
    for c in "abcxyzABCXYZ".chars() {
        assert!(classifier.contains(CharClass::Letter, c));
        assert!(!classifier.contains(CharClass::Digit, c));
    }
    for c in "@[`{_ 09\u{e9}\u{3b1}".chars() {
        assert!(!classifier.contains(CharClass::Letter, c));
    }
}

#[test]
fn classifier_knows_digits() {
    let classifier = Classifier::new().unwrap();
    for c in "0123456789".chars() {
        assert!(classifier.contains(CharClass::Digit, c));
        assert!(!classifier.contains(CharClass::Letter, c));
    }
    for c in "/:aZ \u{663}\u{ff11}".chars() {
        assert!(!classifier.contains(CharClass::Digit, c));
    }
}

#[test]
fn classifier_agrees_with_the_ascii_tables() {
    let classifier = Classifier::new().unwrap();
    for code in 0u32..0x300 {
        let c = char::from_u32(code).unwrap();
        assert_eq!(classifier.contains(CharClass::Letter, c), c.is_ascii_alphabetic());
        assert_eq!(classifier.contains(CharClass::Digit, c), c.is_ascii_digit());
    }
}

#[test]
fn runs_end_at_the_first_character_of_another_class() {
    assert_eq!(lex("abc12 de"), Ok(vec![id("abc"), Token::Integer(12), id("de")]));
    assert_eq!(lex("ab{cd"), Ok(vec![id("ab"), Token::OpenBrace, id("cd")]));
    assert_eq!(lex("12;34"), Ok(vec![Token::Integer(12), Token::Semicolon, Token::Integer(34)]));
    assert_eq!(lex("ab cd"), Ok(vec![id("ab"), id("cd")]));
    assert_eq!(lex("12 34"), Ok(vec![Token::Integer(12), Token::Integer(34)]));
}

#[test]
fn words_around_keywords() {
    assert_eq!(
        lex("int integer return x"),
        Ok(vec![Token::KeywordInt, id("integer"), Token::KeywordReturn, id("x")])
    );
    assert_eq!(lex("retur n"), Ok(vec![id("retur"), id("n")]));
    assert_eq!(lex("int;int"), Ok(vec![Token::KeywordInt, Token::Semicolon, Token::KeywordInt]));
}

#[test]
fn decimal_values() {
    assert_eq!(lex("004294967295"), Ok(vec![Token::Integer(4294967295)]));
    assert_eq!(lex("00"), Ok(vec![Token::Integer(0)]));
    assert_eq!(lex("294"), Ok(vec![Token::Integer(294)]));
    assert_eq!(lex("429496729"), Ok(vec![Token::Integer(429496729)]));
    assert_eq!(lex("1000000000"), Ok(vec![Token::Integer(1000000000)]));
    assert_eq!(lex("4294967290 4294967299"), Err(LexError::Overflow));
    assert_eq!(lex("9 8 7"), Ok(vec![Token::Integer(9), Token::Integer(8), Token::Integer(7)]));
}

#[test]
fn token_kinds() {
    assert_eq!(Token::OpenBrace.kind(), TokenKind::OpenBrace);
    assert_eq!(Token::CloseBrace.kind(), TokenKind::CloseBrace);
    assert_eq!(Token::OpenParenth.kind(), TokenKind::OpenParenth);
    assert_eq!(Token::CloseParenth.kind(), TokenKind::CloseParenth);
    assert_eq!(Token::Semicolon.kind(), TokenKind::Semicolon);
    assert_eq!(Token::KeywordInt.kind(), TokenKind::KeywordInt);
    assert_eq!(Token::KeywordReturn.kind(), TokenKind::KeywordReturn);
    assert_eq!(id("x").kind(), TokenKind::Identifier);
    assert_eq!(Token::Integer(5).kind(), TokenKind::Integer);
}

#[test]
fn tokens_clone_and_compare() {
    let token = id("main");
    assert_eq!(token.clone(), token);
    assert_ne!(token, id("mains"));
    assert_eq!(Token::Integer(3).clone(), Token::Integer(3));
    assert_ne!(Token::Integer(3), Token::Integer(4));
    assert_ne!(Token::OpenBrace, Token::CloseBrace);
}
