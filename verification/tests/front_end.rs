use compy::ast::{Expression, Function, Program, Statement};
use compy::error::{LexError, ParseError, Rule};
use compy::lexer::lex;
use compy::parser::parse;
use compy::token::TokenKind;

fn program(name: &str, value: u32) -> Program {
    Program {
        function: Function {
            id: name.to_string(),
            statement: Statement { expression: Expression { int: value } },
        },
    }
}

fn front_end(source: &str) -> Result<Program, ParseError> {
    parse(&lex(source).unwrap())
}

#[test]
fn minimal_program_round_trip() {
    assert_eq!(front_end("int main() { return 2; }"), Ok(program("main", 2)));
}

#[test]
fn minimal_program_without_whitespace() {
    assert_eq!(front_end("int f(){return 42;}"), Ok(program("f", 42)));
}

#[test]
fn minimal_program_with_keyword_prefix_name() {
    assert_eq!(front_end("int integer() { return 1; }"), Ok(program("integer", 1)));
    assert_eq!(front_end("int returning() { return 1; }"), Ok(program("returning", 1)));
}

#[test]
fn minimal_programs_of_many_names_and_values() {
    let names = ["a", "Z", "main", "interior", "RETURN", "camelCase"];
    let values = [0u32, 1, 9, 10, 255, 65536, 4294967294, 4294967295];
    let layouts = [
        ["", " ", "", "", "", "", " ", "", "", ""],
        ["\n", "\t", " ", " ", " ", "\n  ", "", " ", "\n", "\n"],
        ["  ", "  ", "  ", "  ", "  ", "  ", "  ", "  ", "  ", "  "],
        ["#", "_", "!", "-", "+", "*", "/", "=", "<", ">"],
    ];
    for name in names {
        for value in values {
            for gaps in layouts {
                let source = format!(
                    "{}int{}{}{}({}){}{{{}return{}{}{};{}}}{}",
                    gaps[0],
                    gaps[1],
                    name,
                    gaps[2],
                    gaps[3],
                    gaps[4],
                    gaps[5],
                    gaps[6],
                    value,
                    gaps[7],
                    gaps[8],
                    gaps[9]
                );
                assert_eq!(front_end(&source), Ok(program(name, value)));
            }
        }
    }
}

#[test]
fn missing_expression_fails_in_the_expression_rule() {
    assert_eq!(
        front_end("int main() { return; }"),
        Err(ParseError::UnexpectedToken {
            rule: Rule::Expression,
            expected: TokenKind::Integer,
            found: TokenKind::Semicolon,
            position: 6,
        })
    );
}

#[test]
fn empty_source_fails_in_the_function_rule() {
    assert_eq!(
        front_end(""),
        Err(ParseError::ExhaustedInput {
            rule: Rule::Function,
            expected: TokenKind::KeywordInt,
            position: 0,
        })
    );
}

#[test]
fn missing_fixed_tokens_are_fatal() {
    let broken = [
        "main() { return 2; }",
        "int () { return 2; }",
        "int main) { return 2; }",
        "int main( { return 2; }",
        "int main()  return 2; }",
        "int main() { 2; }",
        "int main() { return ; }",
        "int main() { return 2 }",
        "int main() { return 2; ",
    ];
    for (k, source) in broken.iter().enumerate() {
        let error = front_end(source).unwrap_err();
        assert_eq!(error.position(), k);
    }
}

#[test]
fn reordered_tokens_are_fatal() {
    assert_eq!(front_end("main int() { return 2; }").unwrap_err().position(), 0);
    assert_eq!(front_end("int main)( { return 2; }").unwrap_err().position(), 2);
    assert_eq!(front_end("int main() } return 2; {").unwrap_err().position(), 4);
    assert_eq!(front_end("int main() { 2 return; }").unwrap_err().position(), 5);
    assert_eq!(front_end("int main() { return ;2 }").unwrap_err().position(), 6);
}

#[test]
fn missing_gap_after_int_is_fatal() {
    assert_eq!(
        front_end("intmain() { return 2; }"),
        Err(ParseError::UnexpectedToken {
            rule: Rule::Function,
            expected: TokenKind::KeywordInt,
            found: TokenKind::Identifier,
            position: 0,
        })
    );
}

#[test]
fn trailing_garbage_is_ignored() {
    assert_eq!(front_end("int main() { return 2; } } ) garbage 12"), Ok(program("main", 2)));
}

#[test]
fn overflow_stops_the_front_end_in_the_lexer() {
    assert_eq!(lex("int main() { return 4294967296; }"), Err(LexError::Overflow));
}
