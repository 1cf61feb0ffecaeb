//! Front end of a small C-subset compiler: a lexer that turns source text
//! into tokens, and a recursive-descent parser that turns tokens into a
//! syntax tree for programs of the shape `int <id>() { return <integer>; }`.
//!
//! `lexer::lex` and `parser::parse` are the two entry points. What they
//! compute is defined in `lexemes` and `grammar`, over the mathematical
//! values of tokens and of syntax trees; `lexeme_laws`, `grammar_laws` and
//! `source` prove what holds of those definitions for every input.

pub mod ast;
pub mod classes;
pub mod error;
pub mod grammar;
pub mod grammar_laws;
pub mod lexeme_laws;
pub mod lexemes;
pub mod lexer;
pub mod parser;
pub mod source;
pub mod token;
