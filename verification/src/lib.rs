//! A tokenizer for a small programming language.
//!
//! [`lexer::lexer::Lexer`] walks over a source text and hands out one
//! [`lexer::token::Token`] per call. What a call does is stated over a
//! mathematical model of the scanner, [`lexer::model::LexerState`], and the
//! general facts about a whole run over a text are proved in
//! [`lexer::stream`].

pub mod lexer;
pub mod utils;
