//! The scanner and what it produces.

pub mod lexer;
pub mod model;
pub mod stream;
pub mod text;
pub mod token;
