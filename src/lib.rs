//! The lexer of Rado, a language that describes the logic of game
//! randomizers: regions, items, locations, unlock rules and expressions.
//! `lex` turns a whole source text into tokens, or reports the first
//! construct that is not allowed.
pub mod chars;
pub mod laws;
pub mod lexer;
pub mod scan;
pub mod token;
pub mod vocab;

pub use lexer::lex;
pub use token::{LexerError, Sign, Tok};
pub use vocab::{Kw, LexKwError, LexSymError, Sym};
