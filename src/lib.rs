//! A hand-written lexical scanner: it turns a source text into classified,
//! positioned tokens, one token per call.

pub mod grammar;
pub mod laws;
pub mod lexer;
pub mod token;

pub use lexer::{tokenize, Lexer};
pub use token::{Token, TokenKind};
