//! A lexical analyzer: source text in, an ordered sequence of tokens out.
//!
//! The scanner walks the input from left to right. At each position it tries
//! the rules of a table in order; the first rule whose pattern matches a
//! non-empty span that begins exactly at the cursor wins, its constructor
//! builds a token from the span, and the cursor moves past it.

//!
//! - [`token`]: the tokens and their constructors.
//! - [`rules`]: rules, and the table of the language.
//! - [`pattern`]: matching one pattern at the cursor.
//! - [`scan`]: the model of a scan that the scanner's contract refers to.
//! - [`tokenizer`]: the scanner itself.
//! - [`laws`]: what is proved of every scan.

pub mod laws;
pub mod pattern;
pub mod rules;
pub mod scan;
pub mod token;
pub mod tokenizer;

pub use crate::rules::Rule;
pub use crate::token::{Token, TokenKind};
pub use crate::tokenizer::{LexError, Tokenizer};
