//! Front-end data model of the zlang language: the abstract syntax tree that a
//! lexer/parser pipeline populates, the source-location values attached to every
//! node and error, and the lexical error taxonomy together with its lifting into
//! the parsing engine's unified error channel.

pub mod ast;
pub mod error;
pub mod location;
pub mod token;
