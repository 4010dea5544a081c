//! The token value that the external parsing engine threads through its
//! error channel: the scanned lexeme together with the span it was read
//! from. Producing tokens is the tokenizer's business, not this crate's;
//! the type exists so that errors can name the token position they concern.

use vstd::prelude::*;

verus! {

/// One scanned token: its lexeme and the span it covers.
#[derive(Clone, Debug, PartialEq)]
pub struct Token {
    pub lexeme: String,
    pub loc: crate::location::SourceLocation,
}

} // verus!
