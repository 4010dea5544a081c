//! The lexical error taxonomy and its lifting into the parsing engine's
//! unified error channel.
//!
//! A scan failure is a [`LexicalError`]: a closed classification of the
//! cause paired with the source location it was detected at. Each cause has
//! one fixed human-readable message, computed by [`LexicalErrorType::message`]
//! and pinned down exactly by [`message_view`].
//!
//! The engine reports every failure — grammar-level or lexical — through one
//! generic error type, `lalrpop_util::ParseError`. The lifting into that
//! channel is the explicit, named operation [`into_parse_error`]; it wraps
//! the lexical error as the engine's user-error payload, unchanged, and
//! [`user_error_of`] recovers it. [`lift_and_recover`] proves that the round
//! trip loses nothing.

use crate::location::Location;
use crate::token::Token;
use vstd::prelude::*;

verus! {

/// An error raised during lexical scanning: its cause and where it happened.
#[derive(Clone, Debug, PartialEq)]
pub struct LexicalError {
    pub error: LexicalErrorType,
    pub location: Location,
}

/// The closed set of lexical failure causes.
#[derive(Clone, Debug, PartialEq)]
pub enum LexicalErrorType {
    /// A malformed string literal.
    StringError,
    /// An invalid unicode escape or sequence.
    UnicodeError,
    /// A non-default parameter follows a defaulted one.
    DefaultArgumentError,
    /// A positional argument follows a keyword argument.
    PositionalArgumentError,
    /// The same keyword argument was supplied twice.
    DuplicateKeywordArgumentError,
    /// A character the scanner does not recognize.
    UnrecognizedToken { tok: char },
    /// A cause not otherwise classified, with a free-form message.
    OtherError(String),
}

/// The fixed human-readable message of each lexical failure cause.
pub open spec fn message_view(e: LexicalErrorType) -> Seq<char> {
    match e {
        LexicalErrorType::StringError => "Got unexpected string"@,
        LexicalErrorType::UnicodeError => "Got unexpected unicode"@,
        LexicalErrorType::DefaultArgumentError => "non-default argument follows default argument"@,
        LexicalErrorType::PositionalArgumentError => "positional argument follows keyword argument"@,
        LexicalErrorType::DuplicateKeywordArgumentError => "keyword argument repeated"@,
        LexicalErrorType::UnrecognizedToken { tok } => "Got unexpected token "@.push(tok),
        LexicalErrorType::OtherError(msg) => msg@,
    }
}

/// Relies on `String::push`: appends the given character at the end of the
/// string, as its documentation says.
#[verifier::external_body]
fn push_char(s: &mut String, c: char)
    ensures
        final(s)@ == old(s)@.push(c),
{
    s.push(c);
}

impl LexicalErrorType {
    /// Renders this cause to its fixed message; deterministic, and exactly
    /// [`message_view`].
    pub fn message(&self) -> (r: String)
        ensures
            r@ == message_view(*self),
    {
        match self {
            LexicalErrorType::StringError => String::from_str("Got unexpected string"),
            LexicalErrorType::UnicodeError => String::from_str("Got unexpected unicode"),
            LexicalErrorType::DefaultArgumentError => String::from_str(
                "non-default argument follows default argument",
            ),
            LexicalErrorType::PositionalArgumentError => String::from_str(
                "positional argument follows keyword argument",
            ),
            LexicalErrorType::DuplicateKeywordArgumentError => String::from_str(
                "keyword argument repeated",
            ),
            LexicalErrorType::UnrecognizedToken { tok } => {
                let mut s = String::from_str("Got unexpected token ");
                push_char(&mut s, *tok);
                s
            },
            LexicalErrorType::OtherError(msg) => String::from_str(msg.as_str()),
        }
    }
}

/// The declaration that lets `lalrpop_util::ParseError` stand in signatures;
/// the value is opaque here, and the two trusted functions below are the
/// only places that look inside one.
#[verifier::external_type_specification]
#[verifier::external_body]
#[verifier::reject_recursive_types(L)]
#[verifier::reject_recursive_types(T)]
#[verifier::reject_recursive_types(E)]
pub struct ExParseError<L, T, E>(lalrpop_util::ParseError<L, T, E>);

/// The user-error payload a parse error carries: the lexical error stored in
/// its `User` variant, or nothing for the engine's own grammar-level errors.
pub uninterp spec fn user_payload(
    e: lalrpop_util::ParseError<Location, Token, LexicalError>,
) -> Option<LexicalError>;

/// The explicit lifting at the lexer/parser boundary: wraps a lexical error
/// as the engine's user-error payload, unchanged.
///
/// Relies on `lalrpop_util::ParseError::User`: a plain data variant that
/// stores the error value it is built from.
#[verifier::external_body]
pub fn into_parse_error(err: LexicalError) -> (r: lalrpop_util::ParseError<
    Location,
    Token,
    LexicalError,
>)
    ensures
        user_payload(r) == Some(err),
{
    lalrpop_util::ParseError::User { error: err }
}

/// Recovers the user-error payload from a parse error.
///
/// Relies on matching `lalrpop_util::ParseError`: the `User` variant yields
/// back exactly the stored error; the engine's four grammar-level variants
/// carry none.
#[verifier::external_body]
pub fn user_error_of(e: lalrpop_util::ParseError<Location, Token, LexicalError>) -> (r: Option<
    LexicalError,
>)
    ensures
        r == user_payload(e),
{
    match e {
        lalrpop_util::ParseError::InvalidToken { location: _ } => None,
        lalrpop_util::ParseError::UnrecognizedEof { location: _, expected: _ } => None,
        lalrpop_util::ParseError::UnrecognizedToken { token: _, expected: _ } => None,
        lalrpop_util::ParseError::ExtraToken { token: _ } => None,
        lalrpop_util::ParseError::User { error } => Some(error),
    }
}

/// The bridge loses nothing: lifting a lexical error into the engine's
/// channel and recovering the user-error payload yields the original error
/// back, whatever its cause and location.
pub fn lift_and_recover(err: LexicalError) -> (r: Option<LexicalError>)
    ensures
        r == Some(err),
{
    let lifted = into_parse_error(err);
    user_error_of(lifted)
}

} // verus!
