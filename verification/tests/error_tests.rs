use zlang_parser::error::{
    into_parse_error, lift_and_recover, user_error_of, LexicalError, LexicalErrorType,
};
use zlang_parser::location::Location;

#[test]
fn messages_match_the_fixed_table() {
    assert_eq!(LexicalErrorType::StringError.message(), "Got unexpected string");
    assert_eq!(LexicalErrorType::UnicodeError.message(), "Got unexpected unicode");
    assert_eq!(
        LexicalErrorType::DefaultArgumentError.message(),
        "non-default argument follows default argument"
    );
    assert_eq!(
        LexicalErrorType::PositionalArgumentError.message(),
        "positional argument follows keyword argument"
    );
    assert_eq!(
        LexicalErrorType::DuplicateKeywordArgumentError.message(),
        "keyword argument repeated"
    );
}

#[test]
fn unrecognized_token_message_interpolates_the_character() {
    let e = LexicalErrorType::UnrecognizedToken { tok: '#' };
    assert_eq!(e.message(), "Got unexpected token #");
}

#[test]
fn other_error_message_is_verbatim() {
    let e = LexicalErrorType::OtherError(String::from("tab in indentation"));
    assert_eq!(e.message(), "tab in indentation");
}

#[test]
fn rendering_is_deterministic() {
    let e = LexicalErrorType::UnrecognizedToken { tok: '~' };
    assert_eq!(e.message(), e.message());
    let o = LexicalErrorType::OtherError(String::new());
    assert_eq!(o.message(), "");
    assert_eq!(o.message(), o.message());
}

#[test]
fn bridge_round_trip_preserves_kind_and_location() {
    let err = LexicalError {
        error: LexicalErrorType::UnrecognizedToken { tok: '#' },
        location: Location::new(17),
    };
    let lifted = into_parse_error(err.clone());
    assert_eq!(user_error_of(lifted), Some(err));
}

#[test]
fn bridge_round_trip_for_every_kind() {
    let kinds = vec![
        LexicalErrorType::StringError,
        LexicalErrorType::UnicodeError,
        LexicalErrorType::DefaultArgumentError,
        LexicalErrorType::PositionalArgumentError,
        LexicalErrorType::DuplicateKeywordArgumentError,
        LexicalErrorType::UnrecognizedToken { tok: 'q' },
        LexicalErrorType::OtherError(String::from("unterminated comment")),
    ];
    for (i, kind) in kinds.into_iter().enumerate() {
        let err = LexicalError { error: kind, location: Location::new(i) };
        assert_eq!(lift_and_recover(err.clone()), Some(err));
    }
}

#[test]
fn grammar_level_errors_carry_no_user_payload() {
    let e = lalrpop_util::ParseError::InvalidToken { location: Location::new(3) };
    assert_eq!(user_error_of(e), None);
}

#[test]
fn locations_are_ordered_by_offset() {
    let a = Location::new(2);
    let b = Location::new(9);
    assert!(a.precedes(&b));
    assert!(!b.precedes(&a));
    assert!(a.precedes(&a));
}
