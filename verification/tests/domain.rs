use zero2prod::domain::ValidationError;
use zero2prod::new_subscriber::{FormData, NewSubscriber};
use zero2prod::subscriber_email::SubscriberEmail;
use zero2prod::subscriber_name::SubscriberName;

#[test]
fn empty_string_is_rejected() {
    let email = "".to_string();
    assert!(SubscriberEmail::parse(email).is_err());
}

#[test]
fn email_missing_at_symbol_is_rejected() {
    let email = "ursuladomain.com".to_string();
    assert!(SubscriberEmail::parse(email).is_err());
}

#[test]
fn email_missing_subject_is_rejected() {
    let email = "@domain.com".to_string();
    assert!(SubscriberEmail::parse(email).is_err());
}

#[test]
fn email_with_dotless_domain_is_rejected() {
    let email = "ursula@gmail".to_string();
    assert_eq!(
        SubscriberEmail::parse(email).unwrap_err(),
        ValidationError::InvalidEmail
    );
}

#[test]
fn email_rejected_by_the_grammar_is_rejected() {
    // Structurally plausible (an `@`, a non-empty local part, a dotted
    // domain) but refused by the email grammar: a space in the local part.
    let email = "ursula le guin@gmail.com".to_string();
    assert_eq!(
        SubscriberEmail::parse(email).unwrap_err(),
        ValidationError::InvalidEmail
    );
}

#[test]
fn valid_email_is_stored_verbatim() {
    let email = SubscriberEmail::parse("Ursula_Le_Guin@Gmail.COM".to_string()).unwrap();
    assert_eq!(email.as_ref(), "Ursula_Le_Guin@Gmail.COM");
}

#[test]
fn parsing_the_same_email_twice_yields_equal_values() {
    let first = SubscriberEmail::parse("ursula@domain.com".to_string()).unwrap();
    let second = SubscriberEmail::parse("ursula@domain.com".to_string()).unwrap();
    assert_eq!(first, second);
}

#[test]
fn empty_name_is_rejected() {
    assert_eq!(
        SubscriberName::parse("".to_string()).unwrap_err(),
        ValidationError::EmptyOrBlank
    );
}

#[test]
fn whitespace_only_name_is_rejected() {
    assert_eq!(
        SubscriberName::parse(" \t\n ".to_string()).unwrap_err(),
        ValidationError::EmptyOrBlank
    );
}

#[test]
fn a_256_grapheme_long_name_is_valid() {
    let name = "a".repeat(256);
    assert!(SubscriberName::parse(name).is_ok());
}

#[test]
fn a_name_longer_than_256_graphemes_is_rejected() {
    let name = "a".repeat(257);
    assert_eq!(
        SubscriberName::parse(name).unwrap_err(),
        ValidationError::TooLong
    );
}

#[test]
fn length_is_counted_in_grapheme_clusters_not_characters() {
    // 200 copies of 'a' followed by a combining acute accent: 400 characters
    // but only 200 grapheme clusters, so the name passes the length check.
    let name = "a\u{0301}".repeat(200);
    assert!(SubscriberName::parse(name).is_ok());
}

#[test]
fn names_containing_a_forbidden_character_are_rejected() {
    for c in ['/', '(', ')', '"', '<', '>', '\\', '{', '}'] {
        let name = format!("name{c}name");
        assert_eq!(
            SubscriberName::parse(name).unwrap_err(),
            ValidationError::ForbiddenCharacter
        );
    }
}

#[test]
fn a_valid_name_is_stored_trimmed() {
    let name = SubscriberName::parse("  Ursula Le Guin \t".to_string()).unwrap();
    assert_eq!(name.as_ref(), "Ursula Le Guin");
}

#[test]
fn emptiness_is_reported_before_length_and_forbidden_characters() {
    // Too long and holding a forbidden character: the length check runs
    // first, so the error is TooLong.
    let name = format!("/{}", "a".repeat(300));
    assert_eq!(
        SubscriberName::parse(name).unwrap_err(),
        ValidationError::TooLong
    );
}

#[test]
fn parsing_the_same_name_twice_yields_equal_values() {
    let first = SubscriberName::parse(" benjamin ".to_string()).unwrap();
    let second = SubscriberName::parse(" benjamin ".to_string()).unwrap();
    assert_eq!(first, second);
}

#[test]
fn a_subscriber_is_built_from_a_valid_form_pair() {
    let form = FormData {
        name: " benjamin ".to_string(),
        email: "b3nj4m1n@gmx.net".to_string(),
    };
    let subscriber = NewSubscriber::try_from(form).unwrap();
    assert_eq!(subscriber.name.as_ref(), "benjamin");
    assert_eq!(subscriber.email.as_ref(), "b3nj4m1n@gmx.net");
}

#[test]
fn the_name_failure_is_surfaced_before_the_email_failure() {
    let form = FormData {
        name: "".to_string(),
        email: "bla".to_string(),
    };
    assert_eq!(
        NewSubscriber::try_from(form).unwrap_err(),
        ValidationError::EmptyOrBlank
    );
}

#[test]
fn an_invalid_email_fails_subscriber_construction() {
    let form = FormData {
        name: "someone".to_string(),
        email: "not-an-email".to_string(),
    };
    assert_eq!(
        NewSubscriber::try_from(form).unwrap_err(),
        ValidationError::InvalidEmail
    );
}
