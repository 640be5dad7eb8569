use ztpir::domain::{SubscriberName, MAX_NAME_GRAPHEMES};

#[test]
fn a_256_grapheme_long_name_is_valid() {
    let name = "ë".repeat(256);
    assert!(name.parse::<SubscriberName>().is_ok());
}

#[test]
fn a_name_longer_than_256_graphemes_is_rejected() {
    let name = "ë".repeat(257);
    assert!(name.parse::<SubscriberName>().is_err());
}

#[test]
fn whitespace_only_names_are_rejected() {
    let name = " \n".to_string();
    assert!(name.parse::<SubscriberName>().is_err());
}

#[test]
fn subscriber_name_empty_string_is_rejected() {
    let name = "".to_string();
    assert!(name.parse::<SubscriberName>().is_err());
}

#[test]
fn names_containing_an_invalid_character_are_rejected() {
    for name in &["/", "(", ")", "\"", "<", ">", "\\", "{", "}"] {
        assert!(name.parse::<SubscriberName>().is_err());
    }
}

#[test]
fn a_valid_name_is_parsed_successfully() {
    let name = "Ursula Le Guin".to_string();
    assert!(name.parse::<SubscriberName>().is_ok());
}

#[test]
fn parse_keeps_the_accepted_name() {
    let name = SubscriberName::parse("le guin".to_string()).unwrap();
    assert_eq!(name.as_ref(), "le guin");
}

#[test]
fn parse_refuses_with_the_name_in_the_message() {
    let err = SubscriberName::parse("a<b".to_string()).err().unwrap();
    assert_eq!(err, "a<b is not a valid subscriber name.");
    let err = SubscriberName::parse("   ".to_string()).err().unwrap();
    assert_eq!(err, "    is not a valid subscriber name.");
}

#[test]
fn the_limit_counts_grapheme_clusters_not_characters() {
    // 200 clusters of two characters each: 400 characters, 200 graphemes.
    let name = "e\u{301}".repeat(200);
    assert_eq!(name.chars().count(), 400);
    assert!(SubscriberName::parse(name).is_ok());
    let name = "e\u{301}".repeat(MAX_NAME_GRAPHEMES + 1);
    assert!(SubscriberName::parse(name).is_err());
}

#[test]
fn from_counted_decides_by_the_given_count() {
    assert!(SubscriberName::from_counted("Ursula".to_string(), 256).is_ok());
    assert!(SubscriberName::from_counted("Ursula".to_string(), 257).is_err());
    assert!(SubscriberName::from_counted("\t\u{3000}".to_string(), 2).is_err());
    assert!(SubscriberName::from_counted("a}".to_string(), 2).is_err());
}

#[test]
fn non_breaking_and_ideographic_spaces_count_as_blank() {
    assert!(SubscriberName::parse("\u{a0}\u{2003}\u{3000}".to_string()).is_err());
    assert!(SubscriberName::parse("\u{200b}".to_string()).is_ok());
}
