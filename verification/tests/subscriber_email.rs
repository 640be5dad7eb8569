use ztpir::domain::SubscriberEmail;

#[test]
fn at_least_one_valid_email_is_accepted() {
    let email = "ursula@ztpir.com".to_string();
    assert!(email.parse::<SubscriberEmail>().is_ok());
}

#[test]
fn subscriber_email_empty_string_is_rejected() {
    let email = "".to_string();
    assert!(email.parse::<SubscriberEmail>().is_err());
}

#[test]
fn email_missing_at_symbol_is_rejected() {
    let email = "ursulaztpir.com".to_string();
    assert!(email.parse::<SubscriberEmail>().is_err());
}

#[test]
fn email_missing_subject_is_rejected() {
    let email = "@ztpir.com".to_string();
    assert!(email.parse::<SubscriberEmail>().is_err());
}

#[test]
fn several_valid_emails_are_accepted() {
    for email in ["ursula_le_guin@ztpir.com", "a.b-c+d@example.org", "x@sub.domain.io"] {
        let parsed = email.parse::<SubscriberEmail>().unwrap();
        assert_eq!(parsed.as_ref(), email);
    }
}

#[test]
fn an_address_without_a_domain_shape_is_rejected() {
    let err = "definitely-not-an-email".parse::<SubscriberEmail>().err().unwrap();
    assert_eq!(err, "definitely-not-an-email is not a valid subscriber email.");
    assert!("ursula@".parse::<SubscriberEmail>().is_err());
    assert!("urs ula@ztpir.com".parse::<SubscriberEmail>().is_err());
}

#[test]
fn from_validation_follows_the_given_verdict() {
    assert!(SubscriberEmail::from_validation("anything", true).is_ok());
    let err = SubscriberEmail::from_validation("a@b.c", false).err().unwrap();
    assert_eq!(err, "a@b.c is not a valid subscriber email.");
}

#[test]
fn parse_refuses_what_the_validator_refuses() {
    let err = SubscriberEmail::parse("definitely-not-an-email".to_string()).err().unwrap();
    assert_eq!(err, "definitely-not-an-email is not a valid subscriber email.");
    let err = SubscriberEmail::parse(" \t".to_string()).err().unwrap();
    assert_eq!(err, " \t is not a valid subscriber email.");
    assert!(SubscriberEmail::parse(String::new()).is_err());
    assert!(SubscriberEmail::parse("ursulaztpir.com".to_string()).is_err());
    assert!(SubscriberEmail::parse("@ztpir.com".to_string()).is_err());
    let email = SubscriberEmail::parse("ursula@ztpir.com".to_string()).unwrap();
    assert_eq!(email.as_ref(), "ursula@ztpir.com");
}
