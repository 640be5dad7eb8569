use ztpir::domain::{
    draw_alphanumeric_samples, token_from_samples, FormData, NewSubscriber, SubscriberName,
    CONFIRMATION_TOKEN_LENGTH,
};
use ztpir::email_client::SendEmailRequest;
use ztpir::error::{Error, OnErrorReturn, OnErrorStatus, Report, WhenNoneReturn};
use ztpir::subscriptions::{
    admit_subscriber, build_confirmation_link, confirm_lookup, confirm_update, ConfirmationEmail,
    SubscribeAction, SubscribeStep,
};

fn form(name: &str, email: &str) -> FormData {
    FormData { name: name.to_string(), email: email.to_string() }
}

fn status_and_text(e: &Error) -> (u16, String) {
    (e.status_code(), e.message().to_string())
}

#[test]
fn a_valid_form_gives_a_subscriber_with_a_fresh_token() {
    let s = NewSubscriber::try_from(form("le guin", "ursula_le_guin@ztpir.com")).unwrap();
    assert_eq!(s.name.as_ref(), "le guin");
    assert_eq!(s.email.as_ref(), "ursula_le_guin@ztpir.com");
    assert_eq!(s.confirmation_token.chars().count(), CONFIRMATION_TOKEN_LENGTH);
    assert!(s.confirmation_token.chars().all(|c| c.is_ascii_alphanumeric()));
    let t = NewSubscriber::from_form(form("le guin", "ursula_le_guin@ztpir.com")).unwrap();
    assert_ne!(s.confirmation_token, t.confirmation_token);
}

#[test]
fn the_name_is_checked_before_the_address() {
    let err = NewSubscriber::from_form(form("", "")).err().unwrap();
    assert_eq!(err, " is not a valid subscriber name.");
    let err = NewSubscriber::from_form(form("Ursula", "")).err().unwrap();
    assert_eq!(err, " is not a valid subscriber email.");
    let err = NewSubscriber::from_form(form("Ursula", "definitely-not-an-email")).err().unwrap();
    assert_eq!(err, "definitely-not-an-email is not a valid subscriber email.");
}

#[test]
fn a_refused_form_is_answered_400() {
    for (name, email) in [("", "ursula_le_guin@ztpir.com"), ("Ursula", ""), ("Ursula", "definitely-not-an-email")] {
        let err = admit_subscriber(form(name, email)).err().unwrap();
        assert_eq!(err.status_code(), 400);
    }
    assert!(admit_subscriber(form("le guin", "ursula_le_guin@ztpir.com")).is_ok());
}

#[test]
fn the_confirmation_email_carries_the_link_in_both_bodies() {
    let subscriber = NewSubscriber {
        name: SubscriberName::parse("le guin".to_string()).unwrap(),
        email: ztpir::domain::SubscriberEmail::parse("ursula_le_guin@ztpir.com".to_string()).unwrap(),
        confirmation_token: "abc123".to_string(),
    };
    let email = ConfirmationEmail::for_subscriber("http://localhost", &subscriber);
    let link = "http://localhost/subscriptions/confirm?subscription_token=abc123";
    assert_eq!(build_confirmation_link("http://localhost", "abc123"), link);
    assert_eq!(email.subject, "Welcome le guin!");
    assert_eq!(
        email.html_body,
        format!("Welcome to our newsletter!<br />Click <a href=\"{link}\">here</a> to confirm your subscription.")
    );
    assert_eq!(
        email.text_body,
        format!("Welcome to our newsletter!\nVisit {link} to confirm your subscription.")
    );
}

#[test]
fn subscribe_steps_run_in_order_and_succeed_after_the_email() {
    let mut step = SubscribeStep::first();
    let mut seen = vec![step];
    loop {
        match step.next(true) {
            SubscribeAction::Perform(next) => {
                step = next;
                seen.push(step);
            }
            SubscribeAction::Succeed => break,
            SubscribeAction::Fail(_) => panic!("no step failed"),
        }
    }
    assert_eq!(
        seen,
        vec![
            SubscribeStep::BeginTransaction,
            SubscribeStep::InsertSubscriber,
            SubscribeStep::StoreConfirmationToken,
            SubscribeStep::CommitTransaction,
            SubscribeStep::SendConfirmationEmail,
        ]
    );
}

#[test]
fn each_failing_step_has_its_answer() {
    let cases = [
        (SubscribeStep::BeginTransaction, 503, "Failed to acquire a database connection from the pool.  Try again later."),
        (SubscribeStep::InsertSubscriber, 500, "A database error was encountered while trying to create a new subscription."),
        (SubscribeStep::StoreConfirmationToken, 500, "A database error was encountered while trying to create a subscription confirmation token."),
        (SubscribeStep::CommitTransaction, 502, "Failed to commit transaction."),
        (SubscribeStep::SendConfirmationEmail, 502, "Failed to send confirmation email."),
    ];
    for (step, status, text) in cases {
        assert_eq!(step.next(false), SubscribeAction::Fail(step));
        let e = step.failure("connection reset".to_string());
        assert_eq!(status_and_text(&e), (status, text.to_string()));
        assert_eq!(e.cause(), Some("connection reset"));
    }
}

#[test]
fn a_failure_stops_the_later_steps() {
    // The token insertion fails: the commit and the email never run.
    let outcomes = [true, true, false, true, true];
    let mut step = SubscribeStep::first();
    let mut answer = None;
    for ok in outcomes {
        match step.next(ok) {
            SubscribeAction::Perform(next) => step = next,
            other => {
                answer = Some(other);
                break;
            }
        }
    }
    assert_eq!(answer, Some(SubscribeAction::Fail(SubscribeStep::StoreConfirmationToken)));
}

#[test]
fn confirmation_answers() {
    let found: Result<Option<u32>, String> = Ok(Some(7));
    assert_eq!(confirm_lookup(found).ok(), Some(7));
    let missing: Result<Option<u32>, String> = Ok(None);
    let e = confirm_lookup(missing).err().unwrap();
    assert_eq!(
        status_and_text(&e),
        (401, "Supplied subscriber confirmation token not found: {token}".to_string())
    );
    assert_eq!(e.cause(), None);
    let failed: Result<Option<u32>, String> = Err("db down".to_string());
    let e = confirm_lookup(failed).err().unwrap();
    assert_eq!(status_and_text(&e), (500, "Failed to fetch subscriber_id from token".to_string()));
    assert_eq!(e.cause(), Some("db down"));
    assert!(confirm_update(Ok(())).is_ok());
    let e = confirm_update(Err("db down".to_string())).err().unwrap();
    assert_eq!(status_and_text(&e), (500, "Failed to confirm subscriber".to_string()));
    assert_eq!(e.cause(), Some("db down"));
}

#[test]
fn error_status_codes() {
    assert_eq!(Error::Handleable(Report::new("x".to_string())).status_code(), 500);
    assert_eq!(Error::Unknown(Report::new("x".to_string())).status_code(), 500);
    assert_eq!(Error::Unhandleable(Report::new("x".to_string()), 418).status_code(), 418);
    assert_eq!(Error::Unknown(Report::new("why".to_string())).message(), "why");
    let e = Error::Unhandleable(Report::caused_by("outer".to_string(), "inner".to_string()), 502);
    assert_eq!((e.message(), e.cause()), ("outer", Some("inner")));
    assert_eq!(Error::Unknown(Report::new("x".to_string())).cause(), None);
}

#[test]
fn error_adapters() {
    let ok: Result<u8, String> = Ok(3);
    assert_eq!(ok.on_error_return(500, "body").ok(), Some(3));
    let bad: Result<u8, std::num::ParseIntError> = "x1".parse::<u8>();
    let e = bad.on_error_return(503, "try later").err().unwrap();
    assert_eq!(status_and_text(&e), (503, "try later".to_string()));
    assert_eq!(e.cause(), Some("invalid digit found in string"));
    let bad: Result<u8, String> = Err("broken".to_string());
    let e = bad.on_error_status(400).err().unwrap();
    assert_eq!(status_and_text(&e), (400, "broken".to_string()));
    let none: Option<u8> = None;
    let e = none.when_none_return(401, "unknown").err().unwrap();
    assert_eq!(status_and_text(&e), (401, "unknown".to_string()));
    assert_eq!(Some(1u8).when_none_return(401, "unknown").ok(), Some(1));
}

#[test]
fn the_email_request_carries_what_it_is_given() {
    let sender = ztpir::domain::SubscriberEmail::parse("from@ztpir.com".to_string()).unwrap();
    let recipient = ztpir::domain::SubscriberEmail::parse("to@ztpir.com".to_string()).unwrap();
    let r = SendEmailRequest::new(&sender, &recipient, "Hi", "<p>hi</p>", "hi");
    assert_eq!(
        (r.from.as_str(), r.to.as_str(), r.subject.as_str(), r.html_body.as_str(), r.text_body.as_str()),
        ("from@ztpir.com", "to@ztpir.com", "Hi", "<p>hi</p>", "hi")
    );
}

#[test]
fn a_token_is_made_of_the_drawn_bytes() {
    let samples: Vec<u8> = b"Abc123Xyz789Def456Ghi0JkL".to_vec();
    assert_eq!(samples.len(), CONFIRMATION_TOKEN_LENGTH);
    assert_eq!(token_from_samples(&samples), "Abc123Xyz789Def456Ghi0JkL");
    let drawn = draw_alphanumeric_samples(CONFIRMATION_TOKEN_LENGTH);
    assert_eq!(drawn.len(), CONFIRMATION_TOKEN_LENGTH);
    assert!(drawn.iter().all(|b| b.is_ascii_alphanumeric()));
    assert_eq!(token_from_samples(&drawn).as_bytes(), drawn.as_slice());
}

#[test]
fn a_form_with_an_address_without_a_local_part_is_refused() {
    for email in ["ursulaztpir.com", "@ztpir.com", "definitely-not-an-email"] {
        let err = admit_subscriber(form("Ursula", email)).err().unwrap();
        assert_eq!(status_and_text(&err), (400, format!("{email} is not a valid subscriber email.")));
        assert_eq!(err.cause(), None);
    }
}
