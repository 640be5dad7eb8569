use crate::text::{ascii_lowercase, push_str, same_text, to_lowercase, unicode_lowercase};
use vstd::prelude::*;
use vstd::utf8::is_ascii_chars;

verus! {

/// Where a subscription stands.
#[derive(PartialEq, Eq, Structural, Debug, Clone, Copy)]
pub enum SubscriptionStatus {
    PendingConfirmation,
    Confirmed,
    UnsubscribedFromAll,
}

/// The name under which a status is stored.
pub open spec fn status_text(s: SubscriptionStatus) -> Seq<char> {
    match s {
        SubscriptionStatus::PendingConfirmation => "pending_confirmation"@,
        SubscriptionStatus::Confirmed => "confirmed"@,
        SubscriptionStatus::UnsubscribedFromAll => "unsubscribed"@,
    }
}

/// The status whose stored name is exactly `t`, if any.
pub open spec fn status_named(t: Seq<char>) -> Option<SubscriptionStatus> {
    if t == "pending_confirmation"@ {
        Some(SubscriptionStatus::PendingConfirmation)
    } else if t == "confirmed"@ {
        Some(SubscriptionStatus::Confirmed)
    } else if t == "unsubscribed"@ {
        Some(SubscriptionStatus::UnsubscribedFromAll)
    } else {
        None
    }
}

/// The message that refuses `s` as a status.
pub open spec fn unknown_status_message(s: Seq<char>) -> Seq<char> {
    "Unknown subscriber status: "@ + s
}

/// What reading `s` as a status gives, once `s` has been lowercased to `lower`.
pub open spec fn status_outcome(s: Seq<char>, lower: Seq<char>, r: Result<SubscriptionStatus, String>) -> bool {
    match status_named(lower) {
        Some(st) => r == Ok::<SubscriptionStatus, String>(st),
        None => r matches Err(e) && e@ == unknown_status_message(s),
    }
}

/// The status whose stored name is exactly `t`, if any.
pub fn status_named_exactly(t: &str) -> (r: Option<SubscriptionStatus>)
    ensures
        r == status_named(t@),
{
    if same_text(t, "pending_confirmation") {
        Some(SubscriptionStatus::PendingConfirmation)
    } else if same_text(t, "confirmed") {
        Some(SubscriptionStatus::Confirmed)
    } else if same_text(t, "unsubscribed") {
        Some(SubscriptionStatus::UnsubscribedFromAll)
    } else {
        None
    }
}

impl SubscriptionStatus {
    /// The name under which the status is stored.
    pub fn as_str(&self) -> (r: &'static str)
        ensures
            r@ == status_text(*self),
    {
        match self {
            SubscriptionStatus::PendingConfirmation => "pending_confirmation",
            SubscriptionStatus::Confirmed => "confirmed",
            SubscriptionStatus::UnsubscribedFromAll => "unsubscribed",
        }
    }

    /// Reads a status from its stored name, in any letter case.
    pub fn parse(s: String) -> (r: Result<SubscriptionStatus, String>)
        ensures
            status_outcome(s@, unicode_lowercase(s@), r),
            is_ascii_chars(s@) ==> status_outcome(s@, ascii_lowercase(s@), r),
    {
        let lower = to_lowercase(s.as_str());
        match status_named_exactly(lower.as_str()) {
            Some(st) => Ok(st),
            None => {
                let mut message = String::new();
                push_str(&mut message, "Unknown subscriber status: ");
                push_str(&mut message, s.as_str());
                Err(message)
            },
        }
    }
}

impl TryFrom<String> for SubscriptionStatus {
    type Error = String;

    fn try_from(s: String) -> (r: Result<SubscriptionStatus, String>)
        ensures
            status_outcome(s@, unicode_lowercase(s@), r),
            is_ascii_chars(s@) ==> status_outcome(s@, ascii_lowercase(s@), r),
    {
        SubscriptionStatus::parse(s)
    }
}

impl vstd::std_specs::convert::TryFromSpecImpl<String> for SubscriptionStatus {
    open spec fn obeys_try_from_spec() -> bool {
        false
    }

    open spec fn try_from_spec(v: String) -> Result<SubscriptionStatus, String> {
        arbitrary()
    }
}

/// Reading back the stored name of a status gives that status: the name is ASCII
/// and lowercase, so whatever `SubscriptionStatus::parse` returns on it is `Ok(st)`.
pub proof fn lemma_status_name_roundtrip(st: SubscriptionStatus)
    ensures
        is_ascii_chars(status_text(st)),
        forall|r: Result<SubscriptionStatus, String>|
            status_outcome(status_text(st), ascii_lowercase(status_text(st)), r)
                ==> r == Ok::<SubscriptionStatus, String>(st),
{
    reveal_strlit("pending_confirmation");
    reveal_strlit("confirmed");
    reveal_strlit("unsubscribed");
    assert(ascii_lowercase(status_text(st)) =~= status_text(st));
}

} // verus!
