use crate::domain::{acceptable_name, extended_grapheme_count, html5_valid_email, ascii_alphanumeric, at_sign_after_start, confirmation_token_shape, form_accepted, form_refusal, FormData, NewSubscriber};
use crate::error::{
    answered_with, caused_by, Error, Report, WhenNoneReturn, BAD_GATEWAY, BAD_REQUEST,
    INTERNAL_SERVER_ERROR, SERVICE_UNAVAILABLE, UNAUTHORIZED,
};
use crate::text::push_str;
use vstd::prelude::*;

verus! {

/// The link that confirms the subscription holding `token`, under the
/// application's base URL `base`.
pub open spec fn confirmation_link(base: Seq<char>, token: Seq<char>) -> Seq<char> {
    base + "/subscriptions/confirm?subscription_token="@ + token
}

/// The subject of the welcome email to `name`.
pub open spec fn welcome_subject(name: Seq<char>) -> Seq<char> {
    "Welcome "@ + name + "!"@
}

/// The HTML body of the welcome email that carries `link`.
pub open spec fn welcome_html_body(link: Seq<char>) -> Seq<char> {
    "Welcome to our newsletter!<br />Click <a href=\""@ + link
        + "\">here</a> to confirm your subscription."@
}

/// The plain-text body of the welcome email that carries `link`.
pub open spec fn welcome_text_body(link: Seq<char>) -> Seq<char> {
    "Welcome to our newsletter!\nVisit "@ + link + " to confirm your subscription."@
}

/// The email that asks a new subscriber to confirm.
pub struct ConfirmationEmail {
    pub subject: String,
    pub html_body: String,
    pub text_body: String,
}

/// The link that confirms the subscription holding `token`.
pub fn build_confirmation_link(base_url: &str, token: &str) -> (r: String)
    ensures
        r@ == confirmation_link(base_url@, token@),
{
    let mut r = String::new();
    push_str(&mut r, base_url);
    push_str(&mut r, "/subscriptions/confirm?subscription_token=");
    push_str(&mut r, token);
    r
}

impl ConfirmationEmail {
    /// The welcome email to `subscriber`, whose link holds the subscriber's token.
    pub fn for_subscriber(base_url: &str, subscriber: &NewSubscriber) -> (r: ConfirmationEmail)
        ensures
            r.subject@ == welcome_subject(subscriber.name@),
            r.html_body@ == welcome_html_body(
                confirmation_link(base_url@, subscriber.confirmation_token@),
            ),
            r.text_body@ == welcome_text_body(
                confirmation_link(base_url@, subscriber.confirmation_token@),
            ),
    {
        let link = build_confirmation_link(base_url, subscriber.confirmation_token.as_str());
        let mut subject = String::new();
        push_str(&mut subject, "Welcome ");
        push_str(&mut subject, subscriber.name.as_ref());
        push_str(&mut subject, "!");
        let mut html_body = String::new();
        push_str(&mut html_body, "Welcome to our newsletter!<br />Click <a href=\"");
        push_str(&mut html_body, link.as_str());
        push_str(&mut html_body, "\">here</a> to confirm your subscription.");
        let mut text_body = String::new();
        push_str(&mut text_body, "Welcome to our newsletter!\nVisit ");
        push_str(&mut text_body, link.as_str());
        push_str(&mut text_body, " to confirm your subscription.");
        ConfirmationEmail { subject, html_body, text_body }
    }
}

/// Checks the form of a subscription request; a refused form is answered with
/// 400 and the text that refuses it.
pub fn admit_subscriber(form: FormData) -> (r: Result<NewSubscriber, Error>)
    ensures
        r is Ok <==> form_accepted(form.name@, form.email@),
        r is Ok <==> (acceptable_name(form.name@, extended_grapheme_count(form.name@))
            && html5_valid_email(form.email@)),
        r matches Ok(s) ==> s.name@ == form.name@ && s.email@ == form.email@
            && confirmation_token_shape(s.confirmation_token@),
        r is Ok ==> at_sign_after_start(form.email@),
        r is Err ==> answered_with(r, BAD_REQUEST, form_refusal(form.name@, form.email@)),
        r is Err ==> caused_by(r, None),
{
    match NewSubscriber::from_form(form) {
        Ok(s) => Ok(s),
        Err(e) => Err(Error::Unhandleable(Report::new(e), BAD_REQUEST)),
    }
}

/// The steps that follow an accepted subscription form, in the order they run.
#[derive(PartialEq, Eq, Structural, Debug, Clone, Copy)]
pub enum SubscribeStep {
    BeginTransaction,
    InsertSubscriber,
    StoreConfirmationToken,
    CommitTransaction,
    SendConfirmationEmail,
}

/// What the handler does after a step.
#[derive(PartialEq, Eq, Structural, Debug, Clone, Copy)]
pub enum SubscribeAction {
    /// Run this step next.
    Perform(SubscribeStep),
    /// Answer with the failure of this step.
    Fail(SubscribeStep),
    /// Answer 200: the subscription is stored and the email sent.
    Succeed,
}

impl SubscribeStep {
    /// The step at position `i`, from 0 (positions past the last give the last).
    pub open spec fn at(i: nat) -> SubscribeStep {
        if i == 0 {
            SubscribeStep::BeginTransaction
        } else if i == 1 {
            SubscribeStep::InsertSubscriber
        } else if i == 2 {
            SubscribeStep::StoreConfirmationToken
        } else if i == 3 {
            SubscribeStep::CommitTransaction
        } else {
            SubscribeStep::SendConfirmationEmail
        }
    }

    /// What follows the step, by whether it succeeded.
    pub open spec fn transition(self, succeeded: bool) -> SubscribeAction {
        if !succeeded {
            SubscribeAction::Fail(self)
        } else {
            match self {
                SubscribeStep::BeginTransaction => SubscribeAction::Perform(SubscribeStep::InsertSubscriber),
                SubscribeStep::InsertSubscriber => SubscribeAction::Perform(SubscribeStep::StoreConfirmationToken),
                SubscribeStep::StoreConfirmationToken => SubscribeAction::Perform(SubscribeStep::CommitTransaction),
                SubscribeStep::CommitTransaction => SubscribeAction::Perform(SubscribeStep::SendConfirmationEmail),
                SubscribeStep::SendConfirmationEmail => SubscribeAction::Succeed,
            }
        }
    }

    /// The HTTP status a failure of the step is answered with.
    pub open spec fn failure_status(self) -> u16 {
        match self {
            SubscribeStep::BeginTransaction => SERVICE_UNAVAILABLE,
            SubscribeStep::InsertSubscriber => INTERNAL_SERVER_ERROR,
            SubscribeStep::StoreConfirmationToken => INTERNAL_SERVER_ERROR,
            SubscribeStep::CommitTransaction => BAD_GATEWAY,
            SubscribeStep::SendConfirmationEmail => BAD_GATEWAY,
        }
    }

    /// The text a failure of the step is answered with.
    pub open spec fn failure_text(self) -> Seq<char> {
        match self {
            SubscribeStep::BeginTransaction => "Failed to acquire a database connection from the pool.  Try again later."@,
            SubscribeStep::InsertSubscriber => "A database error was encountered while trying to create a new subscription."@,
            SubscribeStep::StoreConfirmationToken => "A database error was encountered while trying to create a subscription confirmation token."@,
            SubscribeStep::CommitTransaction => "Failed to commit transaction."@,
            SubscribeStep::SendConfirmationEmail => "Failed to send confirmation email."@,
        }
    }

    /// The step that runs first once a form is accepted.
    pub fn first() -> (r: SubscribeStep)
        ensures
            r == SubscribeStep::BeginTransaction,
    {
        SubscribeStep::BeginTransaction
    }

    /// What follows the step, by whether it succeeded: the next step, the
    /// answer 200 after the email is sent, or the failure of this step.
    pub fn next(self, succeeded: bool) -> (r: SubscribeAction)
        ensures
            r == self.transition(succeeded),
    {
        if !succeeded {
            SubscribeAction::Fail(self)
        } else {
            match self {
                SubscribeStep::BeginTransaction => SubscribeAction::Perform(SubscribeStep::InsertSubscriber),
                SubscribeStep::InsertSubscriber => SubscribeAction::Perform(SubscribeStep::StoreConfirmationToken),
                SubscribeStep::StoreConfirmationToken => SubscribeAction::Perform(SubscribeStep::CommitTransaction),
                SubscribeStep::CommitTransaction => SubscribeAction::Perform(SubscribeStep::SendConfirmationEmail),
                SubscribeStep::SendConfirmationEmail => SubscribeAction::Succeed,
            }
        }
    }

    /// The error that answers a failure of the step, wrapping the failure `cause`.
    pub fn failure(self, cause: String) -> (r: Error)
        ensures
            r is Unhandleable,
            r.status() == self.failure_status(),
            r.text() == self.failure_text(),
            r.cause_text() == Some(cause@),
    {
        let (status, text) = match self {
            SubscribeStep::BeginTransaction => (SERVICE_UNAVAILABLE, "Failed to acquire a database connection from the pool.  Try again later."),
            SubscribeStep::InsertSubscriber => (INTERNAL_SERVER_ERROR, "A database error was encountered while trying to create a new subscription."),
            SubscribeStep::StoreConfirmationToken => (INTERNAL_SERVER_ERROR, "A database error was encountered while trying to create a subscription confirmation token."),
            SubscribeStep::CommitTransaction => (BAD_GATEWAY, "Failed to commit transaction."),
            SubscribeStep::SendConfirmationEmail => (BAD_GATEWAY, "Failed to send confirmation email."),
        };
        Error::Unhandleable(Report::caused_by(text.to_string(), cause), status)
    }
}

/// Where the steps lead from `step` when their outcomes are `outcomes`, in order:
/// the action after the last outcome given, or the answer reached before it.
pub open spec fn run_steps(step: SubscribeStep, outcomes: Seq<bool>) -> SubscribeAction
    decreases outcomes.len(),
{
    if outcomes.len() == 0 {
        SubscribeAction::Perform(step)
    } else {
        match step.transition(outcomes[0]) {
            SubscribeAction::Perform(next) => run_steps(next, outcomes.drop_first()),
            other => other,
        }
    }
}

/// A subscription is answered 200 exactly when all five steps succeed; when one
/// fails, the answer is the failure of the first step that failed, and no later
/// step runs.
pub proof fn lemma_subscribe_answer(outcomes: Seq<bool>)
    requires
        outcomes.len() == 5,
    ensures
        (run_steps(SubscribeStep::BeginTransaction, outcomes) == SubscribeAction::Succeed)
            <==> (forall|i: int| 0 <= i < 5 ==> #[trigger] outcomes[i]),
        forall|k: int| 0 <= k < 5 && !#[trigger] outcomes[k] && (forall|i: int| 0 <= i < k ==> outcomes[i])
            ==> run_steps(SubscribeStep::BeginTransaction, outcomes) == SubscribeAction::Fail(SubscribeStep::at(k as nat)),
{
    lemma_run_from(0, outcomes);
    assert(outcomes.subrange(0, 5) =~= outcomes);
}

/// Running the steps from position `p` over the outcomes `outcomes.subrange(p, 5)`.
proof fn lemma_run_from(p: nat, outcomes: Seq<bool>)
    requires
        outcomes.len() == 5,
        p <= 5,
    ensures
        p < 5 ==> ((run_steps(SubscribeStep::at(p), outcomes.subrange(p as int, 5)) == SubscribeAction::Succeed)
            <==> (forall|i: int| p <= i < 5 ==> #[trigger] outcomes[i])),
        p < 5 ==> forall|k: int| p <= k < 5 && !#[trigger] outcomes[k] && (forall|i: int| p <= i < k ==> outcomes[i])
            ==> run_steps(SubscribeStep::at(p), outcomes.subrange(p as int, 5)) == SubscribeAction::Fail(SubscribeStep::at(k as nat)),
    decreases 5 - p,
{
    if p < 5 {
        lemma_run_from(p + 1, outcomes);
        let rest = outcomes.subrange(p as int, 5);
        assert(rest.drop_first() =~= outcomes.subrange(p + 1 as int, 5));
        assert(rest[0] == outcomes[p as int]);
    }
}

/// The answer to a confirmation once the token has been looked up: a failing
/// lookup is answered 500, an unknown token 401, a known one gives its subscriber.
/// A failing lookup wraps the failure's text.
pub fn confirm_lookup<T>(lookup: Result<Option<T>, String>) -> (r: Result<T, Error>)
    ensures
        lookup matches Ok(Some(id)) ==> r == Ok::<T, Error>(id),
        lookup matches Ok(None) ==> answered_with(r, UNAUTHORIZED, "Supplied subscriber confirmation token not found: {token}"@)
            && caused_by(r, None),
        lookup matches Err(e) ==> answered_with(r, INTERNAL_SERVER_ERROR, "Failed to fetch subscriber_id from token"@)
            && caused_by(r, Some(e@)),
{
    match lookup {
        Ok(found) => found.when_none_return(UNAUTHORIZED, "Supplied subscriber confirmation token not found: {token}"),
        Err(e) => Err(Error::Unhandleable(
            Report::caused_by("Failed to fetch subscriber_id from token".to_string(), e),
            INTERNAL_SERVER_ERROR,
        )),
    }
}

/// The answer to a confirmation once the subscriber has been marked confirmed:
/// a failing update is answered 500, wrapping the failure's text; else the
/// confirmation succeeds.
pub fn confirm_update(update: Result<(), String>) -> (r: Result<(), Error>)
    ensures
        update is Ok ==> r is Ok,
        update matches Err(e) ==> answered_with(r, INTERNAL_SERVER_ERROR, "Failed to confirm subscriber"@)
            && caused_by(r, Some(e@)),
{
    match update {
        Ok(()) => Ok(()),
        Err(e) => Err(Error::Unhandleable(
            Report::caused_by("Failed to confirm subscriber".to_string(), e),
            INTERNAL_SERVER_ERROR,
        )),
    }
}

/// The subject of the welcome email names the whole subscriber name: it is
/// `Welcome `, then every character of the name in order, then `!`.
pub proof fn lemma_subject_names_whole_name(name: Seq<char>)
    ensures
        welcome_subject(name).len() == name.len() + 9,
        welcome_subject(name).subrange(0, 8) == "Welcome "@,
        welcome_subject(name).subrange(8, 8 + name.len() as int) == name,
        welcome_subject(name)[8 + name.len() as int] == '!',
{
    reveal_strlit("Welcome ");
    reveal_strlit("!");
    let s = welcome_subject(name);
    assert(s.subrange(0, 8) =~= "Welcome "@);
    assert(s.subrange(8, 8 + name.len() as int) =~= name);
}

/// Both bodies of the welcome email carry the whole link, unchanged: the HTML body
/// holds it from its 47th character as the `href`, the text body from its 33rd,
/// and the two are the same link.
pub proof fn lemma_bodies_carry_whole_link(link: Seq<char>)
    ensures
        welcome_html_body(link).len() == link.len() + 87,
        welcome_html_body(link).subrange(0, 47) == "Welcome to our newsletter!<br />Click <a href=\""@,
        welcome_html_body(link).subrange(47, 47 + link.len() as int) == link,
        welcome_html_body(link).subrange(47 + link.len() as int, 87 + link.len() as int)
            == "\">here</a> to confirm your subscription."@,
        welcome_text_body(link).len() == link.len() + 63,
        welcome_text_body(link).subrange(33, 33 + link.len() as int) == link,
        welcome_html_body(link).subrange(47, 47 + link.len() as int)
            == welcome_text_body(link).subrange(33, 33 + link.len() as int),
{
    reveal_strlit("Welcome to our newsletter!<br />Click <a href=\"");
    reveal_strlit("\">here</a> to confirm your subscription.");
    reveal_strlit("Welcome to our newsletter!\nVisit ");
    reveal_strlit(" to confirm your subscription.");
    let h = welcome_html_body(link);
    let t = welcome_text_body(link);
    assert(h.subrange(0, 47) =~= "Welcome to our newsletter!<br />Click <a href=\""@);
    assert(h.subrange(47, 47 + link.len() as int) =~= link);
    assert(h.subrange(47 + link.len() as int, 87 + link.len() as int) =~= "\">here</a> to confirm your subscription."@);
    assert(t.subrange(33, 33 + link.len() as int) =~= link);
}

/// The part of a confirmation link before the token.
pub open spec fn confirmation_link_prefix(base: Seq<char>) -> Seq<char> {
    base + "/subscriptions/confirm?subscription_token="@
}

/// The link mailed to a new subscriber hands the confirm route that subscriber's
/// token: the link is the confirm route of `base` with the token as the last and
/// only value of `subscription_token`, and the token is made of ASCII letters and
/// digits, which a query carries as they are.
pub proof fn lemma_confirmation_link_carries_token(base: Seq<char>, token: Seq<char>)
    requires
        confirmation_token_shape(token),
    ensures
        confirmation_link(base, token).take(confirmation_link_prefix(base).len() as int)
            == confirmation_link_prefix(base),
        confirmation_link(base, token).skip(confirmation_link_prefix(base).len() as int) == token,
        forall|i: int| 0 <= i < token.len() ==> #[trigger] ascii_alphanumeric(token[i]),
{
    let link = confirmation_link(base, token);
    let prefix = confirmation_link_prefix(base);
    assert(link =~= prefix + token);
    assert(link.take(prefix.len() as int) =~= prefix);
    assert(link.skip(prefix.len() as int) =~= token);
}

/// The query of a confirmation request.
pub struct Parameters {
    pub subscription_token: String,
}

} // verus!
