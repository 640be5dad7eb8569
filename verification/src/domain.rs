pub use crate::status::SubscriptionStatus;
use crate::text::{blank, is_blank, push_char, push_str};
use unicode_segmentation::UnicodeSegmentation;
use rand::RngExt;
use validator::ValidateEmail;
use vstd::prelude::*;

verus! {

/// The most grapheme clusters a subscriber name may have.
pub const MAX_NAME_GRAPHEMES: usize = 256;

/// How many extended grapheme clusters `unicode-segmentation` finds in a text.
pub uninterp spec fn extended_grapheme_count(s: Seq<char>) -> nat;

/// `UnicodeSegmentation::graphemes(s, true).count()`: the number of extended
/// grapheme clusters of `s`, named by `extended_grapheme_count`. Every cluster
/// holds at least one character, so there are no more clusters than characters.
#[verifier::external_body]
fn grapheme_count(s: &str) -> (r: usize)
    ensures
        r as nat == extended_grapheme_count(s@),
        r <= s@.len(),
{
    s.graphemes(true).count()
}

/// The characters that a subscriber name may not hold.
pub open spec fn forbidden_name_char(c: char) -> bool {
    c == '/' || c == '(' || c == ')' || c == '"' || c == '<' || c == '>' || c == '\\' || c == '{'
        || c == '}'
}

/// Whether some character of `s` is forbidden in a name.
pub open spec fn has_forbidden_name_char(s: Seq<char>) -> bool {
    exists|i: int| 0 <= i < s.len() && #[trigger] forbidden_name_char(s[i])
}

/// A name is accepted when it is not blank, has at most `MAX_NAME_GRAPHEMES`
/// grapheme clusters, and holds no forbidden character.
pub open spec fn acceptable_name(s: Seq<char>, graphemes: nat) -> bool {
    &&& !blank(s)
    &&& graphemes <= MAX_NAME_GRAPHEMES
    &&& !has_forbidden_name_char(s)
}

/// Which names are accepted, character by character: a name that is not blank,
/// has at most `MAX_NAME_GRAPHEMES` clusters and holds none of the nine
/// characters `/ ( ) " < > \ { }` is accepted, whatever else it holds (a `-`,
/// a `.`, an apostrophe, any letter); a name that holds one of those nine is
/// refused.
pub proof fn lemma_name_refused_only_for_the_nine(s: Seq<char>, graphemes: nat)
    ensures
        (!blank(s) && graphemes <= MAX_NAME_GRAPHEMES && (forall|i: int| 0 <= i < s.len() ==> {
            let c = #[trigger] s[i];
            c != '/' && c != '(' && c != ')' && c != '"' && c != '<' && c != '>' && c != '\\'
                && c != '{' && c != '}'
        })) ==> acceptable_name(s, graphemes),
        (exists|i: int| 0 <= i < s.len() && {
            let c = #[trigger] s[i];
            c == '/' || c == '(' || c == ')' || c == '"' || c == '<' || c == '>' || c == '\\'
                || c == '{' || c == '}'
        }) ==> !acceptable_name(s, graphemes),
        acceptable_name(s, graphemes) <==> (!blank(s) && graphemes <= MAX_NAME_GRAPHEMES
            && !has_forbidden_name_char(s)),
{
    if exists|i: int| 0 <= i < s.len() && {
        let c = #[trigger] s[i];
        c == '/' || c == '(' || c == ')' || c == '"' || c == '<' || c == '>' || c == '\\'
            || c == '{' || c == '}'
    } {
        let i = choose|i: int| 0 <= i < s.len() && {
            let c = #[trigger] s[i];
            c == '/' || c == '(' || c == ')' || c == '"' || c == '<' || c == '>' || c == '\\'
                || c == '{' || c == '}'
        };
        assert(forbidden_name_char(s[i]));
    }
}

/// The message that refuses `s` as a name.
pub open spec fn invalid_name_message(s: Seq<char>) -> Seq<char> {
    s + " is not a valid subscriber name."@
}

/// The message that refuses `s` as an email address.
pub open spec fn invalid_email_message(s: Seq<char>) -> Seq<char> {
    s + " is not a valid subscriber email."@
}

/// Whether `c` is one of the characters forbidden in a name.
pub fn is_forbidden_name_char(c: char) -> (r: bool)
    ensures
        r == forbidden_name_char(c),
{
    c == '/' || c == '(' || c == ')' || c == '"' || c == '<' || c == '>' || c == '\\' || c == '{'
        || c == '}'
}

/// Whether some character of `s` is forbidden in a name.
pub fn contains_forbidden_name_char(s: &str) -> (r: bool)
    ensures
        r == has_forbidden_name_char(s@),
{
    for c in it: s.chars()
        invariant
            it.seq() == s@,
            forall|j: int| 0 <= j < it.index() ==> !#[trigger] forbidden_name_char(s@[j]),
    {
        if is_forbidden_name_char(c) {
            assert(forbidden_name_char(s@[it.index() as int]));
            return true;
        }
    }
    false
}

/// `s` followed by `suffix`, as a new `String`.
fn concat(s: &str, suffix: &str) -> (r: String)
    ensures
        r@ == s@ + suffix@,
{
    let mut r = String::new();
    push_str(&mut r, s);
    push_str(&mut r, suffix);
    r
}

/// The message that refuses `s` as a name.
pub fn invalid_name(s: &str) -> (r: String)
    ensures
        r@ == invalid_name_message(s@),
{
    let suffix = " is not a valid subscriber name.";
    concat(s, suffix)
}

/// The message that refuses `s` as an email address.
pub fn invalid_email(s: &str) -> (r: String)
    ensures
        r@ == invalid_email_message(s@),
{
    let suffix = " is not a valid subscriber email.";
    concat(s, suffix)
}

/// A validated subscriber name: never blank, never with a forbidden character,
/// and, when it comes from `parse`, of at most `MAX_NAME_GRAPHEMES` grapheme clusters.
#[derive(Debug)]
pub struct SubscriberName(String);

impl View for SubscriberName {
    type V = Seq<char>;

    closed spec fn view(&self) -> Seq<char> {
        self.0@
    }
}

impl SubscriberName {
    #[verifier::type_invariant]
    spec fn well_formed(self) -> bool {
        !blank(self.0@) && !has_forbidden_name_char(self.0@)
    }

    /// Checks `s` as a name, given the number of its grapheme clusters.
    pub fn from_counted(s: String, graphemes: usize) -> (r: Result<SubscriberName, String>)
        ensures
            acceptable_name(s@, graphemes as nat) <==> r is Ok,
            r matches Ok(name) ==> name@ == s@,
            r matches Err(e) ==> e@ == invalid_name_message(s@),
    {
        let is_empty_or_whitespace = is_blank(s.as_str());
        let is_too_long = graphemes > MAX_NAME_GRAPHEMES;
        let contains_forbidden_characters = contains_forbidden_name_char(s.as_str());
        if is_empty_or_whitespace || is_too_long || contains_forbidden_characters {
            Err(invalid_name(s.as_str()))
        } else {
            Ok(SubscriberName(s))
        }
    }

    /// Checks `s` as a subscriber name: refused when it is empty or white space
    /// only, longer than `MAX_NAME_GRAPHEMES` grapheme clusters, or holds one of
    /// `/ ( ) " < > \ { }`.
    pub fn parse(s: String) -> (r: Result<SubscriberName, String>)
        ensures
            acceptable_name(s@, extended_grapheme_count(s@)) <==> r is Ok,
            s@.len() <= MAX_NAME_GRAPHEMES ==> (r is Ok <==> !blank(s@) && !has_forbidden_name_char(s@)),
            r matches Ok(name) ==> name@ == s@,
            r matches Err(e) ==> e@ == invalid_name_message(s@),
    {
        let graphemes = grapheme_count(s.as_str());
        Self::from_counted(s, graphemes)
    }

    /// The name as text; it is never blank and holds no forbidden character.
    pub fn as_ref(&self) -> (r: &str)
        ensures
            r@ == self@,
            !blank(r@),
            !has_forbidden_name_char(r@),
    {
        proof {
            use_type_invariant(self);
        }
        self.0.as_str()
    }
}

impl std::str::FromStr for SubscriberName {
    type Err = String;

    fn from_str(s: &str) -> (r: Result<SubscriberName, String>)
        ensures
            acceptable_name(s@, extended_grapheme_count(s@)) <==> r is Ok,
            s@.len() <= MAX_NAME_GRAPHEMES ==> (r is Ok <==> !blank(s@) && !has_forbidden_name_char(s@)),
            r matches Ok(name) ==> name@ == s@,
            r matches Err(e) ==> e@ == invalid_name_message(s@),
    {
        SubscriberName::parse(s.to_string())
    }
}

/// Whether a text is a valid email address to the `validator` crate (the HTML
/// living standard's rule for an email input, with length limits and IDN domains).
pub uninterp spec fn html5_valid_email(s: Seq<char>) -> bool;

/// Whether `s` holds an `@` and does not start with one: an address has a
/// non-empty part before its `@`.
pub open spec fn at_sign_after_start(s: Seq<char>) -> bool {
    s.contains('@') && s[0] != '@'
}

/// A text that holds an `@` is not blank.
proof fn lemma_at_sign_not_blank(s: Seq<char>)
    requires
        s.contains('@'),
    ensures
        !blank(s),
{
    let i = choose|i: int| 0 <= i < s.len() && s[i] == '@';
    assert(!crate::text::white_space(s[i]));
}

/// `ValidateEmail::validate_email` on a `&str`, named by `html5_valid_email`.
/// Its source refuses a text without `@` and one whose part before the last `@`
/// does not match `[a-zA-Z0-9.!#$%&'*+/=?^_`{|}~-]+`, so an accepted text holds an
/// `@` and does not start with one. What else it checks is left to the name.
#[verifier::external_body]
fn validate_email(s: &str) -> (r: bool)
    ensures
        r == html5_valid_email(s@),
        r ==> at_sign_after_start(s@),
{
    s.validate_email()
}

/// A subscriber's email address.
#[derive(Debug)]
pub struct SubscriberEmail(String);

impl View for SubscriberEmail {
    type V = Seq<char>;

    closed spec fn view(&self) -> Seq<char> {
        self.0@
    }
}

impl SubscriberEmail {
    /// Checks `s` as an email address by the `validator` crate's rule, keeping
    /// the text it is given.
    pub fn parse(s: String) -> (r: Result<SubscriberEmail, String>)
        ensures
            html5_valid_email(s@) <==> r is Ok,
            r is Ok ==> at_sign_after_start(s@),
            r matches Ok(email) ==> email@ == s@ && !blank(email@),
            r matches Err(e) ==> e@ == invalid_email_message(s@),
    {
        let valid = validate_email(s.as_str());
        if valid {
            proof {
                lemma_at_sign_not_blank(s@);
            }
            Ok(SubscriberEmail(s))
        } else {
            Err(invalid_email(s.as_str()))
        }
    }

    /// Builds the address `s` from the outcome `valid` of checking it as an email.
    pub fn from_validation(s: &str, valid: bool) -> (r: Result<SubscriberEmail, String>)
        ensures
            valid <==> r is Ok,
            r matches Ok(email) ==> email@ == s@,
            r matches Err(e) ==> e@ == invalid_email_message(s@),
    {
        if valid {
            Ok(SubscriberEmail(s.to_string()))
        } else {
            Err(invalid_email(s))
        }
    }

    /// Checks `s` as an email address by the `validator` crate's rule.
    pub fn parse_address(s: &str) -> (r: Result<SubscriberEmail, String>)
        ensures
            html5_valid_email(s@) <==> r is Ok,
            r is Ok ==> at_sign_after_start(s@),
            r matches Ok(email) ==> email@ == s@ && !blank(email@),
            r matches Err(e) ==> e@ == invalid_email_message(s@),
    {
        let valid = validate_email(s);
        let r = Self::from_validation(s, valid);
        proof {
            if valid {
                lemma_at_sign_not_blank(s@);
            }
        }
        r
    }

    /// The address as text.
    pub fn as_ref(&self) -> (r: &str)
        ensures
            r@ == self@,
    {
        self.0.as_str()
    }
}

impl std::str::FromStr for SubscriberEmail {
    type Err = String;

    fn from_str(s: &str) -> (r: Result<SubscriberEmail, String>)
        ensures
            html5_valid_email(s@) <==> r is Ok,
            r is Ok ==> at_sign_after_start(s@),
            r matches Ok(email) ==> email@ == s@ && !blank(email@),
            r matches Err(e) ==> e@ == invalid_email_message(s@),
    {
        SubscriberEmail::parse_address(s)
    }
}

/// How many characters a confirmation token has.
pub const CONFIRMATION_TOKEN_LENGTH: usize = 25;

/// An ASCII letter or digit.
pub open spec fn ascii_alphanumeric(c: char) -> bool {
    ('A' <= c && c <= 'Z') || ('a' <= c && c <= 'z') || ('0' <= c && c <= '9')
}

/// A text fit to be a confirmation token: `CONFIRMATION_TOKEN_LENGTH` ASCII
/// letters and digits.
pub open spec fn confirmation_token_shape(t: Seq<char>) -> bool {
    &&& t.len() == CONFIRMATION_TOKEN_LENGTH
    &&& forall|i: int| 0 <= i < t.len() ==> #[trigger] ascii_alphanumeric(t[i])
}

#[verifier::external_type_specification]
#[verifier::external_body]
pub struct ExThreadRng(rand::rngs::ThreadRng);

/// `rand::rng()`: the thread's random number generator. Nothing is stated of it.
#[verifier::external_body]
fn thread_rng() -> rand::rngs::ThreadRng {
    rand::rng()
}

/// `RngExt::sample(rng, Alphanumeric)`: a random byte, which the `Alphanumeric`
/// distribution draws from the ASCII letters and digits. Which one comes out is
/// chance; only that it is one of them is stated.
#[verifier::external_body]
fn sample_alphanumeric(rng: &mut rand::rngs::ThreadRng) -> (b: u8)
    ensures
        ascii_alphanumeric(b as char),
{
    rng.sample(rand::distr::Alphanumeric)
}

/// `n` bytes drawn at random from the ASCII letters and digits, in the order
/// they were drawn from one generator.
pub fn draw_alphanumeric_samples(n: usize) -> (v: Vec<u8>)
    ensures
        v@.len() == n,
        forall|i: int| 0 <= i < n ==> #[trigger] ascii_alphanumeric(v@[i] as char),
{
    let mut rng = thread_rng();
    let mut v: Vec<u8> = Vec::new();
    let mut i: usize = 0;
    while i < n
        invariant
            i <= n,
            v@.len() == i,
            forall|j: int| 0 <= j < i ==> #[trigger] ascii_alphanumeric(v@[j] as char),
        decreases n - i,
    {
        let b = sample_alphanumeric(&mut rng);
        v.push(b);
        i = i + 1;
    }
    v
}

/// The characters of a token made of the drawn bytes `samples`, one per byte.
pub open spec fn token_chars(samples: Seq<u8>) -> Seq<char> {
    samples.map_values(|b: u8| b as char)
}

/// The token whose characters are the bytes `samples`, in order; when they are
/// `CONFIRMATION_TOKEN_LENGTH` ASCII letters and digits, the token has the shape
/// of a confirmation token.
pub fn token_from_samples(samples: &Vec<u8>) -> (t: String)
    ensures
        t@ == token_chars(samples@),
        samples@.len() == CONFIRMATION_TOKEN_LENGTH
            && (forall|i: int| 0 <= i < samples@.len() ==> #[trigger] ascii_alphanumeric(samples@[i] as char))
            ==> confirmation_token_shape(t@),
{
    let mut t = String::new();
    let mut i: usize = 0;
    while i < samples.len()
        invariant
            i <= samples@.len(),
            t@ == token_chars(samples@.subrange(0, i as int)),
        decreases samples@.len() - i,
    {
        push_char(&mut t, samples[i] as char);
        proof {
            assert(samples@.subrange(0, i + 1 as int) =~= samples@.subrange(0, i as int).push(samples@[i as int]));
            assert(token_chars(samples@.subrange(0, i + 1 as int)) =~= token_chars(samples@.subrange(0, i as int)).push(samples@[i as int] as char));
        }
        i = i + 1;
    }
    assert(samples@.subrange(0, samples@.len() as int) =~= samples@);
    t
}

/// A fresh random confirmation token: `CONFIRMATION_TOKEN_LENGTH` bytes drawn
/// from the ASCII letters and digits, made into a token by `token_from_samples`.
pub fn generate_confirmation_token() -> (t: String)
    ensures
        confirmation_token_shape(t@),
{
    let samples = draw_alphanumeric_samples(CONFIRMATION_TOKEN_LENGTH);
    token_from_samples(&samples)
}

/// Whether a form with this name and address is accepted.
pub open spec fn form_accepted(name: Seq<char>, email: Seq<char>) -> bool {
    acceptable_name(name, extended_grapheme_count(name)) && html5_valid_email(email)
}

/// The text that refuses a form with this name and address: the name's refusal
/// when the name is refused, else the address's.
pub open spec fn form_refusal(name: Seq<char>, email: Seq<char>) -> Seq<char> {
    if !acceptable_name(name, extended_grapheme_count(name)) {
        invalid_name_message(name)
    } else {
        invalid_email_message(email)
    }
}

/// A form is accepted exactly when its name is accepted (as
/// `SubscriberName::parse` decides) and its address is accepted (as
/// `SubscriberEmail::parse` decides), with no other condition; a refused form is
/// refused for its name when the name is refused, else for its address.
pub proof fn lemma_form_accepted_when_both_parts_are(name: Seq<char>, email: Seq<char>)
    ensures
        form_accepted(name, email) <==> (acceptable_name(name, extended_grapheme_count(name))
            && html5_valid_email(email)),
        !acceptable_name(name, extended_grapheme_count(name)) ==> form_refusal(name, email)
            == invalid_name_message(name),
        acceptable_name(name, extended_grapheme_count(name)) && !html5_valid_email(email)
            ==> form_refusal(name, email) == invalid_email_message(email),
{
}

/// A subscription form as it is sent.
pub struct FormData {
    pub email: String,
    pub name: String,
}

/// A subscriber whose name and address were accepted, with the token that
/// confirms the subscription.
pub struct NewSubscriber {
    pub name: SubscriberName,
    pub email: SubscriberEmail,
    pub confirmation_token: String,
}

impl NewSubscriber {
    /// Checks a subscription form: the name first, then the address (by the
    /// `validator` crate's rule); when both are accepted, draws a fresh token.
    pub fn from_form(form: FormData) -> (r: Result<NewSubscriber, String>)
        ensures
            r is Ok <==> form_accepted(form.name@, form.email@),
            r is Ok <==> (acceptable_name(form.name@, extended_grapheme_count(form.name@))
                && html5_valid_email(form.email@)),
            r matches Ok(s) ==> s.name@ == form.name@ && s.email@ == form.email@
                && confirmation_token_shape(s.confirmation_token@),
            r matches Err(e) ==> e@ == form_refusal(form.name@, form.email@),
            r is Ok ==> at_sign_after_start(form.email@),
    {
        let FormData { email, name } = form;
        let name = SubscriberName::parse(name)?;
        let email = SubscriberEmail::parse_address(email.as_str())?;
        let confirmation_token = generate_confirmation_token();
        Ok(NewSubscriber { name, email, confirmation_token })
    }
}

impl TryFrom<FormData> for NewSubscriber {
    type Error = String;

    fn try_from(form: FormData) -> (r: Result<NewSubscriber, String>)
        ensures
            r is Ok <==> form_accepted(form.name@, form.email@),
            r is Ok <==> (acceptable_name(form.name@, extended_grapheme_count(form.name@))
                && html5_valid_email(form.email@)),
            r matches Ok(s) ==> s.name@ == form.name@ && s.email@ == form.email@
                && confirmation_token_shape(s.confirmation_token@),
            r matches Err(e) ==> e@ == form_refusal(form.name@, form.email@),
            r is Ok ==> at_sign_after_start(form.email@),
    {
        NewSubscriber::from_form(form)
    }
}

impl vstd::std_specs::convert::TryFromSpecImpl<FormData> for NewSubscriber {
    open spec fn obeys_try_from_spec() -> bool {
        false
    }

    open spec fn try_from_spec(v: FormData) -> Result<NewSubscriber, String> {
        arbitrary()
    }
}

} // verus!
