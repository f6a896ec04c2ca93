use crate::domain::{valid_email, valid_name, NewSubscriber, SubscriberEmail, SubscriberName};
use crate::utils::ErrorChain;
use vstd::prelude::*;

verus! {

/// The two fields of a subscription form.
pub struct FormData {
    pub email: String,
    pub name: String,
}

/// Why a subscription request failed.
#[derive(Debug)]
pub enum SubscribeError {
    /// The form data is not a valid subscriber; answered 400.
    ValidationError(String),
    /// Storage or delivery failed; answered 500.
    UnexpectedError(ErrorChain),
}

impl SubscribeError {
    pub fn status_code(&self) -> (r: u16)
        ensures
            self is ValidationError ==> r == 400,
            self is UnexpectedError ==> r == 500,
    {
        match self {
            SubscribeError::ValidationError(_) => 400,
            SubscribeError::UnexpectedError(_) => 500,
        }
    }
}

impl NewSubscriber {
    /// Accepts a form exactly when the name and the email are both valid,
    /// naming the first offending field otherwise; the name is checked first.
    pub fn try_from(form: FormData) -> (r: Result<NewSubscriber, String>)
        ensures
            (valid_name(form.name@) && valid_email(form.email@)) <==> r is Ok,
            r is Ok ==> r->Ok_0.name@ == form.name@ && r->Ok_0.email@ == form.email@,
            !valid_name(form.name@) ==> r is Err && r->Err_0@ == form.name@
                + " is not a valid subscriber name."@,
            valid_name(form.name@) && !valid_email(form.email@) ==> r is Err && r->Err_0@
                == form.email@ + " is not a valid subscriber email."@,
    {
        let name = match SubscriberName::parse(form.name) {
            Ok(name) => name,
            Err(bad) => {
                return Err(bad.concat(" is not a valid subscriber name."));
            },
        };
        match SubscriberEmail::parse(form.email) {
            Ok(email) => Ok(NewSubscriber { email, name }),
            Err(bad) => Err(bad.concat(" is not a valid subscriber email.")),
        }
    }
}

/// A character that can appear in a subscription token.
pub open spec fn is_token_char(c: char) -> bool {
    ('0' <= c && c <= '9') || ('A' <= c && c <= 'Z') || ('a' <= c && c <= 'z')
}

/// Relies on rand's `Alphanumeric` distribution sampled from `thread_rng`:
/// every sample is an ASCII letter or digit.
#[verifier::external_body]
fn sample_alphanumeric() -> (r: char)
    ensures
        is_token_char(r),
{
    char::from(rand::Rng::sample(&mut rand::thread_rng(), rand::distributions::Alphanumeric))
}

/// Relies on `String::push`: appends exactly the given character.
#[verifier::external_body]
fn push_char(s: &mut String, c: char)
    ensures
        final(s)@ == old(s)@.push(c),
{
    s.push(c);
}

/// Length of a subscription token.
pub const TOKEN_LEN: usize = 25;

/// Generates a random case-sensitive subscription token of `TOKEN_LEN`
/// alphanumeric characters.
pub fn generate_subscription_token() -> (r: String)
    ensures
        r@.len() == TOKEN_LEN,
        forall|i: int| 0 <= i < r@.len() ==> is_token_char(#[trigger] r@[i]),
{
    let mut out = String::new();
    let mut i: usize = 0;
    while i < TOKEN_LEN
        invariant
            0 <= i <= TOKEN_LEN,
            out@.len() == i,
            forall|j: int| 0 <= j < out@.len() ==> is_token_char(#[trigger] out@[j]),
        decreases TOKEN_LEN - i,
    {
        let c = sample_alphanumeric();
        push_char(&mut out, c);
        i = i + 1;
    }
    out
}

/// The confirmation link a new subscriber is mailed.
pub open spec fn confirmation_link_text(base_url: Seq<char>, token: Seq<char>) -> Seq<char> {
    base_url + "/subscriptions/confirm?subscription_token="@ + token
}

/// The HTML rendering of the confirmation mail around a link.
pub open spec fn confirmation_html_text(link: Seq<char>) -> Seq<char> {
    "Welcome to our newsletter!<br />Click <a href=\""@ + link
        + "\">here</a> to confirm your subscription."@
}

/// The plain-text rendering of the confirmation mail around a link.
pub open spec fn confirmation_plain_text(link: Seq<char>) -> Seq<char> {
    "Welcome to our newsletter!\nVisit "@ + link + " to confirm your subscription."@
}

/// Builds the confirmation link for a token against the application's base
/// URL.
pub fn confirmation_link(base_url: &str, token: &str) -> (r: String)
    ensures
        r@ == confirmation_link_text(base_url@, token@),
{
    let mut out = base_url.to_owned();
    out.append("/subscriptions/confirm?subscription_token=");
    out.append(token);
    out
}

/// One message to one recipient, as handed to the email sender.
pub struct EmailMessage {
    pub subject: String,
    pub html_body: String,
    pub text_body: String,
}

/// Composes the confirmation mail for a token: subject `Welcome!` and the two
/// renderings around the confirmation link.
pub fn compose_confirmation_email(base_url: &str, token: &str) -> (r: EmailMessage)
    ensures
        r.subject@ == "Welcome!"@,
        r.html_body@ == confirmation_html_text(confirmation_link_text(base_url@, token@)),
        r.text_body@ == confirmation_plain_text(confirmation_link_text(base_url@, token@)),
{
    let link = confirmation_link(base_url, token);
    let mut html = "Welcome to our newsletter!<br />Click <a href=\"".to_owned();
    html.append(link.as_str());
    html.append("\">here</a> to confirm your subscription.");
    let mut text = "Welcome to our newsletter!\nVisit ".to_owned();
    text.append(link.as_str());
    text.append(" to confirm your subscription.");
    EmailMessage { subject: "Welcome!".to_owned(), html_body: html, text_body: text }
}

} // verus!
