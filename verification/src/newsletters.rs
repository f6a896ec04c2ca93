use crate::auth::{
    auth_decision, basic_authentication, basic_credentials_of, password_matches, phc_valid,
    AuthError, AuthOutcome, Credentials, CredentialsError,
};
use crate::dispatch::{ConfirmedSubscriber, ErrorAggregator, FailureEntry};
use crate::domain::{valid_email, SubscriberEmail};
use crate::utils::ErrorChain;
use vstd::prelude::*;

verus! {

/// The two content renderings of one newsletter issue.
pub struct Content {
    pub html: String,
    pub text: String,
}

/// An issue to publish: immutable input shared read-only across all sends of
/// a run.
pub struct BodyData {
    pub title: String,
    pub content: Content,
}

/// Why a request body was rejected before any other work.
#[derive(Clone, Copy, PartialEq, Eq, Structural, Debug)]
pub enum BodyError {
    MissingTitle,
    MissingContent,
}

/// Builds the issue from the fields of a decoded request body, rejecting an
/// incomplete body; checked before authentication is even looked at.
pub fn parse_body(title: Option<String>, html: Option<String>, text: Option<String>) -> (r: Result<
    BodyData,
    BodyError,
>)
    ensures
        r is Ok <==> title is Some && html is Some && text is Some,
        r is Ok ==> r->Ok_0.title@ == title->0@ && r->Ok_0.content.html@ == html->0@
            && r->Ok_0.content.text@ == text->0@,
        r is Err ==> (if title is None {
            r->Err_0 == BodyError::MissingTitle
        } else {
            r->Err_0 == BodyError::MissingContent
        }),
{
    let title = match title {
        Some(t) => t,
        None => {
            return Err(BodyError::MissingTitle);
        },
    };
    match (html, text) {
        (Some(html), Some(text)) => Ok(BodyData { title, content: Content { html, text } }),
        _ => Err(BodyError::MissingContent),
    }
}

/// A publish attempt that failed before dispatch could start.
#[derive(Debug)]
pub enum PublishError {
    /// Authentication failed; answered 401 with the challenge header.
    AuthError(ErrorChain),
    /// Storage failed during lookup or resolution; answered 500.
    UnexpectedError(ErrorChain),
}

/// Status code a publish error is answered with.
pub open spec fn publish_status(e: &PublishError) -> u16 {
    match e {
        PublishError::AuthError(_) => 401,
        PublishError::UnexpectedError(_) => 500,
    }
}

/// The challenge every authentication failure carries, naming the realm.
pub open spec fn www_authenticate_challenge() -> Seq<char> {
    "Basic realm=\"publish\""@
}

/// The status line and the only response header this core ever sets.
pub struct ResponseHead {
    pub status: u16,
    pub www_authenticate: Option<String>,
}

impl PublishError {
    pub fn from_credentials_error(e: CredentialsError) -> (r: PublishError)
        ensures
            r is AuthError,
            r->AuthError_0.message@ == crate::auth::credentials_error_message(e),
    {
        PublishError::AuthError(ErrorChain::new(e.message().to_owned()))
    }

    /// An invalid-credentials outcome stays an authentication failure; any
    /// other verification failure is unexpected.
    pub fn from_auth_error(e: AuthError) -> (r: PublishError)
        ensures
            e is InvalidCredentials <==> r is AuthError,
            e is UnexpectedError <==> r is UnexpectedError,
    {
        match e {
            AuthError::InvalidCredentials(c) => PublishError::AuthError(c),
            AuthError::UnexpectedError(c) => PublishError::UnexpectedError(c),
        }
    }

    /// The response owed for this error: a uniform 401 with the
    /// `WWW-Authenticate` challenge for every authentication failure, 500
    /// with no challenge otherwise.
    pub fn error_response(&self) -> (r: ResponseHead)
        ensures
            r.status == publish_status(self),
            self is AuthError ==> (r.www_authenticate matches Some(h) && h@
                == www_authenticate_challenge()),
            self is UnexpectedError ==> r.www_authenticate is None,
    {
        match self {
            PublishError::AuthError(_) => ResponseHead {
                status: 401,
                www_authenticate: Some("Basic realm=\"publish\"".to_owned()),
            },
            PublishError::UnexpectedError(_) => ResponseHead {
                status: 500,
                www_authenticate: None,
            },
        }
    }
}

/// Completing a run is success regardless of what the aggregator collected:
/// individual send outcomes and skipped subscribers are diagnostics only.
pub fn publish_completion(aggregator: &ErrorAggregator) -> (r: ResponseHead)
    ensures
        r.status == 200,
        r.www_authenticate is None,
{
    ResponseHead { status: 200, www_authenticate: None }
}

/// The checks in front of dispatch: an incomplete body is answered 400 whatever
/// the credentials say, and only then is the authorization header parsed,
/// any failure of which is answered 401 with the challenge. Resolution and
/// dispatch may start only on the returned pair.
pub fn publish_request(
    title: Option<String>,
    html: Option<String>,
    text: Option<String>,
    auth_header: Option<Vec<u8>>,
) -> (r: Result<(BodyData, Credentials), ResponseHead>)
    ensures
        (title is None || html is None || text is None) ==> r is Err && r->Err_0.status == 400
            && r->Err_0.www_authenticate is None,
        (title is Some && html is Some && text is Some) ==> {
            let hv = match auth_header {
                Some(h) => Some(h@),
                None => None,
            };
            match basic_credentials_of(hv) {
                Ok(up) => {
                    &&& r is Ok
                    &&& r->Ok_0.0.title@ == title->0@
                    &&& r->Ok_0.0.content.html@ == html->0@
                    &&& r->Ok_0.0.content.text@ == text->0@
                    &&& r->Ok_0.1.username@ == up.0
                    &&& r->Ok_0.1.password@ == up.1
                },
                Err(_) => r is Err && r->Err_0.status == 401 && (r->Err_0.www_authenticate matches
                    Some(h) && h@ == www_authenticate_challenge()),
            }
        },
{
    let body = match parse_body(title, html, text) {
        Ok(b) => b,
        Err(_) => {
            return Err(ResponseHead { status: 400, www_authenticate: None });
        },
    };
    let creds = match basic_authentication(auth_header) {
        Ok(c) => c,
        Err(e) => {
            return Err(PublishError::from_credentials_error(e).error_response());
        },
    };
    Ok((body, creds))
}

/// The addresses of a row set that parse, in fetch order.
pub open spec fn resolved_views(rows: Seq<Seq<char>>) -> Seq<Seq<char>> {
    rows.filter(|e: Seq<char>| valid_email(e))
}

/// The addresses of a row set that are dropped from the population.
pub open spec fn skipped_views(rows: Seq<Seq<char>>) -> Seq<Seq<char>> {
    rows.filter(|e: Seq<char>| !valid_email(e))
}

/// The addresses of a resolved population.
pub open spec fn subscriber_views(subs: Seq<ConfirmedSubscriber>) -> Seq<Seq<char>> {
    subs.map_values(|c: ConfirmedSubscriber| c.email@)
}

/// The subjects recorded in a run of aggregator entries.
pub open spec fn subject_views(entries: Seq<FailureEntry>) -> Seq<Seq<char>> {
    entries.map_values(|f: FailureEntry| f.subject@)
}

/// What a resolution-time skip is recorded as.
pub open spec fn skip_reason() -> Seq<char> {
    "Skipping a confirmed subscriber: their stored contact details are invalid."@
}

proof fn lemma_resolved_push(rows: Seq<Seq<char>>, x: Seq<char>)
    ensures
        resolved_views(rows.push(x)) == if valid_email(x) {
            resolved_views(rows).push(x)
        } else {
            resolved_views(rows)
        },
        skipped_views(rows.push(x)) == if !valid_email(x) {
            skipped_views(rows).push(x)
        } else {
            skipped_views(rows)
        },
{
    reveal(Seq::filter);
    assert(rows.push(x).drop_last() =~= rows);
    assert(rows.push(x).last() == x);
}

/// Filters fetched subscriber rows down to the valid dispatch population, in
/// fetch order; every dropped row is recorded as a non-fatal skip with its
/// address as subject, and earlier aggregator entries are kept untouched.
pub fn get_confirmed_subscribers(rows: Vec<String>, aggregator: &mut ErrorAggregator) -> (r: Vec<
    ConfirmedSubscriber,
>)
    ensures
        subscriber_views(r@) == resolved_views(rows.deep_view()),
        forall|k: int| 0 <= k < r@.len() ==> (#[trigger] r@[k]).email.wf(),
        final(aggregator).entries().take(old(aggregator).entries().len() as int) == old(
            aggregator,
        ).entries(),
        subject_views(
            final(aggregator).entries().skip(old(aggregator).entries().len() as int),
        ) == skipped_views(rows.deep_view()),
        forall|k: int|
            old(aggregator).entries().len() <= k < final(aggregator).entries().len() ==> (
            #[trigger] final(aggregator).entries()[k]).reason@ == skip_reason(),
{
    let ghost orig = aggregator.entries();
    let mut out: Vec<ConfirmedSubscriber> = Vec::new();
    let mut i: usize = 0;
    while i < rows.len()
        invariant
            0 <= i <= rows@.len(),
            subscriber_views(out@) == resolved_views(rows.deep_view().take(i as int)),
            forall|k: int| 0 <= k < out@.len() ==> (#[trigger] out@[k]).email.wf(),
            orig.len() <= aggregator.entries().len(),
            aggregator.entries().take(orig.len() as int) == orig,
            subject_views(aggregator.entries().skip(orig.len() as int)) == skipped_views(
                rows.deep_view().take(i as int),
            ),
            forall|k: int|
                orig.len() <= k < aggregator.entries().len() ==> (#[trigger] aggregator.entries()[k]).reason@
                    == skip_reason(),
        decreases rows@.len() - i,
    {
        let ghost rv = rows.deep_view();
        proof {
            assert(rv.take(i + 1) =~= rv.take(i as int).push(rv[i as int]));
            lemma_resolved_push(rv.take(i as int), rv[i as int]);
            assert(rv[i as int] == rows@[i as int]@);
        }
        let row = rows[i].clone();
        match SubscriberEmail::parse(row) {
            Ok(email) => {
                let ghost prev = out@;
                out.push(ConfirmedSubscriber { email });
                proof {
                    assert(subscriber_views(out@) =~= subscriber_views(prev).push(
                        out@.last().email@,
                    ));
                }
            },
            Err(bad) => {
                let ghost prev = aggregator.entries();
                aggregator.record(
                    bad,
                    "Skipping a confirmed subscriber: their stored contact details are invalid.".to_owned(),
                );
                proof {
                    assert(aggregator.entries().take(orig.len() as int) =~= prev.take(
                        orig.len() as int,
                    ));
                    assert(aggregator.entries().skip(orig.len() as int) =~= prev.skip(
                        orig.len() as int,
                    ).push(aggregator.entries().last()));
                    assert(subject_views(aggregator.entries().skip(orig.len() as int)) =~=
                    subject_views(prev.skip(orig.len() as int)).push(
                        aggregator.entries().last().subject@,
                    ));
                }
            },
        }
        i = i + 1;
    }
    proof {
        assert(rows.deep_view().take(rows@.len() as int) =~= rows.deep_view());
    }
    out
}

/// The HTTP-facing outcome of a rejected publish attempt never tells an
/// unknown username from a wrong password: both verification causes decide
/// `Rejected`, and every authentication failure is answered 401 with the one
/// challenge named by [`www_authenticate_challenge`].
pub proof fn lemma_uniform_unauthorized(password: Seq<char>, id: u128, phc: Seq<char>)
    requires
        phc_valid(phc),
        !password_matches(password, phc),
    ensures
        auth_decision(password, Some((id, phc))) == auth_decision(
            password,
            None::<(u128, Seq<char>)>,
        ),
        auth_decision(password, None::<(u128, Seq<char>)>) == AuthOutcome::Rejected,
        forall|e: &PublishError| e is AuthError ==> publish_status(e) == 401,
{
}

} // verus!
