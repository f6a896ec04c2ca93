use zero2prod::auth::AuthError;
use zero2prod::dispatch::{DispatchCoordinator, ErrorAggregator};
use zero2prod::newsletters::{
    get_confirmed_subscribers, parse_body, publish_completion, publish_request, BodyError,
    PublishError,
};
use zero2prod::utils::ErrorChain;

fn valid_auth_header() -> Option<Vec<u8>> {
    let mut header = b"Basic ".to_vec();
    header.extend_from_slice(base64::encode("ursula:guin4ever").as_bytes());
    Some(header)
}

fn some(s: &str) -> Option<String> {
    Some(s.to_string())
}

#[test]
fn newsletters_returns_400_for_invalid_data() {
    // missing title
    let r = publish_request(
        None,
        some("<p>Newsletter body as HTML</p>"),
        some("Newsletter body as plain text"),
        valid_auth_header(),
    );
    assert_eq!(r.err().unwrap().status, 400);

    // missing content
    let r = publish_request(some("Newsletter!"), None, None, valid_auth_header());
    assert_eq!(r.err().unwrap().status, 400);
}

#[test]
fn incomplete_body_is_rejected_whatever_the_credentials() {
    for header in [None, Some(b"nonsense".to_vec()), valid_auth_header()] {
        let r = publish_request(
            None,
            some("<p>html</p>"),
            some("text"),
            header,
        );
        let response = r.err().unwrap();
        assert_eq!(response.status, 400);
        assert!(response.www_authenticate.is_none());
    }
}

#[test]
fn requests_missing_authorization_are_rejected() {
    let r = publish_request(
        some("Newsletter title"),
        some("<p>Newsletter body as HTML</p>"),
        some("Newsletter body as plain text"),
        None,
    );
    let response = r.err().unwrap();
    assert_eq!(response.status, 401);
    assert_eq!(response.www_authenticate.unwrap(), r#"Basic realm="publish""#);
}

#[test]
fn malformed_authorization_gets_the_same_challenge() {
    let r = publish_request(
        some("Newsletter title"),
        some("<p>html</p>"),
        some("text"),
        Some(b"Bearer whatever".to_vec()),
    );
    let response = r.err().unwrap();
    assert_eq!(response.status, 401);
    assert_eq!(response.www_authenticate.unwrap(), r#"Basic realm="publish""#);
}

#[test]
fn complete_body_and_header_are_accepted() {
    let r = publish_request(
        some("Newsletter title"),
        some("<p>Newsletter body as HTML</p>"),
        some("Newsletter body as plain text"),
        valid_auth_header(),
    );
    let (body, credentials) = r.ok().unwrap();
    assert_eq!(body.title, "Newsletter title");
    assert_eq!(body.content.html, "<p>Newsletter body as HTML</p>");
    assert_eq!(body.content.text, "Newsletter body as plain text");
    assert_eq!(credentials.username, "ursula");
    assert_eq!(credentials.password.expose_secret(), "guin4ever");
}

#[test]
fn parse_body_names_the_missing_field() {
    assert_eq!(
        parse_body(None, some("h"), some("t")).err().unwrap(),
        BodyError::MissingTitle
    );
    assert_eq!(
        parse_body(some("title"), None, some("t")).err().unwrap(),
        BodyError::MissingContent
    );
    assert_eq!(
        parse_body(some("title"), some("h"), None).err().unwrap(),
        BodyError::MissingContent
    );
}

#[test]
fn auth_failure_response_carries_the_challenge() {
    let e = PublishError::AuthError(ErrorChain::new("Invalid password".to_string()));
    let response = e.error_response();
    assert_eq!(response.status, 401);
    assert_eq!(response.www_authenticate.unwrap(), r#"Basic realm="publish""#);
}

#[test]
fn unexpected_failure_response_is_500_without_challenge() {
    let e = PublishError::UnexpectedError(ErrorChain::new("storage down".to_string()));
    let response = e.error_response();
    assert_eq!(response.status, 500);
    assert!(response.www_authenticate.is_none());
}

#[test]
fn invalid_credentials_stay_an_auth_error() {
    let e = PublishError::from_auth_error(AuthError::InvalidCredentials(ErrorChain::new(
        "Unknown username".to_string(),
    )));
    assert_eq!(e.error_response().status, 401);
    let e = PublishError::from_auth_error(AuthError::UnexpectedError(ErrorChain::new(
        "storage down".to_string(),
    )));
    assert_eq!(e.error_response().status, 500);
}

#[test]
fn invalid_stored_email_is_skipped_and_the_rest_are_sent() {
    let mut rows: Vec<String> = (0..10).map(|i| format!("s{i}@example.com")).collect();
    rows.insert(4, "definitely-not-an-email".to_string());
    assert_eq!(rows.len(), 11);

    let mut aggregator = ErrorAggregator::new();
    let population = get_confirmed_subscribers(rows, &mut aggregator);
    assert_eq!(population.len(), 10);
    assert_eq!(aggregator.count(), 1);
    assert_eq!(aggregator.entries_vec()[0].subject, "definitely-not-an-email");

    let mut coordinator = DispatchCoordinator::new(population);
    let mut sends = 0;
    while let Some(batch) = coordinator.next_batch() {
        sends += batch.len();
    }
    assert_eq!(sends, 10);
    assert_eq!(publish_completion(&aggregator).status, 200);
}

#[test]
fn resolver_keeps_fetch_order() {
    let rows: Vec<String> = vec![
        "a@example.com".to_string(),
        "broken".to_string(),
        "b@example.com".to_string(),
        "c@example.com".to_string(),
    ];
    let mut aggregator = ErrorAggregator::new();
    let population = get_confirmed_subscribers(rows, &mut aggregator);
    let emails: Vec<&str> = population.iter().map(|s| s.email.as_str()).collect();
    assert_eq!(emails, vec!["a@example.com", "b@example.com", "c@example.com"]);
}

#[test]
fn empty_subscriber_set_issues_zero_sends_and_succeeds() {
    let mut aggregator = ErrorAggregator::new();
    let population = get_confirmed_subscribers(Vec::new(), &mut aggregator);
    assert!(population.is_empty());
    let mut coordinator = DispatchCoordinator::new(population);
    assert!(coordinator.next_batch().is_none());
    assert_eq!(coordinator.dispatched_count(), 0);
    assert_eq!(publish_completion(&aggregator).status, 200);
}
