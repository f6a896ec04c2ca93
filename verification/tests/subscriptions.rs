use zero2prod::domain::{NewSubscriber, SubscriberEmail, SubscriberName};
use zero2prod::subscriptions::{
    compose_confirmation_email, confirmation_link, generate_subscription_token, FormData,
    SubscribeError, TOKEN_LEN,
};
use zero2prod::utils::ErrorChain;

fn form(name: &str, email: &str) -> FormData {
    FormData { name: name.to_string(), email: email.to_string() }
}

#[test]
fn valid_form_data_becomes_a_new_subscriber() {
    let s = NewSubscriber::try_from(form("le guin", "ursula_le_guin@gmail.com")).unwrap();
    assert_eq!(s.name.as_str(), "le guin");
    assert_eq!(s.email.as_str(), "ursula_le_guin@gmail.com");
}

#[test]
fn empty_name_is_rejected() {
    let r = NewSubscriber::try_from(form("", "ursula_le_guin@gmail.com"));
    assert_eq!(r.err().unwrap(), " is not a valid subscriber name.");
}

#[test]
fn whitespace_only_name_is_rejected() {
    assert!(NewSubscriber::try_from(form(" \t ", "ursula_le_guin@gmail.com")).is_err());
}

#[test]
fn empty_email_is_rejected() {
    let r = NewSubscriber::try_from(form("Ursula", ""));
    assert_eq!(r.err().unwrap(), " is not a valid subscriber email.");
}

#[test]
fn invalid_email_is_rejected() {
    let r = NewSubscriber::try_from(form("Ursula", "definitely-not-an-email"));
    assert_eq!(
        r.err().unwrap(),
        "definitely-not-an-email is not a valid subscriber email."
    );
}

#[test]
fn forbidden_name_characters_are_rejected() {
    for c in ['/', '(', ')', '"', '<', '>', '\\', '{', '}'] {
        let name = format!("Ursula{c}");
        assert!(SubscriberName::parse(name).is_err());
    }
}

#[test]
fn name_of_256_characters_is_accepted_and_longer_rejected() {
    assert!(SubscriberName::parse("a".repeat(256)).is_ok());
    assert!(SubscriberName::parse("a".repeat(257)).is_err());
}

#[test]
fn email_needs_exactly_one_at_sign_with_text_around_it() {
    assert!(SubscriberEmail::parse("ursula@domain.com".to_string()).is_ok());
    assert!(SubscriberEmail::parse("@domain.com".to_string()).is_err());
    assert!(SubscriberEmail::parse("ursula@".to_string()).is_err());
    assert!(SubscriberEmail::parse("ur@su@la.com".to_string()).is_err());
    assert!(SubscriberEmail::parse("ur sula@domain.com".to_string()).is_err());
}

#[test]
fn validation_errors_are_answered_400_and_the_rest_500() {
    let validation = SubscribeError::ValidationError("empty name".to_string());
    assert_eq!(validation.status_code(), 400);
    let unexpected =
        SubscribeError::UnexpectedError(ErrorChain::new("storage down".to_string()));
    assert_eq!(unexpected.status_code(), 500);
}

#[test]
fn subscription_tokens_are_25_alphanumeric_characters() {
    let token = generate_subscription_token();
    assert_eq!(token.len(), TOKEN_LEN);
    assert!(token.chars().all(|c| c.is_ascii_alphanumeric()));
}

#[test]
fn two_tokens_differ() {
    assert_ne!(generate_subscription_token(), generate_subscription_token());
}

#[test]
fn confirmation_link_is_built_from_base_url_and_token() {
    let link = confirmation_link("https://news.example.com", "tok123");
    assert_eq!(
        link,
        "https://news.example.com/subscriptions/confirm?subscription_token=tok123"
    );
}

#[test]
fn confirmation_email_wraps_the_link_in_both_bodies() {
    let message = compose_confirmation_email("https://news.example.com", "tok123");
    let link = "https://news.example.com/subscriptions/confirm?subscription_token=tok123";
    assert_eq!(message.subject, "Welcome!");
    assert_eq!(
        message.html_body,
        format!("Welcome to our newsletter!<br />Click <a href=\"{link}\">here</a> to confirm your subscription.")
    );
    assert_eq!(
        message.text_body,
        format!("Welcome to our newsletter!\nVisit {link} to confirm your subscription.")
    );
}
