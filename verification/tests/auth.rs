use zero2prod::auth::{
    basic_authentication, hash_password, validate_credentials, verify_password, AuthError,
    Credentials, CredentialsError, StoredUser,
};
use zero2prod::secret::SecretString;

fn basic_header(credentials: &str) -> Option<Vec<u8>> {
    let mut header = b"Basic ".to_vec();
    header.extend_from_slice(base64::encode(credentials).as_bytes());
    Some(header)
}

#[test]
fn missing_authorization_header_is_rejected() {
    let r = basic_authentication(None);
    assert_eq!(r.err().unwrap(), CredentialsError::MissingHeader);
}

#[test]
fn valid_basic_header_is_parsed() {
    let creds = basic_authentication(basic_header("ursula:guin4ever")).unwrap();
    assert_eq!(creds.username, "ursula");
    assert_eq!(creds.password.expose_secret(), "guin4ever");
}

#[test]
fn empty_password_is_parsed() {
    let creds = basic_authentication(basic_header("ursula:")).unwrap();
    assert_eq!(creds.username, "ursula");
    assert_eq!(creds.password.expose_secret(), "");
}

#[test]
fn password_keeps_later_colons() {
    let creds = basic_authentication(basic_header("ursula:pa:ss")).unwrap();
    assert_eq!(creds.username, "ursula");
    assert_eq!(creds.password.expose_secret(), "pa:ss");
}

#[test]
fn wrong_scheme_is_rejected() {
    let header = format!("Bearer {}", base64::encode("ursula:guin"));
    let r = basic_authentication(Some(header.into_bytes()));
    assert_eq!(r.err().unwrap(), CredentialsError::MalformedHeader);
}

#[test]
fn undecodable_segment_is_rejected() {
    let r = basic_authentication(Some(b"Basic !!!not-base64!!!".to_vec()));
    assert_eq!(r.err().unwrap(), CredentialsError::InvalidEncoding);
}

#[test]
fn missing_separator_is_rejected() {
    let r = basic_authentication(basic_header("no-colon-here"));
    assert_eq!(r.err().unwrap(), CredentialsError::MalformedHeader);
}

#[test]
fn non_utf8_header_is_rejected() {
    let mut header = b"Basic ".to_vec();
    header.push(0xff);
    let r = basic_authentication(Some(header));
    assert_eq!(r.err().unwrap(), CredentialsError::MalformedHeader);
}

#[test]
fn non_utf8_decoded_credentials_are_rejected() {
    let mut header = b"Basic ".to_vec();
    header.extend_from_slice(base64::encode([0xffu8, b':', b'x']).as_bytes());
    let r = basic_authentication(Some(header));
    assert_eq!(r.err().unwrap(), CredentialsError::MalformedHeader);
}

#[test]
fn hashed_password_verifies() {
    let phc = hash_password("guin4ever").unwrap();
    assert!(verify_password("guin4ever".to_string(), phc).is_ok());
}

#[test]
fn wrong_password_fails_verification() {
    let phc = hash_password("guin4ever").unwrap();
    let r = verify_password("leguin4ever".to_string(), phc);
    assert!(matches!(r, Err(AuthError::InvalidCredentials(_))));
}

#[test]
fn unparseable_stored_hash_is_unexpected() {
    let r = verify_password("guin4ever".to_string(), "not-a-phc-string".to_string());
    assert!(matches!(r, Err(AuthError::UnexpectedError(_))));
}

fn stored_user(id: u128, username: &str, password: &str) -> StoredUser {
    StoredUser {
        user_id: id,
        username: username.to_string(),
        password_hash: hash_password(password).unwrap(),
    }
}

fn credentials(username: &str, password: &str) -> Credentials {
    Credentials {
        username: username.to_string(),
        password: SecretString::new(password.to_string()),
    }
}

#[test]
fn correct_pair_returns_the_stored_user_id() {
    let user = stored_user(42, "ursula", "guin4ever");
    let r = validate_credentials(&credentials("ursula", "guin4ever"), Ok(Some(user)));
    assert_eq!(r.unwrap(), 42);
}

#[test]
fn unknown_username_is_invalid_credentials() {
    let r = validate_credentials(&credentials("nobody", "guin4ever"), Ok(None));
    assert!(matches!(r, Err(AuthError::InvalidCredentials(_))));
}

#[test]
fn wrong_password_is_invalid_credentials() {
    let user = stored_user(42, "ursula", "guin4ever");
    let r = validate_credentials(&credentials("ursula", "wrong"), Ok(Some(user)));
    assert!(matches!(r, Err(AuthError::InvalidCredentials(_))));
}

#[test]
fn storage_failure_is_unexpected() {
    let r = validate_credentials(
        &credentials("ursula", "guin4ever"),
        Err("connection refused".to_string()),
    );
    assert!(matches!(r, Err(AuthError::UnexpectedError(_))));
}

#[test]
fn every_short_password_hashes() {
    assert!(hash_password("").is_ok());
    assert!(hash_password("x").is_ok());
    assert!(hash_password(&"long ".repeat(200)).is_ok());
}

#[test]
fn rejection_errors_carry_only_the_fixed_message() {
    // wrong password: the payload is the fixed text, no causes — in
    // particular neither the stored hash nor the supplied password
    let phc = hash_password("guin4ever").unwrap();
    let user = StoredUser {
        user_id: 42,
        username: "ursula".to_string(),
        password_hash: phc.clone(),
    };
    let wrong = validate_credentials(&credentials("ursula", "wrong"), Ok(Some(user)))
        .err()
        .unwrap();
    let AuthError::InvalidCredentials(chain) = wrong else {
        panic!("expected InvalidCredentials");
    };
    assert_eq!(chain.message, "Invalid password");
    assert!(chain.causes.is_empty());
    assert!(!chain.message.contains(&phc));

    // unknown username: same shape
    let unknown = validate_credentials(&credentials("ghost", "guin4ever"), Ok(None))
        .err()
        .unwrap();
    let AuthError::InvalidCredentials(chain) = unknown else {
        panic!("expected InvalidCredentials");
    };
    assert_eq!(chain.message, "Unknown username");
    assert!(chain.causes.is_empty());
}

#[test]
fn storage_error_is_the_only_recorded_cause() {
    let failed = validate_credentials(
        &credentials("ursula", "guin4ever"),
        Err("connection refused".to_string()),
    )
    .err()
    .unwrap();
    let AuthError::UnexpectedError(chain) = failed else {
        panic!("expected UnexpectedError");
    };
    assert_eq!(chain.message, "Failed to perform a query to validate auth credentials.");
    assert_eq!(chain.causes, vec!["connection refused".to_string()]);
}

#[test]
fn unknown_user_and_wrong_password_answer_identically() {
    let unknown = validate_credentials(&credentials("ghost", "guin4ever"), Ok(None))
        .err()
        .unwrap();
    let user = stored_user(42, "ursula", "guin4ever");
    let wrong_password =
        validate_credentials(&credentials("ursula", "wrong"), Ok(Some(user))).err().unwrap();

    let first = zero2prod::newsletters::PublishError::from_auth_error(unknown).error_response();
    let second =
        zero2prod::newsletters::PublishError::from_auth_error(wrong_password).error_response();
    assert_eq!(first.status, 401);
    assert_eq!(second.status, 401);
    assert_eq!(first.www_authenticate, second.www_authenticate);
    assert_eq!(first.www_authenticate.unwrap(), r#"Basic realm="publish""#);
}

#[test]
fn corrupt_stored_hash_is_unexpected() {
    let user = StoredUser {
        user_id: 7,
        username: "ursula".to_string(),
        password_hash: "garbage".to_string(),
    };
    let r = validate_credentials(&credentials("ursula", "guin4ever"), Ok(Some(user)));
    assert!(matches!(r, Err(AuthError::UnexpectedError(_))));
}
