use crate::secret::SecretString;
use crate::utils::ErrorChain;
use vstd::prelude::*;
use vstd::string::StringSliceAdditionalSpecFns;
use vstd::utf8::{decode_utf8, valid_utf8};

verus! {

/// What `base64::decode` returns for a given input: `None` stands for a
/// rejected encoding. The result is a function of the characters alone.
pub uninterp spec fn base64_decoding(s: Seq<char>) -> Option<Seq<u8>>;

/// Whether a string parses as a PHC-format password hash.
pub uninterp spec fn phc_valid(s: Seq<char>) -> bool;

/// Whether a password agrees with a stored PHC-format hash under the
/// memory-hard verification scheme. A function of the two strings alone.
pub uninterp spec fn password_matches(password: Seq<char>, phc: Seq<char>) -> bool;

/// Relies on `String::from_utf8`: it accepts exactly the byte sequences that
/// are valid UTF-8 and decodes them, stated with vstd's UTF-8 model.
#[verifier::external_body]
fn utf8_to_string(bytes: Vec<u8>) -> (r: Option<String>)
    ensures
        r is Some <==> valid_utf8(bytes@),
        r is Some ==> r->0@ == decode_utf8(bytes@),
{
    match String::from_utf8(bytes) {
        Ok(s) => Some(s),
        Err(_) => None,
    }
}

/// Relies on `base64::decode` (standard alphabet): the result depends on the
/// input characters alone; its acceptance rules are absorbed by the name.
#[verifier::external_body]
fn base64_decode(s: &str) -> (r: Option<Vec<u8>>)
    ensures
        match r {
            Some(v) => base64_decoding(s@) == Some(v@),
            None => base64_decoding(s@) is None,
        },
{
    match base64::decode(s) {
        Ok(v) => Some(v),
        Err(_) => None,
    }
}

/// Outcome of checking a password against a stored PHC-format hash.
#[derive(PartialEq, Eq, Structural)]
enum PasswordCheck {
    Match,
    Mismatch,
    HashUnparseable,
}

/// Relies on argon2's `PasswordHash::new` (PHC-string parsing) and on
/// `Argon2::default().verify_password`, which recomputes the hash with the
/// algorithm, parameters and salt carried in the PHC string and compares:
/// with a default (keyless) verifier both results depend only on the password
/// and the PHC string.
#[verifier::external_body]
fn check_password_hash(password: &str, phc: &str) -> (r: PasswordCheck)
    ensures
        r is HashUnparseable <==> !phc_valid(phc@),
        phc_valid(phc@) ==> ((r is Match) <==> password_matches(password@, phc@)),
{
    match argon2::PasswordHash::new(phc) {
        Err(_) => PasswordCheck::HashUnparseable,
        Ok(parsed) => {
            let outcome = argon2::PasswordVerifier::verify_password(
                &argon2::Argon2::default(),
                password.as_bytes(),
                &parsed,
            );
            match outcome {
                Ok(()) => PasswordCheck::Match,
                Err(_) => PasswordCheck::Mismatch,
            }
        },
    }
}

/// Relies on argon2's `Argon2::default().hash_password` with a fresh salt
/// from `SaltString::generate`: whatever salt is drawn, a returned PHC string
/// parses back and verifies against the hashed password, because
/// verification recomputes the hash with the parameters and salt embedded in
/// the string. With a generated salt and default parameters the only failure
/// is a password over `u32::MAX` bytes, so shorter passwords always hash.
#[verifier::external_body]
fn argon2_hash(password: &str) -> (r: Option<String>)
    ensures
        r is Some ==> phc_valid(r->0@) && password_matches(password@, r->0@),
        password.spec_bytes().len() <= 0xffff_ffff ==> r is Some,
{
    let salt = argon2::password_hash::SaltString::generate(&mut rand::thread_rng());
    let hashed = argon2::PasswordHasher::hash_password(
        &argon2::Argon2::default(),
        password.as_bytes(),
        &salt,
    );
    match hashed {
        Ok(h) => Some(h.to_string()),
        Err(_) => None,
    }
}

/// Credentials taken from one request's `Authorization` header; discarded
/// after verification and never logged.
pub struct Credentials {
    pub username: String,
    pub password: SecretString,
}

/// A user record read from storage; the hash never leaves verification.
pub struct StoredUser {
    pub user_id: u128,
    pub username: String,
    pub password_hash: String,
}

/// Why a `Basic` authorization header yielded no credentials.
#[derive(Clone, Copy, PartialEq, Eq, Structural, Debug)]
pub enum CredentialsError {
    /// No `Authorization` header was sent.
    MissingHeader,
    /// The header is not UTF-8, not the `Basic` scheme, or the decoded
    /// credential string is not UTF-8 or has no `:` separator.
    MalformedHeader,
    /// The credential segment is not decodable transport encoding.
    InvalidEncoding,
}

/// The diagnostic text of each header-parsing failure.
pub open spec fn credentials_error_message(e: CredentialsError) -> Seq<char> {
    match e {
        CredentialsError::MissingHeader => "The 'Authorization' header was missing"@,
        CredentialsError::MalformedHeader => "The 'Authorization' header was malformed"@,
        CredentialsError::InvalidEncoding => "Failed to base64-decode 'Basic' credentials."@,
    }
}

impl CredentialsError {
    pub fn message(&self) -> (r: &'static str)
        ensures
            r@ == credentials_error_message(*self),
    {
        match self {
            CredentialsError::MissingHeader => "The 'Authorization' header was missing",
            CredentialsError::MalformedHeader => "The 'Authorization' header was malformed",
            CredentialsError::InvalidEncoding => "Failed to base64-decode 'Basic' credentials.",
        }
    }
}

/// Why credential verification rejected a request.
#[derive(Debug)]
pub enum AuthError {
    /// Unknown username or wrong password; the response never tells which.
    InvalidCredentials(ErrorChain),
    /// A failure unrelated to the credentials themselves.
    UnexpectedError(ErrorChain),
}

/// The header starts with the `Basic ` scheme marker.
pub open spec fn has_basic_prefix(s: Seq<char>) -> bool {
    &&& s.len() >= 6
    &&& s[0] == 'B'
    &&& s[1] == 'a'
    &&& s[2] == 's'
    &&& s[3] == 'i'
    &&& s[4] == 'c'
    &&& s[5] == ' '
}

/// Position of the first `:`, the separator between username and password.
pub open spec fn first_colon(s: Seq<char>) -> Option<int>
    decreases s.len(),
{
    if s.len() == 0 {
        None
    } else if s[0] == ':' {
        Some(0int)
    } else {
        match first_colon(s.drop_first()) {
            None => None,
            Some(i) => Some(i + 1),
        }
    }
}

proof fn lemma_first_colon_at(s: Seq<char>, i: int)
    requires
        0 <= i < s.len(),
        s[i] == ':',
        forall|j: int| 0 <= j < i ==> s[j] != ':',
    ensures
        first_colon(s) == Some(i),
    decreases i,
{
    if i > 0 {
        assert forall|j: int| 0 <= j < i - 1 implies s.drop_first()[j] != ':' by {
            assert(s.drop_first()[j] == s[j + 1]);
        }
        lemma_first_colon_at(s.drop_first(), i - 1);
    }
}

proof fn lemma_first_colon_none(s: Seq<char>)
    requires
        forall|j: int| 0 <= j < s.len() ==> s[j] != ':',
    ensures
        first_colon(s) is None,
    decreases s.len(),
{
    if s.len() > 0 {
        assert forall|j: int| 0 <= j < s.len() - 1 implies s.drop_first()[j] != ':' by {
            assert(s.drop_first()[j] == s[j + 1]);
        }
        lemma_first_colon_none(s.drop_first());
    }
}

/// What parsing a `Basic` authorization header yields: the username and
/// password around the first `:` of the base64-decoded segment, or the exact
/// error class. This is the specification `basic_authentication` meets.
pub open spec fn basic_credentials_of(header: Option<Seq<u8>>) -> Result<
    (Seq<char>, Seq<char>),
    CredentialsError,
> {
    match header {
        None => Err(CredentialsError::MissingHeader),
        Some(h) => {
            if !valid_utf8(h) {
                Err(CredentialsError::MalformedHeader)
            } else {
                let hs = decode_utf8(h);
                if !has_basic_prefix(hs) {
                    Err(CredentialsError::MalformedHeader)
                } else {
                    match base64_decoding(hs.skip(6)) {
                        None => Err(CredentialsError::InvalidEncoding),
                        Some(d) => {
                            if !valid_utf8(d) {
                                Err(CredentialsError::MalformedHeader)
                            } else {
                                let cs = decode_utf8(d);
                                match first_colon(cs) {
                                    None => Err(CredentialsError::MalformedHeader),
                                    Some(i) => Ok((cs.take(i), cs.skip(i + 1))),
                                }
                            }
                        },
                    }
                }
            }
        },
    }
}

/// Parses an HTTP `Basic` authorization header into credentials: checks the
/// scheme, base64-decodes the segment after it, and splits the decoded string
/// at its first `:`.
pub fn basic_authentication(header: Option<Vec<u8>>) -> (r: Result<Credentials, CredentialsError>)
    ensures
        ({
            let hv = match header {
                Some(h) => Some(h@),
                None => None,
            };
            match basic_credentials_of(hv) {
                Ok(up) => r is Ok && r->Ok_0.username@ == up.0 && r->Ok_0.password@ == up.1,
                Err(e) => r == Err::<Credentials, CredentialsError>(e),
            }
        }),
{
    let h = match header {
        Some(h) => h,
        None => {
            return Err(CredentialsError::MissingHeader);
        },
    };
    let hs = match utf8_to_string(h) {
        Some(s) => s,
        None => {
            return Err(CredentialsError::MalformedHeader);
        },
    };
    let n = hs.as_str().unicode_len();
    if n < 6 {
        return Err(CredentialsError::MalformedHeader);
    }
    let scheme_ok = hs.as_str().get_char(0) == 'B' && hs.as_str().get_char(1) == 'a'
        && hs.as_str().get_char(2) == 's' && hs.as_str().get_char(3) == 'i' && hs.as_str().get_char(
        4,
    ) == 'c' && hs.as_str().get_char(5) == ' ';
    if !scheme_ok {
        return Err(CredentialsError::MalformedHeader);
    }
    let segment = hs.as_str().substring_char(6, n);
    proof {
        assert(segment@ =~= hs@.skip(6));
    }
    let decoded = match base64_decode(segment) {
        Some(v) => v,
        None => {
            return Err(CredentialsError::InvalidEncoding);
        },
    };
    let cs = match utf8_to_string(decoded) {
        Some(s) => s,
        None => {
            return Err(CredentialsError::MalformedHeader);
        },
    };
    let m = cs.as_str().unicode_len();
    match find_first_colon(cs.as_str()) {
        Some(i) => {
            let username = cs.as_str().substring_char(0, i).to_owned();
            let password = cs.as_str().substring_char(i + 1, m).to_owned();
            proof {
                assert(cs@.subrange(0, i as int) =~= cs@.take(i as int));
                assert(cs@.subrange(i + 1, m as int) =~= cs@.skip(i + 1));
            }
            Ok(Credentials { username, password: SecretString::new(password) })
        },
        None => Err(CredentialsError::MalformedHeader),
    }
}

/// Index of the first `:` in the string, if any.
fn find_first_colon(s: &str) -> (r: Option<usize>)
    ensures
        match r {
            Some(i) => first_colon(s@) == Some(i as int) && i < s@.len(),
            None => first_colon(s@) is None,
        },
{
    let n = s.unicode_len();
    let mut i: usize = 0;
    while i < n
        invariant
            0 <= i <= n == s@.len(),
            forall|j: int| 0 <= j < i ==> s@[j] != ':',
        decreases n - i,
    {
        if s.get_char(i) == ':' {
            proof {
                lemma_first_colon_at(s@, i as int);
            }
            return Some(i);
        }
        i = i + 1;
    }
    proof {
        lemma_first_colon_none(s@);
    }
    None
}

/// The possible decisions of credential verification, over the mathematical
/// model of the stored user.
pub enum AuthOutcome {
    /// The request acts as this user.
    Accepted(u128),
    /// Unknown username or wrong password, answered uniformly.
    Rejected,
    /// The stored hash is unusable; no statement about the password.
    Unexpected,
}

/// The stored user as the verification logic sees it: identifier and hash.
pub open spec fn stored_view(u: Option<StoredUser>) -> Option<(u128, Seq<char>)> {
    match u {
        Some(s) => Some((s.user_id, s.password_hash@)),
        None => None,
    }
}

/// The decision verification owes for a password against a lookup result:
/// accept exactly a matching password of a known user, reject unknown users
/// and wrong passwords alike.
pub open spec fn auth_decision(password: Seq<char>, user: Option<(u128, Seq<char>)>) -> AuthOutcome {
    match user {
        None => AuthOutcome::Rejected,
        Some((id, phc)) => {
            if !phc_valid(phc) {
                AuthOutcome::Unexpected
            } else if password_matches(password, phc) {
                AuthOutcome::Accepted(id)
            } else {
                AuthOutcome::Rejected
            }
        },
    }
}

/// Every correct (username, password) pair of a stored user is accepted with
/// that user's identifier, and an unknown username and a wrong password
/// decide the very same `Rejected` outcome, so the two causes cannot be told
/// apart from the decision.
pub proof fn lemma_auth_uniform_rejection(password: Seq<char>, id: u128, phc: Seq<char>)
    requires
        phc_valid(phc),
    ensures
        password_matches(password, phc) ==> auth_decision(password, Some((id, phc)))
            == AuthOutcome::Accepted(id),
        !password_matches(password, phc) ==> auth_decision(password, Some((id, phc)))
            == auth_decision(password, None::<(u128, Seq<char>)>),
        auth_decision(password, None::<(u128, Seq<char>)>) == AuthOutcome::Rejected,
{
}

/// Checks a password against a stored PHC-format hash. The hash itself never
/// leaves this routine; only the decision does.
pub fn verify_password(received: String, expected_hash: String) -> (r: Result<(), AuthError>)
    ensures
        !phc_valid(expected_hash@) ==> r is Err && r->Err_0 is UnexpectedError
            && r->Err_0->UnexpectedError_0.message@ == "Failed to parse hash in PHC string format"@
            && r->Err_0->UnexpectedError_0.causes@.len() == 0,
        phc_valid(expected_hash@) && password_matches(received@, expected_hash@) ==> r is Ok,
        phc_valid(expected_hash@) && !password_matches(received@, expected_hash@) ==> r is Err
            && r->Err_0 is InvalidCredentials && r->Err_0->InvalidCredentials_0.message@
            == "Invalid password"@ && r->Err_0->InvalidCredentials_0.causes@.len() == 0,
{
    match check_password_hash(received.as_str(), expected_hash.as_str()) {
        PasswordCheck::HashUnparseable => Err(
            AuthError::UnexpectedError(
                ErrorChain::new("Failed to parse hash in PHC string format".to_owned()),
            ),
        ),
        PasswordCheck::Mismatch => Err(
            AuthError::InvalidCredentials(ErrorChain::new("Invalid password".to_owned())),
        ),
        PasswordCheck::Match => Ok(()),
    }
}

/// Verifies parsed credentials against the result of the stored-user lookup
/// and returns the user's identifier exactly on a correct pair. A storage
/// error is unexpected; an unknown username and a wrong password are rejected
/// through the same variant.
pub fn validate_credentials(creds: &Credentials, lookup: Result<Option<StoredUser>, String>) -> (r:
    Result<u128, AuthError>)
    ensures
        lookup matches Err(e) ==> r is Err && r->Err_0 is UnexpectedError
            && r->Err_0->UnexpectedError_0.message@
            == "Failed to perform a query to validate auth credentials."@
            && r->Err_0->UnexpectedError_0.causes@.len() == 1
            && r->Err_0->UnexpectedError_0.causes@[0]@ == e@,
        lookup == Ok::<Option<StoredUser>, String>(None::<StoredUser>) ==> r is Err
            && r->Err_0 is InvalidCredentials && r->Err_0->InvalidCredentials_0.message@
            == "Unknown username"@ && r->Err_0->InvalidCredentials_0.causes@.len() == 0,
        lookup matches Ok(row) ==> match auth_decision(creds.password@, stored_view(row)) {
            AuthOutcome::Accepted(id) => r == Ok::<u128, AuthError>(id),
            AuthOutcome::Rejected => r is Err && r->Err_0 is InvalidCredentials,
            AuthOutcome::Unexpected => r is Err && r->Err_0 is UnexpectedError,
        },
        lookup matches Ok(Some(u)) ==> {
            &&& !phc_valid(u.password_hash@) ==> r is Err && r->Err_0 is UnexpectedError
                && r->Err_0->UnexpectedError_0.message@
                == "Failed to parse hash in PHC string format"@
                && r->Err_0->UnexpectedError_0.causes@.len() == 0
            &&& phc_valid(u.password_hash@) && !password_matches(
                creds.password@,
                u.password_hash@,
            ) ==> r is Err && r->Err_0 is InvalidCredentials
                && r->Err_0->InvalidCredentials_0.message@ == "Invalid password"@
                && r->Err_0->InvalidCredentials_0.causes@.len() == 0
        },
{
    let row = match lookup {
        Ok(row) => row,
        Err(e) => {
            return Err(
                AuthError::UnexpectedError(
                    ErrorChain::with_cause(
                        "Failed to perform a query to validate auth credentials.".to_owned(),
                        e,
                    ),
                ),
            );
        },
    };
    let user = match row {
        Some(user) => user,
        None => {
            return Err(
                AuthError::InvalidCredentials(ErrorChain::new("Unknown username".to_owned())),
            );
        },
    };
    let user_id = user.user_id;
    match verify_password(creds.password.expose_secret().clone(), user.password_hash) {
        Ok(()) => Ok(user_id),
        Err(e) => Err(e),
    }
}

/// Hashes a password for provisioning a user; not on the request path. Every
/// password that fits the hash function's input bound is hashed, and a
/// returned PHC string verifies against exactly the hashed password.
pub fn hash_password(password: &str) -> (r: Result<String, AuthError>)
    ensures
        password.spec_bytes().len() <= 0xffff_ffff ==> r is Ok,
        r is Ok ==> phc_valid(r->Ok_0@) && password_matches(password@, r->Ok_0@),
        r is Err ==> r->Err_0 is UnexpectedError,
{
    match argon2_hash(password) {
        Some(h) => Ok(h),
        None => Err(
            AuthError::UnexpectedError(ErrorChain::new("Failed to hash the password".to_owned())),
        ),
    }
}

} // verus!
