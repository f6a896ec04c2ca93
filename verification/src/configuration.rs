use crate::domain::{valid_email, SubscriberEmail};
use crate::secret::SecretString;
use vstd::prelude::*;

verus! {

/// The runtime environments the application distinguishes.
#[derive(Clone, Copy, PartialEq, Eq, Structural, Debug)]
pub enum Environment {
    Local,
    Production,
    Testing,
}

/// Two characters that differ at most in ASCII case.
pub open spec fn char_eq_ci(x: char, y: char) -> bool {
    ||| x == y
    ||| (65 <= x as u32 <= 90 && y as u32 == x as u32 + 32)
    ||| (65 <= y as u32 <= 90 && x as u32 == y as u32 + 32)
}

/// Two strings that are equal up to ASCII case.
pub open spec fn str_eq_ci(a: Seq<char>, b: Seq<char>) -> bool {
    a.len() == b.len() && forall|i: int| 0 <= i < a.len() ==> char_eq_ci(a[i], #[trigger] b[i])
}

fn char_ci_eq(x: char, y: char) -> (r: bool)
    ensures
        r == char_eq_ci(x, y),
{
    let xu = x as u32;
    let yu = y as u32;
    x == y || (65 <= xu && xu <= 90 && yu == xu + 32) || (65 <= yu && yu <= 90 && xu == yu + 32)
}

/// Compares two strings for equality up to ASCII case.
fn str_ci_eq(a: &str, b: &str) -> (r: bool)
    ensures
        r == str_eq_ci(a@, b@),
{
    let n = a.unicode_len();
    if n != b.unicode_len() {
        return false;
    }
    let mut i: usize = 0;
    while i < n
        invariant
            0 <= i <= n,
            n == a@.len() == b@.len(),
            forall|j: int| 0 <= j < i ==> char_eq_ci(a@[j], #[trigger] b@[j]),
        decreases n - i,
    {
        if !char_ci_eq(a.get_char(i), b.get_char(i)) {
            return false;
        }
        i = i + 1;
    }
    true
}

impl Environment {
    pub fn as_str(&self) -> (r: &'static str)
        ensures
            *self == Environment::Local ==> r@ == "local"@,
            *self == Environment::Production ==> r@ == "production"@,
            *self == Environment::Testing ==> r@ == "testing"@,
    {
        match self {
            Environment::Local => "local",
            Environment::Production => "production",
            Environment::Testing => "testing",
        }
    }

    /// Reads an environment name without regard to ASCII case, and reports an
    /// unsupported name back in the error.
    pub fn try_from(value: &str) -> (r: Result<Environment, String>)
        ensures
            str_eq_ci(value@, "local"@) ==> r == Ok::<Environment, String>(Environment::Local),
            str_eq_ci(value@, "production"@) ==> r == Ok::<Environment, String>(
                Environment::Production,
            ),
            str_eq_ci(value@, "testing"@) ==> r == Ok::<Environment, String>(Environment::Testing),
            !(str_eq_ci(value@, "local"@) || str_eq_ci(value@, "production"@) || str_eq_ci(
                value@,
                "testing"@,
            )) ==> r is Err && r->Err_0@ == value@
                + " is not a supported environment. Use either `local` or `production`."@,
    {
        proof {
            lemma_environment_names_differ(value@);
        }
        if str_ci_eq(value, "local") {
            Ok(Environment::Local)
        } else if str_ci_eq(value, "production") {
            Ok(Environment::Production)
        } else if str_ci_eq(value, "testing") {
            Ok(Environment::Testing)
        } else {
            Err(
                value.to_owned().concat(
                    " is not a supported environment. Use either `local` or `production`.",
                ),
            )
        }
    }
}

/// No string is two of the three environment names at once.
proof fn lemma_environment_names_differ(v: Seq<char>)
    ensures
        !(str_eq_ci(v, "local"@) && str_eq_ci(v, "production"@)),
        !(str_eq_ci(v, "local"@) && str_eq_ci(v, "testing"@)),
        !(str_eq_ci(v, "production"@) && str_eq_ci(v, "testing"@)),
{
    reveal_strlit("local");
    reveal_strlit("production");
    reveal_strlit("testing");
}

/// Where the HTTP server listens and the base URL it hands out in links.
pub struct ApplicationSettings {
    pub port: u16,
    pub host: String,
    pub base_url: String,
}

/// How to reach the relational store.
pub struct DatabaseSettings {
    pub username: String,
    pub password: String,
    pub port: u16,
    pub host: String,
    pub database_name: String,
    /// Whether the connection must be encrypted.
    pub require_ssl: bool,
}

/// How to reach the outbound email delivery provider.
pub struct EmailClientSettings {
    pub base_url: String,
    pub sender_email: String,
    pub auth_token: SecretString,
    pub timeout_milliseconds: u64,
}

impl EmailClientSettings {
    /// The validated sender address, or the configured value back when it is
    /// not a syntactically acceptable address.
    pub fn sender(&self) -> (r: Result<SubscriberEmail, String>)
        ensures
            valid_email(self.sender_email@) <==> r is Ok,
            r is Ok ==> r->Ok_0@ == self.sender_email@,
            r is Err ==> r->Err_0@ == self.sender_email@,
    {
        SubscriberEmail::parse(self.sender_email.clone())
    }

    /// The send timeout, in milliseconds.
    pub fn timeout(&self) -> (r: u64)
        ensures
            r == self.timeout_milliseconds,
    {
        self.timeout_milliseconds
    }
}

/// Everything the application is configured with.
pub struct Settings {
    pub env: Environment,
    pub database: DatabaseSettings,
    pub application: ApplicationSettings,
    pub email_client: EmailClientSettings,
}

} // verus!
