//! Application settings the service is configured with.
//!
//! Loading settings from files and environment variables is the shell's
//! business; this module holds the settings values themselves and the
//! parsing of the environment name.

use crate::domain::{is_valid_email, SubscriberEmail, ValidationError};
use vstd::prelude::*;

verus! {

/// Settings of the application: where it listens and under which base URL
/// confirmation links are built.
#[derive(Debug)]
pub struct AppSettings {
    pub port: u16,
    pub host: String,
    pub base_url: String,
}

/// Settings of the outbound email client.
///
/// The authorization token is held as a plain string here; wrapping it in
/// a secrecy type, like reading any of these values from files or the
/// environment, is the surrounding shell's business.
#[derive(Debug)]
pub struct EmailClientSettings {
    pub base_url: String,
    pub sender_email: String,
    pub authorization_token: String,
    pub timeout_milliseconds: u64,
}

impl EmailClientSettings {
    /// Validates the configured sender address.
    pub fn sender(&self) -> (r: Result<SubscriberEmail, ValidationError>)
        ensures
            r is Ok <==> is_valid_email(self.sender_email@),
            r matches Ok(e) ==> e@ == self.sender_email@,
    {
        SubscriberEmail::parse(self.sender_email.clone())
    }

    /// The configured client timeout, in milliseconds.
    pub fn timeout(&self) -> (r: u64)
        ensures
            r == self.timeout_milliseconds,
    {
        self.timeout_milliseconds
    }
}

/// `s` equals a keyword letter for letter, where each position may hold
/// either the lowercase or the uppercase form of the keyword's letter.
pub open spec fn ascii_ci_matches(s: Seq<char>, low: Seq<char>, up: Seq<char>) -> bool {
    s.len() == low.len() && forall|i: int|
        0 <= i < s.len() ==> (#[trigger] s[i]) == low[i] || s[i] == up[i]
}

fn matches_keyword(s: &str, low: &str, up: &str) -> (r: bool)
    requires
        low@.len() == up@.len(),
    ensures
        r == ascii_ci_matches(s@, low@, up@),
{
    let n = s.unicode_len();
    if n != low.unicode_len() {
        return false;
    }
    let mut i: usize = 0;
    while i < n
        invariant
            n == s@.len() == low@.len() == up@.len(),
            0 <= i <= n,
            forall|j: int| 0 <= j < i ==> (#[trigger] s@[j]) == low@[j] || s@[j] == up@[j],
        decreases n - i,
    {
        let c = s.get_char(i);
        if c != low.get_char(i) && c != up.get_char(i) {
            return false;
        }
        i += 1;
    }
    true
}

/// The runtime environment the service runs in.
#[derive(Clone, Copy, Debug, PartialEq, Eq, Structural)]
pub enum Environment {
    Local,
    Production,
}

impl Environment {
    /// The canonical name of the environment.
    pub fn as_str(&self) -> (r: &'static str)
        ensures
            self is Local ==> r@ == "local"@,
            self is Production ==> r@ == "production"@,
    {
        match self {
            Environment::Local => "local",
            Environment::Production => "production",
        }
    }

    /// The name of the settings file for this environment.
    pub fn config_file_name(&self) -> (r: String)
        ensures
            self is Local ==> r@ == "local.yaml"@,
            self is Production ==> r@ == "production.yaml"@,
    {
        proof {
            reveal_strlit("local");
            reveal_strlit("production");
            reveal_strlit(".yaml");
            reveal_strlit("local.yaml");
            reveal_strlit("production.yaml");
        }
        let mut name = self.as_str().to_owned();
        name.append(".yaml");
        proof {
            if self is Local {
                assert(name@ =~= "local.yaml"@);
            } else {
                assert(name@ =~= "production.yaml"@);
            }
        }
        name
    }

    /// Parses an environment name, ignoring ASCII case; anything that is
    /// neither `local` nor `production` is rejected with a message naming
    /// the offending value.
    pub fn try_from(value: String) -> (r: Result<Environment, String>)
        ensures
            ascii_ci_matches(value@, "local"@, "LOCAL"@) ==> r == Ok::<Environment, String>(
                Environment::Local,
            ),
            ascii_ci_matches(value@, "production"@, "PRODUCTION"@) ==> r == Ok::<
                Environment,
                String,
            >(Environment::Production),
            r is Ok <==> (ascii_ci_matches(value@, "local"@, "LOCAL"@) || ascii_ci_matches(
                value@,
                "production"@,
                "PRODUCTION"@,
            )),
            r matches Err(msg) ==> msg@ == value@ + " is not a supported environment"@,
    {
        proof {
            reveal_strlit("local");
            reveal_strlit("LOCAL");
            reveal_strlit("production");
            reveal_strlit("PRODUCTION");
        }
        if matches_keyword(value.as_str(), "local", "LOCAL") {
            Ok(Environment::Local)
        } else if matches_keyword(value.as_str(), "production", "PRODUCTION") {
            Ok(Environment::Production)
        } else {
            let msg = value.concat(" is not a supported environment");
            Err(msg)
        }
    }
}

} // verus!
