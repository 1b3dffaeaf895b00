//! Validated domain values for registration input.
//!
//! `SubscriberEmail` and `SubscriberName` can only be constructed through
//! their validating `parse` functions, so every in-process instance is
//! syntactically valid.

use vstd::prelude::*;

verus! {

/// Why a raw registration input was rejected.
#[derive(Clone, Copy, Debug, PartialEq, Eq, Structural)]
pub enum ValidationError {
    /// The form had no `name` field.
    MissingName,
    /// The form had no `email` field.
    MissingEmail,
    /// The name is empty, whitespace-only, too long, or holds a forbidden
    /// character.
    InvalidName,
    /// The email fails the syntactic email check.
    InvalidEmail,
}

/// What `validator::validate_email` accepts: a syntactically valid email
/// address per the HTML5 email check. The predicate depends on the
/// characters of the input alone.
pub uninterp spec fn is_valid_email(s: Seq<char>) -> bool;

/// Relies on `validator::validate_email`: the result is a function of the
/// characters alone, and the check rejects the empty string, a string
/// without `'@'`, a string beginning with `'@'` (its local part would be
/// empty or hold a second `'@'`, neither of which its local-part pattern
/// admits), and a string ending with `'@'` (its domain part would be
/// empty, which neither the domain pattern nor the IP-literal or IDNA
/// fallbacks accept).
#[verifier::external_body]
fn validate_email_str(s: &str) -> (r: bool)
    ensures
        r == is_valid_email(s@),
        s@.len() == 0 ==> !r,
        (forall|i: int| 0 <= i < s@.len() ==> s@[i] != '@') ==> !r,
        s@.len() > 0 && s@[0] == '@' ==> !r,
        s@.len() > 0 && s@[s@.len() - 1] == '@' ==> !r,
{
    validator::validate_email(s)
}

/// A syntactically valid email address.
///
/// The only way to obtain one is [`SubscriberEmail::parse`], so holding a
/// value of this type guarantees [`is_valid_email`] of its characters.
#[derive(Debug)]
pub struct SubscriberEmail(String);

impl View for SubscriberEmail {
    type V = Seq<char>;

    closed spec fn view(&self) -> Seq<char> {
        self.0@
    }
}

impl SubscriberEmail {
    /// Every constructed value satisfies the email check.
    pub open spec fn is_valid(&self) -> bool {
        is_valid_email(self@)
    }

    /// Validates `s` and wraps it; rejects everything the email check
    /// rejects, among which the empty string, a string without `'@'`, a
    /// string with an empty local part, and a string with an empty domain.
    pub fn parse(s: String) -> (r: Result<SubscriberEmail, ValidationError>)
        ensures
            r is Ok <==> is_valid_email(s@),
            r matches Ok(e) ==> e@ == s@ && e.is_valid(),
            r matches Err(e) ==> e == ValidationError::InvalidEmail,
            s@.len() == 0 ==> r is Err,
            (forall|i: int| 0 <= i < s@.len() ==> s@[i] != '@') ==> r is Err,
            s@.len() > 0 && s@[0] == '@' ==> r is Err,
            s@.len() > 0 && s@[s@.len() - 1] == '@' ==> r is Err,
    {
        if validate_email_str(s.as_str()) {
            Ok(SubscriberEmail(s))
        } else {
            Err(ValidationError::InvalidEmail)
        }
    }

    /// The underlying string, for persistence and display.
    pub fn as_ref(&self) -> (r: &str)
        ensures
            r@ == self@,
    {
        self.0.as_str()
    }
}

impl Clone for SubscriberEmail {
    fn clone(&self) -> (r: Self)
        ensures
            r == *self,
    {
        SubscriberEmail(self.0.clone())
    }
}

/// Whitespace for the purpose of the name check (ASCII whitespace).
pub open spec fn is_whitespace_char(c: char) -> bool {
    c == ' ' || c == '\t' || c == '\n' || c == '\r'
}

/// Characters a display name may not hold.
pub open spec fn is_forbidden_name_char(c: char) -> bool {
    c == '/' || c == '(' || c == ')' || c == '"' || c == '<' || c == '>' || c == '\\' || c == '{'
        || c == '}'
}

/// Control characters (C0 controls and delete) are rejected in names.
pub open spec fn is_control_char(c: char) -> bool {
    (c as u32) < 32 || (c as u32) == 127
}

/// An acceptable display name: at most 256 characters, at least one
/// non-whitespace character (so neither empty nor whitespace-only), and no
/// forbidden or control character.
pub open spec fn is_valid_name(s: Seq<char>) -> bool {
    &&& s.len() <= 256
    &&& exists|i: int| 0 <= i < s.len() && !is_whitespace_char(s[i])
    &&& forall|i: int|
        0 <= i < s.len() ==> !is_forbidden_name_char(s[i]) && !is_control_char(s[i])
}

/// Law: an empty or whitespace-only name is never a valid display name.
pub proof fn empty_or_whitespace_name_is_invalid(s: Seq<char>)
    requires
        s.len() == 0 || forall|i: int| 0 <= i < s.len() ==> is_whitespace_char(s[i]),
    ensures
        !is_valid_name(s),
{
}

/// An acceptable human display name.
///
/// The only way to obtain one is [`SubscriberName::parse`], so holding a
/// value of this type guarantees [`is_valid_name`] of its characters.
#[derive(Debug)]
pub struct SubscriberName(String);

impl View for SubscriberName {
    type V = Seq<char>;

    closed spec fn view(&self) -> Seq<char> {
        self.0@
    }
}

impl SubscriberName {
    /// Every constructed value satisfies the name check.
    pub open spec fn is_valid(&self) -> bool {
        is_valid_name(self@)
    }

    /// Validates `s` and wraps it; rejects empty or whitespace-only input,
    /// input longer than 256 characters, and input holding a forbidden or
    /// control character. Length is counted in characters, not in grapheme
    /// clusters.
    pub fn parse(s: String) -> (r: Result<SubscriberName, ValidationError>)
        ensures
            r is Ok <==> is_valid_name(s@),
            r matches Ok(n) ==> n@ == s@ && n.is_valid(),
            r matches Err(e) ==> e == ValidationError::InvalidName,
    {
        let len = s.as_str().unicode_len();
        if len > 256 {
            return Err(ValidationError::InvalidName);
        }
        let mut has_non_whitespace = false;
        let mut i: usize = 0;
        while i < len
            invariant
                len == s@.len() <= 256,
                0 <= i <= len,
                has_non_whitespace <==> exists|j: int|
                    0 <= j < i && !is_whitespace_char(s@[j]),
                forall|j: int|
                    0 <= j < i ==> !is_forbidden_name_char(s@[j]) && !is_control_char(s@[j]),
            decreases len - i,
        {
            let c = s.as_str().get_char(i);
            if c == '/' || c == '(' || c == ')' || c == '"' || c == '<' || c == '>' || c == '\\'
                || c == '{' || c == '}' {
                return Err(ValidationError::InvalidName);
            }
            if (c as u32) < 32 || (c as u32) == 127 {
                return Err(ValidationError::InvalidName);
            }
            if !(c == ' ' || c == '\t' || c == '\n' || c == '\r') {
                has_non_whitespace = true;
            }
            i += 1;
        }
        if !has_non_whitespace {
            return Err(ValidationError::InvalidName);
        }
        Ok(SubscriberName(s))
    }

    /// The underlying string, for persistence and display.
    pub fn as_ref(&self) -> (r: &str)
        ensures
            r@ == self@,
    {
        self.0.as_str()
    }
}

impl Clone for SubscriberName {
    fn clone(&self) -> (r: Self)
        ensures
            r == *self,
    {
        SubscriberName(self.0.clone())
    }
}

/// Raw registration input: the two strings the front end submits.
pub struct FormData {
    pub name: String,
    pub email: String,
}

/// Both fields of a registration form are well formed.
pub open spec fn valid_registration(form: FormData) -> bool {
    is_valid_name(form.name@) && is_valid_email(form.email@)
}

impl FormData {
    /// Assembles a form from an inbound body in which either field may be
    /// absent; a missing field is a validation failure.
    pub fn from_parts(name: Option<String>, email: Option<String>) -> (r: Result<
        FormData,
        ValidationError,
    >)
        ensures
            name is None ==> r == Err::<FormData, ValidationError>(ValidationError::MissingName),
            name is Some && email is None ==> r == Err::<FormData, ValidationError>(
                ValidationError::MissingEmail,
            ),
            r matches Ok(f) ==> name == Some(f.name) && email == Some(f.email),
            r is Ok <==> name is Some && email is Some,
    {
        match (name, email) {
            (Some(name), Some(email)) => Ok(FormData { name, email }),
            (None, _) => Err(ValidationError::MissingName),
            (Some(_), None) => Err(ValidationError::MissingEmail),
        }
    }
}

/// A validated registration: the pair of domain values a pending
/// subscription is created from.
pub struct NewSubscriber {
    pub name: SubscriberName,
    pub email: SubscriberEmail,
}

impl NewSubscriber {
    /// Validates both fields of a form; the name is checked first, as the
    /// first reported failure.
    pub fn try_from(form: FormData) -> (r: Result<NewSubscriber, ValidationError>)
        ensures
            r is Ok <==> valid_registration(form),
            r matches Ok(ns) ==> ns.name@ == form.name@ && ns.email@ == form.email@,
            !is_valid_name(form.name@) ==> r == Err::<NewSubscriber, ValidationError>(
                ValidationError::InvalidName,
            ),
            is_valid_name(form.name@) && !is_valid_email(form.email@) ==> r == Err::<
                NewSubscriber,
                ValidationError,
            >(ValidationError::InvalidEmail),
            form.email@.len() == 0 ==> r is Err,
            (forall|i: int| 0 <= i < form.email@.len() ==> form.email@[i] != '@') ==> r is Err,
            form.email@.len() > 0 && form.email@[0] == '@' ==> r is Err,
            form.email@.len() > 0 && form.email@[form.email@.len() - 1] == '@' ==> r is Err,
    {
        let name = match SubscriberName::parse(form.name) {
            Ok(name) => name,
            Err(e) => {
                return Err(e);
            },
        };
        let email = match SubscriberEmail::parse(form.email) {
            Ok(email) => email,
            Err(e) => {
                return Err(e);
            },
        };
        Ok(NewSubscriber { name, email })
    }
}

} // verus!
