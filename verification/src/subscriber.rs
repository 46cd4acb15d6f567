//! Subscriber domain types: the validated email address, the payload built
//! from the subscribe form, and the data carried by the confirmation email.

use vstd::prelude::*;

verus! {

use vstd::string::StringExecFns;

/// What the outside email validator accepts: the HTML5 email grammar.
pub uninterp spec fn is_valid_email(s: Seq<char>) -> bool;

/// Relies on validator's `validate_email`, which checks a string against the
/// HTML5 email address grammar; the result depends on the characters of the
/// string alone, and an empty string is never a valid address.
#[verifier::external_body]
fn validate_email(s: &str) -> (r: bool)
    ensures
        r == is_valid_email(s@),
        s@.len() == 0 ==> r == false,
{
    validator::validate_email(s)
}

/// An email address that passed validation, case preserved.
#[derive(Debug)]
pub struct Email(String);

impl View for Email {
    type V = Seq<char>;

    closed spec fn view(&self) -> Seq<char> {
        self.0@
    }
}

impl Email {
    /// Accepts exactly the strings the validator accepts and keeps them
    /// unchanged; rejected strings come back in the error message.
    pub fn parse(s: String) -> (r: Result<Email, String>)
        ensures
            match r {
                Ok(e) => is_valid_email(s@) && e@ == s@,
                Err(msg) => !is_valid_email(s@) && msg@ == s@ + " not a valid email"@,
            },
    {
        if validate_email(s.as_str()) {
            Ok(Email(s))
        } else {
            Err(s.concat(" not a valid email"))
        }
    }

    pub fn as_ref(&self) -> (r: &str)
        ensures
            r@ == self@,
    {
        self.0.as_str()
    }
}

/// The raw subscribe form: an email string and the page it was submitted
/// from.
pub struct SubscribeFormData {
    pub email: String,
    pub referer: String,
}

/// A subscribe form whose email passed validation.
pub struct NewSubscriberPayload {
    pub email: Email,
    pub referer: String,
}

impl NewSubscriberPayload {
    /// Validates the form's email; the referer is carried through unchanged.
    pub fn try_from(value: SubscribeFormData) -> (r: Result<NewSubscriberPayload, String>)
        ensures
            match r {
                Ok(p) => is_valid_email(value.email@) && p.email@ == value.email@
                    && p.referer@ == value.referer@,
                Err(msg) => !is_valid_email(value.email@) && msg@ == value.email@
                    + " not a valid email"@,
            },
    {
        match Email::parse(value.email) {
            Ok(email) => Ok(NewSubscriberPayload { email, referer: value.referer }),
            Err(e) => Err(e),
        }
    }
}

/// The data the confirmation email template is filled with: the base URL the
/// verification link points at, and the freshly issued token.
pub struct ConfirmSubEmail {
    pub app_base_url: String,
    pub token: String,
}

/// The query parameters of the verify and delete endpoints.
pub struct Parameters {
    pub token: String,
}

} // verus!
