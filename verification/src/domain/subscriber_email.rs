//! The subscriber-email value type.
//!
//! The syntactic check itself is delegated to the `validator` crate; this
//! module pins everything else: the accepted value wraps the input
//! unchanged, and acceptance is a function of the input text alone.

use vstd::prelude::*;

use crate::domain::ValidationError;

verus! {

/// Names the verdict of `validator`'s email check on a sequence of
/// characters: whether the text is a syntactically valid email address
/// (HTML5-style local part, `@`, domain). The check is built from
/// regular-expression matching and domain encoding, so the verdict is a
/// function of the text alone.
pub uninterp spec fn email_accepted(s: Seq<char>) -> bool;

/// Relies on `validator::ValidateEmail::validate_email` for `String`:
/// a syntactic check (no network, no DNS) whose verdict depends on the
/// string's characters alone.
#[verifier::external_body]
fn email_check(input: &String) -> (r: bool)
    ensures
        r == email_accepted(input@),
{
    validator::ValidateEmail::validate_email(input)
}

/// A validated subscriber email. The only way to obtain one is
/// [`SubscriberEmail::parse`], so every value of this type passed the
/// syntactic check.
#[derive(Debug)]
pub struct SubscriberEmail {
    text: String,
}

impl View for SubscriberEmail {
    type V = Seq<char>;

    closed spec fn view(&self) -> Seq<char> {
        self.text@
    }
}

impl SubscriberEmail {
    /// Runs the syntactic email check on `input` and wraps it unchanged,
    /// or rejects it.
    pub fn parse(input: String) -> (r: Result<SubscriberEmail, ValidationError>)
        ensures
            r is Ok <==> email_accepted(input@),
            match r {
                Ok(email) => email@ == input@,
                Err(_) => true,
            },
    {
        if email_check(&input) {
            Ok(SubscriberEmail { text: input })
        } else {
            Err(ValidationError)
        }
    }

    /// The underlying text of the validated email.
    pub fn as_ref(&self) -> (r: &str)
        ensures
            r@ == self@,
    {
        self.text.as_str()
    }
}

} // verus!
