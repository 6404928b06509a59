//! Validated value types for subscriber data.
//!
//! A `SubscriberName` or `SubscriberEmail` can only be obtained through
//! its `parse` function, so a value of either type cannot exist in an
//! invalid state.

use vstd::prelude::*;

pub mod new_subscriber;
pub mod subscriber_email;
pub mod subscriber_name;

pub use new_subscriber::CreateSubscriber;
pub use subscriber_email::SubscriberEmail;
pub use subscriber_name::SubscriberName;

use subscriber_email::email_accepted;
use subscriber_name::name_valid;

verus! {

/// A rejected input. The error carries no detail on purpose: which rule
/// was violated is not echoed back to callers.
#[derive(Debug, Clone, Copy, PartialEq, Eq, Structural)]
pub struct ValidationError;

/// Both validators are pure: their verdict depends on the input text
/// alone, so running a validator twice on the same input yields the same
/// outcome, and the contracts of the `parse` functions pin the wrapped
/// value to that same input.
pub proof fn lemma_validation_deterministic(a: Seq<char>, b: Seq<char>)
    requires
        a == b,
    ensures
        name_valid(a) == name_valid(b),
        email_accepted(a) == email_accepted(b),
{
}

} // verus!
