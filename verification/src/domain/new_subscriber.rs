//! A validated subscription request.

use vstd::prelude::*;

use crate::domain::subscriber_email::SubscriberEmail;
use crate::domain::subscriber_name::SubscriberName;

verus! {

/// A subscription request whose fields both passed validation. Since the
/// field types are construction-gated, a value of this type can only hold
/// validated data.
#[derive(Debug)]
pub struct CreateSubscriber {
    pub name: SubscriberName,
    pub email: SubscriberEmail,
}

} // verus!
