//! The subscription workflow: validate a raw request, settle the outcome
//! of the store's insert, and choose the response status.
//!
//! The store itself is a collaborator: it executes one insert and either
//! returns the generated identifier, reports that the email is already
//! registered, or fails. This module holds every decision around that
//! single call.

use vstd::prelude::*;

use crate::domain::subscriber_email::email_accepted;
use crate::domain::subscriber_name::name_valid;
use crate::domain::{CreateSubscriber, SubscriberEmail, SubscriberName};

verus! {

/// The request field that failed validation.
#[derive(Debug, Clone, Copy, PartialEq, Eq, Structural)]
pub enum InvalidField {
    Name,
    Email,
}

/// Everything that can go wrong with one creation attempt. Each failure
/// is terminal for its request; none is fatal to the service.
#[derive(Debug)]
pub enum SubscriptionError {
    /// The payload could not be decoded into a name and an email; no
    /// validator ran.
    MalformedRequest,
    /// The name or the email failed its domain rules.
    ValidationFailed { field: InvalidField },
    /// The store's uniqueness constraint reports the email as already
    /// registered.
    DuplicateSubscriber,
    /// Any other persistence failure. The cause is kept for logging and
    /// never shown to the caller.
    StoreUnavailable { cause: String },
}

/// What the store reported for one insert attempt, as plain values.
#[derive(Debug)]
pub enum StoreOutcome {
    /// The row was written; `id` is the store-generated identifier.
    Inserted { id: String },
    /// The uniqueness constraint on email rejected the row.
    DuplicateEmail,
    /// The insert failed for any other reason.
    Failed { cause: String },
}

/// The persisted entity a successful creation returns.
#[derive(Debug)]
pub struct SubscriberRecord {
    pub id: String,
    pub name: String,
    pub email: String,
}

impl SubscriptionError {
    /// The HTTP status that reports this failure: a client error for a
    /// malformed, invalid or duplicate request, a server error when the
    /// store is unavailable.
    pub open spec fn spec_status(&self) -> u16 {
        match self {
            SubscriptionError::MalformedRequest => 422u16,
            SubscriptionError::ValidationFailed { .. } => 400u16,
            SubscriptionError::DuplicateSubscriber => 400u16,
            SubscriptionError::StoreUnavailable { .. } => 500u16,
        }
    }

    /// The HTTP status code of this failure.
    pub fn status_code(&self) -> (s: u16)
        ensures
            s == self.spec_status(),
    {
        match self {
            SubscriptionError::MalformedRequest => 422,
            SubscriptionError::ValidationFailed { .. } => 400,
            SubscriptionError::DuplicateSubscriber => 400,
            SubscriptionError::StoreUnavailable { .. } => 500,
        }
    }
}

/// Runs both validators on the raw strings of a creation request. The
/// name is checked first, so a request whose fields are both invalid
/// reports the name.
pub fn validate_subscription(name: String, email: String) -> (r: Result<
    CreateSubscriber,
    SubscriptionError,
>)
    ensures
        r is Ok <==> name_valid(name@) && email_accepted(email@),
        match r {
            Ok(request) => request.name@ == name@ && request.email@ == email@,
            Err(e) => (e matches SubscriptionError::ValidationFailed { field }
                && (field == InvalidField::Name <==> !name_valid(name@))
                && (field == InvalidField::Email <==> name_valid(name@) && !email_accepted(
                email@,
            ))),
        },
{
    let parsed_name = match SubscriberName::parse(name) {
        Ok(n) => n,
        Err(_) => {
            return Err(SubscriptionError::ValidationFailed { field: InvalidField::Name });
        },
    };
    let parsed_email = match SubscriberEmail::parse(email) {
        Ok(e) => e,
        Err(_) => {
            return Err(SubscriptionError::ValidationFailed { field: InvalidField::Email });
        },
    };
    Ok(CreateSubscriber { name: parsed_name, email: parsed_email })
}

/// Turns the store's report on the insert of `request` into the
/// workflow's result: the persisted record carries the store-generated
/// identifier and exactly the validated name and email that were sent, a
/// uniqueness violation becomes a duplicate-subscriber failure, and any
/// other store failure keeps its cause for logging.
pub fn settle_insert(request: CreateSubscriber, outcome: StoreOutcome) -> (r: Result<
    SubscriberRecord,
    SubscriptionError,
>)
    ensures
        match outcome {
            StoreOutcome::Inserted { id } => (r matches Ok(record) && record.id@ == id@
                && record.name@ == request.name@ && record.email@ == request.email@),
            StoreOutcome::DuplicateEmail => r matches Err(SubscriptionError::DuplicateSubscriber),
            StoreOutcome::Failed { cause } => (r matches Err(
                SubscriptionError::StoreUnavailable { cause: kept },
            ) && kept@ == cause@),
        },
{
    match outcome {
        StoreOutcome::Inserted { id } => Ok(
            SubscriberRecord {
                id,
                name: request.name.as_ref().to_owned(),
                email: request.email.as_ref().to_owned(),
            },
        ),
        StoreOutcome::DuplicateEmail => Err(SubscriptionError::DuplicateSubscriber),
        StoreOutcome::Failed { cause } => Err(SubscriptionError::StoreUnavailable { cause }),
    }
}

/// The HTTP status of a finished creation attempt: created on success,
/// otherwise the failure's own status.
pub fn response_status(outcome: &Result<SubscriberRecord, SubscriptionError>) -> (s: u16)
    ensures
        match outcome {
            Ok(_) => s == 201,
            Err(e) => s == e.spec_status(),
        },
{
    match outcome {
        Ok(_) => 201,
        Err(e) => e.status_code(),
    }
}

} // verus!
