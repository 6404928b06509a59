//! Core of a subscriber-registration service.
//!
//! The library holds the decision logic of the service: the validated
//! name and email value types with their parsing rules, and the
//! subscription workflow that turns a validated request and a store
//! outcome into a response. Transport and storage are collaborators that
//! hand this library plain strings and take plain values back.

pub mod domain;
pub mod subscriptions;
