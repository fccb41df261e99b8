//! The error taxonomy: typed domain-error bodies, and one error union per
//! endpoint family.
//!
//! Every union distinguishes the four failure kinds: a transport failure
//! (injected by the caller who drives the network), a structural decode
//! failure, a well-formed domain error, and a contract violation (a status
//! code outside the endpoint's documented set). A documented-but-never-seen
//! status is kept apart as its own kind rather than coerced into another.

use vstd::prelude::*;

use crate::request::ModId;

verus! {

/// The error body sent when the API key is rejected.
#[derive(Debug, PartialEq, Eq)]
pub struct InvalidAPIKeyError {
    pub message: String,
}

impl InvalidAPIKeyError {
    /// The server-supplied message.
    pub fn message(&self) -> (r: &str)
        ensures
            r@ == self.message@,
    {
        self.message.as_str()
    }
}

/// The error body sent when the mod to track does not exist.
#[derive(Debug, PartialEq, Eq)]
pub struct ModNotFoundError {
    pub message: String,
}

impl ModNotFoundError {
    /// The server-supplied message.
    pub fn message(&self) -> (r: &str)
        ensures
            r@ == self.message@,
    {
        self.message.as_str()
    }
}

/// The error body sent when untracking a mod that is not tracked or does
/// not exist.
#[derive(Debug, PartialEq, Eq)]
pub struct UntrackedOrInvalidMod {
    pub message: String,
}

impl UntrackedOrInvalidMod {
    /// The server-supplied message.
    pub fn message(&self) -> (r: &str)
        ensures
            r@ == self.message@,
    {
        self.message.as_str()
    }
}

/// The error body sent for an unknown game, with its numeric code.
#[derive(Debug, PartialEq, Eq)]
pub struct InvalidGame {
    pub code: u64,
    pub message: String,
}

impl InvalidGame {
    /// The server-supplied message.
    pub fn message(&self) -> (r: &str)
        ensures
            r@ == self.message@,
    {
        self.message.as_str()
    }
}

/// Outcome of tracking a mod: newly tracked, or already on the list.
/// Either way the server has confirmed the ID, so it is carried as a
/// [`ModId`].
#[derive(Debug, Clone, Copy, PartialEq, Eq, Structural)]
pub enum PostModStatus {
    /// The mod was successfully added to the tracking list.
    SuccessfullyTracked(ModId),
    /// The mod was already being tracked.
    AlreadyTracking(ModId),
}

/// Errors of the user-facing GET endpoints (validate, tracked mods,
/// endorsements).
#[derive(Debug, PartialEq, Eq)]
pub enum ValidateError {
    /// The transport failed before a status code was obtained.
    Transport(String),
    /// The body did not have the shape documented for the status received.
    Decode,
    /// The server rejected the API key.
    InvalidAPIKey(InvalidAPIKeyError),
    /// A status documented upstream but never observed in practice.
    NotObserved(u16),
    /// A status outside the endpoint's documented set.
    ContractViolation(u16),
}

/// Errors of the track-mod endpoint.
#[derive(Debug, PartialEq, Eq)]
pub enum TrackModError {
    /// The transport failed before a status code was obtained.
    Transport(String),
    /// The body did not have the shape documented for the status received.
    Decode,
    /// The server rejected the API key.
    InvalidAPIKey(InvalidAPIKeyError),
    /// The mod to track does not exist.
    ModNotFound(ModNotFoundError),
    /// A status outside the endpoint's documented set.
    ContractViolation(u16),
}

/// Errors of the game, mod and file GET endpoints.
#[derive(Debug, PartialEq, Eq)]
pub enum GameModError {
    /// The transport failed before a status code was obtained.
    Transport(String),
    /// The body did not have the shape documented for the status received.
    Decode,
    /// The server rejected the API key (these endpoints report it as 404).
    InvalidAPIKey(InvalidAPIKeyError),
    /// An unknown game was named.
    InvalidGameID(InvalidGame),
    /// A status documented upstream but never observed in practice.
    NotObserved(u16),
    /// A status outside the endpoint's documented set.
    ContractViolation(u16),
}

/// Errors of the untrack-mod endpoint.
#[derive(Debug, PartialEq, Eq)]
pub enum DeleteModError {
    /// The transport failed before a status code was obtained.
    Transport(String),
    /// The body did not have the shape documented for the status received.
    Decode,
    /// The server rejected the API key.
    InvalidAPIKey(InvalidAPIKeyError),
    /// The mod is not tracked or does not exist.
    UntrackedOrInvalid(UntrackedOrInvalidMod),
    /// A status outside the endpoint's documented set.
    ContractViolation(u16),
}

} // verus!
