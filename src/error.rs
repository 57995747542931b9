//! The engine's errors: a kind and a one-line message.
use vstd::prelude::*;

verus! {

/// What went wrong, by kind.
#[derive(Clone, Copy, Debug, PartialEq, Eq, Structural)]
pub enum ErrorKind {
    /// Authentication cannot proceed or was refused.
    Auth,
    /// No such session, shell channel or tunnel.
    NotFound,
    /// A tunnel with this identifier is already running.
    AlreadyRunning,
    /// A request lacks a setting it needs, or names one that is not supported.
    InvalidConfig,
    /// An operation kept failing until its deadline.
    Timeout,
}

/// An error of the engine.
#[derive(Clone, Debug, PartialEq, Eq)]
pub struct EngineError {
    pub kind: ErrorKind,
    pub message: String,
}

impl EngineError {
    /// An error of the given kind with a fixed message.
    pub fn new(kind: ErrorKind, message: &str) -> (r: Self)
        ensures
            r.kind == kind,
            r.message@ == message@,
    {
        EngineError { kind, message: String::from_str(message) }
    }

    /// The message, as callers display it.
    pub fn to_string(&self) -> (r: String)
        ensures
            r@ == self.message@,
    {
        self.message.clone()
    }
}

} // verus!
