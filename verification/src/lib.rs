//! Bootstrap handshake by which a gateway instance joins a service mesh:
//! it negotiates protocol compatibility with a central discovery service,
//! registers itself as a reachable endpoint, and exposes the resulting
//! client handle behind a concurrency-safe shared context.

use vstd::prelude::*;

pub mod config;
pub mod context;
pub mod handshake;

verus! {

/// The terminal failures of the startup handshake. Every one of them aborts
/// startup: none is recovered locally and no retry is attempted.
#[derive(Clone, Copy, Debug, PartialEq, Eq, Structural)]
pub enum HandshakeError {
    /// A required setting is missing or malformed; raised before any
    /// network activity.
    ConfigurationError,
    /// The discovery service could not be reached over the transport.
    ConnectionError,
    /// The two version identifiers differ; registration is withheld.
    VersionMismatchError,
    /// The discovery service rejected or failed the registration call.
    RegistrationError,
}

/// The message each handshake error carries.
pub open spec fn error_message(e: HandshakeError) -> Seq<char> {
    match e {
        HandshakeError::ConfigurationError => "missing or malformed configuration"@,
        HandshakeError::ConnectionError => "failed to reach the discovery service"@,
        HandshakeError::VersionMismatchError => "mismatched version"@,
        HandshakeError::RegistrationError => "registration rejected"@,
    }
}

impl HandshakeError {
    /// A short description of the failure, for reporting at process exit.
    pub fn message(&self) -> (m: &'static str)
        ensures
            m@ == error_message(*self),
    {
        match self {
            HandshakeError::ConfigurationError => "missing or malformed configuration",
            HandshakeError::ConnectionError => "failed to reach the discovery service",
            HandshakeError::VersionMismatchError => "mismatched version",
            HandshakeError::RegistrationError => "registration rejected",
        }
    }
}

/// Version identifiers are compatible exactly when they are equal
/// byte for byte; no semantic-versioning comparison is performed.
pub open spec fn versions_compatible(local: Seq<char>, remote: Seq<char>) -> bool {
    local == remote
}

/// Compares the local and the remote version identifier for exact equality.
pub fn check_version(local: &String, remote: &String) -> (r: bool)
    ensures
        r == versions_compatible(local@, remote@),
{
    local.eq(remote)
}

} // verus!
