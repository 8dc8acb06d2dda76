//! How asking for the status of a game server fails.

use vstd::prelude::*;
use vstd::std_specs::convert::FromSpecImpl;

verus! {

/// Why a server gave no status.
#[derive(Debug, Clone, Copy, PartialEq, Eq, Structural)]
#[non_exhaustive]
pub enum CraftPingErrorKind {
    /// No answer came in time.
    Timeout,
    /// The exchange with the server did not come to its end.
    Failed,
}

/// A failed request for the status of a server, by its kind.
#[derive(Debug, Clone, Copy, PartialEq, Eq, Structural)]
pub struct CraftPingError {
    pub kind: CraftPingErrorKind,
}

/// How a status request to a server ended without a status.
#[derive(Debug, Clone, Copy, PartialEq, Eq, Structural)]
pub enum PingFailure {
    /// The connection or the protocol failed.
    Protocol,
    /// The server did not answer in time.
    Timeout,
}

/// How a lookup of service records ended without records.
#[derive(Debug, Clone, Copy, PartialEq, Eq, Structural)]
pub enum ResolveFailure {
    /// The name servers did not answer in time.
    Timeout,
    /// The name has no such records.
    NoRecordsFound,
    /// Any other failure of the resolver.
    Other,
}

impl CraftPingErrorKind {
    /// The text shown for this kind of failure.
    pub open spec fn text(&self) -> Seq<char> {
        match self {
            CraftPingErrorKind::Timeout => "Ping timed out"@,
            CraftPingErrorKind::Failed => "Connection failed to finish"@,
        }
    }

    /// Renders this kind of failure as text.
    pub fn message(&self) -> (text: String)
        ensures
            text@ == self.text(),
    {
        match self {
            CraftPingErrorKind::Timeout => "Ping timed out".to_owned(),
            CraftPingErrorKind::Failed => "Connection failed to finish".to_owned(),
        }
    }
}

impl CraftPingError {
    /// The text shown for this failure: that of its kind.
    pub fn message(&self) -> (text: String)
        ensures
            text@ == self.kind.text(),
    {
        self.kind.message()
    }
}

impl From<CraftPingErrorKind> for CraftPingError {
    fn from(kind: CraftPingErrorKind) -> (e: CraftPingError) {
        CraftPingError { kind }
    }
}

impl FromSpecImpl<CraftPingErrorKind> for CraftPingError {
    open spec fn obeys_from_spec() -> bool {
        true
    }

    open spec fn from_spec(kind: CraftPingErrorKind) -> CraftPingError {
        CraftPingError { kind }
    }
}

impl From<PingFailure> for CraftPingError {
    fn from(value: PingFailure) -> (e: CraftPingError) {
        let kind = match value {
            PingFailure::Timeout => CraftPingErrorKind::Timeout,
            PingFailure::Protocol => CraftPingErrorKind::Failed,
        };
        CraftPingError { kind }
    }
}

impl FromSpecImpl<PingFailure> for CraftPingError {
    open spec fn obeys_from_spec() -> bool {
        true
    }

    open spec fn from_spec(value: PingFailure) -> CraftPingError {
        CraftPingError {
            kind: match value {
                PingFailure::Timeout => CraftPingErrorKind::Timeout,
                PingFailure::Protocol => CraftPingErrorKind::Failed,
            },
        }
    }
}

impl From<ResolveFailure> for CraftPingError {
    fn from(value: ResolveFailure) -> (e: CraftPingError) {
        let kind = match value {
            ResolveFailure::Timeout => CraftPingErrorKind::Timeout,
            ResolveFailure::NoRecordsFound => CraftPingErrorKind::Failed,
            ResolveFailure::Other => CraftPingErrorKind::Failed,
        };
        CraftPingError { kind }
    }
}

impl FromSpecImpl<ResolveFailure> for CraftPingError {
    open spec fn obeys_from_spec() -> bool {
        true
    }

    open spec fn from_spec(value: ResolveFailure) -> CraftPingError {
        CraftPingError {
            kind: match value {
                ResolveFailure::Timeout => CraftPingErrorKind::Timeout,
                ResolveFailure::NoRecordsFound => CraftPingErrorKind::Failed,
                ResolveFailure::Other => CraftPingErrorKind::Failed,
            },
        }
    }
}

} // verus!
