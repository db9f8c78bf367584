//! The ways in which a synchronisation run can go wrong.

use vstd::prelude::*;

verus! {

/// What went wrong, by kind.
#[derive(Clone, Copy, Debug, PartialEq, Eq, Structural)]
pub enum SyncError {
    /// The feed's grammar or a date string in it is malformed. The calendar
    /// or event concerned is dropped and the run goes on.
    ParseError,
    /// A request to the tracker could not be sent, or its response could not
    /// be read. Fatal to the run on a create, swallowed on an update.
    RemoteError,
    /// The tracker answered an update or a delete with a status other than
    /// success. Reported, never fatal.
    RemoteUpdateFailed,
    /// A lookup or an insert in the mapping store failed. Fatal to the run.
    StoreError,
    /// A setting is missing or unusable. Fatal before any event is
    /// processed.
    InvalidConfig,
}

impl SyncError {
    /// A short description for log lines.
    pub fn describe(&self) -> (text: &'static str)
        ensures
            text@ == describe_spec(*self),
    {
        match self {
            SyncError::ParseError => "malformed feed or date string",
            SyncError::RemoteError => "remote request failed",
            SyncError::RemoteUpdateFailed => "remote answered with a non-success status",
            SyncError::StoreError => "mapping store failed",
            SyncError::InvalidConfig => "invalid configuration",
        }
    }
}

/// The text that [`SyncError::describe`] gives for each kind.
pub open spec fn describe_spec(error: SyncError) -> Seq<char> {
    match error {
        SyncError::ParseError => "malformed feed or date string"@,
        SyncError::RemoteError => "remote request failed"@,
        SyncError::RemoteUpdateFailed => "remote answered with a non-success status"@,
        SyncError::StoreError => "mapping store failed"@,
        SyncError::InvalidConfig => "invalid configuration"@,
    }
}

} // verus!
