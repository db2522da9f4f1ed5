//! The crate's error type: missing configuration, remote-call failures
//! classified by status, and local persistence failures carried as text.

use vstd::prelude::*;
use crate::api::EndpointError;

verus! {

/// Everything that can go wrong while the client runs.  Failures of
/// outside origin (configuration storage, terminal I/O) arrive as their
/// message text.
#[derive(Debug, Clone, PartialEq, Eq)]
pub enum Error {
    /// The configuration store failed; the payload is its message.
    Confy(String),
    /// Terminal or file I/O failed; the payload is its message.
    Io(String),
    MissingWorkspace,
    MissingTimeEntry,
    MissingProject,
    MissingUser,
    MissingData,
    MissingApiKey,
    /// The remote service refused or failed a call.
    Api(EndpointError),
}

impl From<EndpointError> for Error {
    fn from(e: EndpointError) -> (r: Error) {
        Error::Api(e)
    }
}

impl vstd::std_specs::convert::FromSpecImpl<EndpointError> for Error {
    open spec fn obeys_from_spec() -> bool {
        true
    }

    open spec fn from_spec(e: EndpointError) -> Error {
        Error::Api(e)
    }
}

} // verus!
