//! The error taxonomy shared by the configuration resolver and the request
//! pipeline: every component surfaces failures to its caller as one of these.

use vstd::prelude::*;

verus! {

/// A failure category of the client. `Api` carries the provider's own status
/// code and message; `MissingToken` is the distinguished configuration error
/// for an absent authentication token.
#[derive(Debug)]
pub enum Error {
    /// A transport-level failure while performing the HTTP request.
    Http(String),
    /// Malformed JSON on the request or response side.
    Json(String),
    /// A file-system failure during configuration load or save.
    Io(String),
    /// Missing or invalid configuration.
    Config(String),
    /// A provider-reported failure: HTTP status plus the message drawn from
    /// the structured error envelope when available, else the raw body text.
    Api { status: u16, message: String },
    /// The authentication token is required but absent.
    MissingToken,
    /// Malformed URL construction.
    InvalidUrl(String),
    /// A condition not otherwise classified.
    Other(String),
}

impl Error {
    /// Wraps a message as a configuration error.
    pub fn config(msg: String) -> (r: Error)
        ensures
            r matches Error::Config(m) && m@ == msg@,
    {
        Error::Config(msg)
    }

    /// Wraps a message as an unclassified error.
    pub fn other(msg: String) -> (r: Error)
        ensures
            r matches Error::Other(m) && m@ == msg@,
    {
        Error::Other(msg)
    }
}

} // verus!
