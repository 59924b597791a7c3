use vstd::prelude::*;

verus! {

/// Why a request could not be assembled.
#[derive(Debug, Clone, Copy, PartialEq, Eq, Structural)]
pub enum MalformedReason {
    /// The base URL joined with the endpoint is not a URL the transport accepts.
    InvalidUrl,
    /// The bearer token holds a character that a header value cannot carry.
    InvalidHeaderValue,
    /// A payload field that must be a JSON object is not one.
    NotAnObject,
    /// A payload field that must be a JSON array is not one.
    NotAnArray,
    /// Query parameters that are not an object of string, number or boolean values.
    UnsupportedQuery,
    /// A dataset operation needs a dataset id and the client has none.
    MissingDatasetId,
}

/// The failures a call can end in, by class.
#[derive(Debug, Clone, PartialEq)]
pub enum ClientError {
    /// Bad inputs, found before any I/O; retrying with the same inputs fails again.
    MalformedRequest(MalformedReason),
    /// The local file to attach could not be opened or read.
    FileUnavailable(String),
    /// The exchange with the remote failed at the network level.
    TransportError(String),
    /// The remote answered with a status outside 200..=299; its body is kept as is.
    RemoteError { status: u16, body: Vec<u8> },
}

impl ClientError {
    /// Whether the failure was found before any network I/O.
    pub fn is_construction_failure(&self) -> (r: bool)
        ensures
            r == (self is MalformedRequest || self is FileUnavailable),
    {
        match self {
            ClientError::MalformedRequest(_) => true,
            ClientError::FileUnavailable(_) => true,
            _ => false,
        }
    }
}

} // verus!
