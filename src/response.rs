use vstd::prelude::*;
use crate::error::ClientError;
use crate::mode::ResponseMode;

verus! {

/// Whether a status is a success (2xx).
pub open spec fn is_success(status: u16) -> bool {
    200 <= status <= 299
}

/// What to do with an exchange once its status and headers are in.
#[derive(Debug, Clone, Copy, PartialEq, Eq, Structural)]
pub enum BodyAction {
    /// Read the whole body and hand it back.
    Buffer,
    /// Hand back the open body as a lazily consumed sequence of chunks.
    Stream,
    /// Read the whole body and fail with it as a remote error.
    Fail,
}

/// Whether the remote answered with a success status.
pub fn is_success_status(status: u16) -> (r: bool)
    ensures
        r == is_success(status),
{
    200 <= status && status <= 299
}

/// Picks exactly one way to materialize the body: a failure status is read
/// whole and reported; a success is buffered or streamed as the call asked.
pub fn body_action(status: u16, mode: ResponseMode) -> (r: BodyAction)
    ensures
        !is_success(status) ==> r == BodyAction::Fail,
        is_success(status) && mode == ResponseMode::Block ==> r == BodyAction::Buffer,
        is_success(status) && mode == ResponseMode::Stream ==> r == BodyAction::Stream,
{
    if !is_success_status(status) {
        BodyAction::Fail
    } else {
        match mode {
            ResponseMode::Block => BodyAction::Buffer,
            ResponseMode::Stream => BodyAction::Stream,
        }
    }
}

/// Classifies a buffered exchange: a success gives its body back unchanged,
/// any other status gives a `RemoteError` carrying the status and the raw body.
pub fn check_status(status: u16, body: Vec<u8>) -> (r: Result<Vec<u8>, ClientError>)
    ensures
        is_success(status) ==> r is Ok && r->Ok_0@ == body@,
        !is_success(status) ==> r is Err && r->Err_0 is RemoteError && r->Err_0->status == status
            && r->Err_0->body@ == body@,
{
    if is_success_status(status) {
        Ok(body)
    } else {
        Err(ClientError::RemoteError { status, body })
    }
}

} // verus!
