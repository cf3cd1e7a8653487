//! The remote write API at the level the loop reasons about: the response
//! envelope, the chat and edit-confirmation records, and the per-tick
//! failure taxonomy. The HTTP transport and JSON decoding live outside the
//! library; they hand in plain values.

use vstd::prelude::*;

verus! {

/// A message record: only its identifier matters here.
#[derive(Clone, Copy, Debug, PartialEq, Eq, Structural)]
pub struct Message {
    /// The remote message identifier.
    pub message_id: u64,
}

/// A chat record: the message pinned in it, if any.
#[derive(Clone, Copy, Debug, PartialEq, Eq, Structural)]
pub struct Chat {
    /// The pinned message, which the loop keeps editing.
    pub pinned_message: Option<Message>,
}

impl Chat {
    /// The identifier of the pinned message. A chat without one cannot be
    /// used at all, so callers must have checked for it.
    pub fn unwrap(self) -> (r: u64)
        requires
            self.pinned_message is Some,
        ensures
            r == self.pinned_message->0.message_id,
    {
        match self.pinned_message {
            Some(m) => m.message_id,
            None => 0,
        }
    }
}

/// An edit confirmation: the epoch second the remote committed the edit.
#[derive(Clone, Copy, Debug, PartialEq, Eq, Structural)]
pub struct EditedMessage {
    /// Epoch seconds of the committed edit.
    pub edit_date: u64,
}

/// Why one tick's write failed. Transport and decoding failures arise
/// outside the library; the envelope failures are decided here.
#[derive(Clone, Copy, Debug, PartialEq, Eq, Structural)]
pub enum ApiError {
    /// The HTTP status was outside the success range.
    Status,
    /// The envelope carried `ok = false`.
    NotOk,
    /// The envelope carried `ok = true` but no result.
    NoResult,
    /// The transport failed or the body could not be decoded.
    Transport,
}

/// Whether an HTTP status code counts as success (the 2xx range).
pub fn status_is_success(code: u16) -> (r: bool)
    ensures
        r == (200 <= code < 300),
{
    200 <= code && code < 300
}

/// Judges a decoded response envelope: the result is owed exactly when
/// the envelope says `ok` and carries one; otherwise the tick fails with
/// the matching envelope error.
pub fn check_envelope<T>(ok: bool, result: Option<T>) -> (r: Result<T, ApiError>)
    ensures
        r is Ok <==> (ok && result is Some),
        ok && result is Some ==> r->Ok_0 == result->0,
        !ok ==> r->Err_0 == ApiError::NotOk,
        ok && result is None ==> r->Err_0 == ApiError::NoResult,
{
    if !ok {
        return Err(ApiError::NotOk);
    }
    match result {
        Some(v) => Ok(v),
        None => Err(ApiError::NoResult),
    }
}

} // verus!
