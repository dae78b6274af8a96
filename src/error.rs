//! Errors of the shell, and the outcome of a finished engine operation.
use vstd::prelude::*;

verus! {

/// `E_POINTER`: an expected object was not supplied.
pub const E_POINTER: i32 = -2147467261;

/// A failure reported through the rendering engine's bindings.
#[derive(Debug, PartialEq, Eq)]
pub enum EngineError {
    /// A platform failure, by its `HRESULT` code.
    WindowsError(i32),
    /// A completion callback failed with this message.
    CallbackError(String),
    /// The message loop ended before the operation finished.
    TaskCanceled,
    /// The completion was dropped without delivering a value.
    SendError,
}

/// An error of the shell.
#[derive(Debug, PartialEq, Eq)]
pub enum Error {
    /// Reported by the engine's bindings.
    WebView2Error(EngineError),
    /// Reported by the platform, by its `HRESULT` code.
    WindowsError(i32),
    /// A lock or a channel that guards shared state failed.
    LockError,
}

/// An `HRESULT` signals failure when it is negative.
pub open spec fn failed(status: i32) -> bool {
    status < 0
}

/// What a completion handler hands back for an engine operation that ended
/// with `status` and `payload`: a failure status is the engine's error, a
/// missing payload is `E_POINTER`, and otherwise the payload itself.
pub fn completion_result<T>(status: i32, payload: Option<T>) -> (r: Result<T, Error>)
    ensures
        failed(status) ==> r == Err::<T, Error>(Error::WebView2Error(EngineError::WindowsError(status))),
        !failed(status) && payload is None ==> r == Err::<T, Error>(Error::WindowsError(E_POINTER)),
        !failed(status) && payload is Some ==> r == Ok::<T, Error>(payload->0),
{
    if status < 0 {
        Err(Error::WebView2Error(EngineError::WindowsError(status)))
    } else {
        match payload {
            Some(value) => Ok(value),
            None => Err(Error::WindowsError(E_POINTER)),
        }
    }
}

/// What the waiting side makes of its one-slot channel: the value that was
/// sent, or `SendError` when the sender went away without sending.
pub fn received<T>(slot: Option<Result<T, Error>>) -> (r: Result<T, Error>)
    ensures
        slot matches Some(v) ==> r == v,
        slot is None ==> r == Err::<T, Error>(Error::WebView2Error(EngineError::SendError)),
{
    match slot {
        Some(v) => v,
        None => Err(Error::WebView2Error(EngineError::SendError)),
    }
}

} // verus!
