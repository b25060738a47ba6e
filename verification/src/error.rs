//! The binding layer's error taxonomy.
//!
//! Every engine status is translated at the call site into one of these
//! kinds; nothing is silently swallowed. Calls on an already-destroyed handle
//! never reach the engine and fail explicitly with their own kind.

use vstd::prelude::*;

verus! {

/// What went wrong in one binding-layer operation.
#[derive(Debug, Copy, Clone, Eq, PartialEq, Structural)]
pub enum ScanError {
    /// The engine returned no usable instance; fatal, not retried.
    InitializationFailed,
    /// The engine state rejected a symbology/option/value combination.
    UnsupportedConfig,
    /// The decode pass reported a negative status; no partial results.
    DecodeFailed,
    /// The call arrived after the handle was destroyed and was refused
    /// without re-entering the engine.
    HandleDestroyed,
}

/// Translates the outcome of the engine's instance-creation call: a missing
/// instance is fatal.
pub fn classify_create(created: bool) -> (r: Result<(), ScanError>)
    ensures
        created <==> r is Ok,
        !created ==> r == Result::<(), ScanError>::Err(ScanError::InitializationFailed),
{
    if created {
        Ok(())
    } else {
        Err(ScanError::InitializationFailed)
    }
}

/// Translates a decode pass's status: negative is a failure, zero or more is
/// the number of symbols found.
pub fn classify_decode(status: i32) -> (r: Result<(), ScanError>)
    ensures
        status >= 0 <==> r is Ok,
        status < 0 ==> r == Result::<(), ScanError>::Err(ScanError::DecodeFailed),
{
    if status >= 0 {
        Ok(())
    } else {
        Err(ScanError::DecodeFailed)
    }
}

} // verus!
