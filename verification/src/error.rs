//! Status adapter: where a raw engine status code becomes a structured
//! success/failure outcome.

use vstd::prelude::*;

verus! {

/// The engine's status code for a successful call.
pub const ENGINE_OK: i32 = 0;

/// The engine's status code for corrupt data; this library also surfaces
/// it when the engine's reply to a map call is itself ill-formed.
pub const ENGINE_CORRUPT: i32 = -24;

/// A failure surfaced by one of the utility operations.
#[derive(Debug, Clone, Copy, PartialEq, Eq, Structural)]
pub enum Error {
    /// The engine reported failure for an otherwise well-formed request;
    /// carries the raw engine status code.
    EngineError(i32),
    /// The caller-supplied path cannot be handed to the engine as a
    /// nul-terminated string (for example, it holds an embedded nul byte).
    PathEncodingError,
    /// A host-side buffer of the requested length could not be allocated.
    AllocationError,
}

/// Convert a raw engine status code into a structured outcome.
///
/// Every other operation of this library routes the engine's reply through
/// this adapter; it never suppresses a failure.
pub fn wrap(status: i32) -> (r: Result<(), Error>)
    ensures
        status == ENGINE_OK ==> r == Ok::<(), Error>(()),
        status != ENGINE_OK ==> r == Err::<(), Error>(Error::EngineError(status)),
{
    if status == ENGINE_OK {
        Ok(())
    } else {
        Err(Error::EngineError(status))
    }
}

} // verus!
