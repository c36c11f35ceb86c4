//! Randomness facade: the host's side of the buffer-handoff protocol
//! around the engine's pseudo-random generator.
//!
//! The generator itself is the engine's own and stays a black box here:
//! its calls are raw native calls that cannot stand in this library, so
//! the surrounding system makes them and hands their replies back. This
//! module holds the two halves of the protocol the host owes: allocating
//! the buffer the engine will populate, writable for exactly the requested
//! length, and turning the engine's reply into a caller-owned result — the
//! filled buffer exactly as the engine left it on success, a typed failure
//! and no partial buffer otherwise.

use vstd::prelude::*;

use crate::error::Error;
use crate::error::ENGINE_OK;
use crate::error::wrap;

verus! {

/// Utility interfaces of the engine's pseudo-random generator.
///
/// Implemented by whatever type drives a live native engine handle; the
/// handle is an opaque native pointer, so no implementation can stand in
/// this library. What the engine promises of the results — English-letter
/// bytes from `random_string`, one generator value passed through as-is
/// from `random_num` — is the engine's documented behavior, stated here
/// only as documentation.
pub trait Util {
    /// Generate a random English-alphabet string of exactly `buf_size`
    /// bytes: allocate the buffer host-side (`allocate_fill_buffer`), have
    /// the engine populate it in place, and complete the reply
    /// (`complete_random_string`); on engine failure, the adapted status
    /// and no partial buffer.
    fn random_string(&self, buf_size: u32) -> Result<Vec<u8>, Error>;

    /// Produce one unsigned 32-bit value from the engine's generator,
    /// passed through as-is. Two successive values are not required to
    /// differ.
    fn random_num(&self) -> u32;
}

/// Allocate the buffer the engine's random-fill call will populate in
/// place: exactly `len` bytes, owned by the caller, zero until the engine
/// writes them.
pub fn allocate_fill_buffer(len: u32) -> (r: Vec<u8>)
    ensures
        r@.len() == len as nat,
        forall|i: int| 0 <= i < r@.len() ==> r@[i] == 0u8,
{
    let mut buf: Vec<u8> = Vec::new();
    let mut i: u32 = 0;
    while i < len
        invariant
            i <= len,
            buf@.len() == i as nat,
            forall|j: int| 0 <= j < buf@.len() ==> buf@[j] == 0u8,
        decreases len - i,
    {
        buf.push(0);
        i = i + 1;
    }
    buf
}

/// Complete a `random_string` call from the engine's reply.
///
/// `status` is the engine's status code for its fill call, and `filled`
/// is the buffer the engine was handed to populate — the caller-allocated
/// region of exactly the `buf_size` bytes that were requested. On success
/// the caller owns the buffer exactly as the engine left it, no longer
/// and no shorter; on engine failure the caller gets the adapted status
/// and no buffer at all.
pub fn complete_random_string(status: i32, filled: Vec<u8>, buf_size: u32) -> (r: Result<
    Vec<u8>,
    Error,
>)
    requires
        filled@.len() == buf_size as nat,
    ensures
        status == ENGINE_OK ==> (r matches Ok(v) && v@ == filled@ && v@.len()
            == buf_size as nat),
        status != ENGINE_OK ==> r == Err::<Vec<u8>, Error>(Error::EngineError(status)),
{
    match wrap(status) {
        Ok(_) => Ok(filled),
        Err(e) => Err(e),
    }
}

} // verus!
