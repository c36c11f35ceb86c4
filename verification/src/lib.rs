//! Utility boundary of an embedded key-value storage engine.
//!
//! The library covers three concerns: adapting raw engine status codes
//! into structured outcomes, the host's side of the buffer handoff to the
//! engine's pseudo-random generator, and the lifecycle state machine of a
//! memory-mapped file resource, whose one legal transition — active to
//! released, idempotent, the engine's unmap owed exactly once — it proves.
//! The engine's own calls are raw native calls; they stay in the
//! surrounding system, which routes every reply through the verified
//! functions here and runs the release transition on each of its exit
//! paths.

pub mod error;
pub mod mmap;
pub mod util;

pub use error::Error;
pub use error::wrap;
pub use error::ENGINE_CORRUPT;
pub use error::ENGINE_OK;
pub use mmap::complete_mapping;
pub use mmap::prepare_mapping;
pub use mmap::validate_map_reply;
pub use mmap::MapRequest;
pub use mmap::Mmap;
pub use util::allocate_fill_buffer;
pub use util::complete_random_string;
pub use util::Util;
