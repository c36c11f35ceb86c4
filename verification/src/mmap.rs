//! Mapped resource manager: the acquire protocol for an engine-backed
//! memory-mapped file, and the exactly-once release discipline.
//!
//! Acquiring a mapping has two halves. `prepare_mapping` validates the
//! caller's path and encodes it for the engine; it is the only way to build
//! a `MapRequest`, so an ill-formed path is rejected before any engine call
//! can be made. `complete_mapping` turns the engine's reply into either an
//! active `Mmap` resource or a typed failure, never a partially populated
//! resource. `Mmap::release` then drives the one legal state transition,
//! active to released, and reports whether an engine unmap call is owed —
//! once, and only after the first release.
//!
//! The native engine call behind the acquire path is documented by the
//! engine as unreliable in some of its versions; callers should treat the
//! whole path as experimental.

use vstd::prelude::*;

use crate::error::Error;
use crate::error::ENGINE_CORRUPT;
use crate::error::ENGINE_OK;
use crate::error::wrap;

verus! {

/// A file path validated and encoded for the engine's map call: the
/// caller's path bytes followed by exactly one terminating nul.
pub struct MapRequest {
    cpath: Vec<u8>,
}

impl View for MapRequest {
    type V = Seq<u8>;

    closed spec fn view(&self) -> Seq<u8> {
        self.cpath@
    }
}

impl MapRequest {
    /// The nul-terminated path bytes to hand to the engine.
    pub fn path_with_nul(&self) -> (r: &Vec<u8>)
        ensures
            r@ == self@,
    {
        &self.cpath
    }
}

/// Validate `path` and encode it as the nul-terminated string the engine's
/// file-mapping call expects.
///
/// A path holding an embedded nul byte is rejected with
/// `PathEncodingError`; since this function is the only constructor of
/// `MapRequest`, the rejection happens before any engine call is possible.
pub fn prepare_mapping(path: &Vec<u8>) -> (r: Result<MapRequest, Error>)
    ensures
        path@.contains(0u8) ==> r == Err::<MapRequest, Error>(Error::PathEncodingError),
        !path@.contains(0u8) ==> (r matches Ok(q) && q@ == path@ + seq![0u8]),
{
    let mut cpath: Vec<u8> = Vec::new();
    let mut i: usize = 0;
    while i < path.len()
        invariant
            i <= path@.len(),
            cpath@ == path@.subrange(0, i as int),
            forall|j: int| 0 <= j < i ==> path@[j] != 0u8,
        decreases path@.len() - i,
    {
        let b = path[i];
        if b == 0 {
            assert(path@.contains(0u8)) by {
                assert(path@[i as int] == 0u8);
            }
            return Err(Error::PathEncodingError);
        }
        cpath.push(b);
        i = i + 1;
    }
    cpath.push(0);
    proof {
        assert(path@.subrange(0, path@.len() as int) =~= path@);
        assert(cpath@ =~= path@ + seq![0u8]);
    }
    Ok(MapRequest { cpath })
}

/// An engine-backed memory-mapped file resource.
///
/// The resource is created active by a successful `complete_mapping` and
/// owns the obligation to release the mapping exactly once; its view is the
/// sequence of mapped bytes.
pub struct Mmap {
    data: Vec<u8>,
    size: i64,
    active: bool,
}

impl View for Mmap {
    type V = Seq<u8>;

    closed spec fn view(&self) -> Seq<u8> {
        self.data@
    }
}

/// The observable effect of one `release` call: the resource ends up
/// released whatever state it started in, its bytes and reported size are
/// untouched, and an engine unmap is owed exactly when the resource was
/// still active.
pub open spec fn release_transition(pre: Mmap, post: Mmap, owed: bool) -> bool {
    &&& !post.is_active()
    &&& owed == pre.is_active()
    &&& post@ == pre@
    &&& post.size_spec() == pre.size_spec()
}

impl Mmap {
    /// The size the engine reported when it mapped the file.
    pub closed spec fn size_spec(&self) -> i64 {
        self.size
    }

    /// Whether the resource still owes the engine a release.
    pub closed spec fn is_active(&self) -> bool {
        self.active
    }

    /// Well-formed: the reported size counts exactly the mapped bytes.
    pub open spec fn wf(&self) -> bool {
        self.size_spec() == self@.len()
    }

    /// The size of the mapped region, as the engine reported it.
    pub fn size(&self) -> (r: i64)
        ensures
            r == self.size_spec(),
    {
        self.size
    }

    /// Whether the resource has not been released yet.
    pub fn active(&self) -> (r: bool)
        ensures
            r == self.is_active(),
    {
        self.active
    }

    /// Borrow the mapped bytes; only an active resource may be read.
    pub fn bytes(&self) -> (r: &Vec<u8>)
        requires
            self.is_active(),
        ensures
            r@ == self@,
    {
        &self.data
    }

    /// Move the resource to the released state and report whether an engine
    /// unmap call is owed.
    ///
    /// The transition happens on every call, so a failure of the engine's
    /// own unmap call afterwards cannot leave the resource releasable twice;
    /// a second call is a no-op that owes nothing.
    pub fn release(&mut self) -> (owed: bool)
        ensures
            release_transition(*old(self), *final(self), owed),
    {
        let owed = self.active;
        self.active = false;
        owed
    }
}

/// Judge the raw reply of the engine's file-mapping call before any byte
/// of the mapped region is read.
///
/// A failing status surfaces as the adapted `EngineError`; a success
/// whose reported size is negative is an ill-formed reply that must not
/// become a resource either, and surfaces as `EngineError` with the
/// engine's corrupt-data code. Only a success with a non-negative size
/// may go on to `complete_mapping`.
pub fn validate_map_reply(status: i32, size: i64) -> (r: Result<(), Error>)
    ensures
        status != ENGINE_OK ==> r == Err::<(), Error>(Error::EngineError(status)),
        status == ENGINE_OK && size < 0 ==> r == Err::<(), Error>(
            Error::EngineError(ENGINE_CORRUPT),
        ),
        status == ENGINE_OK && size >= 0 ==> r == Ok::<(), Error>(()),
{
    match wrap(status) {
        Ok(_) => {
            if size < 0 {
                Err(Error::EngineError(ENGINE_CORRUPT))
            } else {
                Ok(())
            }
        },
        Err(e) => Err(e),
    }
}

/// Complete an acquire from the engine's reply to a map request.
///
/// `status` is the engine's status code and `data` the mapped bytes the
/// engine exposed. On success the caller owns an active, well-formed
/// resource whose reported size is exactly the byte count; on engine
/// failure the caller gets the adapted status and no resource at all.
pub fn complete_mapping(status: i32, data: Vec<u8>) -> (r: Result<Mmap, Error>)
    requires
        data@.len() <= i64::MAX,
    ensures
        status == ENGINE_OK ==> (r matches Ok(m) && m@ == data@ && m.size_spec() == data@.len()
            && m.is_active() && m.wf()),
        status != ENGINE_OK ==> r == Err::<Mmap, Error>(Error::EngineError(status)),
{
    match wrap(status) {
        Ok(_) => {
            let size: i64 = data.len() as i64;
            Ok(Mmap { data, size, active: true })
        },
        Err(e) => Err(e),
    }
}

/// Law: release is idempotent. After one `release`, a second one performs
/// no engine unmap and leaves every observation of the resource unchanged.
pub proof fn lemma_release_idempotent(m0: Mmap, m1: Mmap, owed1: bool, m2: Mmap, owed2: bool)
    requires
        release_transition(m0, m1, owed1),
        release_transition(m1, m2, owed2),
    ensures
        !owed2,
        !m2.is_active(),
        m2@ == m1@,
        m2.size_spec() == m1.size_spec(),
{
}

} // verus!
