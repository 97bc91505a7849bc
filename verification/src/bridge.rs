//! The ownership bridge: turning an immutable byte image into a live,
//! exclusively-owned engine instance and back.
//!
//! The ghost model of a live instance is the canonical byte image that
//! capturing its current main-schema content would produce. Every trusted
//! wrapper around the embedded engine states its effect on that model.

use vstd::prelude::*;

use crate::value::EngineImage;
use crate::value::Error;

verus! {

#[verifier::external_type_specification]
#[verifier::external_body]
pub struct ExConnection(rusqlite::Connection);

/// The content of a live engine instance, as the canonical byte image that
/// serializing its main schema produces. Every trusted wrapper around the
/// embedded engine states its effect in terms of this model.
pub uninterp spec fn instance_image(c: rusqlite::Connection) -> Seq<u8>;

/// Whether a byte sequence is a well-formed page image of the embedded
/// engine's format: one produced by this bridge's own capture step, or by
/// anything else that writes the engine's on-disk format. The bridge
/// performs no format validation of its own beyond what the engine
/// enforces, so what it promises of a materialized image it promises only
/// for well-formed ones; every image the bridge itself produces is
/// well-formed.
pub uninterp spec fn well_formed_image(bytes: Seq<u8>) -> bool;

/// A live, exclusively-owned connection to one private instance of the
/// embedded engine, backed either by memory materialized from an
/// `EngineImage` or by file-backed persistent storage. It is created at the
/// start of an entry point and destroyed at its end: it is never persisted
/// and never outlives one call.
///
/// The view of a handle is the canonical byte image of the instance's
/// current main-schema content — the bytes that capturing it would produce.
pub struct Handle {
    pub(crate) conn: rusqlite::Connection,
}

impl View for Handle {
    type V = Seq<u8>;

    closed spec fn view(&self) -> Seq<u8> {
        instance_image(self.conn)
    }
}

/// Relies on `rusqlite::Connection::open_in_memory`: opens a fresh, empty,
/// private in-memory engine instance that no other call can observe.
#[verifier::external_body]
pub(crate) fn fresh_handle() -> (r: Result<Handle, String>) {
    match rusqlite::Connection::open_in_memory() {
        Ok(conn) => Ok(Handle { conn }),
        Err(e) => Err(format!("{e}")),
    }
}

/// Relies on `rusqlite::Connection::deserialize_read_exact`: it allocates a
/// region through the engine's own allocator, copies the image bytes into
/// it, and only then hands ownership to the engine as its sole, growable
/// main content. The host's buffer is never handed over, so the engine only
/// ever frees memory of its own allocator. A well-formed adopted image
/// becomes the instance's content, whose canonical serialization is the
/// image itself; of adopted bytes in no valid format nothing is promised,
/// since the engine does not validate them on adoption.
#[verifier::external_body]
pub(crate) fn adopt_image(h: &mut Handle, image: &EngineImage) -> (r: Result<(), String>)
    ensures
        r matches Ok(()) ==> (well_formed_image(image@) ==> instance_image(final(h).conn)
            == image@),
{
    let n: usize = image.data.len();
    h.conn
        .deserialize_read_exact(rusqlite::MAIN_DB, image.data.as_slice(), n, false)
        .map_err(|e| format!("{e}"))
}

/// Relies on `rusqlite::Connection::serialize`: it produces the canonical,
/// complete serialization of the instance's current main-schema content —
/// the same bytes that would be written to disk, hence a well-formed page
/// image — copied here into a host-owned buffer. This is always a
/// full-image snapshot.
#[verifier::external_body]
pub(crate) fn serialize_handle(h: &Handle) -> (r: Result<Vec<u8>, String>)
    ensures
        r matches Ok(bytes) ==> bytes@ == instance_image(h.conn),
        r matches Ok(bytes) ==> well_formed_image(bytes@),
{
    match h.conn.serialize(rusqlite::MAIN_DB) {
        Ok(data) => Ok(data.to_vec()),
        Err(e) => Err(format!("{e}")),
    }
}

/// Relies on `rusqlite::Connection::open`: binds a handle to file-backed
/// persistent storage at `path`, creating the file if it does not exist.
/// The engine manages its own file I/O, so no allocator handoff is needed.
#[verifier::external_body]
pub(crate) fn open_persistent(path: &str) -> (r: Result<Handle, String>) {
    match rusqlite::Connection::open(path) {
        Ok(conn) => Ok(Handle { conn }),
        Err(e) => Err(format!("{e}")),
    }
}

/// Relies on `rusqlite::Connection::close`: flushes and closes the instance,
/// surfacing any failure that plain dropping would swallow.
#[verifier::external_body]
pub(crate) fn close_handle(h: Handle) -> (r: Result<(), String>) {
    match h.conn.close() {
        Ok(()) => Ok(()),
        Err((_, e)) => Err(format!("{e}")),
    }
}

/// Materializes a live handle from an image: opens a fresh in-memory
/// instance, then adopts the image bytes through the engine's own allocator
/// as its sole content.
///
/// On success the handle's content is exactly the image, for any
/// well-formed image. Failure is either an engine-open failure or an
/// allocation/adoption failure, each surfaced as its own cause; there is
/// no partial state to recover.
pub fn materialize(image: &EngineImage) -> (r: Result<Handle, Error>)
    ensures
        r matches Ok(h) ==> (well_formed_image(image@) ==> h@ == image@),
        r matches Err(e) ==> (e matches Error::OpenFailed(_) || e matches Error::AllocationFailed(_)),
{
    let mut h = match fresh_handle() {
        Ok(h) => h,
        Err(m) => {
            return Err(Error::OpenFailed(m));
        },
    };
    match adopt_image(&mut h, image) {
        Ok(()) => Ok(h),
        Err(m) => Err(Error::AllocationFailed(m)),
    }
}

/// Captures the live instance back into a host-owned image: a full snapshot
/// of its current main-schema content. The handle is consumed and discarded.
///
/// Together with `materialize` this is the round trip of the bridge:
/// materializing an image and capturing the untouched handle yields the
/// image again, byte for byte.
pub fn capture(handle: Handle) -> (r: Result<EngineImage, Error>)
    ensures
        r matches Ok(img) ==> img@ == handle@,
        r matches Ok(img) ==> well_formed_image(img@),
        r matches Err(e) ==> e matches Error::CaptureFailed(_),
{
    match serialize_handle(&handle) {
        Ok(bytes) => Ok(EngineImage { data: bytes }),
        Err(m) => Err(Error::CaptureFailed(m)),
    }
}

/// The round trip of the bridge: materializes the image into a live handle
/// and captures the untouched handle straight back. Whenever it succeeds
/// on a well-formed image, the captured image equals the input byte for
/// byte: the engine's serializer is canonical for an unmodified instance.
pub fn round_trip(image: &EngineImage) -> (r: Result<EngineImage, Error>)
    ensures
        r matches Ok(out) ==> (well_formed_image(image@) ==> out@ == image@),
        r matches Ok(out) ==> well_formed_image(out@),
        r matches Err(e) ==> (e matches Error::OpenFailed(_) || e matches Error::AllocationFailed(_)
            || e matches Error::CaptureFailed(_)),
{
    let h = match materialize(image) {
        Ok(h) => h,
        Err(e) => {
            return Err(e);
        },
    };
    capture(h)
}

} // verus!
