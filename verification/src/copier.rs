//! The durability copier: block-level copy from a live in-memory handle to
//! a persistent-storage handle, with bounded retry, and the import of a
//! persistent file back into an image.
//!
//! This is the only component that touches two live handles at once and the
//! only one with a retry policy: the engine's backup is inherently
//! incremental and must tolerate a concurrent reader on the source, so a
//! step blocked by a transient lock is retried, a bounded number of times.

use vstd::prelude::*;

use crate::bridge;
use crate::bridge::Handle;
use crate::value::EngineImage;
use crate::value::Error;

verus! {

#[verifier::external_type_specification]
#[verifier::external_body]
pub struct ExBackup<'a, 'b>(rusqlite::backup::Backup<'a, 'b>);

/// How many source pages one copy step moves at most.
pub const PAGES_PER_STEP: i32 = 5;

/// How many lock-blocked copy steps are retried before the copy gives up.
pub const RETRY_CEILING: u32 = 8;

/// How many copy steps a single export may take in all. The copy loop is
/// bounded — it can never block indefinitely — and the budget is generous:
/// it covers millions of source pages.
pub const STEP_BUDGET: u32 = 1000000;

/// How long the engine's busy handler may wait on a lock, per step, in
/// milliseconds.
pub const LOCK_WAIT_MS: u64 = 250;

/// What one copy step came to.
enum StepOutcome {
    /// The copy is complete.
    Done,
    /// The step succeeded and source pages remain.
    More,
    /// A transient lock blocked the step; it may be retried.
    Retry,
    /// A non-retryable engine error.
    Failed(String),
}

/// What a whole copy came to.
enum CopyOutcome {
    Completed,
    LockedOut,
    Failed(String),
}

/// Relies on `rusqlite::backup::Backup::new`: registers a page-level backup
/// of the main schema from the live source instance to the destination
/// instance. The engine forbids other API calls on the destination while a
/// backup runs, so the destination stays exclusively borrowed for the
/// backup's whole lifetime.
#[verifier::external_body]
fn backup_new<'a, 'b>(src: &'a Handle, dst: &'b mut Handle) -> (r: Result<
    rusqlite::backup::Backup<'a, 'b>,
    String,
>) {
    rusqlite::backup::Backup::new(&src.conn, &mut dst.conn).map_err(|e| format!("{e}"))
}

/// Relies on `rusqlite::backup::Backup::step`: copies up to `pages` source
/// pages. `Done` when the copy is complete, `More` when the step succeeded
/// with pages remaining, `Retry` when a transient lock on the source or the
/// destination blocked the step (the engine documents both as retryable),
/// `Failed` on any other engine error.
#[verifier::external_body]
fn backup_step<'a, 'b>(b: &rusqlite::backup::Backup<'a, 'b>, pages: i32) -> (r: StepOutcome) {
    match b.step(pages) {
        Ok(rusqlite::backup::StepResult::Done) => StepOutcome::Done,
        Ok(rusqlite::backup::StepResult::More) => StepOutcome::More,
        Ok(rusqlite::backup::StepResult::Busy) => StepOutcome::Retry,
        Ok(rusqlite::backup::StepResult::Locked) => StepOutcome::Retry,
        Ok(_) => StepOutcome::Failed(format!("unrecognized backup step result")),
        Err(e) => StepOutcome::Failed(format!("{e}")),
    }
}

/// Relies on `rusqlite::Connection::busy_timeout`: installs the engine's
/// own busy handler, which sleeps in short slices until the lock clears or
/// until `ms` milliseconds have accumulated — the fixed short wait behind
/// each retried copy step. The callee aborts on a wait that does not fit
/// in a signed 32-bit millisecond count, so only such waits are admitted.
#[verifier::external_body]
fn set_busy_timeout(h: &Handle, ms: u64) -> (r: Result<(), String>)
    requires
        ms < 0x8000_0000,
{
    h.conn.busy_timeout(std::time::Duration::from_millis(ms)).map_err(|e| format!("{e}"))
}

/// Drives the page-level copy: steps of at most `PAGES_PER_STEP` pages,
/// with a step blocked by a transient lock retried up to `RETRY_CEILING`
/// times in all. Exceeding the ceiling gives `LockedOut`; any non-lock
/// error aborts the copy.
fn run_copy(src: &Handle, dst: &mut Handle) -> (r: CopyOutcome) {
    let b = match backup_new(src, dst) {
        Ok(b) => b,
        Err(m) => {
            return CopyOutcome::Failed(m);
        },
    };
    let mut retries: u32 = 0;
    let mut steps: u32 = 0;
    loop
        invariant
            retries <= RETRY_CEILING,
            steps <= STEP_BUDGET,
        decreases STEP_BUDGET - steps,
    {
        if steps == STEP_BUDGET {
            return CopyOutcome::Failed("copy step budget exhausted".to_owned());
        }
        steps = steps + 1;
        match backup_step(&b, PAGES_PER_STEP) {
            StepOutcome::Done => {
                return CopyOutcome::Completed;
            },
            StepOutcome::More => {},
            StepOutcome::Retry => {
                if retries == RETRY_CEILING {
                    return CopyOutcome::LockedOut;
                }
                retries = retries + 1;
            },
            StepOutcome::Failed(m) => {
                return CopyOutcome::Failed(m);
            },
        }
    }
}

/// Copies the image to persistent storage at `destination`: materializes a
/// source handle, opens a destination handle, and runs the bounded-retry
/// page copy. `Ok(true)` means the destination was fully copied, flushed
/// and closed; `Ok(false)` means the retry ceiling was exceeded on a locked
/// page; a destination that cannot be opened, or any non-lock engine error,
/// is a distinct backup failure.
pub fn export(image: &EngineImage, destination: &str) -> (r: Result<bool, Error>)
    ensures
        r matches Err(e) ==> (e matches Error::OpenFailed(_) || e matches Error::AllocationFailed(_)
            || e matches Error::BackupFailed(_)),
{
    let src = match bridge::materialize(image) {
        Ok(h) => h,
        Err(e) => {
            return Err(e);
        },
    };
    let mut dst = match bridge::open_persistent(destination) {
        Ok(h) => h,
        Err(m) => {
            return Err(Error::BackupFailed(m));
        },
    };
    match set_busy_timeout(&dst, LOCK_WAIT_MS) {
        Ok(()) => (),
        Err(m) => {
            return Err(Error::BackupFailed(m));
        },
    }
    match run_copy(&src, &mut dst) {
        CopyOutcome::Completed => match bridge::close_handle(dst) {
            Ok(()) => Ok(true),
            Err(m) => Err(Error::BackupFailed(m)),
        },
        CopyOutcome::LockedOut => Ok(false),
        CopyOutcome::Failed(m) => Err(Error::BackupFailed(m)),
    }
}

/// Imports a persistent database file into a host-owned image: opens a
/// handle directly from `path`, captures its full content, and discards
/// the handle. Single reader, single pass: no retry is needed.
pub fn import(path: &str) -> (r: Result<EngineImage, Error>)
    ensures
        r matches Ok(img) ==> bridge::well_formed_image(img@),
        r matches Err(e) ==> (e matches Error::OpenFailed(_) || e matches Error::CaptureFailed(_)),
{
    let h = match bridge::open_persistent(path) {
        Ok(h) => h,
        Err(m) => {
            return Err(Error::OpenFailed(m));
        },
    };
    bridge::capture(h)
}

} // verus!
