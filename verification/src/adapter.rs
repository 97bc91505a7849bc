//! The execution adapter: batch statement execution and single-statement
//! query, each a self-contained session composed from the ownership bridge.
//! No state is held across calls; every entry point materializes a private
//! handle, performs one unit of work, and discards the handle before it
//! returns.

use vstd::prelude::*;

use crate::bridge;
use crate::bridge::Handle;
use crate::value::Cell;
use crate::value::EngineImage;
use crate::value::Error;
use crate::value::Row;

verus! {

#[verifier::external_type_specification]
#[verifier::external_body]
pub struct ExValue(rusqlite::types::Value);

/// Relies on `rusqlite::types::Value`: one arm per engine variant, moving
/// the payload. A Real value is carried as its IEEE-754 bit pattern, the
/// one lossless encoding this library holds invariant.
#[verifier::external_body]
fn cell_of(v: rusqlite::types::Value) -> (r: Cell) {
    match v {
        rusqlite::types::Value::Null => Cell::Null,
        rusqlite::types::Value::Integer(x) => Cell::Integer(x),
        rusqlite::types::Value::Real(x) => Cell::Real(x.to_bits()),
        rusqlite::types::Value::Text(s) => Cell::Text(s),
        rusqlite::types::Value::Blob(b) => Cell::Blob(b),
    }
}

/// Relies on `rusqlite::Connection::execute_batch`: the script runs as one
/// sequential batch and the first failing statement aborts the rest. An
/// empty script prepares no statement, succeeds, and leaves the content
/// untouched; after a non-empty script the content is whatever its
/// statements made of it, which no clause here can fix.
#[verifier::external_body]
pub(crate) fn run_batch(h: &mut Handle, script: &str) -> (r: Result<(), String>)
    ensures
        script@.len() == 0 ==> (r matches Ok(()) && final(h)@ == old(h)@),
{
    h.conn.execute_batch(script).map_err(|e| format!("{e}"))
}

/// Relies on `rusqlite::Connection::prepare` and `Statement::query_map`:
/// prepares the one statement, steps it to completion, and projects every
/// engine-native dynamic value of every result tuple through `cell_of`,
/// one `Row` per tuple, in result order. The full sequence is materialized
/// before return, because no handle outlives a call. The statement may
/// mutate the instance, so the handle is taken exclusively and nothing is
/// stated of its content afterwards.
#[verifier::external_body]
pub(crate) fn run_query(h: &mut Handle, statement: &str) -> (r: Result<Vec<Row>, String>) {
    let mut stmt = h.conn.prepare(statement).map_err(|e| format!("{e}"))?;
    let n: usize = stmt.column_count();
    stmt.query_map((), |row| {
        let mut cells = Vec::with_capacity(n);
        for i in 0..n {
            cells.push(cell_of(row.get(i)?));
        }
        Ok(Row { cells })
    }).and_then(|rows| rows.collect::<rusqlite::Result<Vec<Row>>>()).map_err(|e| format!("{e}"))
}

/// Runs a statement batch against the image as a single atomic script and
/// returns the captured result as a fresh image. A pure value transform:
/// the input image is never mutated, and on any failure no output image is
/// produced at all — the caller retains the original, unchanged.
///
/// An empty batch changes nothing: on a well-formed image it returns an
/// image equal to the input, and it can only fail in the bridge, never in
/// statement execution.
pub fn execute(image: &EngineImage, script: &str) -> (r: Result<EngineImage, Error>)
    ensures
        script@.len() == 0 ==> match r {
            Ok(out) => bridge::well_formed_image(image@) ==> out@ == image@,
            Err(e) => e matches Error::OpenFailed(_) || e matches Error::AllocationFailed(_)
                || e matches Error::CaptureFailed(_),
        },
        r matches Ok(out) ==> bridge::well_formed_image(out@),
        r matches Err(e) ==> (e matches Error::OpenFailed(_) || e matches Error::AllocationFailed(_)
            || e matches Error::StatementFailed(_) || e matches Error::CaptureFailed(_)),
{
    let mut h = match bridge::materialize(image) {
        Ok(h) => h,
        Err(e) => {
            return Err(e);
        },
    };
    match run_batch(&mut h, script) {
        Ok(()) => (),
        Err(m) => {
            return Err(Error::StatementFailed(m));
        },
    }
    bridge::capture(h)
}

/// Runs one statement against the image with read intent and returns the
/// projected rows. The handle is discarded without capturing, so an effect
/// of a mutating statement routed through here is never persisted: callers
/// must route mutating statements through `execute` instead.
pub fn query(image: &EngineImage, statement: &str) -> (r: Result<Vec<Row>, Error>)
    ensures
        r matches Err(e) ==> (e matches Error::OpenFailed(_) || e matches Error::AllocationFailed(_)
            || e matches Error::StatementFailed(_)),
{
    let mut h = match bridge::materialize(image) {
        Ok(h) => h,
        Err(e) => {
            return Err(e);
        },
    };
    match run_query(&mut h, statement) {
        Ok(rows) => Ok(rows),
        Err(m) => Err(Error::StatementFailed(m)),
    }
}

/// Materializes a fresh, empty engine instance and immediately captures it:
/// the canonical "empty database" image used as a default or seed value.
pub fn create_empty() -> (r: Result<EngineImage, Error>)
    ensures
        r matches Ok(img) ==> bridge::well_formed_image(img@),
        r matches Err(e) ==> (e matches Error::OpenFailed(_) || e matches Error::CaptureFailed(_)),
{
    let h = match bridge::fresh_handle() {
        Ok(h) => h,
        Err(m) => {
            return Err(Error::OpenFailed(m));
        },
    };
    bridge::capture(h)
}

/// Builds an image from scratch: runs the script against a fresh, empty
/// instance and captures the result.
pub fn init(script: &str) -> (r: Result<EngineImage, Error>)
    ensures
        r matches Ok(img) ==> bridge::well_formed_image(img@),
        r matches Err(e) ==> (e matches Error::OpenFailed(_) || e matches Error::StatementFailed(_)
            || e matches Error::CaptureFailed(_)),
{
    let mut h = match bridge::fresh_handle() {
        Ok(h) => h,
        Err(m) => {
            return Err(Error::OpenFailed(m));
        },
    };
    match run_batch(&mut h, script) {
        Ok(()) => (),
        Err(m) => {
            return Err(Error::StatementFailed(m));
        },
    }
    bridge::capture(h)
}

/// The one maintenance operation callers need without hand-writing SQL:
/// rebuilds the image compactly by running the engine's VACUUM statement.
pub fn vacuum(image: &EngineImage) -> (r: Result<EngineImage, Error>)
    ensures
        r matches Ok(img) ==> bridge::well_formed_image(img@),
        r matches Err(e) ==> (e matches Error::OpenFailed(_) || e matches Error::AllocationFailed(_)
            || e matches Error::StatementFailed(_) || e matches Error::CaptureFailed(_)),
{
    execute(image, "VACUUM")
}

} // verus!
