//! The value model: the byte image of a whole database, the tagged cell and
//! row representation of query results, and the error taxonomy.

use vstd::prelude::*;

verus! {

/// A complete, self-contained database page image (schema + data), owned by
/// the host. Immutable once produced; the only operations on it are to
/// materialize it into a live handle or to write it to persistent storage.
#[derive(Debug, Clone, PartialEq, Eq)]
pub struct EngineImage {
    pub data: Vec<u8>,
}

impl View for EngineImage {
    type V = Seq<u8>;

    open spec fn view(&self) -> Seq<u8> {
        self.data@
    }
}

/// One tagged result value, mirroring the embedded engine's dynamic column
/// typing exactly: no coercion happens at this layer.
///
/// A `Real` column value is carried as its IEEE-754 bit pattern (`u64`), a
/// lossless encoding chosen once and held invariant; callers that need the
/// floating-point value reinterpret the bits.
#[derive(Debug, Clone, PartialEq)]
pub enum Cell {
    Null,
    Integer(i64),
    Real(u64),
    Text(String),
    Blob(Vec<u8>),
}

/// One result tuple: an ordered, position-significant sequence of cells.
#[derive(Debug, Clone, PartialEq)]
pub struct Row {
    pub cells: Vec<Cell>,
}

impl View for Row {
    type V = Seq<Cell>;

    open spec fn view(&self) -> Seq<Cell> {
        self.cells@
    }
}

/// The error taxonomy. Every failure of a call surfaces as one of these
/// distinct, attributable causes; no partially-applied image is ever
/// produced. A cell read with a mismatched accessor is not an error at all:
/// it yields a typed absence (`None`) instead.
#[derive(Debug, Clone, PartialEq, Eq)]
pub enum Error {
    /// The engine could not open an instance (malformed or incompatible
    /// image, or unreadable persistent storage).
    OpenFailed(String),
    /// The engine's own allocator could not satisfy the adoption of the
    /// image bytes.
    AllocationFailed(String),
    /// A statement in a batch or query was malformed or violated a
    /// constraint; the batch was aborted with no output produced.
    StatementFailed(String),
    /// The live engine could not serialize its content back into an image.
    CaptureFailed(String),
    /// A table name failed the identifier allow-list check; no statement
    /// was executed.
    InvalidIdentifier,
    /// The destination could not be written, or the page-copy retry ceiling
    /// was exceeded.
    BackupFailed(String),
}

/// Strict projection of one addressed cell as text: present exactly when the
/// index is in range and the cell's tag is `Text`.
pub fn as_text(row: &Row, index: usize) -> (r: Option<String>)
    ensures
        match r {
            Some(s) => index < row@.len() && (row@[index as int] matches Cell::Text(t) && s@ == t@),
            None => !(index < row@.len() && row@[index as int] matches Cell::Text(_)),
        },
{
    if index < row.cells.len() {
        match &row.cells[index] {
            Cell::Text(t) => Some(t.clone()),
            _ => None,
        }
    } else {
        None
    }
}

/// Strict projection of one addressed cell as a 64-bit signed integer:
/// present exactly when the index is in range and the cell's tag is
/// `Integer`. An `Integer` request against a `Real` cell yields absence,
/// never a coercion.
pub fn as_integer(row: &Row, index: usize) -> (r: Option<i64>)
    ensures
        match r {
            Some(v) => index < row@.len() && row@[index as int] == Cell::Integer(v),
            None => !(index < row@.len() && row@[index as int] matches Cell::Integer(_)),
        },
{
    if index < row.cells.len() {
        match &row.cells[index] {
            Cell::Integer(v) => Some(*v),
            _ => None,
        }
    } else {
        None
    }
}

/// Strict projection of one addressed cell as a real: present exactly when
/// the index is in range and the cell's tag is `Real`. The value is the
/// IEEE-754 bit pattern of the column's 64-bit floating-point value.
pub fn as_real(row: &Row, index: usize) -> (r: Option<u64>)
    ensures
        match r {
            Some(v) => index < row@.len() && row@[index as int] == Cell::Real(v),
            None => !(index < row@.len() && row@[index as int] matches Cell::Real(_)),
        },
{
    if index < row.cells.len() {
        match &row.cells[index] {
            Cell::Real(v) => Some(*v),
            _ => None,
        }
    } else {
        None
    }
}

/// Strict projection of one addressed cell as a byte sequence: present
/// exactly when the index is in range and the cell's tag is `Blob`.
pub fn as_blob(row: &Row, index: usize) -> (r: Option<Vec<u8>>)
    ensures
        match r {
            Some(b) => index < row@.len() && (row@[index as int] matches Cell::Blob(c) && b@ == c@),
            None => !(index < row@.len() && row@[index as int] matches Cell::Blob(_)),
        },
{
    if index < row.cells.len() {
        match &row.cells[index] {
            Cell::Blob(b) => Some(b.clone()),
            _ => None,
        }
    } else {
        None
    }
}

} // verus!
