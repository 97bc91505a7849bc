//! Catalog reads and the identifier-guarded row count: read-only queries
//! against the engine's own catalog, and the allow-list check that keeps a
//! caller-supplied table name from smuggling statement text into a query.

use vstd::prelude::*;

use crate::adapter;
use crate::value::as_integer;
use crate::value::Cell;
use crate::value::EngineImage;
use crate::value::Error;
use crate::value::Row;

verus! {

use vstd::string::StringExecFns;

/// Whether the character is alphanumeric in the Unicode sense (class
/// Alphabetic or a number).
pub uninterp spec fn unicode_alnum(c: char) -> bool;

/// Relies on `char::is_alphanumeric`: membership in the Unicode Alphabetic
/// or number classes, a function of the character alone.
#[verifier::external_body]
fn char_alphanumeric(c: char) -> (r: bool)
    ensures
        r == unicode_alnum(c),
{
    c.is_alphanumeric()
}

/// The identifier allow-list: letters, digits and the underscore only.
pub open spec fn ident_char(c: char) -> bool {
    unicode_alnum(c) || c == '_'
}

/// A table name is valid exactly when every one of its characters is on
/// the allow-list. Anything else — whitespace, quotes, a semicolon — is
/// rejected before any statement text is assembled.
pub open spec fn valid_table_name(s: Seq<char>) -> bool {
    forall|i: int| 0 <= i < s.len() ==> ident_char(s[i])
}

fn ident_char_exec(c: char) -> (r: bool)
    ensures
        r == ident_char(c),
{
    char_alphanumeric(c) || c == '_'
}

/// Checks a caller-supplied table name against the identifier allow-list.
pub fn check_table_name(name: &str) -> (r: bool)
    ensures
        r == valid_table_name(name@),
{
    broadcast use vstd::string::axiom_spec_iter;

    let mut ok: bool = true;
    for c in it: name.chars()
        invariant
            it.seq() == name@,
            ok <==> (forall|i: int| 0 <= i < it.index() ==> ident_char(it.seq()[i])),
    {
        ok = ok && ident_char_exec(c);
    }
    ok
}

/// The text in the first cell of a row, if the row has a first cell and
/// its tag is `Text`.
pub open spec fn text_at0(cells: Seq<Cell>) -> Option<Seq<char>> {
    if cells.len() > 0 {
        match cells[0] {
            Cell::Text(t) => Some(t@),
            _ => None,
        }
    } else {
        None
    }
}

/// Extracts the first column of every row as text, in row order: present
/// exactly when every row has a first cell tagged `Text`.
fn first_column_texts(rows: &Vec<Row>) -> (r: Option<Vec<String>>)
    ensures
        match r {
            Some(names) => names@.len() == rows@.len() && (forall|i: int|
                0 <= i < rows@.len() ==> (#[trigger] text_at0(rows@[i]@)) == Some(names@[i]@)),
            None => exists|i: int| 0 <= i < rows@.len() && text_at0(rows@[i]@) is None,
        },
{
    let mut names: Vec<String> = Vec::new();
    let n: usize = rows.len();
    for idx in 0..n
        invariant
            n == rows@.len(),
            names@.len() == idx,
            forall|i: int| 0 <= i < idx ==> (#[trigger] text_at0(rows@[i]@)) == Some(names@[i]@),
    {
        if rows[idx].cells.len() == 0 {
            return None;
        }
        match &rows[idx].cells[0] {
            Cell::Text(t) => names.push(t.clone()),
            _ => {
                return None;
            },
        }
    }
    Some(names)
}

/// The names of all tables in the image, read from the engine's own
/// catalog. An empty database yields an empty sequence.
pub fn list_tables(image: &EngineImage) -> (r: Result<Vec<String>, Error>)
    ensures
        r matches Err(e) ==> (e matches Error::OpenFailed(_) || e matches Error::AllocationFailed(_)
            || e matches Error::StatementFailed(_)),
{
    let rows = match adapter::query(image, "SELECT name FROM sqlite_master WHERE type='table'") {
        Ok(rows) => rows,
        Err(e) => {
            return Err(e);
        },
    };
    match first_column_texts(&rows) {
        Some(names) => Ok(names),
        None => Err(Error::StatementFailed("catalog row without a text name".to_owned())),
    }
}

/// The DDL text of every schema object in the image, read from the
/// engine's own catalog. An empty database yields an empty sequence.
pub fn schema(image: &EngineImage) -> (r: Result<Vec<String>, Error>)
    ensures
        r matches Err(e) ==> (e matches Error::OpenFailed(_) || e matches Error::AllocationFailed(_)
            || e matches Error::StatementFailed(_)),
{
    let rows = match adapter::query(image, "SELECT sql FROM sqlite_master WHERE sql IS NOT NULL") {
        Ok(rows) => rows,
        Err(e) => {
            return Err(e);
        },
    };
    match first_column_texts(&rows) {
        Some(texts) => Ok(texts),
        None => Err(Error::StatementFailed("catalog row without text".to_owned())),
    }
}

/// Counts the rows of one table. The engine's query language has no bind
/// parameter for an unquoted identifier, so the table name is first held
/// to the identifier allow-list and only then spliced into the counting
/// query: a name with any other character is rejected as invalid input,
/// with no statement executed — an invalid identifier is reported if and
/// only if the name fails the allow-list.
pub fn count_rows(image: &EngineImage, table_name: &str) -> (r: Result<i64, Error>)
    ensures
        !valid_table_name(table_name@) <==> (r matches Err(e) && e matches Error::InvalidIdentifier),
        r matches Err(e) ==> (e matches Error::InvalidIdentifier || e matches Error::OpenFailed(_)
            || e matches Error::AllocationFailed(_) || e matches Error::StatementFailed(_)),
{
    if !check_table_name(table_name) {
        return Err(Error::InvalidIdentifier);
    }
    let mut sql = "SELECT COUNT(*) FROM ".to_owned();
    sql.append(table_name);
    let rows = match adapter::query(image, sql.as_str()) {
        Ok(rows) => rows,
        Err(e) => {
            return Err(e);
        },
    };
    if rows.len() == 0 {
        return Err(Error::StatementFailed("count query returned no row".to_owned()));
    }
    match as_integer(&rows[0], 0) {
        Some(v) => Ok(v),
        None => Err(Error::StatementFailed("count query returned no integer".to_owned())),
    }
}

} // verus!
