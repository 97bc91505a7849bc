//! An embedded SQL database as a single opaque byte value.
//!
//! The library turns an immutable byte image of an embedded SQLite database
//! into a live, private engine instance, performs one unit of work against
//! it, and captures a fresh image before the call returns. Query results are
//! projected into a host-neutral tagged-cell row representation.

pub mod adapter;
pub mod bridge;
pub mod copier;
pub mod projector;
pub mod value;

pub use adapter::create_empty;
pub use adapter::execute;
pub use adapter::init;
pub use adapter::query;
pub use adapter::vacuum;
pub use bridge::capture;
pub use copier::export;
pub use copier::import;
pub use projector::count_rows;
pub use projector::list_tables;
pub use projector::schema;
pub use bridge::materialize;
pub use bridge::round_trip;
pub use bridge::Handle;
pub use projector::check_table_name;
pub use value::as_blob;
pub use value::as_integer;
pub use value::as_real;
pub use value::as_text;
pub use value::Cell;
pub use value::EngineImage;
pub use value::Error;
pub use value::Row;
