//! Generator of builder types for plain records.
//!
//! Given the declaration of a record with named fields, the crate produces the
//! source of a companion builder: a type with one optional slot per field, a
//! constructor that leaves every slot empty, one fluent setter per field and a
//! `build` operation that checks that every required field is present.
//!
//! * [`types`] holds the shape of a declared type and the classifier that
//!   tells declared-optional fields from required ones.
//! * [`schema`] holds the record schema and the shape of the builder that is
//!   derived from it.
//! * [`emit`] writes the builder's source text.
//! * [`extract`] reads a declaration with `syn` and ties the parts together.
//! * [`instance`] is the builder at run time: slots, setters and `build`.
//! * [`laws`] proves what holds of every builder.

pub mod emit;
pub mod extract;
pub mod instance;
pub mod laws;
pub mod schema;
pub mod types;

pub use extract::{extract_schema, DeriveError};
pub use types::is_optional;
