//! Field-by-field mapping between record schemas.
//!
//! Given a *source* record and a *target* record, each a flat list of named,
//! typed fields, the library decides for every field the two have in common
//! how a source value becomes the target value: assigned as it is, wrapped in
//! `Some`, taken out of an `Option` when it is present, or not at all. The
//! decisions for one source, one target and one [`mode::Mode`] form a
//! [`generate::MappingPlan`]; fields that cannot be mapped are recorded in the
//! plan next to those that can, so that one mistake never hides the rest.
//!
//! From the bottom up:
//!
//! - [`types`] and [`schema`] hold type expressions and records as plain
//!   values, and [`syntax`] reads them from source text. It is the only
//!   module that talks to the parser.
//! - [`field`] tells `Option<T>` from `T`, [`mapping`] decides what to do
//!   with a pair of fields, and [`matching`] says which fields form a pair.
//! - [`generate`] builds the plan for a source and a target, and the plans
//!   for all targets that a source names. [`module`] finds a target by its
//!   path, [`parse`] reads the paths from the source's annotation, and
//!   [`derive`] starts from the text of the source.
//! - [`diagnostic`] puts what went wrong into words.
//! - [`value`] says what carrying out a plan means for the values of a field,
//!   and [`render`] writes the plan out, statement by statement.
//! - [`merge`] holds the traits that a merge implements, and [`samples`] a
//!   few records that implement them by hand.
//!
//! The data types of the mapping have views, their values with the strings
//! spelled out as sequences of characters, and the contracts are stated over
//! views.

pub mod types;
pub mod field;
pub mod schema;
pub mod syntax;
pub mod mode;
pub mod mapping;
pub mod matching;
pub mod generate;
pub mod module;
pub mod parse;
pub mod derive;
pub mod diagnostic;
pub mod value;
pub mod render;
pub mod merge;
pub mod samples;
