//! The engine-independent half of a client for an embedded full-text search
//! engine.
//!
//! The engine itself lives behind a foreign-function boundary and reports the
//! outcome of every call as a small fault code. This crate owns everything
//! that is decided on the near side of that boundary: the closed taxonomy the
//! fault codes are mapped into, the ownership discipline for engine-native
//! objects, the numeric encodings handed to the engine, and the bookkeeping of
//! every wrapper type.
//!
//! An operation runs in three steps. The wrapper says what to hand to the
//! engine (`native_mut`, `Database::open_native`, `Database::addition`,
//! `Query::operands`, `MSetIterator::position`, `XapianOp::code`,
//! `FeatureFlag::bits`); the caller makes the foreign call; and the method
//! named after the operation takes what came back, the fault code and the
//! value or native object if there is one, and gives the result of the
//! operation. Each such method says exactly what that result is, for every
//! code the engine may set.
//!
//! Native objects are carried as a type parameter, so the crate never looks
//! inside them and never copies them.

pub mod codes;
pub mod database;
pub mod document;
pub mod enquire;
pub mod error;
pub mod handle;
pub mod outcome;
pub mod query;
pub mod table;

pub use codes::{
    FeatureFlag, XapianOp, BRASS, CHERT, DB_CREATE, DB_CREATE_OR_OPEN, DB_CREATE_OR_OVERWRITE,
    DB_OPEN, IN_MEMORY, UNKNOWN,
};
pub use database::{Database, WritableDatabase};
pub use document::{Document, Stem, TermGenerator};
pub use enquire::{Enquire, MSet, MSetIterator, MultiValueKeyMaker};
pub use error::{get_xapian_err_type, ErrorKind, XError, DATABASE_CLOSED, INVALID_ARGUMENT};
pub use handle::ResourceHandle;
pub use query::{Query, QueryParser};
pub use table::FaultTable;
