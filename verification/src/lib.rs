//! A verified core for embedding a slot-based scripting virtual machine.
//!
//! The embedded interpreter itself is an external black box; this crate
//! verifies everything that surrounds it: the slot value codec, the
//! type-tagged foreign cell with runtime borrow tracking, the handle
//! lifetime system with its deferred release queue, the binding registry,
//! and the error aggregation pipeline that shapes interpreter callbacks
//! into structured results.

pub mod types;
pub mod text;
pub mod errors;
pub mod class;
pub mod sig;
pub mod foreign;
pub mod vm;
pub mod value;
pub mod handle;
pub mod list;
pub mod module;
pub mod runtime;
