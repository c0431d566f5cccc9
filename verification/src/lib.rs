//! A compact, polymorphic representation for the operation attached to one
//! step of a large instruction sequence, together with the instruction record
//! that bundles that operation with its operand references.
//!
//! The common operations come from a small closed enumeration and are stored
//! inline in a single tagged word; the open-ended operations live in owned
//! heap records that carry an opaque handle to an externally managed object.
//! The encoding, the record types, the per-step instruction record and the
//! equality, copy and materialization protocols over them are all verified.

use vstd::prelude::*;

pub mod class_table;
pub mod gates;
pub mod handle;
pub mod instruction;
pub mod instructions;
pub mod packed_op;
pub mod params;
pub mod records;

verus! {

/// A construction-time failure of the packed encoding.
#[derive(Clone, Copy, Debug, PartialEq, Eq, Structural)]
pub enum PackError {
    /// An immediate value does not fit the inline payload field.  The caller
    /// may recover by choosing a heap record instead.
    PayloadOverflow,
}

} // verus!
