use vstd::prelude::*;

use crate::enums::LayerType;

verus! {

/// The way an operation against the capacity-information provider failed.
///
/// A negative provider status surfaces as `Attach` (while opening the
/// attachment) or `Query` (for a single fetch). `UnimplementedKind` marks a
/// layer kind the catalog recognizes but for which no detail accessor set
/// exists yet. `CatalogViolation` marks data from the provider that breaks
/// its own contract: a type or category outside the closed enumeration, a
/// missing common attribute, or a value of the wrong kind.
#[derive(Clone, Copy, Debug, PartialEq, Eq, Structural)]
pub enum ErrorKind {
    /// The provider could not be opened; `code` is its negative status.
    Attach { code: i32 },
    /// One fetch reported a negative status; local to that query.
    Query { code: i32 },
    /// The layer kind has no detail-variant mapping yet.
    UnimplementedKind { layer_type: LayerType },
    /// The provider returned a value outside its documented contract.
    CatalogViolation { raw: i64 },
}

/// An error of the capacity-information stack; `kind` says which way the
/// operation failed.
#[derive(Clone, Copy, Debug, PartialEq, Eq, Structural)]
pub struct Error {
    /// Which way the operation failed.
    pub kind: ErrorKind,
}

} // verus!
