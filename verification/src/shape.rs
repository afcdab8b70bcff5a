//! The shape classifier: maps a declared result type to one of a closed set
//! of row shapes, by structural inspection alone.
//!
//! Classification tries the wrapper families in a fixed priority order —
//! eager sequence, then optional, then lazy sequence — and defaults to
//! `Single` when no wrapper matches, in which case the type itself is the
//! record type. Nested wrappers are not decomposed further: only the
//! outermost recognized wrapper governs the shape, and the inner type is
//! kept as-is.

use vstd::prelude::*;

use crate::decl::TypeDesc;

verus! {

/// The closed set of row shapes a declared result type can take.
#[derive(Clone, Copy, PartialEq, Eq, Structural, Debug)]
pub enum Shape {
    /// Exactly one row is expected; the type itself is the record type.
    Single,
    /// At most one row is expected.
    Optional,
    /// Any number of rows, materialized eagerly in arrival order.
    List,
    /// Any number of rows, produced lazily one pull at a time.
    Stream,
}

/// The shape a declared result type classifies to.
pub open spec fn shape_of(ty: TypeDesc) -> Shape {
    match ty {
        TypeDesc::Sequence { .. } => Shape::List,
        TypeDesc::Optional { .. } => Shape::Optional,
        TypeDesc::LazyStream { .. } => Shape::Stream,
        _ => Shape::Single,
    }
}

/// The record type inside a declared result type: the wrapped type for a
/// recognized wrapper, the type itself otherwise.
pub open spec fn inner_of(ty: TypeDesc) -> TypeDesc {
    match ty {
        TypeDesc::Sequence { inner } => *inner,
        TypeDesc::Optional { inner } => *inner,
        TypeDesc::LazyStream { inner } => *inner,
        other => other,
    }
}

/// Whether a type is one of the recognized wrapper families.
pub open spec fn is_wrapper(ty: TypeDesc) -> bool {
    shape_of(ty) != Shape::Single
}

/// A structural probe of a declared type for its row-shape category.
pub trait Probe {
    /// The shape this type classifies to.
    spec fn category_spec(&self) -> Shape;

    /// Classify this type, without looking inside any wrapper.
    fn category(&self) -> (s: Shape)
        ensures
            s == self.category_spec(),
    ;
}

impl Probe for TypeDesc {
    open spec fn category_spec(&self) -> Shape {
        shape_of(*self)
    }

    fn category(&self) -> (s: Shape) {
        match self {
            TypeDesc::Sequence { .. } => Shape::List,
            TypeDesc::Optional { .. } => Shape::Optional,
            TypeDesc::LazyStream { .. } => Shape::Stream,
            TypeDesc::Unit => Shape::Single,
            TypeDesc::Named { .. } => Shape::Single,
        }
    }
}

/// The result of classifying a declared result type: the shape that governs
/// decoding, and the record type the rows decode into.
pub struct FromRowsCategory {
    pub shape: Shape,
    pub inner: TypeDesc,
}

/// Classify a declared result type into its shape and record type.
///
/// The wrapper families are tried in a fixed priority order (sequence,
/// optional, lazy sequence); anything else is a `Single` whose record type
/// is the type itself.
pub fn classify(ty: TypeDesc) -> (c: FromRowsCategory)
    ensures
        c.shape == shape_of(ty),
        c.inner == inner_of(ty),
{
    match ty {
        TypeDesc::Sequence { inner } => FromRowsCategory { shape: Shape::List, inner: *inner },
        TypeDesc::Optional { inner } => FromRowsCategory { shape: Shape::Optional, inner: *inner },
        TypeDesc::LazyStream { inner } => FromRowsCategory { shape: Shape::Stream, inner: *inner },
        other => FromRowsCategory { shape: Shape::Single, inner: other },
    }
}

} // verus!
