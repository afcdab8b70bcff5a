//! The error taxonomy: generation-time declaration errors, and the run-time
//! errors a shaped query result can carry.

use vstd::prelude::*;

verus! {

/// An error indicating that a query which expected 1 (or fewer) rows
/// received multiple rows.
#[derive(Clone, Copy, PartialEq, Eq, Structural, Debug)]
pub struct MultipleRowsFound;

impl MultipleRowsFound {
    /// A human-readable description of this error.
    pub fn describe(&self) -> (s: &'static str)
        ensures
            s@ == "Multiple rows found when at most one was expected"@,
    {
        "Multiple rows found when at most one was expected"
    }
}

/// The run-time error of one shaped query result. `E` is the external
/// executor's error type: execution errors and per-row decode errors are
/// propagated unchanged inside it.
#[derive(Debug)]
pub enum QueryError<E> {
    /// A single-record operation saw no row at all.
    RowNotFound,
    /// A single- or optional-record operation saw a second pull succeed.
    MultipleRows(MultipleRowsFound),
    /// Pulling a row from the executor failed; the executor's error is
    /// propagated unchanged.
    Execute(E),
    /// A pulled row could not be decoded into the record type; the decode
    /// error is propagated unchanged.
    Decode(E),
}

/// A generation-time declaration error. Every variant names the offending
/// member by its index in the interface declaration, so the failure is
/// reported at the declaration and never deferred to run time.
#[derive(Clone, Copy, PartialEq, Eq, Structural, Debug)]
pub enum DeclError {
    /// The argument beside the interface was not the database-engine tag.
    UnsupportedArgument,
    /// The interface itself uses an unsupported construct: a generic
    /// parameter, a where-clause, an unsafe or auto modifier, a
    /// restriction, or a supertrait.
    UnsupportedTraitFeature,
    /// A member of the interface is not an operation declaration.
    NonOperationMember { index: usize },
    /// An operation carries a default body.
    DefaultBody { index: usize },
    /// An operation is not marked asynchronous.
    NotAsync { index: usize },
    /// An operation carries an attribute other than a recognized query
    /// attribute.
    UnexpectedAttribute { index: usize },
    /// An operation has no query attribute at all.
    MissingQueryAttribute { index: usize },
    /// An operation has more than one query attribute.
    DuplicateQueryAttribute { index: usize },
    /// An operation's query attribute carries no literal text.
    MalformedQueryAttribute { index: usize },
    /// A parameter is not a simple named-and-typed binding.
    MalformedParameter { index: usize },
    /// The declared result type nests one recognized wrapper directly
    /// inside another; such nesting is rejected rather than guessed at.
    NestedWrapper { index: usize },
}

} // verus!
