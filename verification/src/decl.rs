//! The declaration model: what an interface declaration and its operations
//! look like once they are read off the declaration surface.
//!
//! Values of these types are plain data. They carry exactly what the
//! declaration compiler inspects: the structural flags of the declared
//! interface, each member, and for each operation its name, attributes,
//! parameters and declared result type.

use vstd::prelude::*;

verus! {

/// A structural description of a declared type, as far as the compiler
/// reads it. Only the three recognized wrapper families are decomposed;
/// every other type is kept whole under its source text.
pub enum TypeDesc {
    /// No declared type: the unit / empty-result type.
    Unit,
    /// A type that is not a recognized wrapper, kept as its source text.
    Named { name: String },
    /// An optional wrapper around an inner type.
    Optional { inner: Box<TypeDesc> },
    /// An eagerly materialized sequence of an inner type.
    Sequence { inner: Box<TypeDesc> },
    /// A lazily produced sequence of an inner type.
    LazyStream { inner: Box<TypeDesc> },
}

/// One declared parameter of an operation.
pub enum ParamDecl {
    /// A simple named-and-typed binding.
    Named { name: String, ty: TypeDesc },
    /// Anything else (a destructuring pattern, an untyped binding).
    Unsupported,
}

/// One attribute on an operation declaration. A recognized query attribute
/// is named `query` and carries its literal text as the value.
pub struct AttrDecl {
    pub name: String,
    /// The literal value of a name-value attribute; absent otherwise.
    pub value: Option<String>,
}

/// One declared operation: a named query with parameters, attributes and a
/// declared result type.
pub struct OperationDecl {
    pub name: String,
    pub is_async: bool,
    pub has_default_body: bool,
    pub attrs: Vec<AttrDecl>,
    pub params: Vec<ParamDecl>,
    /// The declared result type; absent means the unit result type.
    pub result_ty: Option<TypeDesc>,
}

/// One member of the declared interface.
pub enum TraitMember {
    Operation { op: OperationDecl },
    /// Any member that is not an operation (an associated constant, an
    /// associated type, a macro invocation).
    Unsupported,
}

/// The declared interface: its structural flags and its members.
pub struct TraitDecl {
    pub name: String,
    pub is_unsafe: bool,
    pub is_auto: bool,
    pub has_restriction: bool,
    pub has_generics: bool,
    pub has_where_clause: bool,
    pub has_supertraits: bool,
    pub members: Vec<TraitMember>,
}

/// The argument handed to the declaration compiler beside the interface:
/// a single `key = value` pair naming the target database engine.
pub struct InterfaceArgs {
    pub key: String,
    pub database: String,
}

} // verus!
