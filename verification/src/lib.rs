//! A typed data-access layer built from declarative SQL operation
//! declarations.
//!
//! An interface declaration names a set of SQL operations; each operation
//! carries a name, an ordered parameter list, a literal query text and a
//! declared result type. This crate validates such a declaration, extracts
//! each operation's signature, classifies the declared result type into one
//! of four row shapes (single record, optional record, list of records, or a
//! lazily produced stream of records), and compiles the whole declaration
//! into a plan of typed callables. At run time, the shape-dispatch decoder
//! turns the ordered row results handed back by a database executor into the
//! exact value shape the caller declared, or into a well-defined error.
//!
//! The database engine itself (connections, transactions, SQL execution and
//! per-row field decoding) is an external collaborator: an unverified driver
//! runs the queries and feeds each pulled row to the decoder defined here.

pub mod compile;
pub mod decl;
pub mod decode;
pub mod error;
pub mod machine;
pub mod shape;
