//! The declaration compiler: validate a declared interface, extract each
//! operation's signature, classify its declared result type, and produce
//! the compiled plan the runtime receivers are built from.
//!
//! Validation is a separate pass from synthesis: [`validate_interface`]
//! only diagnoses, while [`compile_interface`] runs the same checks and,
//! when they all pass, assembles one [`CompiledOperation`] per declared
//! operation. Every failure is reported with the index of the offending
//! member, at generation time; a declaration that compiles has, for each
//! operation, its query text, its parameters in declared order (binding is
//! positional, so this order is exactly the binding order), and the shape
//! its declared result type classifies to.

use vstd::prelude::*;

use crate::decl::AttrDecl;
use crate::decl::InterfaceArgs;
use crate::decl::OperationDecl;
use crate::decl::ParamDecl;
use crate::decl::TraitDecl;
use crate::decl::TraitMember;
use crate::decl::TypeDesc;
use crate::error::DeclError;
use crate::shape::Shape;
use crate::shape::classify;
use crate::shape::inner_of;
use crate::shape::is_wrapper;
use crate::shape::shape_of;

verus! {

/// Whether an attribute is the recognized query attribute.
pub open spec fn attr_is_query(a: AttrDecl) -> bool {
    a.name@ == "query"@
}

/// Whether every attribute of an operation is a query attribute.
pub open spec fn all_query_attrs(attrs: Seq<AttrDecl>) -> bool {
    forall|i: int| 0 <= i < attrs.len() ==> attr_is_query(#[trigger] attrs[i])
}

/// The declared result type, with the unit type standing in where none
/// was declared.
pub open spec fn declared_or_unit(t: Option<TypeDesc>) -> TypeDesc {
    match t {
        Some(ty) => ty,
        None => TypeDesc::Unit,
    }
}

/// The declared result type of an operation.
pub open spec fn declared_result(op: OperationDecl) -> TypeDesc {
    declared_or_unit(op.result_ty)
}

/// The first diagnosis against one operation declaration, in the order the
/// checks are made: a default body, a missing asynchronous marker, a
/// foreign attribute, a missing, duplicated or malformed query attribute,
/// a parameter that is not a simple named-and-typed binding, and a result
/// type that nests one recognized wrapper directly inside another.
pub open spec fn operation_error(op: OperationDecl, index: usize) -> Option<DeclError> {
    if op.has_default_body {
        Some(DeclError::DefaultBody { index })
    } else if !op.is_async {
        Some(DeclError::NotAsync { index })
    } else if !all_query_attrs(op.attrs@) {
        Some(DeclError::UnexpectedAttribute { index })
    } else if op.attrs@.len() == 0 {
        Some(DeclError::MissingQueryAttribute { index })
    } else if op.attrs@.len() >= 2 {
        Some(DeclError::DuplicateQueryAttribute { index })
    } else if op.attrs@[0].value is None {
        Some(DeclError::MalformedQueryAttribute { index })
    } else if exists|j: int|
        0 <= j < op.params@.len() && (#[trigger] op.params@[j] matches ParamDecl::Unsupported) {
        Some(DeclError::MalformedParameter { index })
    } else if is_wrapper(declared_result(op)) && is_wrapper(inner_of(declared_result(op))) {
        Some(DeclError::NestedWrapper { index })
    } else {
        None
    }
}

/// The diagnosis against one interface member.
pub open spec fn member_error(m: TraitMember, index: usize) -> Option<DeclError> {
    match m {
        TraitMember::Operation { op } => operation_error(op, index),
        TraitMember::Unsupported => Some(DeclError::NonOperationMember { index }),
    }
}

/// The first diagnosis against the members from position `k` on.
pub open spec fn first_member_error_from(members: Seq<TraitMember>, k: int) -> Option<DeclError>
    decreases members.len() - k,
{
    if k < 0 || k >= members.len() {
        None
    } else {
        match member_error(members[k], k as usize) {
            Some(e) => Some(e),
            None => first_member_error_from(members, k + 1),
        }
    }
}

/// Whether the interface declaration itself uses no unsupported construct.
pub open spec fn trait_shape_supported(decl: TraitDecl) -> bool {
    !decl.is_unsafe && !decl.is_auto && !decl.has_restriction && !decl.has_generics
        && !decl.has_where_clause && !decl.has_supertraits
}

/// The first diagnosis against a whole declaration: the argument, then the
/// interface's own shape, then each member in order.
pub open spec fn decl_error(args: InterfaceArgs, decl: TraitDecl) -> Option<DeclError> {
    if args.key@ != "database"@ {
        Some(DeclError::UnsupportedArgument)
    } else if !trait_shape_supported(decl) {
        Some(DeclError::UnsupportedTraitFeature)
    } else {
        first_member_error_from(decl.members@, 0)
    }
}

/// Skipping members that pass leaves the first diagnosis unchanged.
proof fn lemma_first_error_prefix(members: Seq<TraitMember>, k: int)
    requires
        0 <= k <= members.len(),
        forall|j: int| 0 <= j < k ==> member_error(#[trigger] members[j], j as usize) is None,
    ensures
        first_member_error_from(members, 0) == first_member_error_from(members, k),
    decreases k,
{
    if k > 0 {
        lemma_first_error_prefix(members, k - 1);
    }
}

fn is_query_attr(a: &AttrDecl) -> (r: bool)
    ensures
        r == attr_is_query(*a),
{
    let q: String = "query".to_owned();
    a.name == q
}

fn is_database_key(args: &InterfaceArgs) -> (r: bool)
    ensures
        r == (args.key@ == "database"@),
{
    let k: String = "database".to_owned();
    args.key == k
}

fn wrapper_type(ty: &TypeDesc) -> (r: bool)
    ensures
        r == is_wrapper(*ty),
{
    match ty {
        TypeDesc::Sequence { .. } => true,
        TypeDesc::Optional { .. } => true,
        TypeDesc::LazyStream { .. } => true,
        TypeDesc::Unit => false,
        TypeDesc::Named { .. } => false,
    }
}

fn nested_wrapper(ty: &TypeDesc) -> (r: bool)
    ensures
        r == (is_wrapper(*ty) && is_wrapper(inner_of(*ty))),
{
    match ty {
        TypeDesc::Sequence { inner } => wrapper_type(&**inner),
        TypeDesc::Optional { inner } => wrapper_type(&**inner),
        TypeDesc::LazyStream { inner } => wrapper_type(&**inner),
        TypeDesc::Unit => false,
        TypeDesc::Named { .. } => false,
    }
}

/// Validate one operation declaration, diagnosing the first unsupported
/// construct: pure inspection, reported at generation time.
#[verifier::loop_isolation(false)]
pub fn validate_operation(op: &OperationDecl, index: usize) -> (r: Result<(), DeclError>)
    ensures
        (r matches Ok(_)) <==> operation_error(*op, index) is None,
        r matches Err(e) ==> operation_error(*op, index) == Some(e),
{
    if op.has_default_body {
        return Err(DeclError::DefaultBody { index });
    }
    if !op.is_async {
        return Err(DeclError::NotAsync { index });
    }
    let mut i: usize = 0;
    while i < op.attrs.len()
        invariant
            i <= op.attrs@.len(),
            forall|j: int| 0 <= j < i ==> attr_is_query(#[trigger] op.attrs@[j]),
        decreases op.attrs@.len() - i,
    {
        if !is_query_attr(&op.attrs[i]) {
            proof {
                assert(!attr_is_query(op.attrs@[i as int]));
                assert(!all_query_attrs(op.attrs@));
            }
            return Err(DeclError::UnexpectedAttribute { index });
        }
        i += 1;
    }
    assert(all_query_attrs(op.attrs@));
    if op.attrs.len() == 0 {
        return Err(DeclError::MissingQueryAttribute { index });
    }
    if op.attrs.len() >= 2 {
        return Err(DeclError::DuplicateQueryAttribute { index });
    }
    if op.attrs[0].value.is_none() {
        return Err(DeclError::MalformedQueryAttribute { index });
    }
    let mut p: usize = 0;
    while p < op.params.len()
        invariant
            p <= op.params@.len(),
            forall|j: int|
                0 <= j < p ==> (#[trigger] op.params@[j] matches ParamDecl::Named { .. }),
        decreases op.params@.len() - p,
    {
        match &op.params[p] {
            ParamDecl::Named { .. } => {},
            ParamDecl::Unsupported => {
                proof {
                    assert(op.params@[p as int] matches ParamDecl::Unsupported);
                    assert(exists|j: int|
                        0 <= j < op.params@.len() && (#[trigger] op.params@[j] matches
                        ParamDecl::Unsupported));
                }
                return Err(DeclError::MalformedParameter { index });
            },
        }
        p += 1;
    }
    match &op.result_ty {
        Some(ty) => {
            if nested_wrapper(ty) {
                return Err(DeclError::NestedWrapper { index });
            }
        },
        None => {},
    }
    Ok(())
}

/// Validate a whole declaration: the database-engine argument, the
/// interface's own shape, then every member in order. Pure validation with
/// no side effects; success means the declaration compiles.
#[verifier::loop_isolation(false)]
pub fn validate_interface(args: &InterfaceArgs, decl: &TraitDecl) -> (r: Result<(), DeclError>)
    ensures
        (r matches Ok(_)) <==> decl_error(*args, *decl) is None,
        r matches Err(e) ==> decl_error(*args, *decl) == Some(e),
{
    if !is_database_key(args) {
        return Err(DeclError::UnsupportedArgument);
    }
    if decl.is_unsafe || decl.is_auto || decl.has_restriction || decl.has_generics
        || decl.has_where_clause || decl.has_supertraits {
        return Err(DeclError::UnsupportedTraitFeature);
    }
    let mut i: usize = 0;
    while i < decl.members.len()
        invariant
            args.key@ == "database"@,
            trait_shape_supported(*decl),
            i <= decl.members@.len(),
            forall|j: int|
                0 <= j < i ==> member_error(#[trigger] decl.members@[j], j as usize) is None,
        decreases decl.members@.len() - i,
    {
        match &decl.members[i] {
            TraitMember::Operation { op } => {
                match validate_operation(op, i) {
                    Ok(_) => {},
                    Err(e) => {
                        proof {
                            lemma_first_error_prefix(decl.members@, i as int);
                        }
                        return Err(e);
                    },
                }
            },
            TraitMember::Unsupported => {
                proof {
                    lemma_first_error_prefix(decl.members@, i as int);
                }
                return Err(DeclError::NonOperationMember { index: i });
            },
        }
        i += 1;
    }
    proof {
        lemma_first_error_prefix(decl.members@, decl.members@.len() as int);
    }
    Ok(())
}

/// One extracted parameter: its bound identifier and declared type.
pub struct ParamSig {
    pub name: String,
    pub ty: TypeDesc,
}

/// An extracted operation signature: the ordered parameters and the
/// declared result type, with the unit type standing in where none was
/// declared.
pub struct OperationSig {
    pub params: Vec<ParamSig>,
    pub result_ty: TypeDesc,
}

/// What a simple named-and-typed parameter binding extracts to.
pub open spec fn param_sig_of(p: ParamDecl) -> ParamSig {
    match p {
        ParamDecl::Named { name, ty } => ParamSig { name, ty },
        ParamDecl::Unsupported => arbitrary(),
    }
}

/// Extract an operation's signature from its declared parameter list and
/// result type. Extraction is structural and performs no inference: it
/// keeps the parameters in declared order, fails on any parameter that is
/// not a simple named-and-typed binding, and treats an absent result type
/// as the unit type.
#[verifier::loop_isolation(false)]
pub fn extract_signature(params: Vec<ParamDecl>, result_ty: Option<TypeDesc>, index: usize) -> (r:
    Result<OperationSig, DeclError>)
    ensures
        (r matches Ok(_)) <==> (forall|j: int|
            0 <= j < params@.len() ==> (#[trigger] params@[j] matches ParamDecl::Named { .. })),
        r matches Ok(sig) ==> {
            &&& sig.params@.len() == params@.len()
            &&& forall|j: int|
                0 <= j < params@.len() ==> #[trigger] sig.params@[j] == param_sig_of(params@[j])
            &&& sig.result_ty == declared_or_unit(result_ty)
        },
        r matches Err(e) ==> e == (DeclError::MalformedParameter { index }),
{
    let ghost orig = params@;
    let mut remaining = params;
    let mut sigs: Vec<ParamSig> = Vec::new();
    while remaining.len() > 0
        invariant
            orig == params@,
            orig.len() == sigs@.len() + remaining@.len(),
            orig =~= orig.take(sigs@.len() as int) + remaining@,
            forall|j: int|
                0 <= j < sigs@.len() ==> (#[trigger] orig[j] matches ParamDecl::Named { .. }),
            forall|j: int| 0 <= j < sigs@.len() ==> #[trigger] sigs@[j] == param_sig_of(orig[j]),
        decreases remaining@.len(),
    {
        let ghost k = sigs@.len() as int;
        let p = remaining.remove(0);
        proof {
            assert(orig[k] == p) by {
                assert(orig =~= orig.take(k) + remaining@.insert(0, p));
            }
        }
        match p {
            ParamDecl::Named { name, ty } => {
                sigs.push(ParamSig { name, ty });
            },
            ParamDecl::Unsupported => {
                return Err(DeclError::MalformedParameter { index });
            },
        }
    }
    let res = match result_ty {
        Some(ty) => ty,
        None => TypeDesc::Unit,
    };
    Ok(OperationSig { params: sigs, result_ty: res })
}

/// One compiled operation: the callable's name, the query text it closes
/// over, the parameters it binds positionally in declared order, and the
/// shape and record type its declared result classifies to.
pub struct CompiledOperation {
    pub name: String,
    pub query: String,
    pub params: Vec<ParamSig>,
    pub shape: Shape,
    pub inner: TypeDesc,
}

/// The whole compiled plan of one interface declaration: what both the
/// pool-bound receiver (all operations plus `begin`) and the
/// transaction-bound receiver (all operations plus `commit` and
/// `rollback`) are built from.
pub struct CompiledInterface {
    pub name: String,
    pub database: String,
    pub ops: Vec<CompiledOperation>,
}

/// The query text of a validated operation: the value of its single query
/// attribute.
pub open spec fn query_of(op: OperationDecl) -> String
    recommends
        op.attrs@.len() >= 1,
        op.attrs@[0].value is Some,
{
    match op.attrs@[0].value {
        Some(q) => q,
        None => arbitrary(),
    }
}

/// What one operation declaration compiles to: the same name, its query
/// text, its parameters kept in declared order — binding is positional,
/// so the declared order is the binding order, whatever the parameters
/// are named — and the classification of its declared result type.
pub open spec fn op_compiles_to(op: OperationDecl, c: CompiledOperation) -> bool {
    &&& c.name == op.name
    &&& c.query == query_of(op)
    &&& c.params@.len() == op.params@.len()
    &&& forall|j: int|
        0 <= j < op.params@.len() ==> #[trigger] c.params@[j] == param_sig_of(op.params@[j])
    &&& c.shape == shape_of(declared_result(op))
    &&& c.inner == inner_of(declared_result(op))
}

/// The operation of a member known to be an operation.
pub open spec fn member_op(m: TraitMember) -> OperationDecl {
    match m {
        TraitMember::Operation { op } => op,
        TraitMember::Unsupported => arbitrary(),
    }
}

/// What a whole declaration compiles to: one compiled operation per
/// member, in declaration order, under the declared interface name and
/// database tag.
pub open spec fn interface_compiles_to(
    args: InterfaceArgs,
    decl: TraitDecl,
    c: CompiledInterface,
) -> bool {
    &&& c.name == decl.name
    &&& c.database == args.database
    &&& c.ops@.len() == decl.members@.len()
    &&& forall|i: int|
        0 <= i < decl.members@.len() ==> op_compiles_to(member_op(decl.members@[i]), #[trigger] c.ops@[i])
}

/// Compile one validated operation declaration into its callable plan.
pub fn compile_operation(op: OperationDecl, index: usize) -> (r: Result<
    CompiledOperation,
    DeclError,
>)
    ensures
        (r matches Ok(_)) <==> operation_error(op, index) is None,
        r matches Ok(c) ==> op_compiles_to(op, c),
        r matches Err(e) ==> operation_error(op, index) == Some(e),
{
    match validate_operation(&op, index) {
        Ok(_) => {},
        Err(e) => {
            return Err(e);
        },
    }
    let OperationDecl {
        name,
        is_async: _is_async,
        has_default_body: _has_default_body,
        attrs,
        params,
        result_ty,
    } = op;
    let sig = match extract_signature(params, result_ty, index) {
        Ok(sig) => sig,
        Err(_) => {
            proof {
                assert(false);
            }
            unreached()
        },
    };
    let mut attrs = attrs;
    let attr = attrs.remove(0);
    let query = match attr.value {
        Some(q) => q,
        None => {
            proof {
                assert(false);
            }
            unreached()
        },
    };
    let category = classify(sig.result_ty);
    Ok(
        CompiledOperation {
            name,
            query,
            params: sig.params,
            shape: category.shape,
            inner: category.inner,
        },
    )
}

/// Compile a whole interface declaration: validate the argument and the
/// interface's shape, then compile every member in order, stopping at the
/// first diagnosis. On success the plan holds one compiled operation per
/// declared operation, in declaration order.
#[verifier::loop_isolation(false)]
pub fn compile_interface(args: InterfaceArgs, decl: TraitDecl) -> (r: Result<
    CompiledInterface,
    DeclError,
>)
    ensures
        (r matches Ok(_)) <==> decl_error(args, decl) is None,
        r matches Ok(c) ==> interface_compiles_to(args, decl, c),
        r matches Err(e) ==> decl_error(args, decl) == Some(e),
{
    if !is_database_key(&args) {
        return Err(DeclError::UnsupportedArgument);
    }
    if decl.is_unsafe || decl.is_auto || decl.has_restriction || decl.has_generics
        || decl.has_where_clause || decl.has_supertraits {
        return Err(DeclError::UnsupportedTraitFeature);
    }
    let TraitDecl {
        name,
        is_unsafe: _is_unsafe,
        is_auto: _is_auto,
        has_restriction: _has_restriction,
        has_generics: _has_generics,
        has_where_clause: _has_where_clause,
        has_supertraits: _has_supertraits,
        members,
    } = decl;
    let ghost morig = members@;
    let mut remaining = members;
    let mut ops: Vec<CompiledOperation> = Vec::new();
    while remaining.len() > 0
        invariant
            morig == decl.members@,
            morig.len() == ops@.len() + remaining@.len(),
            morig =~= morig.take(ops@.len() as int) + remaining@,
            forall|j: int|
                0 <= j < ops@.len() ==> member_error(#[trigger] morig[j], j as usize) is None,
            forall|j: int|
                0 <= j < ops@.len() ==> op_compiles_to(member_op(morig[j]), #[trigger] ops@[j]),
        decreases remaining@.len(),
    {
        let ghost k = ops@.len() as int;
        let m = remaining.remove(0);
        proof {
            assert(morig[k] == m) by {
                assert(morig =~= morig.take(k) + remaining@.insert(0, m));
            }
        }
        match m {
            TraitMember::Operation { op } => {
                let idx = ops.len();
                match compile_operation(op, idx) {
                    Ok(c) => {
                        ops.push(c);
                    },
                    Err(e) => {
                        proof {
                            assert(morig[k] == (TraitMember::Operation { op }));
                            assert((k as usize) == idx);
                            assert(member_error(morig[k], k as usize) == Some(e));
                            lemma_first_error_prefix(morig, k);
                            assert(first_member_error_from(morig, 0) == Some(e));
                        }
                        return Err(e);
                    },
                }
            },
            TraitMember::Unsupported => {
                let idx = ops.len();
                proof {
                    assert((k as usize) == idx);
                    assert(member_error(morig[k], k as usize) == Some(
                        DeclError::NonOperationMember { index: idx },
                    ));
                    lemma_first_error_prefix(morig, k);
                }
                return Err(DeclError::NonOperationMember { index: idx });
            },
        }
    }
    proof {
        assert(morig.take(ops@.len() as int) =~= morig);
        lemma_first_error_prefix(morig, morig.len() as int);
    }
    Ok(CompiledInterface { name, database: args.database, ops })
}

} // verus!
