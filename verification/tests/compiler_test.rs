//! Tests of the declaration validator, the signature extractor, the shape
//! classifier and the declaration compiler.

use queries::compile::{
    compile_interface, compile_operation, extract_signature, validate_interface,
    validate_operation,
};
use queries::decl::{
    AttrDecl, InterfaceArgs, OperationDecl, ParamDecl, TraitDecl, TraitMember, TypeDesc,
};
use queries::error::DeclError;
use queries::shape::{classify, Probe, Shape};

fn query_attr(text: &str) -> AttrDecl {
    AttrDecl {
        name: "query".to_string(),
        value: Some(text.to_string()),
    }
}

fn named(ty: &str) -> TypeDesc {
    TypeDesc::Named {
        name: ty.to_string(),
    }
}

fn operation(name: &str, query: &str, params: Vec<ParamDecl>, result_ty: Option<TypeDesc>) -> OperationDecl {
    OperationDecl {
        name: name.to_string(),
        is_async: true,
        has_default_body: false,
        attrs: vec![query_attr(query)],
        params,
        result_ty,
    }
}

fn plain_trait(members: Vec<TraitMember>) -> TraitDecl {
    TraitDecl {
        name: "BasicQueries".to_string(),
        is_unsafe: false,
        is_auto: false,
        has_restriction: false,
        has_generics: false,
        has_where_clause: false,
        has_supertraits: false,
        members,
    }
}

fn database_args() -> InterfaceArgs {
    InterfaceArgs {
        key: "database".to_string(),
        database: "sqlx::Sqlite".to_string(),
    }
}

#[test]
fn classify_recognizes_each_wrapper_family() {
    let single = classify(named("User"));
    assert_eq!(single.shape, Shape::Single);
    assert!(matches!(single.inner, TypeDesc::Named { name } if name == "User"));

    let optional = classify(TypeDesc::Optional {
        inner: Box::new(named("User")),
    });
    assert_eq!(optional.shape, Shape::Optional);
    assert!(matches!(optional.inner, TypeDesc::Named { name } if name == "User"));

    let list = classify(TypeDesc::Sequence {
        inner: Box::new(named("User")),
    });
    assert_eq!(list.shape, Shape::List);

    let stream = classify(TypeDesc::LazyStream {
        inner: Box::new(named("User")),
    });
    assert_eq!(stream.shape, Shape::Stream);

    let unit = classify(TypeDesc::Unit);
    assert_eq!(unit.shape, Shape::Single);
}

#[test]
fn classify_keeps_only_the_outermost_wrapper() {
    let nested = classify(TypeDesc::Optional {
        inner: Box::new(TypeDesc::Sequence {
            inner: Box::new(named("User")),
        }),
    });
    assert_eq!(nested.shape, Shape::Optional);
    assert!(matches!(nested.inner, TypeDesc::Sequence { .. }));
}

#[test]
fn probe_reports_the_shape_category() {
    assert_eq!(named("User").category(), Shape::Single);
    assert_eq!(
        TypeDesc::Sequence {
            inner: Box::new(named("User"))
        }
        .category(),
        Shape::List
    );
}

#[test]
fn compile_keeps_names_queries_and_parameter_order() {
    let op = operation(
        "get_number",
        "SELECT ? - ?",
        vec![
            ParamDecl::Named {
                name: "first".to_string(),
                ty: named("i32"),
            },
            ParamDecl::Named {
                name: "second".to_string(),
                ty: named("i32"),
            },
        ],
        Some(named("(i32,)")),
    );
    let compiled = compile_operation(op, 0).unwrap();
    assert_eq!(compiled.name, "get_number");
    assert_eq!(compiled.query, "SELECT ? - ?");
    assert_eq!(compiled.params.len(), 2);
    assert_eq!(compiled.params[0].name, "first");
    assert_eq!(compiled.params[1].name, "second");
    assert_eq!(compiled.shape, Shape::Single);
}

#[test]
fn compile_interface_compiles_every_member_in_order() {
    let decl = plain_trait(vec![
        TraitMember::Operation {
            op: operation("get1", "SELECT 1", vec![], Some(named("(i32,)"))),
        },
        TraitMember::Operation {
            op: operation(
                "get_numbers",
                "SELECT 1 UNION SELECT 2",
                vec![],
                Some(TypeDesc::Sequence {
                    inner: Box::new(named("(i32,)")),
                }),
            ),
        },
    ]);
    let plan = compile_interface(database_args(), decl).unwrap();
    assert_eq!(plan.name, "BasicQueries");
    assert_eq!(plan.database, "sqlx::Sqlite");
    assert_eq!(plan.ops.len(), 2);
    assert_eq!(plan.ops[0].name, "get1");
    assert_eq!(plan.ops[0].shape, Shape::Single);
    assert_eq!(plan.ops[1].name, "get_numbers");
    assert_eq!(plan.ops[1].shape, Shape::List);
}

#[test]
fn absent_result_type_is_extracted_as_unit() {
    let sig = extract_signature(vec![], None, 0).unwrap();
    assert!(matches!(sig.result_ty, TypeDesc::Unit));
}

#[test]
fn wrong_argument_key_is_rejected() {
    let args = InterfaceArgs {
        key: "engine".to_string(),
        database: "sqlx::Sqlite".to_string(),
    };
    let decl = plain_trait(vec![]);
    assert_eq!(
        validate_interface(&args, &decl),
        Err(DeclError::UnsupportedArgument)
    );
}

#[test]
fn unsupported_trait_features_are_rejected() {
    let mut decl = plain_trait(vec![]);
    decl.has_generics = true;
    assert_eq!(
        validate_interface(&database_args(), &decl),
        Err(DeclError::UnsupportedTraitFeature)
    );
}

#[test]
fn non_operation_members_are_rejected_with_their_position() {
    let decl = plain_trait(vec![
        TraitMember::Operation {
            op: operation("get1", "SELECT 1", vec![], Some(named("(i32,)"))),
        },
        TraitMember::Unsupported,
    ]);
    assert_eq!(
        validate_interface(&database_args(), &decl),
        Err(DeclError::NonOperationMember { index: 1 })
    );
}

#[test]
fn default_bodies_are_rejected() {
    let mut op = operation("get1", "SELECT 1", vec![], None);
    op.has_default_body = true;
    assert_eq!(
        validate_operation(&op, 0),
        Err(DeclError::DefaultBody { index: 0 })
    );
}

#[test]
fn non_async_operations_are_rejected() {
    let mut op = operation("get1", "SELECT 1", vec![], None);
    op.is_async = false;
    assert_eq!(
        validate_operation(&op, 0),
        Err(DeclError::NotAsync { index: 0 })
    );
}

#[test]
fn foreign_attributes_are_rejected() {
    let mut op = operation("get1", "SELECT 1", vec![], None);
    op.attrs.push(AttrDecl {
        name: "inline".to_string(),
        value: None,
    });
    assert_eq!(
        validate_operation(&op, 0),
        Err(DeclError::UnexpectedAttribute { index: 0 })
    );
}

#[test]
fn a_missing_query_attribute_is_rejected() {
    let mut op = operation("get1", "SELECT 1", vec![], None);
    op.attrs.clear();
    assert_eq!(
        validate_operation(&op, 0),
        Err(DeclError::MissingQueryAttribute { index: 0 })
    );
}

#[test]
fn a_second_query_attribute_is_rejected() {
    let mut op = operation("get1", "SELECT 1", vec![], None);
    op.attrs.push(query_attr("SELECT 2"));
    assert_eq!(
        validate_operation(&op, 0),
        Err(DeclError::DuplicateQueryAttribute { index: 0 })
    );
}

#[test]
fn a_query_attribute_without_text_is_rejected() {
    let mut op = operation("get1", "SELECT 1", vec![], None);
    op.attrs[0].value = None;
    assert_eq!(
        validate_operation(&op, 0),
        Err(DeclError::MalformedQueryAttribute { index: 0 })
    );
}

#[test]
fn a_destructured_parameter_is_rejected() {
    let op = operation(
        "get1",
        "SELECT ?",
        vec![ParamDecl::Unsupported],
        Some(named("(i32,)")),
    );
    assert_eq!(
        validate_operation(&op, 0),
        Err(DeclError::MalformedParameter { index: 0 })
    );
}

#[test]
fn directly_nested_wrappers_are_rejected() {
    let op = operation(
        "get_all",
        "SELECT 1",
        vec![],
        Some(TypeDesc::Optional {
            inner: Box::new(TypeDesc::Sequence {
                inner: Box::new(named("(i32,)")),
            }),
        }),
    );
    assert_eq!(
        validate_operation(&op, 0),
        Err(DeclError::NestedWrapper { index: 0 })
    );
}

#[test]
fn a_valid_operation_passes_validation() {
    let op = operation("get1", "SELECT 1", vec![], Some(named("(i32,)")));
    assert_eq!(validate_operation(&op, 0), Ok(()));
}
