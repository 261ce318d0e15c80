use builder::schema::{FieldDescriptor, RecordSchema};
use builder::types::{is_optional, TypeExpr, TypeShape};
use builder::{extract_schema, DeriveError};

fn path(text: &str, segments: &[&str]) -> TypeExpr {
    TypeExpr {
        text: text.to_string(),
        shape: TypeShape::Path {
            leading_colon: false,
            self_qualified: false,
            segments: segments.iter().map(|s| s.to_string()).collect(),
        },
    }
}

fn flags_of(schema: &RecordSchema) -> Vec<bool> {
    (0..schema.len()).map(|i| schema.field(i).is_optional()).collect()
}

fn flags(declaration: &str) -> Vec<bool> {
    flags_of(&extract_schema(declaration).unwrap())
}

#[test]
fn bare_wrapper_name_is_optional() {
    assert!(is_optional(&path("Option < String >", &["Option"])));
    assert!(is_optional(&path("Option", &["Option"])));
}

#[test]
fn other_single_segment_is_required() {
    assert!(!is_optional(&path("String", &["String"])));
    assert!(!is_optional(&path("option", &["option"])));
    assert!(!is_optional(&path("Options", &["Options"])));
    assert!(!is_optional(&path("Optio", &["Optio"])));
    assert!(!is_optional(&path("", &[""])));
}

#[test]
fn qualified_wrapper_is_required() {
    assert!(!is_optional(&path(
        "std :: option :: Option < u8 >",
        &["std", "option", "Option"]
    )));
    assert!(!is_optional(&path("option :: Option < u8 >", &["option", "Option"])));
    assert!(!is_optional(&path("Option :: Inner", &["Option", "Inner"])));
}

#[test]
fn leading_colon_is_a_qualification() {
    let ty = TypeExpr {
        text: ":: Option < u8 >".to_string(),
        shape: TypeShape::Path {
            leading_colon: true,
            self_qualified: false,
            segments: vec!["Option".to_string()],
        },
    };
    assert!(!is_optional(&ty));
}

#[test]
fn self_qualified_path_is_required() {
    let ty = TypeExpr {
        text: "< T > :: Option".to_string(),
        shape: TypeShape::Path {
            leading_colon: false,
            self_qualified: true,
            segments: vec!["Option".to_string()],
        },
    };
    assert!(!is_optional(&ty));
}

#[test]
fn path_without_segments_is_required() {
    assert!(!is_optional(&path("", &[])));
}

#[test]
fn other_syntax_is_required() {
    let ty = TypeExpr { text: "& Option < u8 >".to_string(), shape: TypeShape::Other };
    assert!(!is_optional(&ty));
}

#[test]
fn descriptor_keeps_name_type_and_flag() {
    let field = FieldDescriptor::new("c".to_string(), path("Option < String >", &["Option"]));
    assert_eq!(field.name(), "c");
    assert_eq!(field.declared_type(), &path("Option < String >", &["Option"]));
    assert!(field.is_optional());
    assert_eq!(field.storage_type(), "Option < String >");

    let field = FieldDescriptor::new("a".to_string(), path("i32", &["i32"]));
    assert!(!field.is_optional());
    assert_eq!(field.storage_type(), "Option<i32>");
}

#[test]
fn schema_keeps_declaration_order() {
    let schema = RecordSchema::new(
        "Pair".to_string(),
        vec![
            FieldDescriptor::new("second".to_string(), path("u8", &["u8"])),
            FieldDescriptor::new("first".to_string(), path("Option < u8 >", &["Option"])),
        ],
    );
    assert_eq!(schema.record_name(), "Pair");
    assert_eq!(schema.len(), 2);
    assert_eq!(schema.field(0).name(), "second");
    assert_eq!(schema.field(1).name(), "first");
    assert_eq!(schema.builder_name(), "PairBuilder");
}

#[test]
fn extracted_fields_are_classified_by_syntax() {
    let declaration = "struct S<'a, T> {
        plain: i32,
        wrapped: Option<String>,
        nested: Option<Option<u8>>,
        bare: Option,
        full: std::option::Option<u8>,
        core_path: core::option::Option<u8>,
        global: ::Option<u8>,
        alias: Maybe<u8>,
        reference: &'a Option<u8>,
        parenthesized: (Option<u8>),
        tuple: (Option<u8>, u8),
        array: [Option<u8>; 2],
        associated: <T as Iterator>::Item,
        self_qualified: <T>::Option,
        lower: option<u8>,
        raw: r#Option<u8>,
    }";
    assert_eq!(
        flags(declaration),
        vec![
            false, true, true, true, false, false, false, false, false, false, false, false,
            false, false, false, false
        ]
    );
}

#[test]
fn extracted_schema_reads_names_types_and_shapes() {
    let schema = extract_schema(
        "pub struct Command { pub a: i32, b: String, #[doc = \"x\"] c: Option<String>, d: ::std::vec::Vec<u8> }",
    )
    .unwrap();
    assert_eq!(schema.record_name(), "Command");
    assert_eq!(schema.len(), 4);
    assert_eq!(schema.field(0).name(), "a");
    assert_eq!(schema.field(0).declared_type(), &path("i32", &["i32"]));
    assert_eq!(schema.field(1).name(), "b");
    assert_eq!(schema.field(1).declared_type(), &path("String", &["String"]));
    assert_eq!(schema.field(2).name(), "c");
    assert_eq!(schema.field(2).declared_type(), &path("Option < String >", &["Option"]));
    assert_eq!(schema.field(3).name(), "d");
    assert_eq!(
        schema.field(3).declared_type(),
        &TypeExpr {
            text: ":: std :: vec :: Vec < u8 >".to_string(),
            shape: TypeShape::Path {
                leading_colon: true,
                self_qualified: false,
                segments: vec!["std".to_string(), "vec".to_string(), "Vec".to_string()],
            },
        }
    );
    assert_eq!(schema.field(0).is_optional(), false);
    assert_eq!(schema.field(2).is_optional(), true);
}

#[test]
fn extracted_shape_of_other_syntax() {
    let schema = extract_schema("struct R<'a> { r: &'a str, t: (u8, u8), q: <u8 as Tr>::Out }").unwrap();
    assert_eq!(schema.field(0).declared_type().shape, TypeShape::Other);
    assert_eq!(schema.field(0).declared_type().text, "& 'a str");
    assert_eq!(schema.field(1).declared_type().shape, TypeShape::Other);
    assert_eq!(
        schema.field(2).declared_type().shape,
        TypeShape::Path {
            leading_colon: false,
            self_qualified: true,
            segments: vec!["Tr".to_string(), "Out".to_string()],
        }
    );
}

#[test]
fn record_without_fields_is_accepted() {
    let schema = extract_schema("struct Empty {}").unwrap();
    assert_eq!(schema.record_name(), "Empty");
    assert_eq!(schema.len(), 0);
}

#[test]
fn text_that_is_no_declaration_is_a_syntax_error() {
    assert!(matches!(extract_schema("this is not rust"), Err(DeriveError::Syntax(_))));
    assert!(matches!(extract_schema(""), Err(DeriveError::Syntax(_))));
    assert!(matches!(extract_schema("fn f() {}"), Err(DeriveError::Syntax(_))));
    assert!(matches!(extract_schema("struct S { a: }"), Err(DeriveError::Syntax(_))));
    assert!(matches!(
        extract_schema("struct S { a: u8 } struct T { b: u8 }"),
        Err(DeriveError::Syntax(_))
    ));
}

#[test]
fn other_aggregates_are_unsupported() {
    assert!(matches!(extract_schema("struct T(u8, Option<u8>);"), Err(DeriveError::Unsupported)));
    assert!(matches!(extract_schema("struct U;"), Err(DeriveError::Unsupported)));
    assert!(matches!(extract_schema("enum E { A, B { x: u8 } }"), Err(DeriveError::Unsupported)));
    assert!(matches!(extract_schema("union W { a: u8, b: u16 }"), Err(DeriveError::Unsupported)));
}

#[test]
fn schema_of_named_fields_classifies_each_field() {
    let parts = builder::extract::DeclarationParts {
        name: "Command".to_string(),
        fields: Some(vec![
            builder::extract::FieldParts {
                name: Some("a".to_string()),
                declared_type: path("i32", &["i32"]),
            },
            builder::extract::FieldParts {
                name: Some("c".to_string()),
                declared_type: path("Option < String >", &["Option"]),
            },
            builder::extract::FieldParts {
                name: Some("b".to_string()),
                declared_type: path("String", &["String"]),
            },
        ]),
    };
    let schema = builder::extract::schema_of(parts).unwrap();
    assert_eq!(
        schema,
        RecordSchema::new(
            "Command".to_string(),
            vec![
                FieldDescriptor::new("a".to_string(), path("i32", &["i32"])),
                FieldDescriptor::new("c".to_string(), path("Option < String >", &["Option"])),
                FieldDescriptor::new("b".to_string(), path("String", &["String"])),
            ],
        )
    );
    assert_eq!(flags_of(&schema), vec![false, true, false]);
}

#[test]
fn schema_of_anything_else_is_unsupported() {
    let no_fields =
        builder::extract::DeclarationParts { name: "E".to_string(), fields: None };
    assert!(matches!(builder::extract::schema_of(no_fields), Err(DeriveError::Unsupported)));

    let unnamed = builder::extract::DeclarationParts {
        name: "T".to_string(),
        fields: Some(vec![
            builder::extract::FieldParts {
                name: Some("a".to_string()),
                declared_type: path("u8", &["u8"]),
            },
            builder::extract::FieldParts { name: None, declared_type: path("u8", &["u8"]) },
        ]),
    };
    assert!(matches!(builder::extract::schema_of(unnamed), Err(DeriveError::Unsupported)));
}

#[test]
fn schema_of_no_fields_at_all_is_an_empty_schema() {
    let parts =
        builder::extract::DeclarationParts { name: "Empty".to_string(), fields: Some(vec![]) };
    let schema = builder::extract::schema_of(parts).unwrap();
    assert_eq!(schema.len(), 0);
    assert_eq!(schema.record_name(), "Empty");
}
