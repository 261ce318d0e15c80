use builder::emit::{
    emit_builder_type, emit_constructor, emit_drained_line, emit_finalizer, emit_setter,
    emit_setters, generate,
};
use builder::schema::{BuilderSchema, FieldDescriptor, RecordSchema, Slot};
use builder::types::{TypeExpr, TypeShape};
use builder::{extract_schema, DeriveError};

const COMMAND: &str = "struct Command { a: i32, b: String, c: Option<String> }";

const COMMAND_BUILDER: &str = "\
pub struct CommandBuilder {
    a: Option<i32>,
    b: Option<String>,
    c: Option < String >,
}
impl Command {
    pub fn builder() -> CommandBuilder {
        CommandBuilder {
            a: None,
            b: None,
            c: None,
        }
    }
}
impl CommandBuilder {
    pub fn a(&mut self, a: i32) -> &mut Self {
        self.a = Some(a);
        self
    }
    pub fn b(&mut self, b: String) -> &mut Self {
        self.b = Some(b);
        self
    }
    pub fn c(&mut self, c: Option < String >) -> &mut Self {
        self.c = c;
        self
    }
    pub fn build(&mut self) -> Result<Command, Box<dyn std::error::Error>> {
        Ok(Command {
            a: self.a.take().ok_or(\"missing field: a\")?,
            b: self.b.take().ok_or(\"missing field: b\")?,
            c: self.c.take(),
        })
    }
}
";

fn named(text: &str, name: &str) -> TypeExpr {
    TypeExpr {
        text: text.to_string(),
        shape: TypeShape::Path {
            leading_colon: false,
            self_qualified: false,
            segments: vec![name.to_string()],
        },
    }
}

fn command() -> RecordSchema {
    RecordSchema::new(
        "Command".to_string(),
        vec![
            FieldDescriptor::new("a".to_string(), named("i32", "i32")),
            FieldDescriptor::new("b".to_string(), named("String", "String")),
            FieldDescriptor::new("c".to_string(), named("Option < String >", "Option")),
        ],
    )
}

#[test]
fn derive_writes_the_whole_builder() {
    assert_eq!(builder::extract::derive(COMMAND).unwrap(), COMMAND_BUILDER);
}

#[test]
fn generate_agrees_with_derive() {
    assert_eq!(generate(&command()), COMMAND_BUILDER);
    assert_eq!(generate(&extract_schema(COMMAND).unwrap()), COMMAND_BUILDER);
}

#[test]
fn generated_source_is_the_three_items_in_order() {
    let schema = command();
    let mut expected = emit_builder_type(&schema.synthesize());
    expected.push_str(&emit_constructor(&schema));
    expected.push_str("impl CommandBuilder {\n");
    expected.push_str(&emit_setters(&schema));
    expected.push_str(&emit_finalizer(&schema));
    expected.push_str("}\n");
    assert_eq!(generate(&schema), expected);
}

#[test]
fn synthesized_slots_follow_the_fields() {
    let builder = command().synthesize();
    assert_eq!(
        builder,
        BuilderSchema {
            name: "CommandBuilder".to_string(),
            slots: vec![
                Slot { name: "a".to_string(), storage_type: "Option<i32>".to_string() },
                Slot { name: "b".to_string(), storage_type: "Option<String>".to_string() },
                Slot { name: "c".to_string(), storage_type: "Option < String >".to_string() },
            ],
        }
    );
}

#[test]
fn builder_type_has_one_line_per_slot() {
    let builder = BuilderSchema {
        name: "B".to_string(),
        slots: vec![
            Slot { name: "x".to_string(), storage_type: "Option<u8>".to_string() },
            Slot { name: "y".to_string(), storage_type: "Option < u8 >".to_string() },
        ],
    };
    assert_eq!(
        emit_builder_type(&builder),
        "pub struct B {\n    x: Option<u8>,\n    y: Option < u8 >,\n}\n"
    );
    let empty = BuilderSchema { name: "B".to_string(), slots: vec![] };
    assert_eq!(emit_builder_type(&empty), "pub struct B {\n}\n");
}

#[test]
fn constructor_leaves_every_slot_empty() {
    assert_eq!(
        emit_constructor(&command()),
        "impl Command {\n    pub fn builder() -> CommandBuilder {\n        CommandBuilder {\n            a: None,\n            b: None,\n            c: None,\n        }\n    }\n}\n"
    );
}

#[test]
fn setter_of_a_required_field_wraps_once() {
    let field = FieldDescriptor::new("size".to_string(), named("Vec < u8 >", "Vec"));
    assert_eq!(
        emit_setter(&field),
        "    pub fn size(&mut self, size: Vec < u8 >) -> &mut Self {\n        self.size = Some(size);\n        self\n    }\n"
    );
}

#[test]
fn setter_of_an_optional_field_does_not_wrap_again() {
    let field = FieldDescriptor::new("tag".to_string(), named("Option < u8 >", "Option"));
    assert_eq!(
        emit_setter(&field),
        "    pub fn tag(&mut self, tag: Option < u8 >) -> &mut Self {\n        self.tag = tag;\n        self\n    }\n"
    );
}

#[test]
fn finalizer_line_by_kind() {
    let required = FieldDescriptor::new("size".to_string(), named("u8", "u8"));
    assert_eq!(
        emit_drained_line(&required),
        "            size: self.size.take().ok_or(\"missing field: size\")?,\n"
    );
    let optional = FieldDescriptor::new("tag".to_string(), named("Option < u8 >", "Option"));
    assert_eq!(emit_drained_line(&optional), "            tag: self.tag.take(),\n");
}

#[test]
fn finalizer_drains_in_declaration_order() {
    let schema = extract_schema("struct Z { last: u8, first: Option<u8>, middle: u8 }").unwrap();
    assert_eq!(
        emit_finalizer(&schema),
        "    pub fn build(&mut self) -> Result<Z, Box<dyn std::error::Error>> {\n        Ok(Z {\n            last: self.last.take().ok_or(\"missing field: last\")?,\n            first: self.first.take(),\n            middle: self.middle.take().ok_or(\"missing field: middle\")?,\n        })\n    }\n"
    );
}

#[test]
fn record_without_fields_gets_an_empty_builder() {
    assert_eq!(
        builder::extract::derive("struct Empty {}").unwrap(),
        "pub struct EmptyBuilder {\n}\nimpl Empty {\n    pub fn builder() -> EmptyBuilder {\n        EmptyBuilder {\n        }\n    }\n}\nimpl EmptyBuilder {\n    pub fn build(&mut self) -> Result<Empty, Box<dyn std::error::Error>> {\n        Ok(Empty {\n        })\n    }\n}\n"
    );
}

#[test]
fn qualified_wrapper_is_wrapped_like_any_required_field() {
    let out = builder::extract::derive("struct Q { v: std::option::Option<u8> }").unwrap();
    assert!(out.contains("    v: Option<std :: option :: Option < u8 >>,\n"));
    assert!(out.contains("        self.v = Some(v);\n"));
    assert!(out.contains("            v: self.v.take().ok_or(\"missing field: v\")?,\n"));
}

#[test]
fn derive_fails_without_output() {
    assert!(matches!(builder::extract::derive("struct Broken {"), Err(DeriveError::Syntax(_))));
    assert!(matches!(builder::extract::derive("struct T(u8);"), Err(DeriveError::Unsupported)));
    assert!(matches!(builder::extract::derive("struct U;"), Err(DeriveError::Unsupported)));
    assert!(matches!(builder::extract::derive("enum E { A }"), Err(DeriveError::Unsupported)));
    assert!(matches!(builder::extract::derive("union W { a: u8 }"), Err(DeriveError::Unsupported)));
}

#[test]
fn generated_source_parses_as_three_items() {
    let file = syn::parse_file(&builder::extract::derive(COMMAND).unwrap()).unwrap();
    assert_eq!(file.items.len(), 3);
    let builder = match &file.items[0] {
        syn::Item::Struct(item) => item,
        other => panic!("expected a struct, got {:?}", other),
    };
    assert_eq!(builder.ident.to_string(), "CommandBuilder");
    let slots: Vec<String> =
        builder.fields.iter().map(|f| f.ident.as_ref().unwrap().to_string()).collect();
    assert_eq!(slots, vec!["a", "b", "c"]);
    let methods = match &file.items[2] {
        syn::Item::Impl(item) => item
            .items
            .iter()
            .map(|i| match i {
                syn::ImplItem::Fn(f) => f.sig.ident.to_string(),
                other => panic!("expected a method, got {:?}", other),
            })
            .collect::<Vec<String>>(),
        other => panic!("expected an impl, got {:?}", other),
    };
    assert_eq!(methods, vec!["a", "b", "c", "build"]);
}

#[test]
fn generated_source_parses_for_many_type_syntaxes() {
    let out = builder::extract::derive(
        "struct Mixed<'a> { r: &'a str, t: (u8, Option<u8>), v: Vec<Vec<u8>>, o: Option<Vec<u8>>, f: fn(u8) -> u8, s: [u8; 4] }",
    )
    .unwrap();
    let file = syn::parse_file(&out).unwrap();
    assert_eq!(file.items.len(), 3);
}
