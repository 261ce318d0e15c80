//! From the text of a declaration to the text of its builder.
//!
//! Parsing is left to `syn`, and a type is rendered as text by `quote`. Both
//! go through `proc-macro2`, which inside a macro expansion uses the
//! compiler's lexer and printer and elsewhere its own, so one text may read
//! differently in two processes. The small functions at the head of this file
//! make those calls; they claim nothing, and verified code does the rest.

use vstd::prelude::*;
use crate::emit::{generate, generated_source};
use crate::schema::{FieldDescriptor, FieldModel, RecordSchema, SchemaModel};
use crate::types::{TypeExpr, TypeShape};

verus! {

/// `syn::DeriveInput`, a parsed struct, enum or union. Opaque to the proofs.
#[verifier::external_type_specification]
#[verifier::external_body]
pub struct ExDeriveInput(syn::DeriveInput);

/// `syn::Field`, one parsed field. Opaque to the proofs.
#[verifier::external_type_specification]
#[verifier::external_body]
pub struct ExField(syn::Field);

/// `syn::Error`, why a text did not parse. Opaque to the proofs.
#[verifier::external_type_specification]
#[verifier::external_body]
pub struct ExError(syn::Error);

/// Calls `syn::parse_str` for a `syn::DeriveInput`. Which lexer runs depends
/// on the process, so nothing is claimed of the outcome.
#[verifier::external_body]
fn parse_declaration(text: &str) -> Result<syn::DeriveInput, syn::Error> {
    syn::parse_str::<syn::DeriveInput>(text)
}

/// The declared type's name: the field `ident` of the `syn::DeriveInput`,
/// as text. Nothing is claimed of it.
#[verifier::external_body]
fn declared_name(input: &syn::DeriveInput) -> String {
    input.ident.to_string()
}

/// The fields of a struct with named fields, in the order in which
/// `syn::punctuated::Punctuated::iter` yields them; `None` for a tuple
/// struct, a unit struct, an enum or a union. Nothing is claimed of them.
#[verifier::external_body]
fn named_fields<'a>(input: &'a syn::DeriveInput) -> Option<Vec<&'a syn::Field>> {
    match &input.data {
        syn::Data::Struct(data) => match &data.fields {
            syn::Fields::Named(fields) => Some(fields.named.iter().collect()),
            _ => None,
        },
        _ => None,
    }
}

/// The field `ident` of a `syn::Field` as text; `None` where the field has
/// no name. Nothing is claimed of it.
#[verifier::external_body]
fn field_name(field: &syn::Field) -> Option<String> {
    field.ident.as_ref().map(|ident| ident.to_string())
}

/// The tokens that `quote::ToTokens` gives for the field `ty`, as text.
/// How tokens print depends on the process, so nothing is claimed of it.
#[verifier::external_body]
fn field_type_text(field: &syn::Field) -> String {
    quote::ToTokens::to_token_stream(&field.ty).to_string()
}

/// The shape of the field's type: for `syn::Type::Path`, whether the path
/// has a leading `::`, whether it has a self qualifier, and the `ident` of
/// each of its segments as text; `Other` for every other variant of
/// `syn::Type`. Nothing is claimed of it.
#[verifier::external_body]
fn field_type_shape(field: &syn::Field) -> TypeShape {
    match &field.ty {
        syn::Type::Path(ty) => TypeShape::Path {
            leading_colon: ty.path.leading_colon.is_some(),
            self_qualified: ty.qself.is_some(),
            segments: ty.path.segments.iter().map(|segment| segment.ident.to_string()).collect(),
        },
        _ => TypeShape::Other,
    }
}

/// Why no builder was generated.
#[derive(Debug)]
pub enum DeriveError {
    /// The text is not the declaration of a struct, an enum or a union.
    Syntax(syn::Error),
    /// The declaration is not a struct with named fields.
    Unsupported,
}

/// What was read of one field of a declaration.
#[derive(Debug, PartialEq, Eq)]
pub struct FieldParts {
    /// The field's name; `None` for a field without one.
    pub name: Option<String>,
    /// The field's declared type.
    pub declared_type: TypeExpr,
}

/// What was read of a declaration.
#[derive(Debug, PartialEq, Eq)]
pub struct DeclarationParts {
    /// The name of the declared type.
    pub name: String,
    /// The fields in declaration order; `None` for anything but a struct
    /// with named fields.
    pub fields: Option<Vec<FieldParts>>,
}

impl FieldParts {
    /// The field that a named part describes, classified by its declared
    /// type.
    pub open spec fn field(self) -> FieldModel {
        FieldModel {
            name: self.name->Some_0@,
            declared_type: self.declared_type@,
            optional: self.declared_type@.is_optional(),
        }
    }
}

impl DeclarationParts {
    /// The declaration is a struct with named fields.
    pub open spec fn supported(self) -> bool {
        &&& self.fields is Some
        &&& forall|i: int|
            0 <= i < self.fields->Some_0@.len() ==> (#[trigger] self.fields->Some_0@[i]).name
                is Some
    }

    /// The schema of a supported declaration: its name and its fields in
    /// declaration order, each classified by its declared type.
    pub open spec fn schema(self) -> SchemaModel {
        SchemaModel {
            record_name: self.name@,
            fields: self.fields->Some_0@.map_values(|part: FieldParts| part.field()),
        }
    }
}

/// The items of `items` in the opposite order.
fn reversed<T>(items: Vec<T>) -> (r: Vec<T>)
    ensures
        r@ == items@.reverse(),
{
    let ghost given = items@;
    let mut items = items;
    let mut r: Vec<T> = Vec::new();
    while items.len() > 0
        invariant
            items@.len() + r@.len() == given.len(),
            items@ == given.take(items@.len() as int),
            forall|j: int| 0 <= j < r@.len() ==> r@[j] == given[given.len() - 1 - j],
        decreases items@.len(),
    {
        let last = items.pop();
        if let Some(item) = last {
            r.push(item);
        }
        assert(items@ =~= given.take(items@.len() as int));
    }
    assert(r@ =~= given.reverse());
    r
}

/// Makes the schema of what was read of a declaration.
///
/// Fails with `Unsupported` exactly where the declaration is not a struct
/// with named fields. Otherwise the schema has the declaration's name and
/// its fields in declaration order, each classified by its declared type.
pub fn schema_of(parts: DeclarationParts) -> (r: Result<RecordSchema, DeriveError>)
    ensures
        match r {
            Ok(schema) => parts.supported() && schema@ == parts.schema(),
            Err(error) => !parts.supported() && error is Unsupported,
        },
{
    let DeclarationParts { name, fields } = parts;
    let fields = match fields {
        Some(fields) => fields,
        None => {
            return Err(DeriveError::Unsupported);
        },
    };
    let ghost given = fields@;
    let mut rest = reversed(fields);
    let mut described: Vec<FieldDescriptor> = Vec::new();
    while rest.len() > 0
        invariant
            parts.fields is Some,
            given == parts.fields->Some_0@,
            rest@.len() + described@.len() == given.len(),
            rest@ == given.reverse().take(rest@.len() as int),
            forall|j: int| 0 <= j < described@.len() ==> (#[trigger] given[j]).name is Some,
            forall|j: int|
                0 <= j < described@.len() ==> (#[trigger] described@[j])@ == given[j].field(),
        decreases rest@.len(),
    {
        let ghost at = described@.len() as int;
        let next = rest.pop();
        assert(rest@ =~= given.reverse().take(rest@.len() as int));
        if let Some(part) = next {
            assert(part == given[at]);
            match part.name {
                Some(field_name) => {
                    described.push(FieldDescriptor::new(field_name, part.declared_type));
                },
                None => {
                    assert(given[at].name is None);
                    return Err(DeriveError::Unsupported);
                },
            }
        }
    }
    let schema = RecordSchema::new(name, described);
    assert(schema@.fields =~= parts.schema().fields);
    Ok(schema)
}

/// Reads a declaration with `syn`: its name and, for a struct with named
/// fields, name and declared type of each field in declaration order.
/// Fails where `syn` does not parse `input` as a struct, an enum or a
/// union.
fn read_declaration(input: &str) -> Result<DeclarationParts, syn::Error> {
    let parsed = parse_declaration(input)?;
    let fields = match named_fields(&parsed) {
        Some(fields) => {
            let mut parts: Vec<FieldParts> = Vec::new();
            let mut i: usize = 0;
            while i < fields.len()
                invariant
                    i <= fields.len(),
                decreases fields.len() - i,
            {
                let field = fields[i];
                let declared_type = TypeExpr {
                    text: field_type_text(field),
                    shape: field_type_shape(field),
                };
                parts.push(FieldParts { name: field_name(field), declared_type });
                i += 1;
            }
            Some(parts)
        },
        None => None,
    };
    Ok(DeclarationParts { name: declared_name(&parsed), fields })
}

/// Reads the schema of the record that `input` declares.
///
/// Fails with `Syntax` where `input` does not parse as a struct, an enum or
/// a union, and with `Unsupported` where it parses as anything but a struct
/// with named fields. A schema that is returned has every field classified
/// by its declared type.
pub fn extract_schema(input: &str) -> (r: Result<RecordSchema, DeriveError>)
    ensures
        r matches Ok(schema) ==> schema@.classified(),
{
    match read_declaration(input) {
        Ok(parts) => schema_of(parts),
        Err(error) => Err(DeriveError::Syntax(error)),
    }
}

/// Generates the source of the builder for the record that `input`
/// declares.
///
/// Fails as [`extract_schema`] does. Whatever `syn` read, the text that is
/// returned is the generated source of a schema whose fields are all
/// classified by their declared types.
pub fn derive(input: &str) -> (r: Result<String, DeriveError>)
    ensures
        r matches Ok(out) ==> exists|schema: SchemaModel|
            schema.classified() && out@ == #[trigger] generated_source(schema),
{
    match extract_schema(input) {
        Ok(schema) => Ok(generate(&schema)),
        Err(error) => Err(error),
    }
}

} // verus!
