//! Emission of the builder's source text.
//!
//! The text has three items: the builder type, an `impl` of the record type
//! with the constructor `builder()`, and an `impl` of the builder type with
//! one setter per field and the finalizer `build()`. Every part that runs
//! over the fields keeps their declaration order.

use vstd::prelude::*;
use vstd::string::*;
use crate::schema::{BuilderModel, BuilderSchema, FieldDescriptor, FieldModel, RecordSchema, SchemaModel, SlotModel};

verus! {

/// The concatenation of `parts`, in order.
pub open spec fn joined(parts: Seq<Seq<char>>) -> Seq<char>
    decreases parts.len(),
{
    if parts.len() == 0 {
        Seq::empty()
    } else {
        joined(parts.drop_last()) + parts.last()
    }
}

/// Joining one more part appends it.
pub proof fn lemma_joined_push(parts: Seq<Seq<char>>, part: Seq<char>)
    ensures
        joined(parts.push(part)) == joined(parts) + part,
{
    assert(parts.push(part).drop_last() =~= parts);
}

/// The line that declares one slot of the builder type.
pub open spec fn slot_line(slot: SlotModel) -> Seq<char> {
    "    "@ + slot.name + ": "@ + slot.storage_type + ",\n"@
}

/// The declaration of the builder type.
pub open spec fn builder_type_text(builder: BuilderModel) -> Seq<char> {
    "pub struct "@ + builder.name + " {\n"@ + joined(
        builder.slots.map_values(|s: SlotModel| slot_line(s)),
    ) + "}\n"@
}

/// The line of the constructor that leaves one slot empty.
pub open spec fn empty_slot_line(field: FieldModel) -> Seq<char> {
    "            "@ + field.name + ": None,\n"@
}

/// The `impl` of the record type that holds the constructor `builder()`.
pub open spec fn constructor_text(schema: SchemaModel) -> Seq<char> {
    "impl "@ + schema.record_name + " {\n    pub fn builder() -> "@ + schema.builder_name()
        + " {\n        "@ + schema.builder_name() + " {\n"@ + joined(
        schema.fields.map_values(|f: FieldModel| empty_slot_line(f)),
    ) + "        }\n    }\n}\n"@
}

/// What a setter stores in its slot: the argument itself where the field is
/// declared optional, else the argument wrapped once.
pub open spec fn stored_expr(field: FieldModel) -> Seq<char> {
    if field.optional {
        field.name
    } else {
        "Some("@ + field.name + ")"@
    }
}

/// The setter of one field. It has the field's name, takes a value of the
/// field's declared type and returns the builder.
pub open spec fn setter_text(field: FieldModel) -> Seq<char> {
    "    pub fn "@ + field.name + "(&mut self, "@ + field.name + ": "@ + field.declared_type.text
        + ") -> &mut Self {\n        self."@ + field.name + " = "@ + stored_expr(field)
        + ";\n        self\n    }\n"@
}

/// All setters, in declaration order.
pub open spec fn setters_text(schema: SchemaModel) -> Seq<char> {
    joined(schema.fields.map_values(|f: FieldModel| setter_text(f)))
}

/// The expression by which the finalizer drains one slot: a declared-optional
/// field takes the slot as it is, a required field fails if the slot is
/// empty.
pub open spec fn drained_expr(field: FieldModel) -> Seq<char> {
    if field.optional {
        "self."@ + field.name + ".take()"@
    } else {
        "self."@ + field.name + ".take().ok_or(\""@ + field.missing_message() + "\")?"@
    }
}

/// The line of the finalizer that fills one field of the record.
pub open spec fn drained_line(field: FieldModel) -> Seq<char> {
    "            "@ + field.name + ": "@ + drained_expr(field) + ",\n"@
}

/// The finalizer `build()`. It drains the slots in declaration order and
/// stops at the first required field whose slot is empty.
pub open spec fn finalizer_text(schema: SchemaModel) -> Seq<char> {
    "    pub fn build(&mut self) -> Result<"@ + schema.record_name
        + ", Box<dyn std::error::Error>> {\n        Ok("@ + schema.record_name + " {\n"@ + joined(
        schema.fields.map_values(|f: FieldModel| drained_line(f)),
    ) + "        })\n    }\n"@
}

/// The `impl` of the builder type: the setters, then the finalizer.
pub open spec fn builder_impl_text(schema: SchemaModel) -> Seq<char> {
    "impl "@ + schema.builder_name() + " {\n"@ + setters_text(schema) + finalizer_text(schema)
        + "}\n"@
}

/// The whole generated source for a record.
pub open spec fn generated_source(schema: SchemaModel) -> Seq<char> {
    builder_type_text(schema.builder()) + constructor_text(schema) + builder_impl_text(schema)
}

/// Emits the declaration of the builder type.
pub fn emit_builder_type(builder: &BuilderSchema) -> (out: String)
    ensures
        out@ == builder_type_text(builder@),
{
    let mut out = String::from_str("pub struct ");
    out.append(builder.name.as_str());
    out.append(" {\n");
    let ghost head = out@;
    let ghost lines = builder@.slots.map_values(|s: SlotModel| slot_line(s));
    let mut i: usize = 0;
    while i < builder.slots.len()
        invariant
            i <= builder.slots.len(),
            lines == builder@.slots.map_values(|s: SlotModel| slot_line(s)),
            out@ == head + joined(lines.take(i as int)),
        decreases builder.slots.len() - i,
    {
        let slot = &builder.slots[i];
        let ghost before = out@;
        out.append("    ");
        out.append(slot.name.as_str());
        out.append(": ");
        out.append(slot.storage_type.as_str());
        out.append(",\n");
        proof {
            assert(out@ =~= before + slot_line(slot@));
            assert(lines.take(i + 1) =~= lines.take(i as int).push(slot_line(slot@)));
            lemma_joined_push(lines.take(i as int), slot_line(slot@));
        }
        i += 1;
    }
    proof {
        assert(lines.take(i as int) =~= lines);
    }
    out.append("}\n");
    out
}

/// Emits the `impl` of the record type that holds the constructor.
pub fn emit_constructor(schema: &RecordSchema) -> (out: String)
    ensures
        out@ == constructor_text(schema@),
{
    let builder_name = schema.builder_name();
    let mut out = String::from_str("impl ");
    out.append(schema.record_name().as_str());
    out.append(" {\n    pub fn builder() -> ");
    out.append(builder_name.as_str());
    out.append(" {\n        ");
    out.append(builder_name.as_str());
    out.append(" {\n");
    let ghost head = out@;
    let ghost lines = schema@.fields.map_values(|f: FieldModel| empty_slot_line(f));
    let mut i: usize = 0;
    while i < schema.len()
        invariant
            i <= schema@.fields.len(),
            lines == schema@.fields.map_values(|f: FieldModel| empty_slot_line(f)),
            out@ == head + joined(lines.take(i as int)),
        decreases schema@.fields.len() - i,
    {
        let field = schema.field(i);
        let ghost before = out@;
        out.append("            ");
        out.append(field.name().as_str());
        out.append(": None,\n");
        proof {
            assert(out@ =~= before + empty_slot_line(field@));
            assert(lines.take(i + 1) =~= lines.take(i as int).push(empty_slot_line(field@)));
            lemma_joined_push(lines.take(i as int), empty_slot_line(field@));
        }
        i += 1;
    }
    proof {
        assert(lines.take(i as int) =~= lines);
    }
    out.append("        }\n    }\n}\n");
    out
}

/// Emits the setter of one field.
pub fn emit_setter(field: &FieldDescriptor) -> (out: String)
    ensures
        out@ == setter_text(field@),
{
    let name = field.name().as_str();
    let mut out = String::from_str("    pub fn ");
    out.append(name);
    out.append("(&mut self, ");
    out.append(name);
    out.append(": ");
    out.append(field.declared_type().text.as_str());
    out.append(") -> &mut Self {\n        self.");
    out.append(name);
    out.append(" = ");
    if field.is_optional() {
        out.append(name);
    } else {
        out.append("Some(");
        out.append(name);
        out.append(")");
    }
    out.append(";\n        self\n    }\n");
    assert(out@ =~= setter_text(field@));
    out
}

/// Emits all setters, in declaration order.
pub fn emit_setters(schema: &RecordSchema) -> (out: String)
    ensures
        out@ == setters_text(schema@),
{
    let mut out = String::new();
    let ghost lines = schema@.fields.map_values(|f: FieldModel| setter_text(f));
    let mut i: usize = 0;
    while i < schema.len()
        invariant
            i <= schema@.fields.len(),
            lines == schema@.fields.map_values(|f: FieldModel| setter_text(f)),
            out@ == joined(lines.take(i as int)),
        decreases schema@.fields.len() - i,
    {
        let setter = emit_setter(schema.field(i));
        out.append(setter.as_str());
        proof {
            assert(lines.take(i + 1) =~= lines.take(i as int).push(setter@));
            lemma_joined_push(lines.take(i as int), setter@);
        }
        i += 1;
    }
    proof {
        assert(lines.take(i as int) =~= lines);
    }
    out
}

/// Emits the line of the finalizer that fills one field of the record.
pub fn emit_drained_line(field: &FieldDescriptor) -> (out: String)
    ensures
        out@ == drained_line(field@),
{
    let name = field.name().as_str();
    let mut out = String::from_str("            ");
    out.append(name);
    out.append(": ");
    out.append("self.");
    out.append(name);
    if field.is_optional() {
        out.append(".take()");
    } else {
        out.append(".take().ok_or(\"");
        out.append("missing field: ");
        out.append(name);
        out.append("\")?");
    }
    out.append(",\n");
    assert(out@ =~= drained_line(field@));
    out
}

/// Emits the finalizer `build()`.
pub fn emit_finalizer(schema: &RecordSchema) -> (out: String)
    ensures
        out@ == finalizer_text(schema@),
{
    let mut out = String::from_str("    pub fn build(&mut self) -> Result<");
    out.append(schema.record_name().as_str());
    out.append(", Box<dyn std::error::Error>> {\n        Ok(");
    out.append(schema.record_name().as_str());
    out.append(" {\n");
    let ghost head = out@;
    let ghost lines = schema@.fields.map_values(|f: FieldModel| drained_line(f));
    let mut i: usize = 0;
    while i < schema.len()
        invariant
            i <= schema@.fields.len(),
            lines == schema@.fields.map_values(|f: FieldModel| drained_line(f)),
            out@ == head + joined(lines.take(i as int)),
        decreases schema@.fields.len() - i,
    {
        let line = emit_drained_line(schema.field(i));
        let ghost before = out@;
        out.append(line.as_str());
        proof {
            assert(lines.take(i + 1) =~= lines.take(i as int).push(line@));
            lemma_joined_push(lines.take(i as int), line@);
            assert(out@ =~= head + joined(lines.take(i + 1)));
        }
        i += 1;
    }
    proof {
        assert(lines.take(i as int) =~= lines);
    }
    out.append("        })\n    }\n");
    out
}

/// Emits the whole source of the builder for `schema`: the builder type,
/// the constructor, the setters and the finalizer.
pub fn generate(schema: &RecordSchema) -> (out: String)
    ensures
        out@ == generated_source(schema@),
{
    let builder = schema.synthesize();
    let mut out = emit_builder_type(&builder);
    out.append(emit_constructor(schema).as_str());
    out.append("impl ");
    out.append(builder.name.as_str());
    out.append(" {\n");
    out.append(emit_setters(schema).as_str());
    out.append(emit_finalizer(schema).as_str());
    out.append("}\n");
    assert(out@ =~= generated_source(schema@));
    out
}

} // verus!
