//! Record schemas and the builder shape derived from them.

use vstd::prelude::*;
use vstd::string::*;
use crate::types::{is_optional, TypeExpr, TypeModel};

verus! {

/// One field of a record: its name, its declared type, and whether that type
/// makes it a declared-optional field.
#[derive(Debug, PartialEq, Eq)]
pub struct FieldDescriptor {
    name: String,
    declared_type: TypeExpr,
    is_optional: bool,
}

/// Mathematical model of a [`FieldDescriptor`].
pub struct FieldModel {
    pub name: Seq<char>,
    pub declared_type: TypeModel,
    pub optional: bool,
}

impl FieldModel {
    /// The flag agrees with the classification of the declared type.
    pub open spec fn classified(self) -> bool {
        self.optional == self.declared_type.is_optional()
    }

    /// The type of the builder's slot for this field: the declared type
    /// itself where that is already the optional wrapper, else the declared
    /// type wrapped once.
    pub open spec fn storage_type(self) -> Seq<char> {
        if self.optional {
            self.declared_type.text
        } else {
            "Option<"@ + self.declared_type.text + ">"@
        }
    }

    /// The builder's slot for this field.
    pub open spec fn slot(self) -> SlotModel {
        SlotModel { name: self.name, storage_type: self.storage_type() }
    }

    /// The text by which a failed `build` names this field.
    pub open spec fn missing_message(self) -> Seq<char> {
        "missing field: "@ + self.name
    }
}

impl View for FieldDescriptor {
    type V = FieldModel;

    closed spec fn view(&self) -> FieldModel {
        FieldModel {
            name: self.name@,
            declared_type: self.declared_type@,
            optional: self.is_optional,
        }
    }
}

impl FieldDescriptor {
    #[verifier::type_invariant]
    spec fn inv(self) -> bool {
        self.is_optional == self.declared_type@.is_optional()
    }

    /// Describes a field, classifying its declared type.
    pub fn new(name: String, declared_type: TypeExpr) -> (r: FieldDescriptor)
        ensures
            r@.name == name@,
            r@.declared_type == declared_type@,
            r@.optional == declared_type@.is_optional(),
    {
        let optional = is_optional(&declared_type);
        FieldDescriptor { name, declared_type, is_optional: optional }
    }

    /// The field's name.
    pub fn name(&self) -> (r: &String)
        ensures
            r@ == self@.name,
    {
        &self.name
    }

    /// The field's declared type.
    pub fn declared_type(&self) -> (r: &TypeExpr)
        ensures
            r@ == self@.declared_type,
    {
        &self.declared_type
    }

    /// The type of the builder's slot for this field, as source text.
    pub fn storage_type(&self) -> (r: String)
        ensures
            r@ == self@.storage_type(),
    {
        if self.is_optional {
            self.declared_type.text.clone()
        } else {
            let mut text = String::from_str("Option<");
            text.append(self.declared_type.text.as_str());
            text.append(">");
            text
        }
    }

    /// The builder's slot for this field.
    pub fn slot(&self) -> (r: Slot)
        ensures
            r@ == self@.slot(),
    {
        Slot { name: self.name.clone(), storage_type: self.storage_type() }
    }

    /// Whether the field is declared optional. The flag always agrees with
    /// the classification of the declared type.
    pub fn is_optional(&self) -> (r: bool)
        ensures
            r == self@.optional,
            self@.classified(),
    {
        proof {
            use_type_invariant(self);
        }
        self.is_optional
    }
}

/// A record type: its name and its fields in declaration order.
#[derive(Debug, PartialEq, Eq)]
pub struct RecordSchema {
    record_name: String,
    fields: Vec<FieldDescriptor>,
}

/// Mathematical model of a [`RecordSchema`].
pub struct SchemaModel {
    pub record_name: Seq<char>,
    pub fields: Seq<FieldModel>,
}

impl SchemaModel {
    /// Every field's flag agrees with the classification of its type.
    pub open spec fn classified(self) -> bool {
        forall|i: int| 0 <= i < self.fields.len() ==> (#[trigger] self.fields[i]).classified()
    }

    /// Field `i` is a required field.
    pub open spec fn required(self, i: int) -> bool {
        0 <= i < self.fields.len() && !self.fields[i].optional
    }

    /// The name of the builder type.
    pub open spec fn builder_name(self) -> Seq<char> {
        self.record_name + "Builder"@
    }

    /// The shape of the builder type: one slot per field, in declaration
    /// order.
    pub open spec fn builder(self) -> BuilderModel {
        BuilderModel {
            name: self.builder_name(),
            slots: self.fields.map_values(|f: FieldModel| f.slot()),
        }
    }
}

impl View for RecordSchema {
    type V = SchemaModel;

    closed spec fn view(&self) -> SchemaModel {
        SchemaModel {
            record_name: self.record_name@,
            fields: self.fields@.map_values(|f: FieldDescriptor| f@),
        }
    }
}

impl RecordSchema {
    /// A schema with the given name and fields, in the order given.
    pub fn new(record_name: String, fields: Vec<FieldDescriptor>) -> (r: RecordSchema)
        ensures
            r@.record_name == record_name@,
            r@.fields == fields@.map_values(|f: FieldDescriptor| f@),
    {
        RecordSchema { record_name, fields }
    }

    /// The record type's name.
    pub fn record_name(&self) -> (r: &String)
        ensures
            r@ == self@.record_name,
    {
        &self.record_name
    }

    /// The number of fields.
    pub fn len(&self) -> (r: usize)
        ensures
            r == self@.fields.len(),
    {
        self.fields.len()
    }

    /// The field at position `index` in declaration order.
    pub fn field(&self, index: usize) -> (r: &FieldDescriptor)
        requires
            index < self@.fields.len(),
        ensures
            r@ == self@.fields[index as int],
    {
        &self.fields[index]
    }

    /// The name of the builder type: the record's name followed by
    /// `Builder`.
    pub fn builder_name(&self) -> (r: String)
        ensures
            r@ == self@.builder_name(),
    {
        let mut name = self.record_name.clone();
        name.append("Builder");
        name
    }

    /// Derives the shape of the builder type.
    pub fn synthesize(&self) -> (r: BuilderSchema)
        ensures
            r@ == self@.builder(),
    {
        let mut slots: Vec<Slot> = Vec::new();
        let mut i: usize = 0;
        while i < self.fields.len()
            invariant
                i <= self.fields.len(),
                slots@.len() == i,
                forall|j: int| 0 <= j < i ==> (#[trigger] slots@[j])@ == self@.fields[j].slot(),
            decreases self.fields.len() - i,
        {
            let slot = self.fields[i].slot();
            slots.push(slot);
            i += 1;
        }
        let built = BuilderSchema { name: self.builder_name(), slots };
        assert(built@.slots =~= self@.builder().slots);
        built
    }
}

/// One slot of a builder type.
#[derive(Debug, PartialEq, Eq)]
pub struct Slot {
    /// The slot's name, which is the field's name.
    pub name: String,
    /// The slot's type as source text.
    pub storage_type: String,
}

/// Mathematical model of a [`Slot`].
pub struct SlotModel {
    pub name: Seq<char>,
    pub storage_type: Seq<char>,
}

impl View for Slot {
    type V = SlotModel;

    open spec fn view(&self) -> SlotModel {
        SlotModel { name: self.name@, storage_type: self.storage_type@ }
    }
}

/// The shape of a builder type: its name and its slots.
#[derive(Debug, PartialEq, Eq)]
pub struct BuilderSchema {
    /// The builder type's name.
    pub name: String,
    /// The slots, in the declaration order of the fields they stand for.
    pub slots: Vec<Slot>,
}

/// Mathematical model of a [`BuilderSchema`].
pub struct BuilderModel {
    pub name: Seq<char>,
    pub slots: Seq<SlotModel>,
}

impl View for BuilderSchema {
    type V = BuilderModel;

    open spec fn view(&self) -> BuilderModel {
        BuilderModel { name: self.name@, slots: self.slots@.map_values(|s: Slot| s@) }
    }
}

} // verus!
