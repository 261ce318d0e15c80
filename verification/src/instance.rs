//! What a builder does when it runs.
//!
//! A [`BuilderInstance`] behaves as the generated builder of its schema
//! does: it starts with every slot empty, a setter overwrites one slot, and
//! `build` drains the slots in declaration order, stopping at the first
//! required field whose slot is empty. The values are of any one type `V`.

use vstd::prelude::*;
use vstd::string::*;
use crate::schema::{RecordSchema, SchemaModel};

verus! {

/// A value of a field's declared type: a plain value for a required field,
/// an optional value for a declared-optional one.
#[derive(Debug, PartialEq, Eq)]
pub enum FieldValue<V> {
    /// A value of a required field.
    Plain(V),
    /// A value of a declared-optional field: present or absent.
    Optional(Option<V>),
}

/// Whether `value` has the kind that field `index` of `schema` declares.
pub open spec fn well_typed<V>(schema: SchemaModel, index: int, value: FieldValue<V>) -> bool {
    &&& 0 <= index < schema.fields.len()
    &&& schema.fields[index].optional == (value is Optional)
}

/// What a setter stores for `value`: a plain value is wrapped once, an
/// optional value is stored as it is.
pub open spec fn stored<V>(value: FieldValue<V>) -> Option<V> {
    match value {
        FieldValue::Plain(v) => Some(v),
        FieldValue::Optional(o) => o,
    }
}

/// The slots after the setter of field `index` was called with `value`.
pub open spec fn assigned<V>(slots: Seq<Option<V>>, index: int, value: FieldValue<V>) -> Seq<
    Option<V>,
> {
    slots.update(index, stored(value))
}

/// `n` empty slots.
pub open spec fn fresh<V>(n: nat) -> Seq<Option<V>> {
    Seq::new(n, |i: int| None)
}

/// `slots` with the first `count` of them emptied.
pub open spec fn drained<V>(slots: Seq<Option<V>>, count: int) -> Seq<Option<V>> {
    Seq::new(slots.len(), |i: int| if i < count { None } else { slots[i] })
}

/// Every required field has a value.
pub open spec fn complete<V>(schema: SchemaModel, slots: Seq<Option<V>>) -> bool {
    forall|i: int| #[trigger] schema.required(i) ==> slots[i] is Some
}

/// Field `k` is the first required field, in declaration order, whose slot
/// is empty.
pub open spec fn first_missing<V>(schema: SchemaModel, slots: Seq<Option<V>>, k: int) -> bool {
    &&& schema.required(k)
    &&& slots[k] is None
    &&& forall|j: int| j < k && #[trigger] schema.required(j) ==> slots[j] is Some
}

/// The field values of the record that `build` makes of complete `slots`:
/// a declared-optional field has its slot as it is, a required field has
/// what its slot holds.
pub open spec fn record_values<V>(schema: SchemaModel, slots: Seq<Option<V>>) -> Seq<
    FieldValue<V>,
> {
    Seq::new(
        schema.fields.len(),
        |i: int|
            if schema.fields[i].optional {
                FieldValue::Optional(slots[i])
            } else {
                FieldValue::Plain(slots[i]->Some_0)
            },
    )
}

/// How a call of `build` ends.
pub enum Outcome<V> {
    /// Success, with the record's field values in declaration order.
    Built(Seq<FieldValue<V>>),
    /// Failure, with the position of the field that is reported.
    Missing(int),
}

/// How `build` ends on `slots`: with the record where every required field
/// has a value, else with the first required field that has none.
pub open spec fn outcome<V>(schema: SchemaModel, slots: Seq<Option<V>>) -> Outcome<V> {
    if complete(schema, slots) {
        Outcome::Built(record_values(schema, slots))
    } else {
        Outcome::Missing(choose|k: int| first_missing(schema, slots, k))
    }
}

/// The slots that `build` leaves: all empty after a success; after a
/// failure, empty up to and including the reported field and untouched
/// behind it.
pub open spec fn slots_after_build<V>(schema: SchemaModel, slots: Seq<Option<V>>) -> Seq<
    Option<V>,
> {
    match outcome(schema, slots) {
        Outcome::Built(_) => drained(slots, slots.len() as int),
        Outcome::Missing(k) => drained(slots, k + 1),
    }
}

/// At most one field is the first missing one.
pub proof fn lemma_first_missing_unique<V>(
    schema: SchemaModel,
    slots: Seq<Option<V>>,
    k1: int,
    k2: int,
)
    requires
        first_missing(schema, slots, k1),
        first_missing(schema, slots, k2),
    ensures
        k1 == k2,
{
}

/// If field `k` is the first missing one, `build` reports it.
pub proof fn lemma_outcome_missing<V>(schema: SchemaModel, slots: Seq<Option<V>>, k: int)
    requires
        first_missing(schema, slots, k),
    ensures
        outcome(schema, slots) == Outcome::<V>::Missing(k),
{
    let chosen = choose|j: int| first_missing(schema, slots, j);
    lemma_first_missing_unique(schema, slots, k, chosen);
}

/// A record made by `build`: one value per field, in declaration order.
#[derive(Debug, PartialEq, Eq)]
pub struct Record<V> {
    values: Vec<FieldValue<V>>,
}

impl<V> View for Record<V> {
    type V = Seq<FieldValue<V>>;

    closed spec fn view(&self) -> Seq<FieldValue<V>> {
        self.values@
    }
}

impl<V> Record<V> {
    /// The number of fields.
    pub fn len(&self) -> (r: usize)
        ensures
            r == self@.len(),
    {
        self.values.len()
    }

    /// The value of the field at position `index`.
    pub fn get(&self, index: usize) -> (r: &FieldValue<V>)
        requires
            index < self@.len(),
        ensures
            *r == self@[index as int],
    {
        &self.values[index]
    }

    /// The field values, in declaration order.
    pub fn into_values(self) -> (r: Vec<FieldValue<V>>)
        ensures
            r@ == self@,
    {
        self.values
    }
}

/// The failure of `build`: a required field had no value.
#[derive(Debug, PartialEq, Eq)]
pub struct MissingField {
    /// The field's position in declaration order.
    pub index: usize,
    /// The field's name.
    pub name: String,
}

impl MissingField {
    /// The failure as text: `missing field: ` and the field's name.
    pub fn message(&self) -> (r: String)
        ensures
            r@ == "missing field: "@ + self.name@,
    {
        let mut text = String::from_str("missing field: ");
        text.append(self.name.as_str());
        text
    }
}

/// A builder at run time: the schema it was made for, and one slot per
/// field.
pub struct BuilderInstance<'a, V> {
    schema: &'a RecordSchema,
    slots: Vec<Option<V>>,
}

/// Mathematical model of a [`BuilderInstance`].
pub struct InstanceModel<V> {
    pub schema: SchemaModel,
    pub slots: Seq<Option<V>>,
}

impl<'a, V> View for BuilderInstance<'a, V> {
    type V = InstanceModel<V>;

    closed spec fn view(&self) -> InstanceModel<V> {
        InstanceModel { schema: self.schema@, slots: self.slots@ }
    }
}

impl RecordSchema {
    /// A builder for this record, with every slot empty.
    pub fn builder<V>(&self) -> (r: BuilderInstance<'_, V>)
        ensures
            r@.schema == self@,
            r@.slots == fresh::<V>(self@.fields.len()),
    {
        let mut slots: Vec<Option<V>> = Vec::new();
        let mut i: usize = 0;
        while i < self.len()
            invariant
                i <= self@.fields.len(),
                slots@ == fresh::<V>(i as nat),
            decreases self@.fields.len() - i,
        {
            slots.push(None);
            i += 1;
            assert(slots@ =~= fresh::<V>(i as nat));
        }
        BuilderInstance { schema: self, slots }
    }
}

impl<'a, V> BuilderInstance<'a, V> {
    #[verifier::type_invariant]
    spec fn inv(self) -> bool {
        self.slots@.len() == self.schema@.fields.len()
    }

    /// The schema that the builder was made for.
    pub fn schema(&self) -> (r: &'a RecordSchema)
        ensures
            r@ == self@.schema,
            self@.slots.len() == self@.schema.fields.len(),
    {
        proof {
            use_type_invariant(self);
        }
        self.schema
    }

    /// Whether the slot of field `index` holds a value.
    pub fn is_set(&self, index: usize) -> (r: bool)
        requires
            index < self@.slots.len(),
        ensures
            r == (self@.slots[index as int] is Some),
    {
        self.slots[index].is_some()
    }

    /// The setter of field `index`: stores `value` in that field's slot,
    /// over whatever the slot held, and hands the builder back. No other
    /// slot changes.
    pub fn set(&mut self, index: usize, value: FieldValue<V>) -> (ret: &mut Self)
        requires
            index < old(self)@.slots.len(),
        ensures
            ret@.schema == old(self)@.schema,
            ret@.slots == assigned(old(self)@.slots, index as int, value),
            *final(self) == *final(ret),
    {
        proof {
            use_type_invariant(&*self);
        }
        let slot = match value {
            FieldValue::Plain(v) => Some(v),
            FieldValue::Optional(o) => o,
        };
        self.slots[index] = slot;
        self
    }

    /// The finalizer. Drains the slots in declaration order and makes the
    /// record of what they held; fails at the first required field whose
    /// slot is empty, naming it, and leaves the slots behind that field
    /// untouched.
    pub fn build(&mut self) -> (r: Result<Record<V>, MissingField>)
        ensures
            final(self)@.schema == old(self)@.schema,
            final(self)@.slots == slots_after_build(old(self)@.schema, old(self)@.slots),
            match outcome(old(self)@.schema, old(self)@.slots) {
                Outcome::Built(values) => r matches Ok(record) && record@ == values,
                Outcome::Missing(k) => r matches Err(missing) && missing.index == k
                    && missing.name@ == old(self)@.schema.fields[k].name,
            },
    {
        proof {
            use_type_invariant(&*self);
        }
        let ghost schema = self@.schema;
        let ghost given = self@.slots;
        let count = self.slots.len();
        let mut values: Vec<FieldValue<V>> = Vec::new();
        let mut i: usize = 0;
        while i < count
            invariant
                i <= count,
                schema == old(self)@.schema,
                given == old(self)@.slots,
                count == given.len(),
                count == schema.fields.len(),
                self@.schema == schema,
                self@.slots == drained(given, i as int),
                values@.len() == i,
                forall|j: int| j < i && #[trigger] schema.required(j) ==> given[j] is Some,
                forall|j: int| 0 <= j < i ==> values@[j] == record_values(schema, given)[j],
            decreases count - i,
        {
            let slot = self.slots[i].take();
            assert(slot == given[i as int]);
            assert(self@.slots =~= drained(given, i + 1));
            let field = self.schema.field(i);
            if field.is_optional() {
                values.push(FieldValue::Optional(slot));
            } else {
                match slot {
                    Some(v) => {
                        values.push(FieldValue::Plain(v));
                    },
                    None => {
                        proof {
                            assert(schema.required(i as int));
                            assert(first_missing(schema, given, i as int));
                            lemma_outcome_missing(schema, given, i as int);
                        }
                        return Err(MissingField { index: i, name: field.name().clone() });
                    },
                }
            }
            i += 1;
        }
        proof {
            assert(complete(schema, given));
            assert(values@ =~= record_values(schema, given));
        }
        Ok(Record { values })
    }
}

} // verus!
