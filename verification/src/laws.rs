//! Laws of the builder, proved over the models.
//!
//! The laws speak of the slots of a builder as a sequence, of a setter call
//! as [`assigned`], and of `build` as [`outcome`] and
//! [`slots_after_build`]: the functions by which the contracts of
//! [`BuilderInstance`](crate::instance::BuilderInstance) are stated.

use vstd::prelude::*;
use crate::instance::{
    assigned,
    complete,
    first_missing,
    fresh,
    lemma_outcome_missing,
    outcome,
    record_values,
    slots_after_build,
    stored,
    well_typed,
    FieldValue,
    Outcome,
};
use crate::schema::SchemaModel;

verus! {

/// One setter call: the position of the field and the value passed.
pub struct Assignment<V> {
    pub index: int,
    pub value: FieldValue<V>,
}

/// The slots after the setter calls `calls`, made in order on `slots`.
pub open spec fn applied<V>(slots: Seq<Option<V>>, calls: Seq<Assignment<V>>) -> Seq<Option<V>>
    decreases calls.len(),
{
    if calls.len() == 0 {
        slots
    } else {
        assigned(applied(slots, calls.drop_last()), calls.last().index, calls.last().value)
    }
}

/// The value that the last call of the setter of field `index` passed, if
/// that setter was called at all.
pub open spec fn last_value<V>(calls: Seq<Assignment<V>>, index: int) -> Option<FieldValue<V>>
    decreases calls.len(),
{
    if calls.len() == 0 {
        None
    } else if calls.last().index == index {
        Some(calls.last().value)
    } else {
        last_value(calls.drop_last(), index)
    }
}

/// Every call names a field of the schema and passes a value of the kind
/// that the field declares.
pub open spec fn all_well_typed<V>(schema: SchemaModel, calls: Seq<Assignment<V>>) -> bool {
    forall|c: int|
        0 <= c < calls.len() ==> well_typed(
            schema,
            (#[trigger] calls[c]).index,
            calls[c].value,
        )
}

/// A record with every field absent.
pub open spec fn all_absent<V>(n: nat) -> Seq<FieldValue<V>> {
    Seq::new(n, |i: int| FieldValue::Optional(None))
}

/// A setter changes its own slot and no other, and keeps the number of
/// slots.
pub proof fn lemma_setter_touches_one_slot<V>(
    slots: Seq<Option<V>>,
    index: int,
    value: FieldValue<V>,
)
    requires
        0 <= index < slots.len(),
    ensures
        assigned(slots, index, value).len() == slots.len(),
        assigned(slots, index, value)[index] == stored(value),
        forall|i: int|
            0 <= i < slots.len() && i != index ==> #[trigger] assigned(slots, index, value)[i]
                == slots[i],
{
}

/// A setter overwrites: of two calls for one field, the later one counts.
pub proof fn lemma_setter_overwrites<V>(
    slots: Seq<Option<V>>,
    index: int,
    first: FieldValue<V>,
    second: FieldValue<V>,
)
    requires
        0 <= index < slots.len(),
    ensures
        assigned(assigned(slots, index, first), index, second) == assigned(slots, index, second),
{
    assert(assigned(assigned(slots, index, first), index, second) =~= assigned(
        slots,
        index,
        second,
    ));
}

/// The order of two setter calls for different fields does not matter:
/// both orders leave the same slots, so `build` ends the same way.
pub proof fn lemma_setters_commute<V>(
    schema: SchemaModel,
    slots: Seq<Option<V>>,
    i: int,
    x: FieldValue<V>,
    j: int,
    y: FieldValue<V>,
)
    requires
        0 <= i < slots.len(),
        0 <= j < slots.len(),
        i != j,
    ensures
        assigned(assigned(slots, i, x), j, y) == assigned(assigned(slots, j, y), i, x),
        outcome(schema, assigned(assigned(slots, i, x), j, y)) == outcome(
            schema,
            assigned(assigned(slots, j, y), i, x),
        ),
{
    assert(assigned(assigned(slots, i, x), j, y) =~= assigned(assigned(slots, j, y), i, x));
}

/// After any setter calls, a slot holds what the last call of its setter
/// stored, or what it held before if its setter was not called.
pub proof fn lemma_applied_slot<V>(slots: Seq<Option<V>>, calls: Seq<Assignment<V>>, i: int)
    requires
        forall|c: int| 0 <= c < calls.len() ==> 0 <= (#[trigger] calls[c]).index < slots.len(),
        0 <= i < slots.len(),
    ensures
        applied(slots, calls).len() == slots.len(),
        applied(slots, calls)[i] == match last_value(calls, i) {
            Some(value) => stored(value),
            None => slots[i],
        },
    decreases calls.len(),
{
    if calls.len() > 0 {
        let earlier = calls.drop_last();
        assert forall|c: int| 0 <= c < earlier.len() implies 0 <= (#[trigger] earlier[c]).index
            < slots.len() by {
            assert(earlier[c] == calls[c]);
        }
        lemma_applied_slot(slots, earlier, i);
        assert(0 <= calls[calls.len() - 1].index < slots.len());
    }
}

/// A value that `last_value` gives was passed by one of the calls.
pub proof fn lemma_last_value_is_a_call<V>(calls: Seq<Assignment<V>>, index: int)
    requires
        last_value(calls, index) is Some,
    ensures
        exists|c: int|
            0 <= c < calls.len() && (#[trigger] calls[c]).index == index && calls[c].value
                == last_value(calls, index)->Some_0,
    decreases calls.len(),
{
    if calls.last().index == index {
        assert(calls[calls.len() - 1].index == index);
    } else {
        let earlier = calls.drop_last();
        lemma_last_value_is_a_call(earlier, index);
        let c = choose|c: int|
            0 <= c < earlier.len() && (#[trigger] earlier[c]).index == index && earlier[c].value
                == last_value(earlier, index)->Some_0;
        assert(calls[c] == earlier[c]);
    }
}

/// Only the last call of each setter counts: two runs of setter calls in
/// which every field got the same last value leave the same slots, whatever
/// the order of the calls, and `build` ends the same way after both.
pub proof fn lemma_call_order_is_irrelevant<V>(
    schema: SchemaModel,
    slots: Seq<Option<V>>,
    calls1: Seq<Assignment<V>>,
    calls2: Seq<Assignment<V>>,
)
    requires
        forall|c: int| 0 <= c < calls1.len() ==> 0 <= (#[trigger] calls1[c]).index < slots.len(),
        forall|c: int| 0 <= c < calls2.len() ==> 0 <= (#[trigger] calls2[c]).index < slots.len(),
        forall|i: int| 0 <= i < slots.len() ==> last_value(calls1, i) == last_value(calls2, i),
    ensures
        applied(slots, calls1) == applied(slots, calls2),
        outcome(schema, applied(slots, calls1)) == outcome(schema, applied(slots, calls2)),
{
    assert forall|i: int| 0 <= i < slots.len() implies applied(slots, calls1)[i] == applied(
        slots,
        calls2,
    )[i] by {
        lemma_applied_slot(slots, calls1, i);
        lemma_applied_slot(slots, calls2, i);
    }
    if slots.len() > 0 {
        lemma_applied_slot(slots, calls1, 0);
        lemma_applied_slot(slots, calls2, 0);
    } else {
        lemma_applied_on_no_slots(slots, calls1);
        lemma_applied_on_no_slots(slots, calls2);
    }
    assert(applied(slots, calls1) =~= applied(slots, calls2));
}

/// Without slots there is no setter, so no call changes anything.
proof fn lemma_applied_on_no_slots<V>(slots: Seq<Option<V>>, calls: Seq<Assignment<V>>)
    requires
        slots.len() == 0,
        forall|c: int| 0 <= c < calls.len() ==> 0 <= (#[trigger] calls[c]).index < slots.len(),
    ensures
        applied(slots, calls).len() == 0,
{
    if calls.len() > 0 {
        let first = calls[0];
        assert(0 <= first.index < slots.len());
    }
}

/// `build` returns what the setters were given. After well-typed setter
/// calls on a fresh builder, `build` succeeds exactly when the setter of
/// every required field was called, and each field of the record then is
/// the value that the last call of its setter passed; a declared-optional
/// field whose setter was not called is absent.
pub proof fn lemma_build_returns_last_values<V>(schema: SchemaModel, calls: Seq<Assignment<V>>)
    requires
        all_well_typed(schema, calls),
    ensures
        complete(schema, applied(fresh::<V>(schema.fields.len()), calls)) <==> (forall|i: int|
            #[trigger] schema.required(i) ==> last_value(calls, i) is Some),
        outcome(schema, applied(fresh::<V>(schema.fields.len()), calls)) matches Outcome::Built(
            values,
        ) ==> {
            &&& values.len() == schema.fields.len()
            &&& forall|i: int|
                0 <= i < schema.fields.len() ==> #[trigger] values[i] == match last_value(
                    calls,
                    i,
                ) {
                    Some(value) => value,
                    None => FieldValue::Optional(None),
                }
        },
{
    let n = schema.fields.len();
    let start = fresh::<V>(n);
    let slots = applied(start, calls);
    assert forall|i: int| 0 <= i < n implies {
        &&& #[trigger] slots[i] == match last_value(calls, i) {
            Some(value) => stored(value),
            None => None,
        }
        &&& last_value(calls, i) matches Some(value) ==> well_typed(schema, i, value)
    } by {
        lemma_applied_slot(start, calls, i);
        if last_value(calls, i) is Some {
            lemma_last_value_is_a_call(calls, i);
        }
    }
    assert forall|i: int| #[trigger] schema.required(i) implies (slots[i] is Some <==> last_value(
        calls,
        i,
    ) is Some) by {
        assert(slots[i] == match last_value(calls, i) {
            Some(value) => stored(value),
            None => None,
        });
    }
    if complete(schema, slots) {
        let values = record_values(schema, slots);
        assert forall|i: int| 0 <= i < n implies #[trigger] values[i] == match last_value(
            calls,
            i,
        ) {
            Some(value) => value,
            None => FieldValue::Optional(None),
        } by {
            assert(slots[i] == match last_value(calls, i) {
                Some(value) => stored(value),
                None => None,
            });
            if !schema.fields[i].optional {
                assert(schema.required(i));
            }
        }
    }
}

/// Where `build` does not succeed, some field is the first required one
/// without a value, and `build` reports that field.
pub proof fn lemma_failure_reports_first_missing<V>(schema: SchemaModel, slots: Seq<Option<V>>)
    requires
        !complete(schema, slots),
    ensures
        outcome(schema, slots) matches Outcome::Missing(k) && first_missing(schema, slots, k),
{
    let bad = choose|i: int| #[trigger] schema.required(i) && !(slots[i] is Some);
    let k = least_missing(schema, slots, 0, bad);
    lemma_outcome_missing(schema, slots, k);
}

/// The first required field without a value at or after `from`, found by
/// walking up to a known one at `bad`.
proof fn least_missing<V>(schema: SchemaModel, slots: Seq<Option<V>>, from: int, bad: int) -> (k:
    int)
    requires
        0 <= from <= bad,
        schema.required(bad),
        slots[bad] is None,
        forall|j: int| j < from && #[trigger] schema.required(j) ==> slots[j] is Some,
    ensures
        first_missing(schema, slots, k),
    decreases bad - from,
{
    if schema.required(from) && slots[from] is None {
        from
    } else {
        least_missing(schema, slots, from + 1, bad)
    }
}

/// A fresh builder of a record whose fields are all declared optional
/// builds at once, and every field of the record is absent.
pub proof fn lemma_all_optional_builds_fresh<V>(schema: SchemaModel)
    requires
        forall|i: int| 0 <= i < schema.fields.len() ==> (#[trigger] schema.fields[i]).optional,
    ensures
        outcome(schema, fresh::<V>(schema.fields.len())) == Outcome::Built(
            all_absent::<V>(schema.fields.len()),
        ),
{
    let slots = fresh::<V>(schema.fields.len());
    assert forall|i: int| #[trigger] schema.required(i) implies slots[i] is Some by {
        assert(schema.fields[i].optional);
    }
    assert(record_values(schema, slots) =~= all_absent::<V>(schema.fields.len()));
}

/// With every slot empty, `build` reports the first required field in
/// declaration order.
pub proof fn lemma_empty_reports_first_required<V>(schema: SchemaModel, k: int)
    requires
        schema.required(k),
        forall|j: int| 0 <= j < k ==> (#[trigger] schema.fields[j]).optional,
    ensures
        outcome(schema, fresh::<V>(schema.fields.len())) == Outcome::<V>::Missing(k),
{
    let slots = fresh::<V>(schema.fields.len());
    assert forall|j: int| j < k && #[trigger] schema.required(j) implies slots[j] is Some by {
        assert(schema.fields[j].optional);
    }
    lemma_outcome_missing(schema, slots, k);
}

/// A successful `build` leaves every slot empty. A second `build` with no
/// setter call between the two therefore fails where the record has a
/// required field, reporting the first of them, and succeeds with every
/// field absent where it has none.
pub proof fn lemma_second_build<V>(schema: SchemaModel, slots: Seq<Option<V>>)
    requires
        slots.len() == schema.fields.len(),
        outcome(schema, slots) is Built,
    ensures
        slots_after_build(schema, slots) == fresh::<V>(schema.fields.len()),
        forall|k: int|
            schema.required(k) && (forall|j: int|
                0 <= j < k ==> (#[trigger] schema.fields[j]).optional) ==> outcome(
                schema,
                slots_after_build(schema, slots),
            ) == Outcome::<V>::Missing(k),
        (forall|i: int| 0 <= i < schema.fields.len() ==> (#[trigger] schema.fields[i]).optional)
            ==> outcome(schema, slots_after_build(schema, slots)) == Outcome::Built(
            all_absent::<V>(schema.fields.len()),
        ),
{
    assert(slots_after_build(schema, slots) =~= fresh::<V>(schema.fields.len()));
    assert forall|k: int|
        schema.required(k) && (forall|j: int|
            0 <= j < k ==> (#[trigger] schema.fields[j]).optional) implies outcome(
        schema,
        slots_after_build(schema, slots),
    ) == Outcome::<V>::Missing(k) by {
        lemma_empty_reports_first_required::<V>(schema, k);
    }
    if forall|i: int| 0 <= i < schema.fields.len() ==> (#[trigger] schema.fields[i]).optional {
        lemma_all_optional_builds_fresh::<V>(schema);
    }
}

/// A failed `build` empties the slots up to and including the field it
/// reports and leaves the slots behind that field as they were.
pub proof fn lemma_failed_build_drains_prefix<V>(
    schema: SchemaModel,
    slots: Seq<Option<V>>,
    k: int,
)
    requires
        slots.len() == schema.fields.len(),
        first_missing(schema, slots, k),
    ensures
        slots_after_build(schema, slots).len() == slots.len(),
        forall|i: int| 0 <= i <= k ==> #[trigger] slots_after_build(schema, slots)[i] is None,
        forall|i: int|
            k < i < slots.len() ==> #[trigger] slots_after_build(schema, slots)[i] == slots[i],
{
    lemma_outcome_missing(schema, slots, k);
}

/// The builder type has one slot per field, in declaration order and under
/// the field's name. The slot of a required field has the declared type
/// wrapped once; the slot of a declared-optional field has the declared
/// type itself, not wrapped again.
pub proof fn lemma_builder_shape(schema: SchemaModel)
    ensures
        schema.builder().slots.len() == schema.fields.len(),
        forall|i: int|
            0 <= i < schema.fields.len() ==> {
                let field = schema.fields[i];
                let slot = #[trigger] schema.builder().slots[i];
                &&& slot.name == field.name
                &&& field.optional ==> slot.storage_type == field.declared_type.text
                &&& !field.optional ==> slot.storage_type == "Option<"@ + field.declared_type.text
                    + ">"@
            },
{
}

} // verus!
