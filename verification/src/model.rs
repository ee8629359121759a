//! What the emitted builder is written to do, as a model.
//!
//! The generator hands back text and never runs it. This module states, apart
//! from the text, the behaviour that the text spells out field by field: a
//! builder holds one slot per field, [`fresh`] from `builder()`; the setter
//! of a field puts the value it is given into the slot of that field,
//! over whatever the slot held ([`after_setter`]); `build()` takes the value
//! of every slot in declaration order and fails at the first slot that is
//! absent, with the message that the assignment of that field carries
//! ([`built`]). The laws below are proved of this model.
use vstd::prelude::*;
use crate::descriptor::{FieldModel, StructModel};
use crate::emit::artifact_of;
use crate::fragments::{required_message, ASSIGNMENT_CLOSE, ASSIGNMENT_EXPECT, ASSIGNMENT_SOURCE};

verus! {

/// One call of a setter: the place of the field, and the value passed.
pub struct SetterCall<V> {
    pub field: int,
    pub value: V,
}

/// The slots of a builder that no setter was called on: all absent.
pub open spec fn fresh<V>(fields: Seq<FieldModel>) -> Seq<Option<V>> {
    Seq::new(fields.len(), |i: int| None::<V>)
}

/// The slots after a call of the setter of the field at place `field`.
pub open spec fn after_setter<V>(slots: Seq<Option<V>>, field: int, value: V) -> Seq<Option<V>> {
    slots.update(field, Some(value))
}

/// The slots after a run of calls, the first call first.
pub open spec fn after_calls<V>(slots: Seq<Option<V>>, calls: Seq<SetterCall<V>>) -> Seq<Option<V>>
    decreases calls.len(),
{
    if calls.len() == 0 {
        slots
    } else {
        after_setter(
            after_calls(slots, calls.drop_last()),
            calls.last().field,
            calls.last().value,
        )
    }
}

/// The value that the latest call of the setter of `field` passed, if that
/// setter was called at all.
pub open spec fn last_value<V>(calls: Seq<SetterCall<V>>, field: int) -> Option<V>
    decreases calls.len(),
{
    if calls.len() == 0 {
        None
    } else if calls.last().field == field {
        Some(calls.last().value)
    } else {
        last_value(calls.drop_last(), field)
    }
}

/// Every call is of the setter of one of the fields.
pub open spec fn calls_address<V>(calls: Seq<SetterCall<V>>, fields: Seq<FieldModel>) -> bool {
    forall|k: int| 0 <= k < calls.len() ==> 0 <= (#[trigger] calls[k]).field < fields.len()
}

/// What `build()` comes to: the values of the fields in declaration order,
/// or the message of the first field whose slot is absent.
pub open spec fn built<V>(
    fields: Seq<FieldModel>,
    slots: Seq<Option<V>>,
) -> Result<Seq<V>, Seq<char>> {
    match slots.index_of_first(None::<V>) {
        Some(missing) => Err(required_message(fields[missing])),
        None => Ok(Seq::new(slots.len(), |i: int| slots[i].unwrap())),
    }
}

/// A builder starts with one slot per field, and every slot absent.
pub proof fn lemma_fresh_builder_is_empty<V>(fields: Seq<FieldModel>)
    ensures
        fresh::<V>(fields).len() == fields.len(),
        forall|i: int| 0 <= i < fields.len() ==> (#[trigger] fresh::<V>(fields)[i]) is None,
{
}

/// After any run of calls each slot holds the value of the latest call of
/// its field's setter, and is absent if that setter was never called.
pub proof fn lemma_slots_hold_last_values<V>(fields: Seq<FieldModel>, calls: Seq<SetterCall<V>>)
    requires
        calls_address(calls, fields),
    ensures
        after_calls(fresh(fields), calls).len() == fields.len(),
        forall|i: int|
            0 <= i < fields.len() ==> (#[trigger] after_calls(fresh(fields), calls)[i])
                == last_value(calls, i),
    decreases calls.len(),
{
    if calls.len() > 0 {
        let earlier = calls.drop_last();
        assert forall|k: int| 0 <= k < earlier.len() implies 0 <= (#[trigger] earlier[k]).field
            < fields.len() by {
            assert(earlier[k] == calls[k]);
        }
        lemma_slots_hold_last_values(fields, earlier);
    }
}

/// Calling the setter of a field twice leaves what the second call alone
/// would have left: the second value takes the place of the first.
pub proof fn lemma_setter_overwrites<V>(slots: Seq<Option<V>>, field: int, first: V, second: V)
    requires
        0 <= field < slots.len(),
    ensures
        after_setter(after_setter(slots, field, first), field, second) == after_setter(
            slots,
            field,
            second,
        ),
        after_setter(after_setter(slots, field, first), field, second)[field] == Some(second),
{
    assert(after_setter(after_setter(slots, field, first), field, second) =~= after_setter(
        slots,
        field,
        second,
    ));
}

/// Once the setter of every field was called, in whatever order and however
/// often, `build()` gives the target, and each field of it has the value that
/// the latest call of its setter passed.
pub proof fn lemma_build_takes_last_values<V>(fields: Seq<FieldModel>, calls: Seq<SetterCall<V>>)
    requires
        calls_address(calls, fields),
        forall|i: int| 0 <= i < fields.len() ==> (#[trigger] last_value(calls, i)) is Some,
    ensures
        built(fields, after_calls(fresh(fields), calls)) matches Ok(values) && {
            &&& values.len() == fields.len()
            &&& forall|i: int|
                0 <= i < fields.len() ==> Some(#[trigger] values[i]) == last_value(calls, i)
        },
{
    let slots = after_calls(fresh(fields), calls);
    lemma_slots_hold_last_values(fields, calls);
    slots.index_of_first_ensures(None::<V>);
    if slots.contains(None::<V>) {
        let i = choose|i: int| 0 <= i < slots.len() && slots[i] == None::<V>;
        assert(last_value(calls, i) is Some);
    }
}

/// While the setter of some field has not been called, `build()` fails, and
/// the message it fails with is the one of a field whose setter was not
/// called: the first of them in declaration order. It is the message that
/// stands in the assignment emitted for that field.
pub proof fn lemma_build_names_a_missing_field<V>(
    desc: StructModel,
    calls: Seq<SetterCall<V>>,
    unset: int,
)
    requires
        calls_address(calls, desc.fields),
        0 <= unset < desc.fields.len(),
        last_value(calls, unset) is None,
    ensures
        built(desc.fields, after_calls(fresh(desc.fields), calls)) matches Err(message)
            && exists|missing: int|
            {
                &&& 0 <= missing <= unset
                &&& #[trigger] last_value(calls, missing) is None
                &&& message == required_message(desc.fields[missing])
                &&& artifact_of(desc).fragments.assignments[missing] == desc.fields[missing].name
                    + ASSIGNMENT_SOURCE@ + desc.fields[missing].name + ASSIGNMENT_EXPECT@ + message
                    + ASSIGNMENT_CLOSE@
            },
{
    let slots = after_calls(fresh(desc.fields), calls);
    lemma_slots_hold_last_values(desc.fields, calls);
    slots.index_of_first_ensures(None::<V>);
    assert(slots[unset] == None::<V>);
    let missing = slots.index_of_first(None::<V>).unwrap();
    assert(last_value(calls, missing) is None);
    if unset < missing {
        assert(slots[unset] != None::<V>);
    }
}

} // verus!
