//! What the generated declarations do when they run.
//!
//! The generators write source text. This module holds the same behaviour as
//! code that runs here: a builder over the fields of a record description,
//! with values of any one type, and the text that the debug formatter prints.
//! The laws of both are stated and proved over these.

use vstd::prelude::*;
use crate::builder::{builder_rejection, missing_message};
use crate::classify::get_inner_ty;
use crate::debug::debug_rejection;
use crate::model::{
    field_specs, FieldDescription, FieldSpec, RecordDescription, Rejection, Shape,
};
use crate::text::texts;

verus! {

/// The value of one field of a finished record.
#[derive(Clone, Debug, PartialEq, Eq)]
pub enum FieldValue<V> {
    /// The value of a field that is not declared with an optional wrapper.
    Plain(V),
    /// The value of a field declared as `Option<T>`.
    Optional(Option<V>),
}

/// The error of [`RecordBuilder::build`]: a required field was never set.
#[derive(Clone, Debug, PartialEq, Eq)]
pub struct MissingField {
    /// The name of the field.
    pub field: String,
}

impl MissingField {
    /// The message that names the field.
    pub fn message(&self) -> (text: String)
        ensures
            text@ == missing_message(self.field@),
    {
        let mut text = self.field.clone();
        text.append(" is missing");
        text
    }
}

/// The state of a builder whose setters were never called.
pub open spec fn unset<V>(len: nat) -> Seq<Option<V>> {
    Seq::new(len, |i: int| None)
}

/// Whether field `i` stops `build`: it is required and holds nothing.
pub open spec fn missing<V>(fields: Seq<FieldSpec>, slots: Seq<Option<V>>, i: int) -> bool {
    !fields[i].optional() && slots[i] is None
}

/// Whether no field stops `build`: every required field holds a value.
pub open spec fn complete<V>(fields: Seq<FieldSpec>, slots: Seq<Option<V>>) -> bool {
    forall|i: int| 0 <= i < fields.len() ==> !missing(fields, slots, i)
}

/// The first field from `from` on, in declaration order, that stops `build`.
pub open spec fn first_missing<V>(
    fields: Seq<FieldSpec>,
    slots: Seq<Option<V>>,
    from: int,
) -> Option<int>
    decreases fields.len() - from,
{
    if from >= fields.len() {
        None
    } else if missing(fields, slots, from) {
        Some(from)
    } else {
        first_missing(fields, slots, from + 1)
    }
}

/// The record that `build` assembles when no field stops it.
pub open spec fn assembled<V>(fields: Seq<FieldSpec>, slots: Seq<Option<V>>) -> Seq<
    FieldValue<V>,
> {
    Seq::new(
        fields.len(),
        |i: int|
            if fields[i].optional() {
                FieldValue::Optional(slots[i])
            } else {
                FieldValue::Plain(slots[i]->Some_0)
            },
    )
}

/// What `build` returns: the name of the first required field that is unset,
/// or else the assembled record. A field declared with an optional wrapper
/// never stops it: unset, it is absent in the record.
pub open spec fn finalize<V>(fields: Seq<FieldSpec>, slots: Seq<Option<V>>) -> Result<
    Seq<FieldValue<V>>,
    Seq<char>,
> {
    match first_missing(fields, slots, 0) {
        Some(i) => Err(fields[i].name),
        None => Ok(assembled(fields, slots)),
    }
}

/// The position of the first field called `name`.
pub open spec fn position(fields: Seq<FieldSpec>, name: Seq<char>, from: int) -> Option<int>
    decreases fields.len() - from,
{
    if from >= fields.len() {
        None
    } else if fields[from].name == name {
        Some(from)
    } else {
        position(fields, name, from + 1)
    }
}

/// A builder as a value: the fields it was made for and what each holds.
pub struct BuilderState<V> {
    pub fields: Seq<FieldSpec>,
    pub slots: Seq<Option<V>>,
}

/// The companion of a record: one slot per field, every slot absent at first.
///
/// A setter takes the bare value and makes the slot present; nothing makes
/// it absent again. So a slot of an optional field that was never set and one
/// that is meant to stay empty are the same slot, and `build` takes both for
/// absent.
pub struct RecordBuilder<'a, V> {
    fields: &'a Vec<FieldDescription>,
    slots: Vec<Option<V>>,
}

impl<'a, V> View for RecordBuilder<'a, V> {
    type V = BuilderState<V>;

    closed spec fn view(&self) -> BuilderState<V> {
        BuilderState { fields: field_specs(self.fields@), slots: self.slots@ }
    }
}

impl RecordDescription {
    /// Makes the builder of this record, with every field absent. Like the
    /// generator, it takes a struct with named fields and nothing else.
    pub fn builder<V>(&self) -> (result: Result<RecordBuilder<'_, V>, Rejection>)
        ensures
            result is Ok <==> self@.shape is Named,
            match result {
                Ok(made) => made@.fields == self@.fields() && made@.slots == unset::<V>(
                    self@.fields().len(),
                ),
                Err(why) => builder_rejection(self@.shape) == Some(why),
            },
    {
        let fields = match &self.shape {
            Shape::Named(fields) => fields,
            Shape::Tuple => { return Err(Rejection::TupleStruct); },
            Shape::Unit => { return Err(Rejection::UnitStruct); },
            Shape::Enum => { return Err(Rejection::Enum); },
            Shape::Union => { return Err(Rejection::Union); },
        };
        let mut slots: Vec<Option<V>> = Vec::new();
        while slots.len() < fields.len()
            invariant
                slots.len() <= fields.len(),
                forall|k: int| 0 <= k < slots.len() ==> slots@[k] is None,
            decreases fields.len() - slots.len(),
        {
            slots.push(None);
        }
        assert(slots@ =~= unset::<V>(field_specs(fields@).len()));
        Ok(RecordBuilder { fields, slots })
    }
}

impl<'a, V> RecordBuilder<'a, V> {
    #[verifier::type_invariant]
    spec fn well_formed(&self) -> bool {
        self.slots@.len() == self.fields@.len()
    }

    /// The number of fields, set or not.
    pub fn len(&self) -> (len: usize)
        ensures
            len == self@.fields.len(),
            len == self@.slots.len(),
    {
        proof {
            use_type_invariant(self);
        }
        self.fields.len()
    }

    /// The position of the setter called `name`: that of the first field of
    /// that name.
    pub fn setter(&self, name: &str) -> (found: Option<usize>)
        ensures
            match found {
                Some(index) => position(self@.fields, name@, 0) == Some(index as int),
                None => position(self@.fields, name@, 0) is None,
            },
    {
        let wanted = name.to_owned();
        let mut at: usize = 0;
        while at < self.fields.len()
            invariant
                at <= self.fields.len(),
                wanted@ == name@,
                position(self@.fields, name@, 0) == position(self@.fields, name@, at as int),
            decreases self.fields.len() - at,
        {
            if self.fields[at].name == wanted {
                return Some(at);
            }
            at += 1;
        }
        None
    }

    /// The setter of field `index`: records `value` as present and hands the
    /// builder back, so that calls can be chained.
    pub fn set(&mut self, index: usize, value: V) -> (chained: &mut Self)
        requires
            index < old(self)@.fields.len(),
        ensures
            chained@.fields == old(self)@.fields,
            chained@.slots == old(self)@.slots.update(index as int, Some(value)),
            *final(self) == *final(chained),
    {
        proof {
            use_type_invariant(&*self);
        }
        self.slots[index] = Some(value);
        self
    }

    /// Assembles the record, or names the first required field that was
    /// never set. The builder stays as it is.
    pub fn build(&self) -> (result: Result<Vec<FieldValue<V>>, MissingField>) where V: Copy
        ensures
            match result {
                Ok(record) => finalize(self@.fields, self@.slots) == Ok::<_, Seq<char>>(record@),
                Err(missing) => finalize(self@.fields, self@.slots) == Err::<Seq<FieldValue<V>>, _>(
                    missing.field@,
                ),
            },
            result is Ok <==> complete(self@.fields, self@.slots),
    {
        proof {
            use_type_invariant(self);
            lemma_first_missing_is_first(self@.fields, self@.slots, 0);
        }
        let ghost fields = self@.fields;
        let ghost slots = self@.slots;
        let mut record: Vec<FieldValue<V>> = Vec::new();
        let mut at: usize = 0;
        while at < self.fields.len()
            invariant
                at <= self.fields.len(),
                fields == self@.fields,
                slots == self@.slots,
                slots.len() == fields.len(),
                first_missing(fields, slots, 0) == first_missing(fields, slots, at as int),
                record@ == assembled(fields, slots).take(at as int),
            decreases self.fields.len() - at,
        {
            let field = &self.fields[at];
            if get_inner_ty("Option", &field.declared_type).is_some() {
                record.push(FieldValue::Optional(self.slots[at]));
            } else {
                match self.slots[at] {
                    Some(value) => record.push(FieldValue::Plain(value)),
                    None => {
                        return Err(MissingField { field: field.name.clone() });
                    },
                }
            }
            assert(record@ =~= assembled(fields, slots).take(at + 1));
            at += 1;
        }
        assert(record@ =~= assembled(fields, slots));
        Ok(record)
    }
}

/// The builder's slots after the setter calls `calls`, made in that order on
/// a builder that held `slots`. A call is the position of a field and the
/// value passed.
pub open spec fn after_calls<V>(slots: Seq<Option<V>>, calls: Seq<(int, V)>) -> Seq<Option<V>>
    decreases calls.len(),
{
    if calls.len() == 0 {
        slots
    } else {
        after_calls(slots, calls.drop_last()).update(calls.last().0, Some(calls.last().1))
    }
}

/// The value that the latest call of setter `i` passed, if it was called.
pub open spec fn last_call<V>(calls: Seq<(int, V)>, i: int) -> Option<V>
    decreases calls.len(),
{
    if calls.len() == 0 {
        None
    } else if calls.last().0 == i {
        Some(calls.last().1)
    } else {
        last_call(calls.drop_last(), i)
    }
}

/// Whether every call in `calls` is the setter of one of `len` fields.
pub open spec fn calls_within<V>(calls: Seq<(int, V)>, len: nat) -> bool {
    forall|k: int| 0 <= k < calls.len() ==> 0 <= (#[trigger] calls[k]).0 < len
}

/// Whether every required field has had its setter called.
pub open spec fn required_called<V>(fields: Seq<FieldSpec>, calls: Seq<(int, V)>) -> bool {
    forall|j: int|
        0 <= j < fields.len() && !(#[trigger] fields[j]).optional() ==> last_call(calls, j) is Some
}

/// On a fresh builder, whatever the order and number of the calls, each slot
/// holds what the latest call of its setter passed, and nothing if there was
/// none.
pub proof fn lemma_slots_hold_latest_calls<V>(len: nat, calls: Seq<(int, V)>)
    requires
        calls_within(calls, len),
    ensures
        after_calls(unset::<V>(len), calls) == Seq::new(len, |i: int| last_call(calls, i)),
    decreases calls.len(),
{
    if calls.len() > 0 {
        lemma_slots_hold_latest_calls(len, calls.drop_last());
    }
    assert(after_calls(unset::<V>(len), calls) =~= Seq::new(len, |i: int| last_call(calls, i)));
}

/// Whether no two fields share a name.
pub open spec fn distinct_names(fields: Seq<FieldSpec>) -> bool {
    forall|i: int, j: int|
        0 <= i < j < fields.len() ==> (#[trigger] fields[i]).name != (#[trigger] fields[j]).name
}

/// Where no two fields share a name, each field's setter is found by the
/// field's name.
pub proof fn lemma_setter_found_by_name(fields: Seq<FieldSpec>, i: int)
    requires
        distinct_names(fields),
        0 <= i < fields.len(),
    ensures
        position(fields, fields[i].name, 0) == Some(i),
{
    lemma_position_from(fields, i, 0);
}

proof fn lemma_position_from(fields: Seq<FieldSpec>, i: int, from: int)
    requires
        distinct_names(fields),
        0 <= from <= i < fields.len(),
    ensures
        position(fields, fields[i].name, from) == Some(i),
    decreases i - from,
{
    if from < i {
        lemma_position_from(fields, i, from + 1);
    }
}

/// `first_missing` is what its name says: the field it finds stops `build`
/// and none before it does; where it finds none, no field from `from` on
/// stops `build`.
pub proof fn lemma_first_missing_is_first<V>(
    fields: Seq<FieldSpec>,
    slots: Seq<Option<V>>,
    from: int,
)
    requires
        0 <= from,
    ensures
        match first_missing(fields, slots, from) {
            Some(i) => from <= i < fields.len() && missing(fields, slots, i) && forall|j: int|
                from <= j < i ==> !missing(fields, slots, j),
            None => forall|j: int| from <= j < fields.len() ==> !missing(fields, slots, j),
        },
    decreases fields.len() - from,
{
    if from < fields.len() && !missing(fields, slots, from) {
        lemma_first_missing_is_first(fields, slots, from + 1);
    }
}

/// Round trip: on a record whose fields are all required, once every setter
/// has been called, in whatever order, `build` succeeds, and the record it
/// assembles holds for each field the value that was passed for it.
pub proof fn lemma_build_round_trip<V>(
    fields: Seq<FieldSpec>,
    values: Seq<V>,
    calls: Seq<(int, V)>,
)
    requires
        values.len() == fields.len(),
        forall|i: int| 0 <= i < fields.len() ==> !(#[trigger] fields[i]).optional(),
        calls_within(calls, fields.len()),
        forall|i: int| 0 <= i < fields.len() ==> last_call(calls, i) == Some(#[trigger] values[i]),
    ensures
        finalize(fields, after_calls(unset::<V>(fields.len()), calls)) == Ok::<_, Seq<char>>(
            values.map_values(|value: V| FieldValue::Plain(value)),
        ),
{
    let slots = after_calls(unset::<V>(fields.len()), calls);
    lemma_slots_hold_latest_calls(fields.len(), calls);
    lemma_first_missing_is_first(fields, slots, 0);
    assert(first_missing(fields, slots, 0) is None) by {
        if let Some(i) = first_missing(fields, slots, 0) {
            assert(last_call(calls, i) == Some(values[i]));
        }
    }
    assert(assembled(fields, slots) =~= values.map_values(|value: V| FieldValue::Plain(value)))
        by {
        assert forall|i: int| 0 <= i < fields.len() implies assembled(fields, slots)[i]
            == FieldValue::Plain(values[i]) by {
            assert(!fields[i].optional());
            assert(last_call(calls, i) == Some(values[i]));
        }
    }
}

/// A required field whose setter was never called makes `build` fail,
/// whichever other setters were called.
pub proof fn lemma_build_fails_without_required_field<V>(
    fields: Seq<FieldSpec>,
    calls: Seq<(int, V)>,
    i: int,
)
    requires
        calls_within(calls, fields.len()),
        0 <= i < fields.len(),
        !fields[i].optional(),
        last_call(calls, i) is None,
    ensures
        finalize(fields, after_calls(unset::<V>(fields.len()), calls)) is Err,
{
    let slots = after_calls(unset::<V>(fields.len()), calls);
    lemma_slots_hold_latest_calls(fields.len(), calls);
    lemma_first_missing_is_first(fields, slots, 0);
    assert(missing(fields, slots, i));
}

/// The error of `build` names the required field whose setter was never
/// called, whichever other setters were called, provided that the required
/// fields declared before it were all set: `build` reports the first.
pub proof fn lemma_build_names_unset_field<V>(
    fields: Seq<FieldSpec>,
    calls: Seq<(int, V)>,
    i: int,
)
    requires
        calls_within(calls, fields.len()),
        0 <= i < fields.len(),
        !fields[i].optional(),
        last_call(calls, i) is None,
        forall|j: int| 0 <= j < i && !(#[trigger] fields[j]).optional() ==> last_call(calls, j) is Some,
    ensures
        finalize(fields, after_calls(unset::<V>(fields.len()), calls)) == Err::<
            Seq<FieldValue<V>>,
            _,
        >(fields[i].name),
{
    let slots = after_calls(unset::<V>(fields.len()), calls);
    lemma_slots_hold_latest_calls(fields.len(), calls);
    lemma_first_missing_is_first(fields, slots, 0);
    assert(missing(fields, slots, i));
    let first = first_missing(fields, slots, 0)->Some_0;
    assert(first == i) by {
        if first < i {
            assert(!fields[first].optional());
            assert(last_call(calls, first) is Some);
        }
    }
}

/// Where every required field was set, `build` succeeds: a field declared
/// with an optional wrapper never stops it.
pub proof fn lemma_build_succeeds<V>(fields: Seq<FieldSpec>, calls: Seq<(int, V)>)
    requires
        calls_within(calls, fields.len()),
        required_called(fields, calls),
    ensures
        finalize(fields, after_calls(unset::<V>(fields.len()), calls)) == Ok::<_, Seq<char>>(
            assembled(fields, Seq::new(fields.len(), |i: int| last_call(calls, i))),
        ),
{
    let slots = after_calls(unset::<V>(fields.len()), calls);
    lemma_slots_hold_latest_calls(fields.len(), calls);
    lemma_first_missing_is_first(fields, slots, 0);
    if let Some(i) = first_missing(fields, slots, 0) {
        assert(!fields[i].optional());
        assert(last_call(calls, i) is Some);
    }
}

/// An optional field whose setter was never called is absent in the record
/// that `build` assembles, and does not make it fail.
pub proof fn lemma_unset_optional_field_is_absent<V>(
    fields: Seq<FieldSpec>,
    calls: Seq<(int, V)>,
    i: int,
)
    requires
        calls_within(calls, fields.len()),
        required_called(fields, calls),
        0 <= i < fields.len(),
        fields[i].optional(),
        last_call(calls, i) is None,
    ensures
        match finalize(fields, after_calls(unset::<V>(fields.len()), calls)) {
            Ok(record) => record.len() == fields.len() && record[i] == FieldValue::<V>::Optional(
                None,
            ),
            Err(_) => false,
        },
{
    lemma_build_succeeds(fields, calls);
}

/// The setter of an optional field takes the bare value, and the record that
/// `build` assembles holds it as present.
pub proof fn lemma_set_optional_field_is_present<V>(
    fields: Seq<FieldSpec>,
    calls: Seq<(int, V)>,
    i: int,
    value: V,
)
    requires
        calls_within(calls, fields.len()),
        required_called(fields, calls),
        0 <= i < fields.len(),
        fields[i].optional(),
        last_call(calls, i) == Some(value),
    ensures
        match finalize(fields, after_calls(unset::<V>(fields.len()), calls)) {
            Ok(record) => record.len() == fields.len() && record[i] == FieldValue::Optional(
                Some(value),
            ),
            Err(_) => false,
        },
{
    lemma_build_succeeds(fields, calls);
}

/// Why printing a record fails.
#[derive(Clone, Copy, Debug, PartialEq, Eq)]
pub enum FormatError {
    /// The type is of a shape for which no formatter is generated.
    Rejected(Rejection),
    /// The number of values is not the number of named fields.
    ValueCount,
}

/// The named fields with their values: ` { ` before the first, `, ` before
/// each of the others.
pub open spec fn printed_fields(fields: Seq<FieldSpec>, values: Seq<Seq<char>>) -> Seq<char>
    decreases fields.len(),
{
    if fields.len() == 0 {
        Seq::empty()
    } else {
        printed_fields(fields.drop_last(), values.drop_last()) + (if fields.len() == 1 {
            " { "@
        } else {
            ", "@
        }) + fields.last().name + ": "@ + values.last()
    }
}

/// What the generated formatter prints: the name of the type, and, where it
/// has named fields, each with its value between braces.
pub open spec fn printed(record: Seq<char>, fields: Seq<FieldSpec>, values: Seq<Seq<char>>) -> Seq<
    char,
> {
    if fields.len() == 0 {
        record
    } else {
        record + printed_fields(fields, values) + " }"@
    }
}

/// A record without named fields is printed as its name and nothing else.
pub proof fn lemma_no_fields_prints_name(record: Seq<char>)
    ensures
        printed(record, Seq::empty(), Seq::empty()) == record,
{
}

/// Prints a record as its generated formatter does. `values` holds, in
/// declaration order, each field's value as that value prints itself.
pub fn debug_text(record: &RecordDescription, values: &Vec<String>) -> (result: Result<
    String,
    FormatError,
>)
    ensures
        match result {
            Ok(text) => debug_rejection(record@.shape) is None && values@.len()
                == record@.fields().len() && text@ == printed(
                record@.name,
                record@.fields(),
                texts(values@),
            ),
            Err(FormatError::Rejected(why)) => debug_rejection(record@.shape) == Some(why),
            Err(FormatError::ValueCount) => debug_rejection(record@.shape) is None && values@.len()
                != record@.fields().len(),
        },
{
    let mut text = record.name.clone();
    match &record.shape {
        Shape::Named(fields) => {
            if values.len() != fields.len() {
                return Err(FormatError::ValueCount);
            }
            let ghost specs = field_specs(fields@);
            let ghost all = texts(values@);
            let mut at: usize = 0;
            while at < fields.len()
                invariant
                    at <= fields.len(),
                    values.len() == fields.len(),
                    specs == field_specs(fields@),
                    all == texts(values@),
                    text@ == record.name@ + printed_fields(
                        specs.take(at as int),
                        all.take(at as int),
                    ),
                decreases fields.len() - at,
            {
                proof {
                    assert(specs.take(at + 1).drop_last() =~= specs.take(at as int));
                    assert(all.take(at + 1).drop_last() =~= all.take(at as int));
                }
                if at == 0 {
                    text.append(" { ");
                } else {
                    text.append(", ");
                }
                text.append(fields[at].name.as_str());
                text.append(": ");
                text.append(values[at].as_str());
                at += 1;
            }
            proof {
                assert(specs.take(at as int) =~= specs);
                assert(all.take(at as int) =~= all);
            }
            if fields.len() > 0 {
                text.append(" }");
            }
            Ok(text)
        },
        Shape::Tuple | Shape::Unit => {
            if values.len() != 0 {
                return Err(FormatError::ValueCount);
            }
            Ok(text)
        },
        Shape::Enum => Err(FormatError::Rejected(Rejection::Enum)),
        Shape::Union => Err(FormatError::Rejected(Rejection::Union)),
    }
}

} // verus!
