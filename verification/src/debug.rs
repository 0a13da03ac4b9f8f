//! The debug-formatter generator.
//!
//! It writes an implementation of `std::fmt::Debug` that prints the name of
//! the type and then each named field with its value, in declaration order.
//! How a value is printed is left to the value's own implementation.

use vstd::prelude::*;
use crate::model::{
    field_specs, FieldSpec, GeneratedCode, RecordDescription, RecordSpec, Rejection, Shape,
    ShapeSpec,
};
use crate::text::{join_terminated, push_terminated, texts};

verus! {

/// The call that prints one field.
pub open spec fn field_call(field: FieldSpec) -> Seq<char> {
    ".field(\""@ + field.name + "\", &self."@ + field.name + ")"@
}

/// The calls that print the fields, in declaration order.
pub open spec fn field_calls(fields: Seq<FieldSpec>) -> Seq<char> {
    join_terminated(fields.map_values(|field: FieldSpec| field_call(field)), " "@)
}

/// The generated implementation of `std::fmt::Debug`.
pub open spec fn debug_impl(record: Seq<char>, fields: Seq<FieldSpec>) -> Seq<char> {
    "impl std::fmt::Debug for "@ + record
        + " { fn fmt(&self, f: &mut std::fmt::Formatter) -> std::fmt::Result { f.debug_struct(\""@
        + record + "\") "@ + field_calls(fields) + ".finish() } }"@
}

/// Why the debug generator refuses a shape, if it does. Every struct is
/// taken; one without named fields is printed by its name alone.
pub open spec fn debug_rejection(shape: ShapeSpec) -> Option<Rejection> {
    match shape {
        ShapeSpec::Enum => Some(Rejection::Enum),
        ShapeSpec::Union => Some(Rejection::Union),
        _ => None,
    }
}

/// A struct without named fields gets its formatter all the same: one that
/// prints the name of the type and makes no call for a field.
pub proof fn lemma_no_named_fields_no_calls(record: RecordSpec)
    requires
        !(record.shape is Enum),
        !(record.shape is Union),
        record.fields().len() == 0,
    ensures
        debug_rejection(record.shape) is None,
        field_calls(record.fields()) == Seq::<char>::empty(),
{
    assert(record.fields().map_values(|field: FieldSpec| field_call(field)).len() == 0);
}

/// Writes the calls that print the named fields of `shape`. A struct with
/// positional fields or with none gets no call; an enum or a union is
/// refused.
pub fn parse_fields(shape: &Shape) -> (result: Result<String, Rejection>)
    ensures
        match result {
            Ok(calls) => debug_rejection(shape@) is None && calls@ == field_calls(
                shape@.fields(),
            ),
            Err(why) => debug_rejection(shape@) == Some(why),
        },
{
    match shape {
        Shape::Named(fields) => {
            let mut calls: Vec<String> = Vec::new();
            let mut done: usize = 0;
            while done < fields.len()
                invariant
                    done <= fields.len(),
                    calls.len() == done,
                    forall|k: int|
                        0 <= k < done ==> (#[trigger] calls@[k])@ == field_call(fields@[k]@),
                decreases fields.len() - done,
            {
                let name = fields[done].name.as_str();
                let mut text = String::new();
                text.append(".field(\"");
                text.append(name);
                text.append("\", &self.");
                text.append(name);
                text.append(")");
                calls.push(text);
                done += 1;
            }
            assert(texts(calls@) =~= field_specs(fields@).map_values(
                |field: FieldSpec| field_call(field),
            ));
            let mut out = String::new();
            push_terminated(&mut out, &calls, " ");
            Ok(out)
        },
        Shape::Tuple => Ok(String::new()),
        Shape::Unit => Ok(String::new()),
        Shape::Enum => Err(Rejection::Enum),
        Shape::Union => Err(Rejection::Union),
    }
}

/// Generates the debug formatter of a type.
///
/// A struct gets one declaration, the implementation of `std::fmt::Debug`.
/// An enum or a union is refused, and nothing is generated for it.
pub fn derive(input: &RecordDescription) -> (result: Result<GeneratedCode, Rejection>)
    ensures
        result is Err <==> (input@.shape is Enum || input@.shape is Union),
        match result {
            Ok(code) => code@ == seq![debug_impl(input@.name, input@.fields())],
            Err(why) => debug_rejection(input@.shape) == Some(why),
        },
{
    let name = input.name.as_str();
    let fields = match parse_fields(&input.shape) {
        Ok(calls) => calls,
        Err(why) => { return Err(why); },
    };
    let mut expanded = String::new();
    expanded.append("impl std::fmt::Debug for ");
    expanded.append(name);
    expanded.append(
        " { fn fmt(&self, f: &mut std::fmt::Formatter) -> std::fmt::Result { f.debug_struct(\"",
    );
    expanded.append(name);
    expanded.append("\") ");
    expanded.append(fields.as_str());
    expanded.append(".finish() } }");
    let mut declarations: Vec<String> = Vec::new();
    declarations.push(expanded);
    let code = GeneratedCode { declarations };
    assert(code@ =~= seq![debug_impl(input@.name, input@.fields())]);
    Ok(code)
}

} // verus!
