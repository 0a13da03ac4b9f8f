//! The builder generator.
//!
//! For a record with named fields it writes a companion type whose fields are
//! all optional, one setter per field, a `build` method that assembles the
//! record or names the first required field that is still unset, and a
//! `builder` function on the record itself.

use vstd::prelude::*;
use crate::classify::{get_inner_ty, inner_type};
use crate::model::{
    field_specs, optional_wrapper, FieldDescription, FieldSpec, GeneratedCode, RecordDescription,
    Rejection, Shape, ShapeSpec,
};
use crate::text::{join_terminated, push_terminated, texts};

verus! {

/// The name of the companion type.
pub open spec fn builder_name(record: Seq<char>) -> Seq<char> {
    record + "Builder"@
}

/// The message with which `build` reports that the field `name` is unset.
pub open spec fn missing_message(name: Seq<char>) -> Seq<char> {
    name + " is missing"@
}

/// The type of the companion field: the declared type wrapped once, or the
/// declared type itself where it is an optional wrapper already.
pub open spec fn companion_type(field: FieldSpec) -> Seq<char> {
    if field.optional() {
        field.declared
    } else {
        "std::option::Option<"@ + field.declared + ">"@
    }
}

/// One field of the companion type.
pub open spec fn companion_field(field: FieldSpec) -> Seq<char> {
    field.name + ": "@ + companion_type(field)
}

/// The setter of one field. It takes the bare value, also for an optional
/// field, and stores it as present.
pub open spec fn setter(field: FieldSpec) -> Seq<char> {
    "pub fn "@ + field.name + "(&mut self, "@ + field.name + ": "@ + field.value_type()
        + ") -> &mut Self { self."@ + field.name + " = std::option::Option::Some("@ + field.name
        + "); self }"@
}

/// How `build` fills one field of the record: an optional field is copied as
/// it stands, any other must be present.
pub open spec fn build_step(field: FieldSpec) -> Seq<char> {
    if field.optional() {
        field.name + ": self."@ + field.name + ".clone()"@
    } else {
        field.name + ": self."@ + field.name + ".as_ref().ok_or(\""@ + missing_message(field.name)
            + "\")?.clone()"@
    }
}

/// How `builder` fills one field of the companion type: as absent.
pub open spec fn unset_field(field: FieldSpec) -> Seq<char> {
    field.name + ": std::option::Option::None"@
}

/// The fields of the companion type, in declaration order.
pub open spec fn companion_fields(fields: Seq<FieldSpec>) -> Seq<Seq<char>> {
    fields.map_values(|field: FieldSpec| companion_field(field))
}

/// The setters, in declaration order.
pub open spec fn setters(fields: Seq<FieldSpec>) -> Seq<Seq<char>> {
    fields.map_values(|field: FieldSpec| setter(field))
}

/// The steps of `build`, in declaration order.
pub open spec fn build_steps(fields: Seq<FieldSpec>) -> Seq<Seq<char>> {
    fields.map_values(|field: FieldSpec| build_step(field))
}

/// The fields of a fresh companion, in declaration order.
pub open spec fn unset_fields(fields: Seq<FieldSpec>) -> Seq<Seq<char>> {
    fields.map_values(|field: FieldSpec| unset_field(field))
}

/// The `build` method: the steps run in declaration order, so the first
/// required field that is unset is the one reported.
pub open spec fn build_method(record: Seq<char>, fields: Seq<FieldSpec>) -> Seq<char> {
    "pub fn build(&mut self) -> Result<"@ + record + ", Box<dyn std::error::Error>> { Ok("@
        + record + " { "@ + join_terminated(build_steps(fields), ", "@) + "}) }"@
}

/// The declaration of the companion type.
pub open spec fn companion_struct(record: Seq<char>, fields: Seq<FieldSpec>) -> Seq<char> {
    "pub struct "@ + builder_name(record) + " { "@ + join_terminated(
        companion_fields(fields),
        ", "@,
    ) + "}"@
}

/// The methods of the companion type: the setters, then `build`.
pub open spec fn companion_impl(record: Seq<char>, fields: Seq<FieldSpec>) -> Seq<char> {
    "impl "@ + builder_name(record) + " { "@ + join_terminated(setters(fields), " "@)
        + build_method(record, fields) + " }"@
}

/// The `builder` function on the record: a companion with every field absent.
pub open spec fn factory_impl(record: Seq<char>, fields: Seq<FieldSpec>) -> Seq<char> {
    "impl "@ + record + " { fn builder() -> "@ + builder_name(record) + " { "@ + builder_name(
        record,
    ) + " { "@ + join_terminated(unset_fields(fields), ", "@) + "} } }"@
}

/// Everything generated for a record with the given name and fields.
pub open spec fn builder_code(record: Seq<char>, fields: Seq<FieldSpec>) -> Seq<Seq<char>> {
    seq![companion_struct(record, fields), companion_impl(record, fields), factory_impl(record, fields)]
}

/// Why the builder generator refuses a shape, if it does: it takes a struct
/// with named fields and nothing else.
pub open spec fn builder_rejection(shape: ShapeSpec) -> Option<Rejection> {
    match shape {
        ShapeSpec::Named(_) => None,
        ShapeSpec::Tuple => Some(Rejection::TupleStruct),
        ShapeSpec::Unit => Some(Rejection::UnitStruct),
        ShapeSpec::Enum => Some(Rejection::Enum),
        ShapeSpec::Union => Some(Rejection::Union),
    }
}

/// A field declared as `Option<T>` is not wrapped a second time in the
/// companion type, and its setter takes a `T`; the setter of any other field
/// takes the declared type.
pub proof fn lemma_setter_takes_bare_value(field: FieldDescription)
    ensures
        match inner_type(optional_wrapper(), field.declared_type@) {
            Some(wrapped) => companion_type(field@) == field.declared_type@.text
                && field@.value_type() == wrapped.text,
            None => field@.value_type() == field.declared_type@.text,
        },
{
}

/// Writes the fields of the companion type, one text per field.
pub fn generate_builder_fields(fields: &Vec<FieldDescription>) -> (out: Vec<String>)
    ensures
        texts(out@) == companion_fields(field_specs(fields@)),
{
    let mut out: Vec<String> = Vec::new();
    let mut done: usize = 0;
    while done < fields.len()
        invariant
            done <= fields.len(),
            out.len() == done,
            forall|k: int| 0 <= k < done ==> (#[trigger] out@[k])@ == companion_field(fields@[k]@),
        decreases fields.len() - done,
    {
        let field = &fields[done];
        let mut text = String::new();
        text.append(field.name.as_str());
        text.append(": ");
        if get_inner_ty("Option", &field.declared_type).is_some() {
            text.append(field.declared_type.text.as_str());
        } else {
            text.append("std::option::Option<");
            text.append(field.declared_type.text.as_str());
            text.append(">");
        }
        out.push(text);
        done += 1;
    }
    assert(texts(out@) =~= companion_fields(field_specs(fields@)));
    out
}

/// Writes the setters of the companion type, one text per field.
pub fn generate_builder_methods(fields: &Vec<FieldDescription>) -> (out: Vec<String>)
    ensures
        texts(out@) == setters(field_specs(fields@)),
{
    let mut out: Vec<String> = Vec::new();
    let mut done: usize = 0;
    while done < fields.len()
        invariant
            done <= fields.len(),
            out.len() == done,
            forall|k: int| 0 <= k < done ==> (#[trigger] out@[k])@ == setter(fields@[k]@),
        decreases fields.len() - done,
    {
        let field = &fields[done];
        let name = field.name.as_str();
        let value_type = match get_inner_ty("Option", &field.declared_type) {
            Some(wrapped) => wrapped,
            None => &field.declared_type,
        };
        let mut text = String::new();
        text.append("pub fn ");
        text.append(name);
        text.append("(&mut self, ");
        text.append(name);
        text.append(": ");
        text.append(value_type.text.as_str());
        text.append(") -> &mut Self { self.");
        text.append(name);
        text.append(" = std::option::Option::Some(");
        text.append(name);
        text.append("); self }");
        out.push(text);
        done += 1;
    }
    assert(texts(out@) =~= setters(field_specs(fields@)));
    out
}

/// Writes the `build` method of the companion of the record `name`.
pub fn generate_build_method(name: &str, fields: &Vec<FieldDescription>) -> (out: String)
    ensures
        out@ == build_method(name@, field_specs(fields@)),
{
    let mut steps: Vec<String> = Vec::new();
    let mut done: usize = 0;
    while done < fields.len()
        invariant
            done <= fields.len(),
            steps.len() == done,
            forall|k: int| 0 <= k < done ==> (#[trigger] steps@[k])@ == build_step(fields@[k]@),
        decreases fields.len() - done,
    {
        let field = &fields[done];
        let mut text = String::new();
        text.append(field.name.as_str());
        text.append(": self.");
        text.append(field.name.as_str());
        if get_inner_ty("Option", &field.declared_type).is_some() {
            text.append(".clone()");
        } else {
            text.append(".as_ref().ok_or(\"");
            text.append(field.name.as_str());
            text.append(" is missing");
            text.append("\")?.clone()");
        }
        steps.push(text);
        done += 1;
    }
    assert(texts(steps@) =~= build_steps(field_specs(fields@)));
    let mut out = String::new();
    out.append("pub fn build(&mut self) -> Result<");
    out.append(name);
    out.append(", Box<dyn std::error::Error>> { Ok(");
    out.append(name);
    out.append(" { ");
    push_terminated(&mut out, &steps, ", ");
    out.append("}) }");
    out
}

/// Writes the `builder` function of the record `name`.
pub fn generate_factory_method(name: &str, fields: &Vec<FieldDescription>) -> (out: String)
    ensures
        out@ == factory_impl(name@, field_specs(fields@)),
{
    let mut unset: Vec<String> = Vec::new();
    let mut done: usize = 0;
    while done < fields.len()
        invariant
            done <= fields.len(),
            unset.len() == done,
            forall|k: int| 0 <= k < done ==> (#[trigger] unset@[k])@ == unset_field(fields@[k]@),
        decreases fields.len() - done,
    {
        let mut text = String::new();
        text.append(fields[done].name.as_str());
        text.append(": std::option::Option::None");
        unset.push(text);
        done += 1;
    }
    assert(texts(unset@) =~= unset_fields(field_specs(fields@)));
    let mut out = String::new();
    out.append("impl ");
    out.append(name);
    out.append(" { fn builder() -> ");
    out.append(name);
    out.append("Builder");
    out.append(" { ");
    out.append(name);
    out.append("Builder");
    out.append(" { ");
    push_terminated(&mut out, &unset, ", ");
    out.append("} } }");
    out
}

/// Generates the builder of a record.
///
/// A struct with named fields gets its three declarations: the companion
/// type, the companion's methods and the `builder` function. Every other
/// shape is refused, and nothing is generated for it.
pub fn derive(input: &RecordDescription) -> (result: Result<GeneratedCode, Rejection>)
    ensures
        result is Ok <==> input@.shape is Named,
        match result {
            Ok(code) => code@ == builder_code(input@.name, input@.fields()),
            Err(why) => builder_rejection(input@.shape) == Some(why),
        },
{
    let fields = match &input.shape {
        Shape::Named(fields) => fields,
        Shape::Tuple => { return Err(Rejection::TupleStruct); },
        Shape::Unit => { return Err(Rejection::UnitStruct); },
        Shape::Enum => { return Err(Rejection::Enum); },
        Shape::Union => { return Err(Rejection::Union); },
    };
    let name = input.name.as_str();
    let builder_methods = generate_builder_methods(fields);
    let build_method = generate_build_method(name, fields);
    let builder_fields = generate_builder_fields(fields);

    let mut companion = String::new();
    companion.append("pub struct ");
    companion.append(name);
    companion.append("Builder");
    companion.append(" { ");
    push_terminated(&mut companion, &builder_fields, ", ");
    companion.append("}");
    assert(companion@ == companion_struct(input@.name, input@.fields()));

    let mut methods = String::new();
    methods.append("impl ");
    methods.append(name);
    methods.append("Builder");
    methods.append(" { ");
    push_terminated(&mut methods, &builder_methods, " ");
    methods.append(build_method.as_str());
    methods.append(" }");
    assert(methods@ == companion_impl(input@.name, input@.fields()));

    let factory = generate_factory_method(name, fields);

    let mut declarations: Vec<String> = Vec::new();
    declarations.push(companion);
    declarations.push(methods);
    declarations.push(factory);
    let code = GeneratedCode { declarations };
    assert(code@ =~= builder_code(input@.name, input@.fields()));
    Ok(code)
}

} // verus!
