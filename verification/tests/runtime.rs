use record_derive::model::{
    FieldDescription, GenericArgument, PathArguments, PathSegment, RecordDescription, Rejection,
    Shape, TypeRef, TypeShape,
};
use record_derive::runtime::{debug_text, FieldValue, FormatError, MissingField};

fn required() -> TypeRef {
    TypeRef {
        text: "String".to_string(),
        shape: TypeShape::Path(vec![PathSegment {
            ident: "String".to_string(),
            arguments: PathArguments::Empty,
        }]),
    }
}

fn optional() -> TypeRef {
    TypeRef {
        text: "Option<String>".to_string(),
        shape: TypeShape::Path(vec![PathSegment {
            ident: "Option".to_string(),
            arguments: PathArguments::AngleBracketed(vec![GenericArgument::Type(required())]),
        }]),
    }
}

fn record(fields: &[(&str, bool)]) -> RecordDescription {
    RecordDescription {
        name: "Record".to_string(),
        shape: Shape::Named(
            fields
                .iter()
                .map(|(name, is_optional)| FieldDescription {
                    name: name.to_string(),
                    declared_type: if *is_optional { optional() } else { required() },
                })
                .collect(),
        ),
    }
}

fn shaped(shape: Shape) -> RecordDescription {
    RecordDescription { name: "Record".to_string(), shape }
}

fn missing(name: &str) -> MissingField {
    MissingField { field: name.to_string() }
}

#[test]
fn every_setter_called_once_gives_the_record_back() {
    let description = record(&[("a", false), ("b", false), ("c", false)]);
    let mut builder = description.builder::<&str>().unwrap();
    builder.set(0, "x").set(1, "y").set(2, "z");
    assert_eq!(
        builder.build(),
        Ok(vec![FieldValue::Plain("x"), FieldValue::Plain("y"), FieldValue::Plain("z")])
    );
}

#[test]
fn order_of_setter_calls_does_not_matter() {
    let description = record(&[("a", false), ("b", false), ("c", false)]);
    let mut builder = description.builder::<u32>().unwrap();
    builder.set(2, 3).set(0, 1).set(1, 2);
    assert_eq!(
        builder.build(),
        Ok(vec![FieldValue::Plain(1), FieldValue::Plain(2), FieldValue::Plain(3)])
    );
}

#[test]
fn latest_call_of_a_setter_counts() {
    let description = record(&[("a", false)]);
    let mut builder = description.builder::<u32>().unwrap();
    builder.set(0, 1).set(0, 2);
    assert_eq!(builder.build(), Ok(vec![FieldValue::Plain(2)]));
}

#[test]
fn build_leaves_the_builder_as_it_is() {
    let description = record(&[("a", false), ("b", false)]);
    let mut builder = description.builder::<u32>().unwrap();
    builder.set(0, 1);
    assert_eq!(builder.build(), Err(missing("b")));
    builder.set(1, 2);
    let first = builder.build();
    assert_eq!(first, Ok(vec![FieldValue::Plain(1), FieldValue::Plain(2)]));
    assert_eq!(builder.build(), first);
}

#[test]
fn each_omitted_required_field_is_named() {
    let names = ["a", "b", "c"];
    let description = record(&[("a", false), ("b", false), ("c", false)]);
    for omitted in 0..3 {
        let mut builder = description.builder::<u32>().unwrap();
        for index in 0..3 {
            if index != omitted {
                builder.set(index, 7);
            }
        }
        assert_eq!(builder.build(), Err(missing(names[omitted])));
    }
}

#[test]
fn omitted_field_is_named_whatever_was_set_after_it() {
    let description = record(&[("a", false), ("b", false), ("c", false), ("d", true)]);
    let mut builder = description.builder::<u32>().unwrap();
    builder.set(0, 1);
    assert_eq!(builder.build(), Err(missing("b")));
    builder.set(3, 4);
    assert_eq!(builder.build(), Err(missing("b")));
    builder.set(2, 3);
    assert_eq!(builder.build(), Err(missing("b")));
}

#[test]
fn first_missing_field_is_the_one_reported() {
    let description = record(&[("a", false), ("b", false)]);
    let builder = description.builder::<u32>().unwrap();
    assert_eq!(builder.build(), Err(missing("a")));
}

#[test]
fn message_names_the_field() {
    assert_eq!(missing("executable").message(), "executable is missing");
}

#[test]
fn optional_field_never_set_is_absent() {
    let description = record(&[("a", false), ("b", true)]);
    let mut builder = description.builder::<u32>().unwrap();
    builder.set(0, 1);
    assert_eq!(builder.build(), Ok(vec![FieldValue::Plain(1), FieldValue::Optional(None)]));
}

#[test]
fn record_of_optional_fields_builds_at_once() {
    let description = record(&[("a", true), ("b", true)]);
    let builder = description.builder::<u32>().unwrap();
    assert_eq!(
        builder.build(),
        Ok(vec![FieldValue::Optional(None), FieldValue::Optional(None)])
    );
}

#[test]
fn optional_field_set_with_a_bare_value_is_present() {
    let description = record(&[("a", false), ("b", true)]);
    let mut builder = description.builder::<u32>().unwrap();
    builder.set(1, 5).set(0, 1);
    assert_eq!(
        builder.build(),
        Ok(vec![FieldValue::Plain(1), FieldValue::Optional(Some(5))])
    );
}

#[test]
fn unset_optional_field_does_not_hide_a_missing_required_one() {
    let description = record(&[("a", true), ("b", false)]);
    let builder = description.builder::<u32>().unwrap();
    assert_eq!(builder.build(), Err(missing("b")));
}

#[test]
fn record_without_fields_builds_empty() {
    let description = record(&[]);
    let builder = description.builder::<u32>().unwrap();
    assert_eq!(builder.len(), 0);
    assert_eq!(builder.build(), Ok(vec![]));
}

#[test]
fn setters_are_found_by_name() {
    let description = record(&[("a", false), ("b", true), ("c", false)]);
    let mut builder = description.builder::<u32>().unwrap();
    assert_eq!(builder.len(), 3);
    assert_eq!(builder.setter("a"), Some(0));
    assert_eq!(builder.setter("b"), Some(1));
    assert_eq!(builder.setter("c"), Some(2));
    assert_eq!(builder.setter("d"), None);
    assert_eq!(builder.setter(""), None);
    let c = builder.setter("c").unwrap();
    let a = builder.setter("a").unwrap();
    builder.set(c, 30).set(a, 10);
    assert_eq!(
        builder.build(),
        Ok(vec![FieldValue::Plain(10), FieldValue::Optional(None), FieldValue::Plain(30)])
    );
}

#[test]
fn first_field_of_a_name_has_the_setter() {
    let description = record(&[("a", false), ("a", true)]);
    let builder = description.builder::<u32>().unwrap();
    assert_eq!(builder.setter("a"), Some(0));
}

#[test]
fn no_builder_for_other_shapes() {
    assert_eq!(shaped(Shape::Tuple).builder::<u32>().err(), Some(Rejection::TupleStruct));
    assert_eq!(shaped(Shape::Unit).builder::<u32>().err(), Some(Rejection::UnitStruct));
    assert_eq!(shaped(Shape::Enum).builder::<u32>().err(), Some(Rejection::Enum));
    assert_eq!(shaped(Shape::Union).builder::<u32>().err(), Some(Rejection::Union));
}

#[test]
fn debug_text_pairs_names_and_values_in_order() {
    let description = record(&[("a", false), ("b", false)]);
    let values = vec![format!("{:?}", 1), format!("{:?}", "x")];
    assert_eq!(debug_text(&description, &values), Ok("Record { a: 1, b: \"x\" }".to_string()));
}

#[test]
fn debug_text_of_one_field() {
    let description = record(&[("a", true)]);
    assert_eq!(
        debug_text(&description, &vec!["None".to_string()]),
        Ok("Record { a: None }".to_string())
    );
}

#[test]
fn debug_text_without_named_fields_is_the_name() {
    assert_eq!(debug_text(&record(&[]), &vec![]), Ok("Record".to_string()));
    assert_eq!(debug_text(&shaped(Shape::Tuple), &vec![]), Ok("Record".to_string()));
    assert_eq!(debug_text(&shaped(Shape::Unit), &vec![]), Ok("Record".to_string()));
}

#[test]
fn debug_text_refuses_enum_and_union() {
    assert_eq!(
        debug_text(&shaped(Shape::Enum), &vec![]),
        Err(FormatError::Rejected(Rejection::Enum))
    );
    assert_eq!(
        debug_text(&shaped(Shape::Union), &vec!["1".to_string()]),
        Err(FormatError::Rejected(Rejection::Union))
    );
}

#[test]
fn debug_text_wants_one_value_per_field() {
    let description = record(&[("a", false), ("b", false)]);
    assert_eq!(debug_text(&description, &vec!["1".to_string()]), Err(FormatError::ValueCount));
    assert_eq!(debug_text(&description, &vec![]), Err(FormatError::ValueCount));
    assert_eq!(
        debug_text(&shaped(Shape::Unit), &vec!["1".to_string()]),
        Err(FormatError::ValueCount)
    );
}

#[derive(Debug)]
struct Sample {
    a: i32,
    b: &'static str,
}

#[derive(Debug)]
struct Marker;

#[test]
fn debug_text_agrees_with_the_standard_formatter() {
    let sample = Sample { a: 1, b: "x" };
    let description = RecordDescription {
        name: "Sample".to_string(),
        shape: Shape::Named(vec![
            FieldDescription { name: "a".to_string(), declared_type: required() },
            FieldDescription { name: "b".to_string(), declared_type: required() },
        ]),
    };
    let values = vec![format!("{:?}", sample.a), format!("{:?}", sample.b)];
    assert_eq!(debug_text(&description, &values), Ok(format!("{:?}", sample)));

    let marker = RecordDescription { name: "Marker".to_string(), shape: Shape::Unit };
    assert_eq!(debug_text(&marker, &vec![]), Ok(format!("{:?}", Marker)));
}
