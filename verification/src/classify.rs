//! Recognising a wrapper type by its written form.

use vstd::prelude::*;
use crate::model::{
    ArgumentSpec, ArgumentsSpec, GenericArgument, PathArguments, TypeRef, TypeShape,
    TypeShapeSpec, TypeSpec,
};

verus! {

/// The single type argument of `arguments`: present when they are angle
/// brackets around exactly one argument and that argument is a type.
pub open spec fn sole_type_argument(arguments: ArgumentsSpec) -> Option<TypeSpec> {
    match arguments {
        ArgumentsSpec::AngleBracketed(list) => if list.len() == 1 {
            match list[0] {
                ArgumentSpec::Type(inner) => Some(inner),
                _ => None,
            }
        } else {
            None
        },
        _ => None,
    }
}

/// The type wrapped by `ty` when `ty` is written as `outer<T>`: a path of one
/// segment, named `outer`, with `T` as its sole type argument. The match is
/// by name alone: an alias of the wrapper is not seen, and another type of
/// the same name is taken for it.
pub open spec fn inner_type(outer: Seq<char>, ty: TypeSpec) -> Option<TypeSpec> {
    match ty.shape {
        TypeShapeSpec::Path(segments) => if segments.len() == 1 && segments[0].ident == outer {
            sole_type_argument(segments[0].arguments)
        } else {
            None
        },
        TypeShapeSpec::Other => None,
    }
}

/// Returns the type that `ty` wraps if `ty` has the written form `outer<T>`.
pub fn get_inner_ty<'a>(outer: &str, ty: &'a TypeRef) -> (inner: Option<&'a TypeRef>)
    ensures
        match inner {
            Some(found) => inner_type(outer@, ty@) == Some(found@),
            None => inner_type(outer@, ty@) is None,
        },
{
    if let TypeShape::Path(segments) = &ty.shape {
        if segments.len() != 1 {
            return None;
        }
        let wanted = outer.to_owned();
        if segments[0].ident != wanted {
            return None;
        }
        if let PathArguments::AngleBracketed(list) = &segments[0].arguments {
            if list.len() != 1 {
                return None;
            }
            return match &list[0] {
                GenericArgument::Type(found) => Some(found),
                GenericArgument::Lifetime
                | GenericArgument::Const
                | GenericArgument::Binding
                | GenericArgument::Constraint => None,
            };
        }
    }
    None
}

} // verus!
