//! Generators for two pieces of boilerplate around a record type: a companion
//! builder and a field-by-field debug formatter.
//!
//! A type definition comes in as a [`model::RecordDescription`], already
//! parsed, and each generator answers with the declarations to put beside
//! it, as source text:
//!
//! - [`builder::derive`] writes a companion type with one optional field per
//!   field of the record, a setter for each, a `build` method and a `builder`
//!   function on the record. It takes a struct with named fields and refuses
//!   every other shape.
//! - [`debug::derive`] writes an implementation of `std::fmt::Debug` that
//!   prints the name of the type and its named fields. It takes every struct
//!   and refuses enums and unions.
//!
//! [`classify::get_inner_ty`] tells both whether a field's type is written as
//! an optional wrapper. [`runtime`] holds what the generated code does when
//! it runs, in a form that runs here, and the laws proved of it.

pub mod builder;
pub mod classify;
pub mod debug;
pub mod model;
pub mod runtime;
pub mod text;
