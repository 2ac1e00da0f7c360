//! Companion-builder generation for plain records.
//!
//! A record's declared shape (its name and its ordered, named fields with
//! their declared types) is classified field by field, turned into a
//! [`plan::BuilderPlan`], and emitted as Rust source text for a builder type
//! with one setter per field, a validating `build` operation and a
//! `builder()` entry point on the record. [`slots::SlotBuilder`] carries the
//! run-time semantics of such a builder over values of one type.
use vstd::prelude::*;

pub mod shape;
pub mod classify;
pub mod plan;
pub mod emit;
pub mod slots;

use crate::classify::classified;
use crate::emit::{emit, source_text};
use crate::plan::{builder_name_of, plan, record_fields, GenerateError};
use crate::shape::RecordInput;

verus! {

/// The builder source generated for a definition: the text of the builder of
/// its classified fields, or `NotARecord` where it is not a plain record.
pub open spec fn generated(input: RecordInput) -> Result<Seq<char>, GenerateError> {
    match record_fields(input.data) {
        Some(fs) => Ok(source_text(input.name@, builder_name_of(input.name@), classified(fs))),
        None => Err(GenerateError::NotARecord),
    }
}

/// Generates the source text of the builder of a record.
pub fn derive(input: &RecordInput) -> (r: Result<String, GenerateError>)
    ensures
        r matches Ok(s) ==> generated(*input) == Ok::<Seq<char>, GenerateError>(s@),
        r matches Err(e) ==> generated(*input) == Err::<Seq<char>, GenerateError>(e),
{
    match plan(input) {
        Ok(p) => Ok(emit(&p)),
        Err(e) => Err(e),
    }
}

} // verus!
