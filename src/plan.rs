//! The abstract output of generation: what the builder holds, in field
//! declaration order.
use vstd::prelude::*;
use vstd::string::StringExecFns;
use crate::classify::{builder_field_of, classified, views_of, BuilderField};
use crate::shape::{FieldDescriptor, RecordData, RecordInput};

verus! {

/// Everything needed to emit a builder for one record.
pub struct BuilderPlan {
    pub record_name: String,
    pub builder_name: String,
    pub fields: Vec<BuilderField>,
}

/// Why no builder can be generated.
#[derive(Debug, PartialEq, Eq, Structural)]
pub enum GenerateError {
    /// The definition is not a plain record with named fields.
    NotARecord,
}

/// The named fields of a definition, or `None` where it is not a plain
/// record: an enum, a union, or a tuple struct with fields.
pub open spec fn record_fields(d: RecordData) -> Option<Seq<FieldDescriptor>> {
    match d {
        RecordData::Named(fs) => Some(fs@),
        RecordData::Unit => Some(Seq::empty()),
        RecordData::Unnamed(n) => if n == 0 { Some(Seq::empty()) } else { None },
        RecordData::NotAStruct => None,
    }
}

/// The name of the builder type of a record.
pub open spec fn builder_name_of(record: Seq<char>) -> Seq<char> {
    record + "Builder"@
}

/// `p` is the plan of a record named `name` with fields `fs`: one builder
/// field per declared field, classified, in the same order.
pub open spec fn is_plan_of(p: BuilderPlan, name: Seq<char>, fs: Seq<FieldDescriptor>) -> bool {
    &&& p.record_name@ == name
    &&& p.builder_name@ == builder_name_of(name)
    &&& views_of(p.fields@) == classified(fs)
}

fn classify_all(fs: &Vec<FieldDescriptor>) -> (r: Vec<BuilderField>)
    ensures
        views_of(r@) == classified(fs@),
{
    let mut r: Vec<BuilderField> = Vec::new();
    let mut i: usize = 0;
    while i < fs.len()
        invariant
            i <= fs@.len(),
            r@.len() == i,
            forall|j: int| 0 <= j < i ==> #[trigger] r@[j]@ == builder_field_of(fs@[j]),
        decreases fs@.len() - i,
    {
        r.push(BuilderField::from(&fs[i]));
        i = i + 1;
    }
    assert(views_of(r@) =~= classified(fs@));
    r
}

/// Plans the builder of a record, or fails where the definition is not a
/// plain record.
pub fn plan(input: &RecordInput) -> (r: Result<BuilderPlan, GenerateError>)
    ensures
        r is Err <==> record_fields(input.data) is None,
        r matches Err(e) ==> e == GenerateError::NotARecord,
        r matches Ok(p) ==> is_plan_of(p, input.name@, record_fields(input.data)->Some_0),
{
    let fields = match &input.data {
        RecordData::Named(fs) => classify_all(fs),
        RecordData::Unit => {
            let none: Vec<BuilderField> = Vec::new();
            assert(views_of(none@) =~= classified(Seq::empty()));
            none
        },
        RecordData::Unnamed(n) => {
            if *n != 0 {
                return Err(GenerateError::NotARecord);
            }
            let none: Vec<BuilderField> = Vec::new();
            assert(views_of(none@) =~= classified(Seq::empty()));
            none
        },
        RecordData::NotAStruct => {
            return Err(GenerateError::NotARecord);
        },
    };
    let record_name = String::from_str(input.name.as_str());
    let builder_name = String::from_str(input.name.as_str()).concat("Builder");
    Ok(BuilderPlan { record_name, builder_name, fields })
}

} // verus!
