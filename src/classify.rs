//! Field classification: required fields, and fields that already wrap an
//! `Option`.
use vstd::prelude::*;
use vstd::string::StringExecFns;
use crate::shape::{FieldDescriptor, GenericArg, PathArgs, TypeExpr, TypeShape};

verus! {

/// The inner type text of a declared type of the form `Option<T>`: a path
/// of one unqualified segment named exactly `Option`, with exactly one
/// angle-bracketed argument, which is a type. `None` for any other form.
pub open spec fn option_inner(t: TypeExpr) -> Option<Seq<char>> {
    match t.shape {
        TypeShape::Path { qualified, segments } => {
            if !qualified && segments@.len() == 1 && segments@[0].ident@ == "Option"@ {
                match segments@[0].args {
                    PathArgs::AngleBracketed(args) => {
                        if args@.len() == 1 {
                            match args@[0] {
                                GenericArg::Type(inner) => Some(inner@),
                                GenericArg::Other => None,
                            }
                        } else {
                            None
                        }
                    },
                    _ => None,
                }
            } else {
                None
            }
        },
        _ => None,
    }
}

/// A field as the builder sees it: its name, the type its slot and setter
/// hold, and whether it may stay unset.
pub struct BuilderField {
    pub name: String,
    pub ty: String,
    pub optional: bool,
}

/// The builder's view of a field: optional with the inner type where the
/// declared type is `Option<T>`, required with the declared type otherwise.
pub open spec fn builder_field_of(f: FieldDescriptor) -> FieldView {
    match option_inner(f.ty) {
        Some(inner) => (f.name@, inner, true),
        None => (f.name@, f.ty.text@, false),
    }
}

/// A builder field as plain values: name, stored type text, optional.
pub type FieldView = (Seq<char>, Seq<char>, bool);

impl View for BuilderField {
    type V = FieldView;

    open spec fn view(&self) -> FieldView {
        (self.name@, self.ty@, self.optional)
    }
}

/// The views of a sequence of builder fields.
pub open spec fn views_of(fs: Seq<BuilderField>) -> Seq<FieldView> {
    fs.map_values(|f: BuilderField| f@)
}

/// The builder's view of each declared field, in order.
pub open spec fn classified(fs: Seq<FieldDescriptor>) -> Seq<FieldView> {
    fs.map_values(|f: FieldDescriptor| builder_field_of(f))
}

fn copy_string(s: &String) -> (r: String)
    ensures
        r@ == s@,
{
    String::from_str(s.as_str())
}

/// Returns the inner type text when `t` is written `Option<T>`.
pub fn option_inner_type(t: &TypeExpr) -> (r: Option<String>)
    ensures
        r matches Some(s) ==> option_inner(*t) == Some(s@),
        r is None ==> option_inner(*t) is None,
{
    match &t.shape {
        TypeShape::Path { qualified, segments } => {
            if *qualified || segments.len() != 1 {
                return None;
            }
            let seg = &segments[0];
            let option_name = String::from_str("Option");
            if seg.ident != option_name {
                return None;
            }
            match &seg.args {
                PathArgs::AngleBracketed(args) => {
                    if args.len() != 1 {
                        return None;
                    }
                    match &args[0] {
                        GenericArg::Type(inner) => Some(copy_string(inner)),
                        GenericArg::Other => None,
                    }
                },
                _ => None,
            }
        },
        _ => None,
    }
}

impl BuilderField {
    /// Classifies one field of a record.
    pub fn from(field: &FieldDescriptor) -> (r: BuilderField)
        ensures
            r@ == builder_field_of(*field),
    {
        let name = copy_string(&field.name);
        match option_inner_type(&field.ty) {
            Some(inner) => BuilderField { name, ty: inner, optional: true },
            None => BuilderField { name, ty: copy_string(&field.ty.text), optional: false },
        }
    }
}

/// Classification is by the written name alone: a single-segment path type
/// whose name is not exactly `Option` (such as `MyOption<T>`) is required.
pub proof fn lemma_other_names_required(f: FieldDescriptor)
    requires
        f.ty.shape matches TypeShape::Path { segments, .. } && segments@.len() == 1
            && segments@[0].ident@ != "Option"@,
    ensures
        builder_field_of(f) == (f.name@, f.ty.text@, false),
{
}

} // verus!
