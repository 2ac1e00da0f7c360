//! Emission of a planned builder as Rust source text.
use vstd::prelude::*;
use vstd::string::StringExecFns;
use crate::classify::{views_of, BuilderField, FieldView};
use crate::plan::BuilderPlan;

verus! {

/// The parts joined in order, with `sep` between two neighbours.
pub open spec fn join(parts: Seq<Seq<char>>, sep: Seq<char>) -> Seq<char>
    decreases parts.len(),
{
    if parts.len() == 0 {
        Seq::empty()
    } else if parts.len() == 1 {
        parts[0]
    } else {
        join(parts.drop_last(), sep) + sep + parts.last()
    }
}

/// The builder's member for a field: `name: Option<ty>`.
pub open spec fn member_text(f: FieldView) -> Seq<char> {
    f.0 + ": ::std::option::Option<"@ + f.1 + ">"@
}

/// The initial, absent value of a field's member.
pub open spec fn init_text(f: FieldView) -> Seq<char> {
    f.0 + ": ::std::option::Option::None"@
}

/// The setter of a field: stores the value and returns the builder.
pub open spec fn setter_text(f: FieldView) -> Seq<char> {
    "fn "@ + f.0 + "(&mut self, "@ + f.0 + ": "@ + f.1
        + ") -> &mut Self { self."@ + f.0 + " = ::std::option::Option::Some("@ + f.0
        + "); self } "@
}

/// The presence check of a field in `build`: a required field that is
/// absent fails with `"name" is required`; an optional field is not checked.
pub open spec fn check_text(f: FieldView) -> Seq<char> {
    if f.2 {
        Seq::empty()
    } else {
        "if self."@ + f.0 + ".is_none() { return ::std::result::Result::Err(\"\\\""@ + f.0
            + "\\\" is required\".into()); } "@
    }
}

/// How `build` assembles a field: it takes the slot, and unwraps it for a
/// required field.
pub open spec fn assembly_text(f: FieldView) -> Seq<char> {
    if f.2 {
        f.0 + ": self."@ + f.0 + ".take()"@
    } else {
        f.0 + ": self."@ + f.0 + ".take().unwrap()"@
    }
}

/// The fragments that the builder repeats once per field.
#[derive(Clone, Copy, PartialEq, Eq, Structural)]
pub enum Fragment {
    Member,
    Init,
    Setter,
    Check,
    Assembly,
}

/// One field's text for one kind of fragment.
pub open spec fn fragment_text(f: FieldView, k: Fragment) -> Seq<char> {
    match k {
        Fragment::Member => member_text(f),
        Fragment::Init => init_text(f),
        Fragment::Setter => setter_text(f),
        Fragment::Check => check_text(f),
        Fragment::Assembly => assembly_text(f),
    }
}

/// Every field's text for one kind of fragment, in field order.
pub open spec fn fragments_of(fs: Seq<FieldView>, k: Fragment) -> Seq<Seq<char>> {
    fs.map_values(|f: FieldView| fragment_text(f, k))
}

/// The whole source text of a builder: the builder type, its setters and
/// `build`, and the `builder()` entry point on the record.
pub open spec fn source_text(r: Seq<char>, b: Seq<char>, fs: Seq<FieldView>) -> Seq<char> {
    "pub struct "@ + b + " { "@ + join(fragments_of(fs, Fragment::Member), ", "@) + " } impl "@ + b + " { "@
        + join(fragments_of(fs, Fragment::Setter), ""@)
        + "fn build(&mut self) -> ::std::result::Result<"@ + r
        + ", ::std::boxed::Box<dyn ::std::error::Error>> { "@ + join(fragments_of(fs, Fragment::Check), ""@)
        + "::std::result::Result::Ok("@ + r + " { "@ + join(fragments_of(fs, Fragment::Assembly), ", "@)
        + " }) } } impl "@ + r + " { fn builder() -> "@ + b + " { "@ + b + " { "@
        + join(fragments_of(fs, Fragment::Init), ", "@) + " } } }"@
}

proof fn lemma_join_push(parts: Seq<Seq<char>>, sep: Seq<char>, x: Seq<char>)
    ensures
        join(parts.push(x), sep) == join(parts, sep) + (if parts.len() == 0 {
            Seq::empty()
        } else {
            sep
        }) + x,
{
    assert(parts.push(x).drop_last() =~= parts);
    if parts.len() == 0 {
        assert(join(parts, sep) + Seq::<char>::empty() + x =~= x);
    }
}

fn append_fragment(out: &mut String, f: &BuilderField, k: Fragment)
    ensures
        final(out)@ == old(out)@ + fragment_text(f@, k),
{
    let ghost start = out@;
    match k {
        Fragment::Member => {
            out.append(f.name.as_str());
            out.append(": ::std::option::Option<");
            out.append(f.ty.as_str());
            out.append(">");
        },
        Fragment::Init => {
            out.append(f.name.as_str());
            out.append(": ::std::option::Option::None");
        },
        Fragment::Setter => {
            out.append("fn ");
            out.append(f.name.as_str());
            out.append("(&mut self, ");
            out.append(f.name.as_str());
            out.append(": ");
            out.append(f.ty.as_str());
            out.append(") -> &mut Self { self.");
            out.append(f.name.as_str());
            out.append(" = ::std::option::Option::Some(");
            out.append(f.name.as_str());
            out.append("); self } ");
        },
        Fragment::Check => {
            if !f.optional {
                out.append("if self.");
                out.append(f.name.as_str());
                out.append(".is_none() { return ::std::result::Result::Err(\"\\\"");
                out.append(f.name.as_str());
                out.append("\\\" is required\".into()); } ");
            }
        },
        Fragment::Assembly => {
            out.append(f.name.as_str());
            out.append(": self.");
            out.append(f.name.as_str());
            if f.optional {
                out.append(".take()");
            } else {
                out.append(".take().unwrap()");
            }
        },
    }
    assert(out@ =~= start + fragment_text(f@, k));
}

/// Emits one kind of fragment for every field, in field order, with `sep`
/// between neighbours.
pub fn emit_fragments(fs: &Vec<BuilderField>, k: Fragment, sep: &str) -> (r: String)
    ensures
        r@ == join(fragments_of(views_of(fs@), k), sep@),
{
    let mut out = String::new();
    let mut i: usize = 0;
    while i < fs.len()
        invariant
            i <= fs@.len(),
            out@ == join(fragments_of(views_of(fs@.take(i as int)), k), sep@),
        decreases fs@.len() - i,
    {
        let ghost before = fragments_of(views_of(fs@.take(i as int)), k);
        if i > 0 {
            out.append(sep);
        }
        append_fragment(&mut out, &fs[i], k);
        proof {
            assert(fragments_of(views_of(fs@.take(i + 1)), k) =~= before.push(fragment_text(fs@[i as int]@, k)));
            lemma_join_push(before, sep@, fragment_text(fs@[i as int]@, k));
            if i == 0 {
                assert(before.len() == 0);
            }
        }
        i = i + 1;
    }
    assert(fs@.take(fs@.len() as int) =~= fs@);
    out
}

/// Emits the source text of a planned builder.
pub fn emit(p: &BuilderPlan) -> (r: String)
    ensures
        r@ == source_text(p.record_name@, p.builder_name@, views_of(p.fields@)),
{
    let r = &p.record_name;
    let b = &p.builder_name;
    let mut out = String::new();
    out.append("pub struct ");
    out.append(b.as_str());
    out.append(" { ");
    out.append(emit_fragments(&p.fields, Fragment::Member, ", ").as_str());
    out.append(" } impl ");
    out.append(b.as_str());
    out.append(" { ");
    out.append(emit_fragments(&p.fields, Fragment::Setter, "").as_str());
    out.append("fn build(&mut self) -> ::std::result::Result<");
    out.append(r.as_str());
    out.append(", ::std::boxed::Box<dyn ::std::error::Error>> { ");
    out.append(emit_fragments(&p.fields, Fragment::Check, "").as_str());
    out.append("::std::result::Result::Ok(");
    out.append(r.as_str());
    out.append(" { ");
    out.append(emit_fragments(&p.fields, Fragment::Assembly, ", ").as_str());
    out.append(" }) } } impl ");
    out.append(r.as_str());
    out.append(" { fn builder() -> ");
    out.append(b.as_str());
    out.append(" { ");
    out.append(b.as_str());
    out.append(" { ");
    out.append(emit_fragments(&p.fields, Fragment::Init, ", ").as_str());
    out.append(" } } }");
    assert(out@ =~= source_text(p.record_name@, p.builder_name@, views_of(p.fields@)));
    out
}

} // verus!
