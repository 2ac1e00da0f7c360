use builder::classify::{option_inner_type, BuilderField};
use builder::emit::{emit_fragments, Fragment};
use builder::plan::{plan, BuilderPlan, GenerateError};
use builder::shape::{
    FieldDescriptor, GenericArg, PathArgs, PathSegment, RecordData, RecordInput, TypeExpr,
    TypeShape,
};
use builder::slots::{FieldValue, SlotBuilder};

#[derive(Debug, PartialEq, Eq)]
enum Value {
    Text(String),
    Number(u32),
}

fn seg(ident: &str, args: PathArgs) -> PathSegment {
    PathSegment { ident: ident.to_string(), args }
}

fn path_type(text: &str, segments: Vec<PathSegment>) -> TypeExpr {
    TypeExpr { text: text.to_string(), shape: TypeShape::Path { qualified: false, segments } }
}

fn plain(name: &str) -> TypeExpr {
    path_type(name, vec![seg(name, PathArgs::Bare)])
}

fn wrapped(outer: &str, inner: &str) -> TypeExpr {
    path_type(
        &format!("{} < {} >", outer, inner),
        vec![seg(outer, PathArgs::AngleBracketed(vec![GenericArg::Type(inner.to_string())]))],
    )
}

fn field(name: &str, ty: TypeExpr) -> FieldDescriptor {
    FieldDescriptor { name: name.to_string(), ty }
}

fn record(name: &str, fields: Vec<FieldDescriptor>) -> RecordInput {
    RecordInput { name: name.to_string(), data: RecordData::Named(fields) }
}

fn person() -> RecordInput {
    record("Person", vec![field("name", plain("String")), field("age", wrapped("Option", "u32"))])
}

fn planned(input: &RecordInput) -> BuilderPlan {
    match plan(input) {
        Ok(p) => p,
        Err(e) => panic!("no plan: {:?}", e),
    }
}

fn classified(ty: TypeExpr) -> (String, bool) {
    let f = BuilderField::from(&field("f", ty));
    (f.ty, f.optional)
}

#[test]
fn option_field_is_optional_with_inner_type() {
    assert_eq!(classified(wrapped("Option", "u32")), ("u32".to_string(), true));
    assert_eq!(option_inner_type(&wrapped("Option", "Vec < u8 >")), Some("Vec < u8 >".to_string()));
}

#[test]
fn other_wrapper_name_is_required() {
    assert_eq!(classified(wrapped("MyOption", "T")), ("MyOption < T >".to_string(), false));
    assert_eq!(option_inner_type(&wrapped("MyOption", "T")), None);
}

#[test]
fn plain_type_is_required() {
    assert_eq!(classified(plain("String")), ("String".to_string(), false));
}

#[test]
fn bare_option_is_required() {
    assert_eq!(classified(plain("Option")), ("Option".to_string(), false));
}

#[test]
fn multi_segment_option_is_required() {
    let ty = path_type(
        "std :: option :: Option < u8 >",
        vec![
            seg("std", PathArgs::Bare),
            seg("option", PathArgs::Bare),
            seg("Option", PathArgs::AngleBracketed(vec![GenericArg::Type("u8".to_string())])),
        ],
    );
    assert_eq!(classified(ty), ("std :: option :: Option < u8 >".to_string(), false));
}

#[test]
fn qualified_option_is_required() {
    let ty = TypeExpr {
        text: "< X as T > :: Option < u8 >".to_string(),
        shape: TypeShape::Path {
            qualified: true,
            segments: vec![seg(
                "Option",
                PathArgs::AngleBracketed(vec![GenericArg::Type("u8".to_string())]),
            )],
        },
    };
    assert_eq!(classified(ty).1, false);
}

#[test]
fn option_with_two_or_no_type_arguments_is_required() {
    let two = path_type(
        "Option < A , B >",
        vec![seg(
            "Option",
            PathArgs::AngleBracketed(vec![
                GenericArg::Type("A".to_string()),
                GenericArg::Type("B".to_string()),
            ]),
        )],
    );
    assert_eq!(classified(two), ("Option < A , B >".to_string(), false));
    let lifetime = path_type(
        "Option < 'a >",
        vec![seg("Option", PathArgs::AngleBracketed(vec![GenericArg::Other]))],
    );
    assert_eq!(classified(lifetime), ("Option < 'a >".to_string(), false));
    let paren = path_type("Option (u8)", vec![seg("Option", PathArgs::Parenthesized)]);
    assert_eq!(classified(paren).1, false);
}

#[test]
fn reference_and_tuple_are_required() {
    let r = TypeExpr { text: "& 'a str".to_string(), shape: TypeShape::Reference };
    assert_eq!(classified(r), ("& 'a str".to_string(), false));
    let t = TypeExpr { text: "(u8 , u8)".to_string(), shape: TypeShape::Tuple };
    assert_eq!(classified(t), ("(u8 , u8)".to_string(), false));
    let o = TypeExpr { text: "[u8 ; 4]".to_string(), shape: TypeShape::Other };
    assert_eq!(classified(o).1, false);
}

#[test]
fn plan_names_builder_and_keeps_field_order() {
    let p = planned(&person());
    assert_eq!(p.record_name, "Person");
    assert_eq!(p.builder_name, "PersonBuilder");
    assert_eq!(p.fields.len(), 2);
    assert_eq!(p.fields[0].name, "name");
    assert_eq!(p.fields[0].ty, "String");
    assert!(!p.fields[0].optional);
    assert_eq!(p.fields[1].name, "age");
    assert_eq!(p.fields[1].ty, "u32");
    assert!(p.fields[1].optional);
}

#[test]
fn plan_refuses_what_is_not_a_record() {
    let e = RecordInput { name: "E".to_string(), data: RecordData::NotAStruct };
    assert_eq!(plan(&e).err(), Some(GenerateError::NotARecord));
    let t = RecordInput { name: "T".to_string(), data: RecordData::Unnamed(2) };
    assert_eq!(plan(&t).err(), Some(GenerateError::NotARecord));
    assert_eq!(builder::derive(&t), Err(GenerateError::NotARecord));
}

#[test]
fn plan_accepts_empty_records() {
    let u = RecordInput { name: "U".to_string(), data: RecordData::Unit };
    assert_eq!(planned(&u).fields.len(), 0);
    let t = RecordInput { name: "T".to_string(), data: RecordData::Unnamed(0) };
    assert_eq!(planned(&t).builder_name, "TBuilder");
}

#[test]
fn derive_emits_the_whole_builder() {
    let expected = r#"pub struct PersonBuilder { name: ::std::option::Option<String>, age: ::std::option::Option<u32> } impl PersonBuilder { fn name(&mut self, name: String) -> &mut Self { self.name = ::std::option::Option::Some(name); self } fn age(&mut self, age: u32) -> &mut Self { self.age = ::std::option::Option::Some(age); self } fn build(&mut self) -> ::std::result::Result<Person, ::std::boxed::Box<dyn ::std::error::Error>> { if self.name.is_none() { return ::std::result::Result::Err("\"name\" is required".into()); } ::std::result::Result::Ok(Person { name: self.name.take().unwrap(), age: self.age.take() }) } } impl Person { fn builder() -> PersonBuilder { PersonBuilder { name: ::std::option::Option::None, age: ::std::option::Option::None } } }"#;
    assert_eq!(builder::derive(&person()), Ok(expected.to_string()));
}

#[test]
fn derive_of_unit_struct() {
    let u = RecordInput { name: "U".to_string(), data: RecordData::Unit };
    let expected = "pub struct UBuilder {  } impl UBuilder { fn build(&mut self) -> ::std::result::Result<U, ::std::boxed::Box<dyn ::std::error::Error>> { ::std::result::Result::Ok(U {  }) } } impl U { fn builder() -> UBuilder { UBuilder {  } } }";
    assert_eq!(builder::derive(&u), Ok(expected.to_string()));
}

#[test]
fn fragments_join_in_field_order() {
    let p = planned(&record(
        "R",
        vec![field("a", plain("u8")), field("b", wrapped("Option", "u16")), field("c", plain("u32"))],
    ));
    assert_eq!(
        emit_fragments(&p.fields, Fragment::Member, ", "),
        "a: ::std::option::Option<u8>, b: ::std::option::Option<u16>, c: ::std::option::Option<u32>"
    );
    assert_eq!(
        emit_fragments(&p.fields, Fragment::Assembly, ", "),
        "a: self.a.take().unwrap(), b: self.b.take(), c: self.c.take().unwrap()"
    );
    assert_eq!(
        emit_fragments(&p.fields, Fragment::Check, ""),
        "if self.a.is_none() { return ::std::result::Result::Err(\"\\\"a\\\" is required\".into()); } if self.c.is_none() { return ::std::result::Result::Err(\"\\\"c\\\" is required\".into()); } "
    );
    assert_eq!(emit_fragments(&p.fields, Fragment::Init, ", ").matches("Option::None").count(), 3);
    assert!(emit_fragments(&p.fields, Fragment::Setter, "")
        .starts_with("fn a(&mut self, a: u8) -> &mut Self { self.a = ::std::option::Option::Some(a); self } fn b(&mut self, b: u16)"));
}

fn person_builder() -> SlotBuilder<Value> {
    SlotBuilder::new(planned(&person()))
}

#[test]
fn person_with_name_only_finalizes_with_no_age() {
    let mut b = person_builder();
    b.set(0, Value::Text("Alice".to_string()));
    assert_eq!(
        b.finalize(),
        Ok(vec![FieldValue::Required(Value::Text("Alice".to_string())), FieldValue::Optional(None)])
    );
}

#[test]
fn person_without_name_fails() {
    let mut b = person_builder();
    let r = b.finalize();
    assert_eq!(r, Err("\"name\" is required".to_string()));
    assert!(r.unwrap_err().contains("\"name\" is required"));
}

#[test]
fn all_required_in_any_order() {
    let input = record("R", vec![field("a", plain("String")), field("b", plain("u32"))]);
    let expected = Ok(vec![
        FieldValue::Required(Value::Text("x".to_string())),
        FieldValue::Required(Value::Number(7)),
    ]);
    let mut forward = SlotBuilder::new(planned(&input));
    forward.set(0, Value::Text("x".to_string()));
    forward.set(1, Value::Number(7));
    assert_eq!(forward.finalize(), expected);
    let mut backward = SlotBuilder::new(planned(&input));
    backward.set(1, Value::Number(7));
    backward.set(0, Value::Text("x".to_string()));
    assert_eq!(backward.finalize(), expected);
}

#[test]
fn later_setter_call_overwrites() {
    let mut b = person_builder();
    b.set(0, Value::Text("Alice".to_string()));
    b.set(0, Value::Text("Bob".to_string()));
    assert_eq!(
        b.finalize(),
        Ok(vec![FieldValue::Required(Value::Text("Bob".to_string())), FieldValue::Optional(None)])
    );
}

#[test]
fn only_the_first_missing_field_is_reported() {
    let input = record(
        "R",
        vec![field("opt", wrapped("Option", "u8")), field("first", plain("u8")), field("second", plain("u8"))],
    );
    let mut b: SlotBuilder<Value> = SlotBuilder::new(planned(&input));
    let r = b.finalize();
    assert_eq!(r, Err("\"first\" is required".to_string()));
    assert!(!r.unwrap_err().contains("second"));
}

#[test]
fn failed_finalize_keeps_slots_and_can_be_retried() {
    let input = record("R", vec![field("a", plain("u8")), field("b", plain("u8"))]);
    let mut b = SlotBuilder::new(planned(&input));
    b.set(0, Value::Number(1));
    assert_eq!(b.finalize(), Err("\"b\" is required".to_string()));
    b.set(1, Value::Number(2));
    assert_eq!(
        b.finalize(),
        Ok(vec![FieldValue::Required(Value::Number(1)), FieldValue::Required(Value::Number(2))])
    );
}

#[test]
fn finalize_empties_every_slot() {
    let mut b = person_builder();
    b.set(0, Value::Text("Alice".to_string()));
    b.set(1, Value::Number(30));
    assert!(b.finalize().is_ok());
    assert_eq!(b.finalize(), Err("\"name\" is required".to_string()));
}

#[test]
fn round_trip_of_every_field() {
    let input = record(
        "R",
        vec![field("a", plain("String")), field("b", wrapped("Option", "u32")), field("c", plain("u32"))],
    );
    let mut b = SlotBuilder::new(planned(&input));
    assert_eq!(b.len(), 3);
    b.set(0, Value::Text("v1".to_string()));
    b.set(1, Value::Number(2));
    b.set(2, Value::Number(3));
    assert_eq!(
        b.finalize(),
        Ok(vec![
            FieldValue::Required(Value::Text("v1".to_string())),
            FieldValue::Optional(Some(Value::Number(2))),
            FieldValue::Required(Value::Number(3)),
        ])
    );
}

#[test]
fn wrapper_named_otherwise_must_be_set() {
    let input = record("R", vec![field("x", wrapped("MyOption", "u8"))]);
    let mut b: SlotBuilder<Value> = SlotBuilder::new(planned(&input));
    assert_eq!(b.finalize(), Err("\"x\" is required".to_string()));
}

#[test]
fn empty_record_finalizes() {
    let mut b: SlotBuilder<Value> = SlotBuilder::new(planned(&record("R", vec![])));
    assert_eq!(b.len(), 0);
    assert_eq!(b.finalize(), Ok(vec![]));
}
