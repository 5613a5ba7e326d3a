use formgen::error::GenerationError;
use formgen::generate::HiddenPolicy;
use formgen::metadata::lookup;
use formgen::reader::{
    describe_field, generate_from, get_type_name, has_mark_attr, read_schema, AttrPath, DeclBody,
    Declaration, FieldDecl, TypeExpr,
};
use formgen::schema::{CompositeType, DomainSchema, FieldDescriptor};
use formgen::source::{declaration_of, field_decl, form_gen, parse_declaration, ItemKind};
use formgen::value::Value;

fn field(name: &str, declared_type: &str, exposed: bool) -> FieldDescriptor {
    FieldDescriptor::new(name, declared_type, exposed)
}

fn path(segments: &[&str]) -> AttrPath {
    AttrPath { segments: segments.iter().map(|s| s.to_string()).collect() }
}

fn plain(name: &str) -> TypeExpr {
    TypeExpr::Path { qualified: false, segments: vec![name.to_string()] }
}

fn declared(name: &str, marked: bool, ty: &str) -> FieldDecl {
    FieldDecl {
        name: name.to_string(),
        attrs: if marked { vec![path(&["mark"])] } else { vec![] },
        ty: plain(ty),
    }
}

fn field_type() -> CompositeType {
    CompositeType {
        schema: DomainSchema {
            name: "Field".to_string(),
            fields: vec![
                field("value", "String", true),
                field("label", "String", false),
                field("input_type", "String", false),
            ],
        },
        default: vec![
            Value::Text(String::new()),
            Value::Text(String::new()),
            Value::Text(String::new()),
        ],
    }
}

#[test]
fn mark_is_found_by_last_segment() {
    assert!(!has_mark_attr(&vec![]));
    assert!(has_mark_attr(&vec![path(&["mark"])]));
    assert!(has_mark_attr(&vec![path(&["doc"]), path(&["form_macro", "mark"])]));
    assert!(!has_mark_attr(&vec![path(&["mark", "other"]), path(&["serde"])]));
    assert!(!has_mark_attr(&vec![path(&[]), path(&["Mark"])]));
}

#[test]
fn type_name_is_the_last_segment_of_a_plain_path() {
    assert_eq!(get_type_name(&plain("Field")).as_deref(), Some("Field"));
    let long = TypeExpr::Path {
        qualified: false,
        segments: vec!["std".to_string(), "string".to_string(), "String".to_string()],
    };
    assert_eq!(get_type_name(&long).as_deref(), Some("String"));
    let qualified = TypeExpr::Path { qualified: true, segments: vec!["Output".to_string()] };
    assert_eq!(get_type_name(&qualified), None);
    assert_eq!(get_type_name(&TypeExpr::Path { qualified: false, segments: vec![] }), None);
    assert_eq!(get_type_name(&TypeExpr::Other), None);
}

#[test]
fn field_without_type_name_is_described_by_the_empty_text() {
    let d = describe_field(&FieldDecl {
        name: "items".to_string(),
        attrs: vec![path(&["mark"])],
        ty: TypeExpr::Other,
    });
    assert_eq!(d.name, "items");
    assert_eq!(d.declared_type, "");
    assert!(d.exposed);
}

#[test]
fn schema_is_read_in_declaration_order() {
    let declaration = Declaration {
        name: "Person".to_string(),
        body: DeclBody::Named(vec![
            declared("name", false, "Field"),
            declared("zip", false, "Field"),
            declared("age", true, "u32"),
        ]),
    };
    let schema = read_schema(&declaration).ok().unwrap();
    assert_eq!(schema.name, "Person");
    let read: Vec<(&str, &str, bool)> = schema
        .fields
        .iter()
        .map(|f| (f.name.as_str(), f.declared_type.as_str(), f.exposed))
        .collect();
    assert_eq!(read, vec![("name", "Field", false), ("zip", "Field", false), ("age", "u32", true)]);
}

#[test]
fn only_structs_with_named_fields_are_read() {
    let of = |body| Declaration { name: "T".to_string(), body };
    assert!(matches!(read_schema(&of(DeclBody::NotStruct)), Err(GenerationError::NotAStruct)));
    assert!(matches!(read_schema(&of(DeclBody::Unnamed)), Err(GenerationError::UnnamedFields)));
    assert!(read_schema(&of(DeclBody::Named(vec![]))).is_ok());
    let twice = of(DeclBody::Named(vec![
        declared("a", false, "u8"),
        declared("b", false, "u8"),
        declared("a", true, "String"),
    ]));
    match read_schema(&twice) {
        Err(GenerationError::DuplicateField(name)) => assert_eq!(name, "a"),
        _ => panic!("not rejected"),
    }
}

#[test]
fn generation_from_a_declaration() {
    let declaration = Declaration {
        name: "Person".to_string(),
        body: DeclBody::Named(vec![
            declared("name", false, "Field"),
            declared("zip", false, "Field"),
            declared("age", true, "u32"),
        ]),
    };
    let g = generate_from(&declaration, &vec![field_type()], HiddenPolicy::Reject).ok().unwrap();
    let names: Vec<&str> = g.view.iter().map(|f| f.name.as_str()).collect();
    assert_eq!(names, vec!["name_value", "zip_value", "age"]);
    let bad = Declaration {
        name: "Bad".to_string(),
        body: DeclBody::Named(vec![declared("name", true, "Field")]),
    };
    match generate_from(&bad, &vec![field_type()], HiddenPolicy::Reject) {
        Err(GenerationError::UnsupportedField(name)) => assert_eq!(name, "name"),
        _ => panic!("not rejected"),
    }
    let e = generate_from(
        &Declaration { name: "E".to_string(), body: DeclBody::NotStruct },
        &vec![],
        HiddenPolicy::Drop,
    );
    assert!(matches!(e, Err(GenerationError::NotAStruct)));
}

#[test]
fn declaration_is_parsed_from_source_text() {
    let source = "
        #[derive(Clone, FormGen)]
        pub struct Person {
            pub name: Field,
            #[serde(default)]
            zip: crate::types::Field,
            #[doc = \"years\"]
            #[mark]
            pub age: u32,
            tags: Vec<String>,
            pair: (u8, u8),
            out: <T as Iterator>::Item,
        }";
    let d = parse_declaration(source).ok().unwrap();
    assert_eq!(d.name, "Person");
    let fields = match d.body {
        DeclBody::Named(fields) => fields,
        _ => panic!("not named"),
    };
    let read: Vec<(String, bool, Option<String>)> = fields
        .iter()
        .map(|f| (f.name.clone(), has_mark_attr(&f.attrs), get_type_name(&f.ty)))
        .collect();
    let expect = |name: &str, marked: bool, ty: Option<&str>| {
        (name.to_string(), marked, ty.map(|t| t.to_string()))
    };
    assert_eq!(
        read,
        vec![
            expect("name", false, Some("Field")),
            expect("zip", false, Some("Field")),
            expect("age", true, Some("u32")),
            expect("tags", false, Some("Vec")),
            expect("pair", false, None),
            expect("out", false, None),
        ]
    );
    assert_eq!(fields[1].attrs.len(), 1);
    assert_eq!(fields[1].attrs[0].segments, vec!["serde".to_string()]);
    assert!(matches!(
        &fields[1].ty,
        TypeExpr::Path { qualified: false, segments } if segments.len() == 3
    ));
    assert!(matches!(&fields[4].ty, TypeExpr::Other));
    assert!(matches!(&fields[5].ty, TypeExpr::Path { qualified: true, .. }));
}

#[test]
fn other_declarations_are_told_apart() {
    let body = |source: &str| parse_declaration(source).ok().unwrap().body;
    assert!(matches!(body("struct Pair(u8, u8);"), DeclBody::Unnamed));
    assert!(matches!(body("struct Unit;"), DeclBody::Unnamed));
    assert!(matches!(body("enum Colour { Red, Green }"), DeclBody::NotStruct));
    assert!(matches!(body("union Bits { a: u32, b: i32 }"), DeclBody::NotStruct));
    assert!(matches!(body("struct Empty {}"), DeclBody::Named(fields) if fields.is_empty()));
}

#[test]
fn text_that_is_no_declaration_is_a_syntax_error() {
    for source in ["", "fn main() {}", "struct", "struct Person { name Field }", "let x = 1;"] {
        match parse_declaration(source) {
            Err(GenerationError::Syntax(message)) => assert!(!message.is_empty()),
            _ => panic!("parsed: {source}"),
        }
        assert!(matches!(
            form_gen(source, &vec![], HiddenPolicy::Drop),
            Err(GenerationError::Syntax(_))
        ));
    }
}

#[test]
fn form_gen_on_the_person_declaration() {
    let source = "struct Person { name: Field, zip: Field, #[mark] age: u32 }";
    let g = form_gen(source, &vec![field_type()], HiddenPolicy::Reject).ok().unwrap();
    assert_eq!(g.view_name, "PersonForm");
    let view: Vec<(&str, &str)> =
        g.view.iter().map(|f| (f.name.as_str(), f.value_type.as_str())).collect();
    assert_eq!(view, vec![("name_value", "String"), ("zip_value", "String"), ("age", "u32")]);
    assert_eq!(lookup(&g.constants, "NAME_FORM_FIELD").as_deref(), Some("name_value"));
    assert_eq!(lookup(&g.constants, "AGE_INPUT_TYPE").as_deref(), Some("number"));
}

#[test]
fn form_gen_reports_what_the_derive_reported() {
    let catalogue = vec![field_type()];
    assert!(matches!(
        form_gen("enum E { A }", &catalogue, HiddenPolicy::Drop),
        Err(GenerationError::NotAStruct)
    ));
    assert!(matches!(
        form_gen("struct T(u8);", &catalogue, HiddenPolicy::Drop),
        Err(GenerationError::UnnamedFields)
    ));
    match form_gen("struct S { ok: u8, #[mark] name: Field }", &catalogue, HiddenPolicy::Drop) {
        Err(GenerationError::UnsupportedField(name)) => assert_eq!(name, "name"),
        _ => panic!("not rejected"),
    }
    match form_gen("struct S { #[mark] list: [u8; 4] }", &catalogue, HiddenPolicy::Drop) {
        Err(GenerationError::UnsupportedField(name)) => assert_eq!(name, "list"),
        _ => panic!("not rejected"),
    }
    match form_gen("struct S { list: [u8; 4] }", &catalogue, HiddenPolicy::Reject) {
        Err(GenerationError::HiddenComposite(name)) => assert_eq!(name, "list"),
        _ => panic!("not rejected"),
    }
}

#[test]
fn field_is_declared_from_what_was_read() {
    let f = field_decl(Some("age".to_string()), vec![path(&["mark"])], plain("u32"));
    assert_eq!(f, declared("age", true, "u32"));
    let f = field_decl(None, vec![], TypeExpr::Other);
    assert_eq!(f, FieldDecl { name: String::new(), attrs: vec![], ty: TypeExpr::Other });
    let f = field_decl(Some(String::new()), vec![path(&["a", "b"]), path(&[])], plain("T"));
    assert_eq!(f.name, "");
    assert_eq!(f.attrs, vec![path(&["a", "b"]), path(&[])]);
    assert_eq!(f.ty, plain("T"));
}

#[test]
fn item_is_declared_by_its_kind() {
    let fields = || vec![declared("a", false, "u8"), declared("b", true, "Field")];
    let d = declaration_of("S".to_string(), ItemKind::NamedStruct, fields());
    assert_eq!(d, Declaration { name: "S".to_string(), body: DeclBody::Named(fields()) });
    let d = declaration_of("S".to_string(), ItemKind::NamedStruct, vec![]);
    assert_eq!(d.body, DeclBody::Named(vec![]));
    for kind in [ItemKind::TupleStruct, ItemKind::UnitStruct] {
        let d = declaration_of("T".to_string(), kind, fields());
        assert_eq!(d, Declaration { name: "T".to_string(), body: DeclBody::Unnamed });
    }
    for kind in [ItemKind::Enum, ItemKind::Union] {
        let d = declaration_of("E".to_string(), kind, vec![]);
        assert_eq!(d, Declaration { name: "E".to_string(), body: DeclBody::NotStruct });
    }
}

#[test]
fn syntax_error_carries_the_parser_message() {
    match parse_declaration("struct Person { name Field }") {
        Err(GenerationError::Syntax(message)) => assert_eq!(message, "expected `:`"),
        _ => panic!("parsed"),
    }
    let e = form_gen("struct", &vec![], HiddenPolicy::Drop).err().unwrap();
    assert!(matches!(e, GenerationError::Syntax(_)));
    assert_eq!(e.message(), parse_declaration("struct").err().unwrap().message());
}

#[test]
fn same_text_is_read_the_same() {
    let source = "pub struct P { #[mark] a: u8, b: Option<String> }";
    assert_eq!(parse_declaration(source), parse_declaration(source));
    let d = parse_declaration(source).ok().unwrap();
    let expected = Declaration {
        name: "P".to_string(),
        body: DeclBody::Named(vec![declared("a", true, "u8"), declared("b", false, "Option")]),
    };
    assert_eq!(d, expected);
}
