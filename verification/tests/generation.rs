use formgen::convert::Step;
use formgen::error::GenerationError;
use formgen::generate::{generate, Generated, HiddenPolicy};
use formgen::metadata::{emit_constants, lookup, Constant, MetaEntry};
use formgen::primitive::InputType;
use formgen::schema::{CompositeType, DomainSchema, FieldDescriptor};
use formgen::value::Value;

fn field(name: &str, declared_type: &str, exposed: bool) -> FieldDescriptor {
    FieldDescriptor::new(name, declared_type, exposed)
}

fn text(s: &str) -> Value {
    Value::Text(s.to_string())
}

fn as_text(v: &Value) -> &str {
    match v {
        Value::Text(s) => s,
        _ => panic!("not a text"),
    }
}

fn field_type() -> CompositeType {
    CompositeType {
        schema: DomainSchema {
            name: "Field".to_string(),
            fields: vec![
                field("value", "String", true),
                field("label", "String", false),
                field("input_type", "String", false),
            ],
        },
        default: vec![text(""), text(""), text("")],
    }
}

fn person() -> DomainSchema {
    DomainSchema {
        name: "Person".to_string(),
        fields: vec![
            field("name", "Field", false),
            field("zip", "Field", false),
            field("age", "u32", true),
        ],
    }
}

fn generated_person() -> Generated {
    match generate(&person(), &vec![field_type()], HiddenPolicy::Reject) {
        Ok(g) => g,
        Err(e) => panic!("{}", e.message()),
    }
}

fn names(g: &Generated) -> Vec<(String, String)> {
    g.view.iter().map(|f| (f.name.clone(), f.value_type.clone())).collect()
}

fn pairs(constants: &[Constant]) -> Vec<(String, String)> {
    constants.iter().map(|c| (c.name.clone(), c.value.clone())).collect()
}

fn own(items: &[(&str, &str)]) -> Vec<(String, String)> {
    items.iter().map(|(a, b)| (a.to_string(), b.to_string())).collect()
}

#[test]
fn person_view_fields() {
    let g = generated_person();
    assert_eq!(g.view_name, "PersonForm");
    assert_eq!(
        names(&g),
        own(&[("name_value", "String"), ("zip_value", "String"), ("age", "u32")])
    );
}

#[test]
fn person_constants() {
    let g = generated_person();
    assert_eq!(lookup(&g.constants, "NAME_FORM_FIELD").as_deref(), Some("name_value"));
    assert_eq!(lookup(&g.constants, "AGE_INPUT_TYPE").as_deref(), Some("number"));
    assert_eq!(
        pairs(&g.constants),
        own(&[
            ("NAME_FORM_FIELD", "name_value"),
            ("ZIP_FORM_FIELD", "zip_value"),
            ("AGE_FORM_FIELD", "age"),
            ("NAME_INPUT_TYPE", "text"),
            ("ZIP_INPUT_TYPE", "text"),
            ("AGE_INPUT_TYPE", "number"),
        ])
    );
    assert_eq!(lookup(&g.constants, "name_FORM_FIELD"), None);
    assert_eq!(lookup(&g.constants, "MISSING"), None);
}

#[test]
fn person_round_trip_end_to_end() {
    let g = generated_person();
    let field_value = |value: &str| Value::Record(vec![text(value), text("Name"), text("text")]);
    let domain = vec![field_value("Ada"), field_value("02139"), Value::Int(30)];
    assert!(g.converters.is_well_formed());
    assert!(g.converters.accepts_domain(&domain));
    let view = g.converters.to_view(&domain);
    assert_eq!(view.len(), 3);
    assert_eq!(as_text(&view[0]), "Ada");
    assert_eq!(as_text(&view[1]), "02139");
    assert!(matches!(view[2], Value::Int(30)));
    assert!(g.converters.accepts_view(&view));
    let back = g.converters.to_domain(&view);
    assert_eq!(back.len(), 3);
    for (member, expected) in [(0, "Ada"), (1, "02139")] {
        match &back[member] {
            Value::Record(members) => {
                assert_eq!(members.len(), 3);
                assert_eq!(as_text(&members[0]), expected);
                assert_eq!(as_text(&members[1]), "");
                assert_eq!(as_text(&members[2]), "");
            },
            _ => panic!("not a record"),
        }
    }
    assert!(matches!(back[2], Value::Int(30)));
}

#[test]
fn view_holds_exactly_the_shown_fields_in_order() {
    let schema = DomainSchema {
        name: "Mixed".to_string(),
        fields: vec![
            field("hidden", "u8", false),
            field("first", "Field", false),
            field("dropped", "Field2", false),
            field("second", "bool", true),
            field("third", "Field", false),
            field("last", "char", false),
        ],
    };
    let other = CompositeType {
        schema: DomainSchema { name: "Field2".to_string(), fields: vec![] },
        default: vec![],
    };
    let g = generate(&schema, &vec![field_type(), other], HiddenPolicy::Drop).ok().unwrap();
    assert_eq!(
        names(&g),
        own(&[("first_value", "String"), ("second", "bool"), ("third_value", "String")])
    );
    assert_eq!(g.converters.sources, vec![1, 3, 4]);
    assert_eq!(g.converters.steps.len(), 6);
    assert!(matches!(g.converters.steps[0], Step::Fill { default: Value::Int(0) }));
    assert!(matches!(g.converters.steps[1], Step::Flatten { slot: 0, member: 0, .. }));
    assert!(matches!(g.converters.steps[2], Step::Fill { default: Value::Record(_) }));
    assert!(matches!(g.converters.steps[3], Step::Copy { slot: 1 }));
    assert!(matches!(g.converters.steps[4], Step::Flatten { slot: 2, member: 0, .. }));
    assert!(matches!(g.converters.steps[5], Step::Fill { default: Value::Char('\0') }));
}

#[test]
fn empty_schema_generates_an_empty_view() {
    let schema = DomainSchema { name: "Nothing".to_string(), fields: vec![] };
    let g = generate(&schema, &vec![], HiddenPolicy::Reject).ok().unwrap();
    assert_eq!(g.view_name, "NothingForm");
    assert!(g.view.is_empty());
    assert!(g.constants.is_empty());
    assert!(g.converters.to_view(&vec![]).is_empty());
    assert!(g.converters.to_domain(&vec![]).is_empty());
}

#[test]
fn exposed_composite_is_rejected_by_name() {
    let schema = DomainSchema {
        name: "Bad".to_string(),
        fields: vec![
            field("fine", "u8", true),
            field("address", "Field", true),
            field("also", "Other", true),
        ],
    };
    for policy in [HiddenPolicy::Drop, HiddenPolicy::Reject] {
        match generate(&schema, &vec![field_type()], policy) {
            Err(GenerationError::UnsupportedField(name)) => assert_eq!(name, "address"),
            _ => panic!("not rejected"),
        }
    }
    let e = generate(&schema, &vec![], HiddenPolicy::Drop).err().unwrap();
    assert_eq!(e.message(), "Marked non-primitive fields not yet supported: address");
}

#[test]
fn hidden_composite_is_rejected_or_dropped_as_asked() {
    let other = CompositeType {
        schema: DomainSchema {
            name: "Address".to_string(),
            fields: vec![field("street", "String", false)],
        },
        default: vec![text("unknown")],
    };
    let schema = DomainSchema {
        name: "Customer".to_string(),
        fields: vec![field("id", "u64", true), field("home", "Address", false)],
    };
    match generate(&schema, &vec![other], HiddenPolicy::Reject) {
        Err(GenerationError::HiddenComposite(name)) => {
            assert_eq!(name, "home");
        },
        _ => panic!("not rejected"),
    }
    let other = CompositeType {
        schema: DomainSchema {
            name: "Address".to_string(),
            fields: vec![field("street", "String", false)],
        },
        default: vec![text("unknown")],
    };
    let g = generate(&schema, &vec![other], HiddenPolicy::Drop).ok().unwrap();
    assert_eq!(names(&g), own(&[("id", "u64")]));
    let domain = g.converters.to_domain(&vec![Value::Int(7)]);
    assert!(matches!(domain[0], Value::Int(7)));
    match &domain[1] {
        Value::Record(members) => assert_eq!(as_text(&members[0]), "unknown"),
        _ => panic!("not a record"),
    }
}

#[test]
fn dropped_field_needs_a_default() {
    let schema = DomainSchema {
        name: "Customer".to_string(),
        fields: vec![field("id", "u64", true), field("home", "Address", false)],
    };
    match generate(&schema, &vec![], HiddenPolicy::Drop) {
        Err(GenerationError::NoDefault(name)) => assert_eq!(name, "home"),
        _ => panic!("not rejected"),
    }
    let malformed = CompositeType {
        schema: DomainSchema {
            name: "Address".to_string(),
            fields: vec![field("street", "String", false)],
        },
        default: vec![],
    };
    let e = generate(&schema, &vec![malformed], HiddenPolicy::Drop).err().unwrap();
    assert_eq!(e.message(), "No default value for the type of field: home");
}

#[test]
fn duplicate_field_is_rejected_first() {
    let schema = DomainSchema {
        name: "Twice".to_string(),
        fields: vec![
            field("a", "Field", true),
            field("b", "u8", true),
            field("b", "u8", true),
        ],
    };
    match generate(&schema, &vec![], HiddenPolicy::Drop) {
        Err(GenerationError::DuplicateField(name)) => assert_eq!(name, "b"),
        _ => panic!("not rejected"),
    }
}

#[test]
fn colliding_constants_are_rejected() {
    let schema = DomainSchema {
        name: "Case".to_string(),
        fields: vec![
            field("name", "String", true),
            field("age", "u8", true),
            field("Name", "Field", false),
        ],
    };
    match generate(&schema, &vec![field_type()], HiddenPolicy::Drop) {
        Err(e) => {
            assert!(matches!(e, GenerationError::ConstantCollision(_)));
            assert_eq!(e.message(), "Constant declared twice: NAME_FORM_FIELD");
        },
        _ => panic!("not rejected"),
    }
    let hidden = DomainSchema {
        name: "Case".to_string(),
        fields: vec![field("name", "String", true), field("Name", "String", false)],
    };
    assert!(generate(&hidden, &vec![], HiddenPolicy::Drop).is_ok());
}

#[test]
fn keys_follow_unicode_upper_case() {
    let schema = DomainSchema {
        name: "Street".to_string(),
        fields: vec![field("straße", "String", true)],
    };
    let g = generate(&schema, &vec![], HiddenPolicy::Drop).ok().unwrap();
    assert_eq!(
        pairs(&g.constants),
        own(&[("STRASSE_FORM_FIELD", "straße"), ("STRASSE_INPUT_TYPE", "text")])
    );
}

#[test]
fn constants_from_given_keys() {
    let entry = |key: &str, form_field: &str, input_type: InputType| MetaEntry {
        key: key.to_string(),
        form_field: form_field.to_string(),
        input_type,
    };
    let entries = vec![entry("A", "a_value", InputType::Text), entry("B", "b", InputType::Number)];
    let constants = emit_constants(&entries).ok().unwrap();
    assert_eq!(
        pairs(&constants),
        own(&[
            ("A_FORM_FIELD", "a_value"),
            ("B_FORM_FIELD", "b"),
            ("A_INPUT_TYPE", "text"),
            ("B_INPUT_TYPE", "number"),
        ])
    );
    let entries = vec![
        entry("A", "a", InputType::Text),
        entry("B", "b", InputType::Text),
        entry("B", "c", InputType::Text),
        entry("A", "d", InputType::Text),
    ];
    match emit_constants(&entries) {
        Err(GenerationError::ConstantCollision(name)) => assert_eq!(name, "B_FORM_FIELD"),
        _ => panic!("no collision"),
    }
    assert!(emit_constants(&vec![]).ok().unwrap().is_empty());
}

#[test]
fn view_names_may_collide_as_documented() {
    let schema = DomainSchema {
        name: "Clash".to_string(),
        fields: vec![field("name", "Field", false), field("name_value", "String", true)],
    };
    let g = generate(&schema, &vec![field_type()], HiddenPolicy::Drop).ok().unwrap();
    assert_eq!(names(&g), own(&[("name_value", "String"), ("name_value", "String")]));
}

#[test]
fn every_error_has_its_message() {
    let name = || "x".to_string();
    let syntax = GenerationError::Syntax("expected `struct`".to_string());
    assert_eq!(syntax.message(), "expected `struct`");
    assert_eq!(GenerationError::NotAStruct.message(), "Only structs supported");
    assert_eq!(GenerationError::UnnamedFields.message(), "Named fields required");
    assert_eq!(GenerationError::DuplicateField(name()).message(), "Field declared twice: x");
    assert_eq!(
        GenerationError::UnsupportedField(name()).message(),
        "Marked non-primitive fields not yet supported: x"
    );
    assert_eq!(
        GenerationError::HiddenComposite(name()).message(),
        "Unmarked composite field left out of the form: x"
    );
    assert_eq!(
        GenerationError::NoDefault(name()).message(),
        "No default value for the type of field: x"
    );
    assert_eq!(GenerationError::ConstantCollision(name()).message(), "Constant declared twice: x");
}
