use formgen::classify::{classify, classify_all, find_value_member, Classification};
use formgen::forms::{TextAreaField, TextField};
use formgen::primitive::{is_primitive, primitive_kind, InputType, PrimitiveKind};
use formgen::schema::{CompositeType, DomainSchema, FieldDescriptor, find_type, first_duplicate};
use formgen::value::Value;

fn field(name: &str, declared_type: &str, exposed: bool) -> FieldDescriptor {
    FieldDescriptor::new(name, declared_type, exposed)
}

fn text(s: &str) -> Value {
    Value::Text(s.to_string())
}

/// `Field { #[mark] value: String, label: String, input_type: String }`
fn field_type() -> CompositeType {
    CompositeType {
        schema: DomainSchema {
            name: "Field".to_string(),
            fields: vec![
                field("value", "String", true),
                field("label", "String", false),
                field("input_type", "String", false),
            ],
        },
        default: vec![text(""), text(""), text("")],
    }
}

#[test]
fn every_primitive_name_is_primitive() {
    for name in [
        "u8", "u16", "u32", "u64", "u128", "i8", "i16", "i32", "i64", "i128", "f32", "f64", "bool",
        "String", "str", "char", "usize", "isize",
    ] {
        assert!(is_primitive(name), "{name}");
    }
}

#[test]
fn other_names_are_not_primitive() {
    for name in
        ["", "Field", "TextField", "Option", "u256", "i0", "U8", "string", "u8 ", " u8", "Vec"]
    {
        assert!(!is_primitive(name), "{name}");
    }
}

#[test]
fn integer_and_floating_families_ask_for_a_number() {
    for name in [
        "u8", "u16", "u32", "u64", "u128", "usize", "i8", "i16", "i32", "i64", "i128", "isize",
    ] {
        let kind = primitive_kind(name).unwrap();
        assert_eq!(kind, PrimitiveKind::Integer);
        assert_eq!(kind.input_type(), InputType::Number);
    }
    for name in ["f32", "f64"] {
        let kind = primitive_kind(name).unwrap();
        assert_eq!(kind, PrimitiveKind::Floating);
        assert_eq!(kind.input_type(), InputType::Number);
    }
}

#[test]
fn other_families_ask_for_text() {
    assert_eq!(primitive_kind("bool"), Some(PrimitiveKind::Boolean));
    assert_eq!(primitive_kind("String"), Some(PrimitiveKind::Text));
    assert_eq!(primitive_kind("str"), Some(PrimitiveKind::Text));
    assert_eq!(primitive_kind("char"), Some(PrimitiveKind::Character));
    for kind in [PrimitiveKind::Boolean, PrimitiveKind::Text, PrimitiveKind::Character] {
        assert_eq!(kind.input_type(), InputType::Text);
    }
    assert_eq!(primitive_kind("Field"), None);
}

#[test]
fn input_type_words() {
    assert_eq!(InputType::Number.as_str(), "number");
    assert_eq!(InputType::Text.as_str(), "text");
}

#[test]
fn family_defaults() {
    assert!(matches!(PrimitiveKind::Integer.default_value(), Value::Int(0)));
    assert!(matches!(PrimitiveKind::Floating.default_value(), Value::Real(0)));
    assert!(matches!(PrimitiveKind::Boolean.default_value(), Value::Bool(false)));
    assert!(matches!(PrimitiveKind::Character.default_value(), Value::Char('\0')));
    match PrimitiveKind::Text.default_value() {
        Value::Text(s) => assert_eq!(s, ""),
        _ => panic!("not a text"),
    }
    assert_eq!(0.0f64.to_bits(), 0);
}

#[test]
fn exposed_primitive_keeps_name_and_type() {
    let r = classify(&field("age", "u32", true), &vec![]);
    assert_eq!(r.field, "age");
    match r.class {
        Classification::ExposedPrimitive { view, hint } => {
            assert_eq!(view.name, "age");
            assert_eq!(view.value_type, "u32");
            assert_eq!(hint, InputType::Number);
        },
        _ => panic!("not an exposed primitive"),
    }
}

#[test]
fn exposed_text_asks_for_text() {
    let r = classify(&field("nick", "String", true), &vec![]);
    match r.class {
        Classification::ExposedPrimitive { view, hint } => {
            assert_eq!(view.name, "nick");
            assert_eq!(view.value_type, "String");
            assert_eq!(hint, InputType::Text);
        },
        _ => panic!("not an exposed primitive"),
    }
}

#[test]
fn exposed_floating_asks_for_a_number() {
    let r = classify(&field("height", "f64", true), &vec![]);
    match r.class {
        Classification::ExposedPrimitive { hint, .. } => assert_eq!(hint, InputType::Number),
        _ => panic!("not an exposed primitive"),
    }
}

#[test]
fn exposed_composite_is_unsupported() {
    let r = classify(&field("name", "Field", true), &vec![field_type()]);
    assert!(matches!(r.class, Classification::Unsupported));
    let r = classify(&field("other", "Unknown", true), &vec![]);
    assert!(matches!(r.class, Classification::Unsupported));
}

#[test]
fn recognized_composite_gets_the_suffix() {
    let r = classify(&field("name", "Field", false), &vec![field_type()]);
    assert_eq!(r.field, "name");
    match r.class {
        Classification::RecognizedComposite { view, hint, nested, member } => {
            assert_eq!(view.name, "name_value");
            assert_eq!(view.value_type, "String");
            assert_eq!(hint, InputType::Text);
            assert_eq!(nested, 0);
            assert_eq!(member, 0);
        },
        _ => panic!("not a recognized composite"),
    }
}

#[test]
fn recognized_composite_hint_is_text_whatever_the_nested_type() {
    let counter = CompositeType {
        schema: DomainSchema {
            name: "Counter".to_string(),
            fields: vec![field("step", "u8", false), field("value", "u64", true)],
        },
        default: vec![Value::Int(1), Value::Int(0)],
    };
    let r = classify(&field("hits", "Counter", false), &vec![field_type(), counter]);
    match r.class {
        Classification::RecognizedComposite { view, hint, nested, member } => {
            assert_eq!(view.name, "hits_value");
            assert_eq!(view.value_type, "u64");
            assert_eq!(hint, InputType::Text);
            assert_eq!(nested, 1);
            assert_eq!(member, 1);
        },
        _ => panic!("not a recognized composite"),
    }
}

#[test]
fn hidden_primitive_carries_its_family() {
    let r = classify(&field("secret", "bool", false), &vec![]);
    assert!(matches!(
        r.class,
        Classification::HiddenPrimitive { kind: PrimitiveKind::Boolean }
    ));
}

#[test]
fn primitive_name_is_never_looked_up() {
    let mut shadow = field_type();
    shadow.schema.name = "String".to_string();
    let r = classify(&field("note", "String", false), &vec![shadow]);
    assert!(matches!(r.class, Classification::HiddenPrimitive { kind: PrimitiveKind::Text }));
}

#[test]
fn unknown_composite_is_hidden() {
    let r = classify(&field("tags", "Vec", false), &vec![field_type()]);
    assert!(matches!(r.class, Classification::HiddenComposite { nested: None }));
}

#[test]
fn composite_outside_the_pattern_is_hidden() {
    let two_marks = CompositeType {
        schema: DomainSchema {
            name: "Pair".to_string(),
            fields: vec![field("value", "String", true), field("other", "String", true)],
        },
        default: vec![text(""), text("")],
    };
    let wrong_name = CompositeType {
        schema: DomainSchema {
            name: "Named".to_string(),
            fields: vec![field("content", "String", true)],
        },
        default: vec![text("")],
    };
    let unmarked = CompositeType {
        schema: DomainSchema {
            name: "Plain".to_string(),
            fields: vec![field("value", "String", false)],
        },
        default: vec![text("")],
    };
    let nested_value = CompositeType {
        schema: DomainSchema {
            name: "Deep".to_string(),
            fields: vec![field("value", "Field", true)],
        },
        default: vec![Value::Record(vec![])],
    };
    let no_default = CompositeType {
        schema: DomainSchema {
            name: "Bare".to_string(),
            fields: vec![field("value", "String", true), field("label", "String", false)],
        },
        default: vec![],
    };
    let catalogue = vec![two_marks, wrong_name, unmarked, nested_value, no_default];
    for (position, name) in ["Pair", "Named", "Plain", "Deep", "Bare"].iter().enumerate() {
        assert!(find_value_member(&catalogue[position]).is_none(), "{name}");
        let r = classify(&field("x", name, false), &catalogue);
        match r.class {
            Classification::HiddenComposite { nested } => assert_eq!(nested, Some(position)),
            _ => panic!("{name} is not hidden"),
        }
    }
}

#[test]
fn classification_ignores_position_and_name() {
    let catalogue = vec![field_type()];
    let schema = DomainSchema {
        name: "Any".to_string(),
        fields: vec![
            field("a", "Field", false),
            field("value", "u8", true),
            field("b", "Field", false),
            field("zzz", "u8", true),
        ],
    };
    let results = classify_all(&schema, &catalogue);
    assert_eq!(results.len(), 4);
    assert!(matches!(results[0].class, Classification::RecognizedComposite { .. }));
    assert!(matches!(results[1].class, Classification::ExposedPrimitive { .. }));
    assert!(matches!(results[2].class, Classification::RecognizedComposite { .. }));
    assert!(matches!(results[3].class, Classification::ExposedPrimitive { .. }));
    assert_eq!(results[2].field, "b");
}

#[test]
fn form_components_follow_the_pattern() {
    assert_eq!(find_value_member(&TextField::composite()), Some(0));
    assert_eq!(find_value_member(&TextAreaField::composite()), Some(0));
}

#[test]
fn first_type_of_that_name_is_found() {
    let mut second = field_type();
    second.default = vec![];
    let catalogue = vec![TextField::composite(), field_type(), second];
    assert_eq!(find_type(&catalogue, "Field"), Some(1));
    assert_eq!(find_type(&catalogue, "TextField"), Some(0));
    assert_eq!(find_type(&catalogue, "Missing"), None);
}

#[test]
fn duplicate_names_are_found() {
    let fields = vec![
        field("a", "u8", false),
        field("b", "u8", false),
        field("c", "u8", false),
        field("b", "String", true),
        field("a", "u8", false),
    ];
    assert_eq!(first_duplicate(&fields), Some(3));
    let unique: Vec<FieldDescriptor> =
        fields[..3].iter().map(|f| field(&f.name, "u8", false)).collect();
    assert_eq!(first_duplicate(&unique), None);
    assert!(DomainSchema::new("S".to_string(), fields).is_err());
    let unique = DomainSchema::new("S".to_string(), vec![field("a", "u8", false)]).ok().unwrap();
    assert!(unique.is_well_formed());
    assert_eq!(unique.name, "S");
    assert_eq!(unique.fields.len(), 1);
}

#[test]
fn widest_integers_are_exposed_as_numbers() {
    for name in ["u128", "i128"] {
        let r = classify(&field("total", name, true), &vec![]);
        match r.class {
            Classification::ExposedPrimitive { view, hint } => {
                assert_eq!(view.name, "total");
                assert_eq!(view.value_type, name);
                assert_eq!(hint, InputType::Number);
            },
            _ => panic!("{name} is not an exposed primitive"),
        }
        let r = classify(&field("total", name, false), &vec![]);
        assert!(matches!(
            r.class,
            Classification::HiddenPrimitive { kind: PrimitiveKind::Integer }
        ));
    }
}
