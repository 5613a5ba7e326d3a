use formgen::convert::{ConversionPair, Step};
use formgen::generate::{generate, HiddenPolicy};
use formgen::plan::{synthesize_converters, synthesize_step};
use formgen::classify::classify_all;
use formgen::schema::{CompositeType, DomainSchema, FieldDescriptor};
use formgen::synth::synthesize_view;
use formgen::value::{copy_value, copy_values, Value};

fn field(name: &str, declared_type: &str, exposed: bool) -> FieldDescriptor {
    FieldDescriptor::new(name, declared_type, exposed)
}

fn text(s: &str) -> Value {
    Value::Text(s.to_string())
}

fn same(a: &Value, b: &Value) -> bool {
    match (a, b) {
        (Value::Int(x), Value::Int(y)) => x == y,
        (Value::Unsigned(x), Value::Unsigned(y)) => x == y,
        (Value::Real(x), Value::Real(y)) => x == y,
        (Value::Bool(x), Value::Bool(y)) => x == y,
        (Value::Text(x), Value::Text(y)) => x == y,
        (Value::Char(x), Value::Char(y)) => x == y,
        (Value::Record(x), Value::Record(y)) => same_all(x, y),
        _ => false,
    }
}

fn same_all(a: &[Value], b: &[Value]) -> bool {
    a.len() == b.len() && a.iter().zip(b).all(|(x, y)| same(x, y))
}

fn field_type() -> CompositeType {
    CompositeType {
        schema: DomainSchema {
            name: "Field".to_string(),
            fields: vec![
                field("label", "String", false),
                field("value", "String", true),
                field("rows", "u32", false),
            ],
        },
        default: vec![text("untitled"), text(""), Value::Int(4)],
    }
}

fn schema() -> DomainSchema {
    DomainSchema {
        name: "Record".to_string(),
        fields: vec![
            field("id", "u64", false),
            field("title", "Field", false),
            field("ratio", "f64", true),
            field("initial", "char", true),
            field("body", "Field", false),
            field("done", "bool", true),
            field("nick", "String", false),
        ],
    }
}

fn pair() -> ConversionPair {
    generate(&schema(), &vec![field_type()], HiddenPolicy::Reject).ok().unwrap().converters
}

fn domain() -> Vec<Value> {
    vec![
        Value::Int(99),
        Value::Record(vec![text("Title"), text("Dune"), Value::Int(1)]),
        Value::Real(1.5f64.to_bits()),
        Value::Char('d'),
        Value::Record(vec![text("Body"), text("Sand."), Value::Int(20)]),
        Value::Bool(true),
        text("fh"),
    ]
}

#[test]
fn copies_are_equal_and_fresh() {
    let v = Value::Record(vec![text("a"), Value::Record(vec![Value::Int(-3), Value::Char('x')])]);
    assert!(same(&copy_value(&v), &v));
    let all = domain();
    assert!(same_all(&copy_values(&all), &all));
    assert!(copy_values(&vec![]).is_empty());
}

#[test]
fn to_view_copies_and_flattens() {
    let view = pair().to_view(&domain());
    let expected = vec![
        text("Dune"),
        Value::Real(1.5f64.to_bits()),
        Value::Char('d'),
        text("Sand."),
        Value::Bool(true),
    ];
    assert!(same_all(&view, &expected));
}

#[test]
fn to_domain_fills_defaults() {
    let view = vec![
        text("Dune"),
        Value::Real(1.5f64.to_bits()),
        Value::Char('d'),
        text("Sand."),
        Value::Bool(true),
    ];
    let back = pair().to_domain(&view);
    let expected = vec![
        Value::Int(0),
        Value::Record(vec![text("untitled"), text("Dune"), Value::Int(4)]),
        Value::Real(1.5f64.to_bits()),
        Value::Char('d'),
        Value::Record(vec![text("untitled"), text("Sand."), Value::Int(4)]),
        Value::Bool(true),
        text(""),
    ];
    assert!(same_all(&back, &expected));
}

#[test]
fn view_is_unchanged_by_a_round_trip() {
    let p = pair();
    let first = p.to_view(&domain());
    let again = p.to_view(&p.to_domain(&first));
    assert!(same_all(&first, &again));
}

#[test]
fn exposed_primitive_round_trips_for_many_values() {
    let schema = DomainSchema { name: "N".to_string(), fields: vec![field("n", "i64", true)] };
    let p = generate(&schema, &vec![], HiddenPolicy::Reject).ok().unwrap().converters;
    for n in [i64::MIN, -1, 0, 1, 42, i64::MAX] {
        let d = vec![Value::Int(n as i128)];
        let once = p.to_view(&d);
        let twice = p.to_view(&p.to_domain(&once));
        assert!(same_all(&once, &twice));
        assert!(same_all(&once, &d));
    }
}

#[test]
fn recognized_composite_keeps_every_text() {
    let schema =
        DomainSchema { name: "T".to_string(), fields: vec![field("title", "Field", false)] };
    let p = generate(&schema, &vec![field_type()], HiddenPolicy::Reject).ok().unwrap().converters;
    for s in ["", "Ada", "02139", "two words", "ünï∂ødé", "<b>&\"'"] {
        let back = p.to_domain(&vec![text(s)]);
        match &back[0] {
            Value::Record(members) => assert!(same(&members[1], &text(s))),
            _ => panic!("not a record"),
        }
    }
}

#[test]
fn shapes_are_checked() {
    let p = pair();
    assert!(p.is_well_formed());
    assert!(p.accepts_domain(&domain()));
    assert!(!p.accepts_domain(&vec![]));
    let mut short = domain();
    short[1] = Value::Record(vec![text("Title")]);
    assert!(!p.accepts_domain(&short));
    let mut flat = domain();
    flat[4] = text("Sand.");
    assert!(!p.accepts_domain(&flat));
    let mut other = domain();
    other[0] = text("any value may stand in a field that is not read");
    assert!(p.accepts_domain(&other));
    assert!(p.accepts_view(&p.to_view(&domain())));
    assert!(!p.accepts_view(&vec![text("Dune")]));
}

#[test]
fn malformed_pairs_are_told() {
    let copy = |slot| Step::Copy { slot };
    let fill = || Step::Fill { default: Value::Int(0) };
    let ok = ConversionPair { steps: vec![fill(), copy(0), copy(1)], sources: vec![1, 2] };
    assert!(ok.is_well_formed());
    let empty = ConversionPair { steps: vec![], sources: vec![] };
    assert!(empty.is_well_formed());
    let swapped = ConversionPair { steps: vec![copy(1), copy(0)], sources: vec![1, 0] };
    assert!(!swapped.is_well_formed());
    let dangling = ConversionPair { steps: vec![copy(0)], sources: vec![3] };
    assert!(!dangling.is_well_formed());
    let unlisted = ConversionPair { steps: vec![copy(0), copy(1)], sources: vec![0] };
    assert!(!unlisted.is_well_formed());
    let hidden_source = ConversionPair { steps: vec![fill()], sources: vec![0] };
    assert!(!hidden_source.is_well_formed());
    let no_member = ConversionPair {
        steps: vec![Step::Flatten { slot: 0, member: 2, template: vec![text(""), text("")] }],
        sources: vec![0],
    };
    assert!(!no_member.is_well_formed());
    let member = ConversionPair {
        steps: vec![Step::Flatten { slot: 0, member: 1, template: vec![text(""), text("")] }],
        sources: vec![0],
    };
    assert!(member.is_well_formed());
}

#[test]
fn synthesizers_agree_on_the_slots() {
    let catalogue = vec![field_type()];
    let results = classify_all(&schema(), &catalogue);
    let view = synthesize_view(&results);
    let p = synthesize_converters(&results, &catalogue).unwrap();
    assert_eq!(view.len(), p.sources.len());
    assert_eq!(p.sources, vec![1, 2, 3, 4, 5]);
    let names: Vec<&str> = view.iter().map(|f| f.name.as_str()).collect();
    assert_eq!(names, vec!["title_value", "ratio", "initial", "body_value", "done"]);
    let types: Vec<&str> = view.iter().map(|f| f.value_type.as_str()).collect();
    assert_eq!(types, vec!["String", "f64", "char", "String", "bool"]);
    match synthesize_step(&results[1], &catalogue, 0) {
        Some(Step::Flatten { slot, member, template }) => {
            assert_eq!((slot, member), (0, 1));
            assert!(same_all(&template, &catalogue[0].default));
        },
        _ => panic!("not flattened"),
    }
}

#[test]
fn no_converters_for_what_cannot_be_converted() {
    let bad = DomainSchema {
        name: "Bad".to_string(),
        fields: vec![field("a", "u8", true), field("b", "Field", true)],
    };
    let catalogue = vec![field_type()];
    let results = classify_all(&bad, &catalogue);
    assert!(synthesize_converters(&results, &catalogue).is_none());
    assert_eq!(synthesize_view(&results).len(), 1);
    let unknown = DomainSchema { name: "U".to_string(), fields: vec![field("a", "Who", false)] };
    let results = classify_all(&unknown, &catalogue);
    assert!(synthesize_converters(&results, &catalogue).is_none());
    let results = classify_all(&schema(), &catalogue);
    assert!(synthesize_converters(&results, &vec![]).is_none());
}

#[test]
fn checked_conversions_refuse_what_does_not_fit() {
    let p = pair();
    let view = p.checked_to_view(&domain()).unwrap();
    assert!(same_all(&view, &p.to_view(&domain())));
    assert!(p.checked_to_view(&vec![]).is_none());
    let back = p.checked_to_domain(&view).unwrap();
    assert!(same_all(&back, &p.to_domain(&view)));
    assert!(p.checked_to_domain(&vec![text("Dune")]).is_none());
    let broken = ConversionPair { steps: vec![Step::Copy { slot: 0 }], sources: vec![] };
    assert!(broken.checked_to_view(&vec![Value::Int(1)]).is_none());
    assert!(broken.checked_to_domain(&vec![]).is_none());
}

#[test]
fn widest_unsigned_values_are_carried() {
    let schema = DomainSchema { name: "N".to_string(), fields: vec![field("n", "u128", true)] };
    let p = generate(&schema, &vec![], HiddenPolicy::Reject).ok().unwrap().converters;
    for n in [0, 1, i128::MAX as u128 + 1, u128::MAX] {
        let d = vec![Value::Unsigned(n)];
        let view = p.to_view(&d);
        assert_eq!(view, d);
        assert_eq!(p.to_domain(&view), d);
        assert_eq!(copy_value(&d[0]), Value::Unsigned(n));
    }
}
