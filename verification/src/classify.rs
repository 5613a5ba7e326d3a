//! The field classifier: what becomes of each field of a domain record.

use crate::model::{first_true, lemma_first_true_at, lemma_first_true_none, models};
use crate::primitive::{
    hint_of, is_primitive, kind_of, primitive_kind, primitive_name, InputType, PrimitiveKind,
};
use crate::schema::{
    find_type, type_named, CompositeType, DomainSchema, FieldDescriptor, FieldModel, TypeModel,
};
use crate::text::{join, same_text};
use vstd::prelude::*;

verus! {

/// One field of a view: its name and the primitive type of its value.
#[derive(Clone, Debug, PartialEq, Eq)]
pub struct ViewField {
    pub name: String,
    pub value_type: String,
}

/// What a [`ViewField`] denotes.
pub struct ViewFieldModel {
    pub name: Seq<char>,
    pub value_type: Seq<char>,
}

impl View for ViewField {
    type V = ViewFieldModel;

    open spec fn view(&self) -> ViewFieldModel {
        ViewFieldModel { name: self.name@, value_type: self.value_type@ }
    }
}

/// What becomes of one field of a domain record.
#[derive(Clone, Debug, PartialEq, Eq)]
pub enum Classification {
    /// An exposed field of primitive type: the view holds it under its own
    /// name and type.
    ExposedPrimitive { view: ViewField, hint: InputType },
    /// An unexposed field of primitive type: the view leaves it out, and a
    /// domain value built from a view holds the default of its family.
    HiddenPrimitive { kind: PrimitiveKind },
    /// An unexposed field whose type follows the recognized composite
    /// pattern: the view holds member `member` of the nested value, whose
    /// type stands at `nested` in the catalogue.
    RecognizedComposite { view: ViewField, hint: InputType, nested: usize, member: usize },
    /// An unexposed field of any other composite type: the view leaves it
    /// out. `nested` is the type's place in the catalogue, where it has one.
    HiddenComposite { nested: Option<usize> },
    /// An exposed field of composite type: no view can be generated.
    Unsupported,
}

/// What a [`Classification`] denotes.
pub enum ClassModel {
    ExposedPrimitive { view: ViewFieldModel, hint: InputType },
    HiddenPrimitive { kind: PrimitiveKind },
    RecognizedComposite { view: ViewFieldModel, hint: InputType, nested: int, member: int },
    HiddenComposite { nested: Option<int> },
    Unsupported,
}

impl View for Classification {
    type V = ClassModel;

    open spec fn view(&self) -> ClassModel {
        match self {
            Classification::ExposedPrimitive { view, hint } => ClassModel::ExposedPrimitive {
                view: view@,
                hint: *hint,
            },
            Classification::HiddenPrimitive { kind } => ClassModel::HiddenPrimitive { kind: *kind },
            Classification::RecognizedComposite {
                view,
                hint,
                nested,
                member,
            } => ClassModel::RecognizedComposite {
                view: view@,
                hint: *hint,
                nested: *nested as int,
                member: *member as int,
            },
            Classification::HiddenComposite { nested } => ClassModel::HiddenComposite {
                nested: match nested {
                    Some(t) => Some(*t as int),
                    None => None,
                },
            },
            Classification::Unsupported => ClassModel::Unsupported,
        }
    }
}

/// The classifier's answer for one field: the field's name, and what becomes
/// of the field.
#[derive(Clone, Debug, PartialEq, Eq)]
pub struct ClassificationResult {
    /// The name of the domain field.
    pub field: String,
    /// What becomes of it.
    pub class: Classification,
}

/// What a [`ClassificationResult`] denotes.
pub struct ResultModel {
    pub field: Seq<char>,
    pub class: ClassModel,
}

impl View for ClassificationResult {
    type V = ResultModel;

    open spec fn view(&self) -> ResultModel {
        ResultModel { field: self.field@, class: self.class@ }
    }
}

/// For each field, whether it is exposed.
pub open spec fn exposed_flags(fields: Seq<FieldModel>) -> Seq<bool> {
    Seq::new(fields.len(), |k: int| fields[k].exposed)
}

/// The position of the one exposed field, where exactly one field is exposed.
pub open spec fn sole_exposed(fields: Seq<FieldModel>) -> Option<int> {
    match first_true(exposed_flags(fields)) {
        Some(m) => if forall|k: int| m < k < fields.len() ==> !fields[k].exposed {
            Some(m)
        } else {
            None
        },
        None => None,
    }
}

/// The recognized composite pattern. A composite type follows it where it
/// exposes exactly one field, that field is named `value` and has a primitive
/// type, and the type's default value has a member for each field. The result
/// is the position of the `value` member.
pub open spec fn value_member(ty: TypeModel) -> Option<int> {
    match sole_exposed(ty.schema.fields) {
        Some(m) => if ty.schema.fields[m].name == "value"@ && primitive_name(
            ty.schema.fields[m].declared_type,
        ) && ty.default.len() == ty.schema.fields.len() {
            Some(m)
        } else {
            None
        },
        None => None,
    }
}

/// The classification of `field`, given the composite types of `catalogue`.
///
/// A type is primitive or composite by its name alone; a primitive name is
/// never looked up in the catalogue. The result depends on nothing but the
/// field's exposed flag, its declared type and, for the view field's name,
/// the field's own name.
pub open spec fn class_of(field: FieldModel, catalogue: Seq<TypeModel>) -> ClassModel {
    match kind_of(field.declared_type) {
        Some(kind) => if field.exposed {
            ClassModel::ExposedPrimitive {
                view: ViewFieldModel { name: field.name, value_type: field.declared_type },
                hint: hint_of(kind),
            }
        } else {
            ClassModel::HiddenPrimitive { kind }
        },
        None => if field.exposed {
            ClassModel::Unsupported
        } else {
            match type_named(catalogue, field.declared_type) {
                Some(t) => match value_member(catalogue[t]) {
                    Some(m) => ClassModel::RecognizedComposite {
                        view: ViewFieldModel {
                            name: field.name + "_value"@,
                            value_type: catalogue[t].schema.fields[m].declared_type,
                        },
                        hint: InputType::Text,
                        nested: t,
                        member: m,
                    },
                    None => ClassModel::HiddenComposite { nested: Some(t) },
                },
                None => ClassModel::HiddenComposite { nested: None },
            }
        },
    }
}

/// The classifier's answer for `field`.
pub open spec fn classify_spec(field: FieldModel, catalogue: Seq<TypeModel>) -> ResultModel {
    ResultModel { field: field.name, class: class_of(field, catalogue) }
}

/// The classification of each of `fields`, in declaration order.
pub open spec fn classify_all_spec(fields: Seq<FieldModel>, catalogue: Seq<TypeModel>) -> Seq<
    ResultModel,
> {
    Seq::new(fields.len(), |i: int| classify_spec(fields[i], catalogue))
}

/// The position of the only exposed field among `fields`.
pub fn find_sole_exposed(fields: &Vec<FieldDescriptor>) -> (r: Option<usize>)
    ensures
        match r {
            Some(m) => m < fields.len() && sole_exposed(models(fields@)) == Some(m as int),
            None => sole_exposed(models(fields@)) is None,
        },
{
    let ghost model = models(fields@);
    let ghost flags = exposed_flags(model);
    let mut found: Option<usize> = None;
    let mut k: usize = 0;
    while k < fields.len()
        invariant
            k <= fields.len(),
            model == models(fields@),
            flags == exposed_flags(model),
            match found {
                Some(m) => m < k && flags[m as int] && forall|i: int|
                    0 <= i < k && i != m ==> !flags[i],
                None => forall|i: int| 0 <= i < k ==> !flags[i],
            },
        decreases fields.len() - k,
    {
        if fields[k].exposed {
            match found {
                Some(m) => {
                    proof {
                        lemma_first_true_at(flags, m as int);
                        assert(model[k as int].exposed);
                    }
                    return None;
                },
                None => {
                    found = Some(k);
                },
            }
        }
        k = k + 1;
    }
    proof {
        match found {
            Some(m) => {
                lemma_first_true_at(flags, m as int);
                assert forall|i: int| m < i < model.len() implies !model[i].exposed by {
                    assert(!flags[i]);
                }
            },
            None => {
                lemma_first_true_none(flags);
            },
        }
    }
    found
}

/// The position of the `value` member of `ty`, where `ty` follows the
/// recognized composite pattern.
pub fn find_value_member(ty: &CompositeType) -> (r: Option<usize>)
    ensures
        match r {
            Some(m) => m < ty.schema.fields.len() && m < ty.default.len() && value_member(ty@)
                == Some(m as int),
            None => value_member(ty@) is None,
        },
{
    match find_sole_exposed(&ty.schema.fields) {
        Some(m) => {
            let field = &ty.schema.fields[m];
            if same_text(field.name.as_str(), "value") && is_primitive(field.declared_type.as_str())
                && ty.default.len() == ty.schema.fields.len() {
                Some(m)
            } else {
                None
            }
        },
        None => None,
    }
}

/// Classifies one field.
pub fn classify(field: &FieldDescriptor, catalogue: &Vec<CompositeType>) -> (r:
    ClassificationResult)
    ensures
        r@ == classify_spec(field@, models(catalogue@)),
{
    let class = match primitive_kind(field.declared_type.as_str()) {
        Some(kind) => {
            if field.exposed {
                Classification::ExposedPrimitive {
                    view: ViewField {
                        name: field.name.clone(),
                        value_type: field.declared_type.clone(),
                    },
                    hint: kind.input_type(),
                }
            } else {
                Classification::HiddenPrimitive { kind }
            }
        },
        None => {
            if field.exposed {
                Classification::Unsupported
            } else {
                match find_type(catalogue, field.declared_type.as_str()) {
                    Some(t) => match find_value_member(&catalogue[t]) {
                        Some(m) => Classification::RecognizedComposite {
                            view: ViewField {
                                name: join(field.name.as_str(), "_value"),
                                value_type: catalogue[t].schema.fields[m].declared_type.clone(),
                            },
                            hint: InputType::Text,
                            nested: t,
                            member: m,
                        },
                        None => Classification::HiddenComposite { nested: Some(t) },
                    },
                    None => Classification::HiddenComposite { nested: None },
                }
            }
        },
    };
    ClassificationResult { field: field.name.clone(), class }
}

/// Classifies every field of `schema`, in declaration order.
pub fn classify_all(schema: &DomainSchema, catalogue: &Vec<CompositeType>) -> (r: Vec<
    ClassificationResult,
>)
    ensures
        models(r@) == classify_all_spec(schema@.fields, models(catalogue@)),
{
    let mut out: Vec<ClassificationResult> = Vec::new();
    let mut i: usize = 0;
    while i < schema.fields.len()
        invariant
            i <= schema.fields.len(),
            out.len() == i,
            forall|k: int|
                0 <= k < i ==> out[k]@ == classify_spec(
                    #[trigger] schema.fields[k]@,
                    models(catalogue@),
                ),
        decreases schema.fields.len() - i,
    {
        let class = classify(&schema.fields[i], catalogue);
        out.push(class);
        i = i + 1;
    }
    assert(models(out@) =~= classify_all_spec(schema@.fields, models(catalogue@)));
    out
}

} // verus!
