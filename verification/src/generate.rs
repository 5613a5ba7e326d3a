//! Generation: from the schema of a domain record to its view, its
//! conversion pair and its constants, or to the reason why there is none.

use crate::classify::{
    classify_all, classify_all_spec, ClassModel, Classification, ClassificationResult, ResultModel,
    ViewField, ViewFieldModel,
};
use crate::convert::{ConversionPair, PairModel};
use crate::error::{ErrorModel, GenerationError};
use crate::metadata::{
    constants_of, emit_metadata, entries_of, first_collision, form_field_constant, Constant,
    ConstantModel,
};
use crate::model::{
    first_true, lemma_first_true, lemma_first_true_at, lemma_first_true_none, models,
};
use crate::plan::{convertible, converts, synthesize_converters};
use crate::schema::{
    first_duplicate, first_repeat, CompositeType, DomainSchema, SchemaModel, TypeModel,
};
use crate::synth::{synthesize_view, view_of};
use crate::text::join;
use vstd::prelude::*;

verus! {

/// What to do with an unexposed composite field outside the recognized
/// pattern. The caller has to choose.
#[derive(Clone, Copy, Debug, PartialEq, Eq, Structural)]
pub enum HiddenPolicy {
    /// Leave the field out of the view without a diagnostic. A domain value
    /// built from a view holds the default of the field's type there.
    Drop,
    /// Reject the schema, naming the field.
    Reject,
}

/// All that is generated for one domain record.
#[derive(Debug, PartialEq, Eq)]
pub struct Generated {
    /// The name of the view type: the record's name followed by `Form`.
    pub view_name: String,
    /// The view schema.
    pub view: Vec<ViewField>,
    /// The conversions between domain values and views.
    pub converters: ConversionPair,
    /// The named constants for presentation code.
    pub constants: Vec<Constant>,
}

/// What a [`Generated`] denotes.
pub struct GeneratedModel {
    pub view_name: Seq<char>,
    pub view: Seq<ViewFieldModel>,
    pub converters: PairModel,
    pub constants: Seq<ConstantModel>,
}

impl View for Generated {
    type V = GeneratedModel;

    open spec fn view(&self) -> GeneratedModel {
        GeneratedModel {
            view_name: self.view_name@,
            view: models(self.view@),
            converters: self.converters@,
            constants: models(self.constants@),
        }
    }
}

/// Why a classified field stops generation, if it does: it is unsupported;
/// or it is a hidden composite and the policy rejects those; or the view
/// leaves it out and nothing is known to fill it with.
pub open spec fn offence(result: ResultModel, catalogue: Seq<TypeModel>, policy: HiddenPolicy)
    -> Option<ErrorModel> {
    match result.class {
        ClassModel::Unsupported => Some(ErrorModel::UnsupportedField(result.field)),
        ClassModel::HiddenComposite { .. } => if policy == HiddenPolicy::Reject {
            Some(ErrorModel::HiddenComposite(result.field))
        } else if convertible(result, catalogue) {
            None
        } else {
            Some(ErrorModel::NoDefault(result.field))
        },
        _ => if convertible(result, catalogue) {
            None
        } else {
            Some(ErrorModel::NoDefault(result.field))
        },
    }
}

/// For each classified field, whether it stops generation.
pub open spec fn offence_flags(
    results: Seq<ResultModel>,
    catalogue: Seq<TypeModel>,
    policy: HiddenPolicy,
) -> Seq<bool> {
    Seq::new(results.len(), |i: int| offence(results[i], catalogue, policy) is Some)
}

/// Why no view is generated for `schema`, if none is. The first field that
/// repeats a name is reported before anything else; then the first field, in
/// declaration order, that stops generation; then the first constant that
/// two fields would both declare.
pub open spec fn rejection(schema: SchemaModel, catalogue: Seq<TypeModel>, policy: HiddenPolicy)
    -> Option<ErrorModel> {
    let results = classify_all_spec(schema.fields, catalogue);
    match first_repeat(schema.fields) {
        Some(j) => Some(ErrorModel::DuplicateField(schema.fields[j].name)),
        None => match first_true(offence_flags(results, catalogue, policy)) {
            Some(i) => offence(results[i], catalogue, policy),
            None => match first_collision(entries_of(results)) {
                Some(j) => Some(
                    ErrorModel::ConstantCollision(form_field_constant(entries_of(results)[j].key)),
                ),
                None => None,
            },
        },
    }
}

/// Whether `generated` is what generation yields for `schema`: the view of
/// the classified fields, their conversion pair and their constants, under
/// the record's name followed by `Form`.
pub open spec fn describes(
    generated: GeneratedModel,
    schema: SchemaModel,
    catalogue: Seq<TypeModel>,
) -> bool {
    let results = classify_all_spec(schema.fields, catalogue);
    &&& generated.view_name == schema.name + "Form"@
    &&& generated.view == view_of(results)
    &&& converts(generated.converters, results, catalogue)
    &&& generated.constants == constants_of(entries_of(results))
}

/// Whether a classified field can be converted.
pub fn is_convertible(result: &ClassificationResult, catalogue: &Vec<CompositeType>) -> (r: bool)
    ensures
        r == convertible(result@, models(catalogue@)),
{
    match &result.class {
        Classification::ExposedPrimitive { .. } => true,
        Classification::HiddenPrimitive { .. } => true,
        Classification::RecognizedComposite { nested, member, .. } => {
            if *nested < catalogue.len() {
                assert(models(catalogue@)[*nested as int] == catalogue[*nested as int]@);
                *member < catalogue[*nested].default.len()
            } else {
                false
            }
        },
        Classification::HiddenComposite { nested: Some(t) } => {
            if *t < catalogue.len() {
                assert(models(catalogue@)[*t as int] == catalogue[*t as int]@);
                catalogue[*t].default.len() == catalogue[*t].schema.fields.len()
            } else {
                false
            }
        },
        Classification::HiddenComposite { nested: None } => false,
        Classification::Unsupported => false,
    }
}

/// Why the classified field stops generation, if it does.
pub fn check_field(
    result: &ClassificationResult,
    catalogue: &Vec<CompositeType>,
    policy: HiddenPolicy,
) -> (r: Option<GenerationError>)
    ensures
        match r {
            Some(e) => Some(e@) == offence(result@, models(catalogue@), policy),
            None => offence(result@, models(catalogue@), policy) is None,
        },
{
    match &result.class {
        Classification::Unsupported => Some(
            GenerationError::UnsupportedField(result.field.clone()),
        ),
        Classification::HiddenComposite { .. } => {
            match policy {
                HiddenPolicy::Reject => Some(
                    GenerationError::HiddenComposite(result.field.clone()),
                ),
                HiddenPolicy::Drop => {
                    if is_convertible(result, catalogue) {
                        None
                    } else {
                        Some(GenerationError::NoDefault(result.field.clone()))
                    }
                },
            }
        },
        _ => {
            if is_convertible(result, catalogue) {
                None
            } else {
                Some(GenerationError::NoDefault(result.field.clone()))
            }
        },
    }
}

/// Why the first field that stops generation does so.
pub fn find_offence(
    results: &Vec<ClassificationResult>,
    catalogue: &Vec<CompositeType>,
    policy: HiddenPolicy,
) -> (r: Option<GenerationError>)
    ensures
        match first_true(offence_flags(models(results@), models(catalogue@), policy)) {
            Some(i) => r matches Some(e) && Some(e@) == offence(
                models(results@)[i],
                models(catalogue@),
                policy,
            ),
            None => r is None,
        },
{
    let ghost all = models(results@);
    let ghost flags = offence_flags(all, models(catalogue@), policy);
    let mut i: usize = 0;
    while i < results.len()
        invariant
            i <= results.len(),
            all == models(results@),
            flags == offence_flags(all, models(catalogue@), policy),
            forall|k: int| 0 <= k < i ==> !flags[k],
        decreases results.len() - i,
    {
        assert(all[i as int] == results[i as int]@);
        match check_field(&results[i], catalogue, policy) {
            Some(e) => {
                proof {
                    assert(flags[i as int]);
                    lemma_first_true_at(flags, i as int);
                }
                return Some(e);
            },
            None => {},
        }
        i = i + 1;
    }
    proof {
        lemma_first_true_none(flags);
    }
    None
}

/// Generates the view, the conversion pair and the constants of `schema`.
///
/// Composite types are looked up in `catalogue` by name. Generation fails
/// with the field's name where two fields share a name, where an exposed
/// field has a composite type, where `policy` rejects a hidden composite,
/// where a field left out of the view has no default, and where two fields
/// would declare the same constant.
pub fn generate(schema: &DomainSchema, catalogue: &Vec<CompositeType>, policy: HiddenPolicy) -> (r:
    Result<Generated, GenerationError>)
    ensures
        match rejection(schema@, models(catalogue@), policy) {
            Some(e) => r matches Err(err) && err@ == e,
            None => r matches Ok(generated) && describes(
                generated@,
                schema@,
                models(catalogue@),
            ),
        },
{
    let ghost known = models(catalogue@);
    let ghost all = classify_all_spec(schema@.fields, known);
    match first_duplicate(&schema.fields) {
        Some(j) => {
            assert(schema@.fields[j as int] == schema.fields[j as int]@);
            return Err(GenerationError::DuplicateField(schema.fields[j].name.clone()));
        },
        None => {},
    }
    let results = classify_all(schema, catalogue);
    match find_offence(&results, catalogue, policy) {
        Some(e) => {
            return Err(e);
        },
        None => {},
    }
    let view = synthesize_view(&results);
    let constants = match emit_metadata(&results) {
        Ok(constants) => constants,
        Err(e) => {
            return Err(e);
        },
    };
    proof {
        let flags = offence_flags(all, known, policy);
        lemma_first_true(flags);
        assert forall|i: int| 0 <= i < results.len() implies convertible(
            #[trigger] models(results@)[i],
            known,
        ) by {
            assert(!flags[i]);
        }
    }
    match synthesize_converters(&results, catalogue) {
        Some(converters) => Ok(
            Generated {
                view_name: join(schema.name.as_str(), "Form"),
                view,
                converters,
                constants,
            },
        ),
        None => {
            proof {
                assert(false);
            }
            Err(GenerationError::NotAStruct)
        },
    }
}

} // verus!
