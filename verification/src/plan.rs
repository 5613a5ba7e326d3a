//! The converter synthesizer: the conversion pair, from the classifier's
//! answers and the defaults of the catalogue.

use crate::classify::{ClassModel, Classification, ClassificationResult, ResultModel};
use crate::convert::{slot_of, ConversionPair, PairModel, Step, StepModel};
use crate::model::models;
use crate::primitive::default_of;
use crate::schema::{CompositeType, TypeModel};
use crate::synth::{view_of, view_slot};
use crate::value::{copy_values, lemma_record_model, Value, ValueModel};
use vstd::prelude::*;

verus! {

/// Whether default construction is described for `ty`: its default value has
/// a member for each of its fields.
pub open spec fn has_default(ty: TypeModel) -> bool {
    ty.default.len() == ty.schema.fields.len()
}

/// The step that converts a field with the given classification, where the
/// field's slot in the view, if it has one, is `slot`. There is none for an
/// unsupported field, for a composite that refers outside the catalogue, and
/// for a hidden composite whose type has no default.
pub open spec fn step_for(result: ResultModel, catalogue: Seq<TypeModel>, slot: int) -> Option<
    StepModel,
> {
    match result.class {
        ClassModel::ExposedPrimitive { .. } => Some(StepModel::Copy { slot }),
        ClassModel::HiddenPrimitive { kind } => Some(StepModel::Fill { default: default_of(kind) }),
        ClassModel::RecognizedComposite { nested, member, .. } => if 0 <= nested < catalogue.len()
            && 0 <= member < catalogue[nested].default.len() {
            Some(StepModel::Flatten { slot, member, template: catalogue[nested].default })
        } else {
            None
        },
        ClassModel::HiddenComposite { nested: Some(t) } => if 0 <= t < catalogue.len()
            && has_default(catalogue[t]) {
            Some(StepModel::Fill { default: ValueModel::Record(catalogue[t].default) })
        } else {
            None
        },
        ClassModel::HiddenComposite { nested: None } => None,
        ClassModel::Unsupported => None,
    }
}

/// Whether a field with the given classification can be converted.
pub open spec fn convertible(result: ResultModel, catalogue: Seq<TypeModel>) -> bool {
    step_for(result, catalogue, 0) is Some
}

/// The number of view slots that the fields before position `i` take.
pub open spec fn slots_before(results: Seq<ResultModel>, i: int) -> int {
    view_of(results.take(i)).len() as int
}

/// Whether `pair` is the conversion pair of the classified fields: one step
/// for each field, as `step_for` gives it, the field's slot being the number
/// of slots that earlier fields take; and one slot for each field of the
/// view, which shows the field that asked for it.
pub open spec fn converts(pair: PairModel, results: Seq<ResultModel>, catalogue: Seq<TypeModel>)
    -> bool {
    &&& pair.wf()
    &&& pair.steps.len() == results.len()
    &&& forall|i: int|
        0 <= i < results.len() ==> Some(#[trigger] pair.steps[i]) == step_for(
            results[i],
            catalogue,
            slots_before(results, i),
        )
    &&& pair.sources.len() == view_of(results).len()
    &&& forall|k: int|
        0 <= k < pair.sources.len() ==> view_slot(results[#[trigger] pair.sources[k]]) == Some(
            view_of(results)[k],
        )
}

/// The step for one classified field, whose slot, if it has one, is `slot`.
pub fn synthesize_step(
    result: &ClassificationResult,
    catalogue: &Vec<CompositeType>,
    slot: usize,
) -> (r: Option<Step>)
    ensures
        match r {
            Some(step) => Some(step@) == step_for(result@, models(catalogue@), slot as int),
            None => step_for(result@, models(catalogue@), slot as int) is None,
        },
{
    match &result.class {
        Classification::ExposedPrimitive { .. } => Some(Step::Copy { slot }),
        Classification::HiddenPrimitive { kind } => Some(
            Step::Fill { default: kind.default_value() },
        ),
        Classification::RecognizedComposite { nested, member, .. } => {
            if *nested < catalogue.len() {
                let ty = &catalogue[*nested];
                assert(models(catalogue@)[*nested as int] == ty@);
                if *member < ty.default.len() {
                    Some(
                        Step::Flatten {
                            slot,
                            member: *member,
                            template: copy_values(&ty.default),
                        },
                    )
                } else {
                    None
                }
            } else {
                None
            }
        },
        Classification::HiddenComposite { nested: Some(t) } => {
            if *t < catalogue.len() {
                let ty = &catalogue[*t];
                assert(models(catalogue@)[*t as int] == ty@);
                if ty.default.len() == ty.schema.fields.len() {
                    let members = copy_values(&ty.default);
                    proof {
                        lemma_record_model(members);
                    }
                    Some(Step::Fill { default: Value::Record(members) })
                } else {
                    None
                }
            } else {
                None
            }
        },
        Classification::HiddenComposite { nested: None } => None,
        Classification::Unsupported => None,
    }
}

/// Builds the conversion pair from the classifier's answers. There is one
/// exactly where every field can be converted.
pub fn synthesize_converters(
    results: &Vec<ClassificationResult>,
    catalogue: &Vec<CompositeType>,
) -> (r: Option<ConversionPair>)
    ensures
        match r {
            Some(pair) => converts(pair@, models(results@), models(catalogue@)),
            None => exists|i: int|
                0 <= i < results.len() && !convertible(
                    #[trigger] models(results@)[i],
                    models(catalogue@),
                ),
        },
        r is Some <==> forall|i: int|
            0 <= i < results.len() ==> convertible(
                #[trigger] models(results@)[i],
                models(catalogue@),
            ),
{
    let ghost all = models(results@);
    let ghost known = models(catalogue@);
    let ghost slot_fn = |r: ResultModel| view_slot(r);
    let mut steps: Vec<Step> = Vec::new();
    let mut sources: Vec<usize> = Vec::new();
    let mut i: usize = 0;
    assert(all.take(0).filter_map(slot_fn) =~= Seq::empty());
    while i < results.len()
        invariant
            i <= results.len(),
            all == models(results@),
            known == models(catalogue@),
            slot_fn == |r: ResultModel| view_slot(r),
            steps.len() == i,
            sources.len() == view_of(all.take(i as int)).len(),
            sources.len() <= i,
            forall|j: int|
                0 <= j < i ==> Some(#[trigger] steps[j]@) == step_for(
                    all[j],
                    known,
                    slots_before(all, j),
                ),
            forall|k: int|
                0 <= k < sources.len() ==> 0 <= #[trigger] sources[k] < i && slot_of(
                    steps[sources[k] as int]@,
                ) == Some(k) && view_slot(all[sources[k] as int]) == Some(
                    view_of(all.take(i as int))[k],
                ),
            forall|j: int|
                0 <= j < i ==> match slot_of(#[trigger] steps[j]@) {
                    Some(k) => 0 <= k < sources.len() && sources[k] == j,
                    None => true,
                },
            forall|a: int, b: int| 0 <= a < b < sources.len() ==> sources[a] < sources[b],
        decreases results.len() - i,
    {
        proof {
            all.lemma_filter_map_take_succ(slot_fn, i as int);
            assert(all[i as int] == results[i as int]@);
        }
        let slot = sources.len();
        match synthesize_step(&results[i], catalogue, slot) {
            Some(step) => {
                let shows = match &step {
                    Step::Fill { .. } => false,
                    _ => true,
                };
                assert(shows == (view_slot(all[i as int]) is Some));
                steps.push(step);
                if shows {
                    sources.push(i);
                }
            },
            None => {
                assert(!convertible(all[i as int], known));
                return None;
            },
        }
        i = i + 1;
    }
    let pair = ConversionPair { steps, sources };
    proof {
        assert(all.take(results.len() as int) =~= all);
        let m = pair@;
        assert(m.steps.len() == all.len());
        assert(m.sources.len() == view_of(all).len());
        assert forall|j: int| 0 <= j < all.len() implies Some(#[trigger] m.steps[j]) == step_for(
            all[j],
            known,
            slots_before(all, j),
        ) by {
            assert(m.steps[j] == pair.steps[j]@);
        }
        assert forall|k: int| 0 <= k < m.sources.len() implies 0 <= #[trigger] m.sources[k]
            < m.steps.len() && slot_of(m.steps[m.sources[k]]) == Some(k) && view_slot(
            all[m.sources[k]],
        ) == Some(view_of(all)[k]) by {
            assert(m.sources[k] == pair.sources[k] as int);
            assert(m.steps[m.sources[k]] == pair.steps[pair.sources[k] as int]@);
        }
        assert forall|j: int| 0 <= j < m.steps.len() implies match slot_of(#[trigger] m.steps[j]) {
            Some(k) => 0 <= k < m.sources.len() && m.sources[k] == j,
            None => true,
        } by {
            assert(m.steps[j] == pair.steps[j]@);
        }
        assert forall|a: int, b: int| 0 <= a < b < m.sources.len() implies m.sources[a]
            < m.sources[b] by {
            assert(m.sources[a] == pair.sources[a] as int);
            assert(m.sources[b] == pair.sources[b] as int);
        }
        assert forall|j: int| 0 <= j < m.steps.len() implies match #[trigger] m.steps[j] {
            StepModel::Flatten { member, template, .. } => 0 <= member < template.len(),
            _ => true,
        } by {
            assert(m.steps[j] == pair.steps[j]@);
            assert(Some(m.steps[j]) == step_for(all[j], known, slots_before(all, j)));
        }
        assert forall|j: int| 0 <= j < results.len() implies convertible(
            #[trigger] all[j],
            known,
        ) by {
            assert(Some(m.steps[j]) == step_for(all[j], known, slots_before(all, j)));
        }
    }
    Some(pair)
}

} // verus!
