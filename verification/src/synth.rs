//! The view synthesizer: the fields of the view, from the classifier's
//! answers.

use crate::classify::{
    ClassModel, Classification, ClassificationResult, ResultModel, ViewField, ViewFieldModel,
};
use crate::model::models;
use vstd::prelude::*;

verus! {

/// The view field that a classification asks for, if it asks for one: only
/// an exposed primitive and a recognized composite do.
pub open spec fn view_slot(result: ResultModel) -> Option<ViewFieldModel> {
    match result.class {
        ClassModel::ExposedPrimitive { view, .. } => Some(view),
        ClassModel::RecognizedComposite { view, .. } => Some(view),
        _ => None,
    }
}

/// The view schema: in declaration order, one field for each classification
/// that asks for one, and nothing else.
pub open spec fn view_of(results: Seq<ResultModel>) -> Seq<ViewFieldModel> {
    results.filter_map(|r: ResultModel| view_slot(r))
}

/// Builds the view schema from the classifier's answers.
pub fn synthesize_view(results: &Vec<ClassificationResult>) -> (r: Vec<ViewField>)
    ensures
        models(r@) == view_of(models(results@)),
{
    let ghost all = models(results@);
    let ghost slot = |r: ResultModel| view_slot(r);
    let mut out: Vec<ViewField> = Vec::new();
    let mut i: usize = 0;
    assert(all.take(0).filter_map(slot) =~= Seq::<ViewFieldModel>::empty());
    while i < results.len()
        invariant
            i <= results.len(),
            all == models(results@),
            slot == |r: ResultModel| view_slot(r),
            models(out@) =~= all.take(i as int).filter_map(slot),
        decreases results.len() - i,
    {
        proof {
            all.lemma_filter_map_take_succ(slot, i as int);
        }
        let ghost before = out@;
        match &results[i].class {
            Classification::ExposedPrimitive { view, .. } => {
                let field = ViewField {
                    name: view.name.clone(),
                    value_type: view.value_type.clone(),
                };
                out.push(field);
                proof {
                    crate::model::lemma_models_push(before, field);
                }
            },
            Classification::RecognizedComposite { view, .. } => {
                let field = ViewField {
                    name: view.name.clone(),
                    value_type: view.value_type.clone(),
                };
                out.push(field);
                proof {
                    crate::model::lemma_models_push(before, field);
                }
            },
            _ => {},
        }
        i = i + 1;
    }
    assert(all.take(results.len() as int) =~= all);
    out
}

} // verus!
