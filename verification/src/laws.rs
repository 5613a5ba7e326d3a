//! What holds of every generation, stated over the models.

use crate::classify::{
    class_of, classify_all_spec, exposed_flags, value_member, ClassModel, ResultModel,
};
use crate::convert::{law_flattened_member, law_round_trip_idempotent, slot_of};
use crate::error::ErrorModel;
use crate::generate::{describes, offence, offence_flags, rejection, GeneratedModel, HiddenPolicy};
use crate::model::{first_true, lemma_first_true, lemma_first_true_at};
use crate::plan::{convertible, slots_before, step_for};
use crate::primitive::primitive_name;
use crate::schema::{
    first_repeat, lemma_unique_iff_no_repeat, name_flags, type_named, FieldModel, SchemaModel,
    TypeModel,
};
use crate::synth::{view_of, view_slot};
use crate::text::lemma_same_suffix;
use crate::value::ValueModel;
use vstd::prelude::*;

verus! {

/// What becomes of a field depends on its exposed flag and its declared type
/// alone: two fields that agree in both are classified alike, whatever their
/// names and wherever they stand. Only the view field's name follows the
/// field's own name.
pub proof fn law_classification_by_flag_and_type(
    first: FieldModel,
    second: FieldModel,
    catalogue: Seq<TypeModel>,
)
    requires
        first.exposed == second.exposed,
        first.declared_type == second.declared_type,
    ensures
        match (class_of(first, catalogue), class_of(second, catalogue)) {
            (
                ClassModel::ExposedPrimitive { view: a, hint: h },
                ClassModel::ExposedPrimitive { view: b, hint: g },
            ) => h == g && a.value_type == b.value_type && a.name == first.name && b.name
                == second.name,
            (
                ClassModel::RecognizedComposite { view: a, hint: h, nested: t, member: m },
                ClassModel::RecognizedComposite { view: b, hint: g, nested: u, member: n },
            ) => h == g && t == u && m == n && a.value_type == b.value_type && a.name
                == first.name + "_value"@ && b.name == second.name + "_value"@,
            (x, y) => x == y && !(x is ExposedPrimitive) && !(x is RecognizedComposite),
        },
{
}

/// A field that the classifier calls a recognized composite refers to a type
/// of the catalogue and to a member of that type's default value, so it can
/// always be converted.
pub proof fn law_recognized_is_convertible(field: FieldModel, catalogue: Seq<TypeModel>)
    requires
        class_of(field, catalogue) is RecognizedComposite,
    ensures
        convertible(
            ResultModel { field: field.name, class: class_of(field, catalogue) },
            catalogue,
        ),
{
    let t = type_named(catalogue, field.declared_type)->0;
    lemma_first_true(name_flags(catalogue, field.declared_type));
    let ty = catalogue[t];
    let m = value_member(ty)->0;
    lemma_first_true(exposed_flags(ty.schema.fields));
}

/// The view holds exactly the fields that are classified as exposed
/// primitives or recognized composites, in declaration order: an exposed
/// primitive under its own name and type, a recognized composite under its
/// name followed by `_value`.
pub proof fn law_view_fields(
    schema: SchemaModel,
    catalogue: Seq<TypeModel>,
    generated: GeneratedModel,
)
    requires
        describes(generated, schema, catalogue),
    ensures
        generated.view.len() == generated.converters.sources.len(),
        forall|k: int|
            0 <= k < generated.view.len() ==> {
                let i = #[trigger] generated.converters.sources[k];
                &&& 0 <= i < schema.fields.len()
                &&& match class_of(schema.fields[i], catalogue) {
                    ClassModel::ExposedPrimitive { .. } => generated.view[k].name
                        == schema.fields[i].name && generated.view[k].value_type
                        == schema.fields[i].declared_type,
                    ClassModel::RecognizedComposite { .. } => generated.view[k].name
                        == schema.fields[i].name + "_value"@,
                    _ => false,
                }
            },
        forall|i: int|
            0 <= i < schema.fields.len() && (class_of(#[trigger] schema.fields[i], catalogue)
                is ExposedPrimitive || class_of(schema.fields[i], catalogue)
                is RecognizedComposite) ==> exists|k: int|
                0 <= k < generated.view.len() && generated.converters.sources[k] == i,
        forall|a: int, b: int|
            0 <= a < b < generated.view.len() ==> generated.converters.sources[a]
                < generated.converters.sources[b],
{
    let results = classify_all_spec(schema.fields, catalogue);
    let pair = generated.converters;
    assert forall|k: int| 0 <= k < generated.view.len() implies {
        let i = #[trigger] pair.sources[k];
        &&& 0 <= i < schema.fields.len()
        &&& match class_of(schema.fields[i], catalogue) {
            ClassModel::ExposedPrimitive { .. } => generated.view[k].name == schema.fields[i].name
                && generated.view[k].value_type == schema.fields[i].declared_type,
            ClassModel::RecognizedComposite { .. } => generated.view[k].name
                == schema.fields[i].name + "_value"@,
            _ => false,
        }
    } by {
        let i = pair.sources[k];
        assert(view_slot(results[i]) == Some(view_of(results)[k]));
    }
    assert forall|i: int|
        0 <= i < schema.fields.len() && (class_of(#[trigger] schema.fields[i], catalogue)
            is ExposedPrimitive || class_of(schema.fields[i], catalogue)
            is RecognizedComposite) implies exists|k: int|
        0 <= k < generated.view.len() && pair.sources[k] == i by {
        assert(Some(pair.steps[i]) == step_for(results[i], catalogue, slots_before(results, i)));
        let k = slot_of(pair.steps[i])->0;
        assert(pair.sources[k] == i);
    }
}

/// The names of the view's fields are unique, unless an exposed primitive
/// has the very name that a recognized composite gets in the view.
pub proof fn law_view_names_unique(
    schema: SchemaModel,
    catalogue: Seq<TypeModel>,
    generated: GeneratedModel,
)
    requires
        schema.wf(),
        describes(generated, schema, catalogue),
        forall|i: int, j: int|
            0 <= i < schema.fields.len() && 0 <= j < schema.fields.len() && class_of(
                schema.fields[i],
                catalogue,
            ) is ExposedPrimitive && class_of(schema.fields[j], catalogue) is RecognizedComposite
                ==> #[trigger] schema.fields[i].name != #[trigger] schema.fields[j].name
                + "_value"@,
    ensures
        forall|a: int, b: int|
            0 <= a < b < generated.view.len() ==> generated.view[a].name != generated.view[b].name,
{
    law_view_fields(schema, catalogue, generated);
    let pair = generated.converters;
    assert forall|a: int, b: int| 0 <= a < b < generated.view.len() implies generated.view[a].name
        != generated.view[b].name by {
        let i = pair.sources[a];
        let j = pair.sources[b];
        assert(i < j);
        if generated.view[a].name == generated.view[b].name {
            if class_of(schema.fields[i], catalogue) is RecognizedComposite && class_of(
                schema.fields[j],
                catalogue,
            ) is RecognizedComposite {
                lemma_same_suffix(schema.fields[i].name, schema.fields[j].name, "_value"@);
            }
            assert(schema.fields[i].name != schema.fields[j].name);
            assert(false);
        }
    }
}

/// A schema with an exposed field of composite type is rejected. Where no
/// field repeats a name and no earlier field stops generation, the reason
/// given names that very field.
pub proof fn law_exposed_composite_rejected(
    schema: SchemaModel,
    catalogue: Seq<TypeModel>,
    policy: HiddenPolicy,
    i: int,
)
    requires
        0 <= i < schema.fields.len(),
        schema.fields[i].exposed,
        !primitive_name(schema.fields[i].declared_type),
    ensures
        rejection(schema, catalogue, policy) is Some,
        schema.wf() && (forall|k: int|
            0 <= k < i ==> offence(
                #[trigger] classify_all_spec(schema.fields, catalogue)[k],
                catalogue,
                policy,
            ) is None) ==> rejection(schema, catalogue, policy) == Some(
            ErrorModel::UnsupportedField(schema.fields[i].name),
        ),
{
    let results = classify_all_spec(schema.fields, catalogue);
    let flags = offence_flags(results, catalogue, policy);
    assert(results[i].class is Unsupported);
    assert(flags[i]);
    lemma_first_true(flags);
    lemma_unique_iff_no_repeat(schema.fields);
    if first_repeat(schema.fields) is None {
        let first = first_true(flags)->0;
        assert(flags[first]);
        if forall|k: int| 0 <= k < i ==> offence(#[trigger] results[k], catalogue, policy) is None {
            assert forall|k: int| 0 <= k < i implies !flags[k] by {
                assert(offence(results[k], catalogue, policy) is None);
            }
            lemma_first_true_at(flags, i);
        }
    }
}

/// For every domain value of the right shape, showing it, rebuilding a
/// domain value from the view and showing that again gives the first view:
/// every field of the view is preserved by a round trip.
pub proof fn law_generated_round_trip(
    schema: SchemaModel,
    catalogue: Seq<TypeModel>,
    generated: GeneratedModel,
    domain: Seq<ValueModel>,
)
    requires
        describes(generated, schema, catalogue),
        generated.converters.accepts_domain(domain),
    ensures
        generated.converters.to_view(
            generated.converters.to_domain(generated.converters.to_view(domain)),
        ) == generated.converters.to_view(domain),
{
    law_round_trip_idempotent(generated.converters, domain);
}

/// The domain value built from a view holds, in the `value` member of a
/// recognized composite field, exactly what the view holds in that field's
/// slot.
pub proof fn law_recognized_value(
    schema: SchemaModel,
    catalogue: Seq<TypeModel>,
    generated: GeneratedModel,
    view: Seq<ValueModel>,
    i: int,
)
    requires
        describes(generated, schema, catalogue),
        generated.converters.accepts_view(view),
        0 <= i < schema.fields.len(),
        class_of(schema.fields[i], catalogue) is RecognizedComposite,
    ensures
        ({
            let results = classify_all_spec(schema.fields, catalogue);
            let member = class_of(schema.fields[i], catalogue)->RecognizedComposite_member;
            let slot = slots_before(results, i);
            &&& 0 <= slot < view.len()
            &&& generated.converters.sources[slot] == i
            &&& generated.converters.to_domain(view)[i] is Record
            &&& generated.converters.to_domain(view)[i]->Record_0[member] == view[slot]
        }),
{
    let results = classify_all_spec(schema.fields, catalogue);
    let pair = generated.converters;
    assert(Some(pair.steps[i]) == step_for(results[i], catalogue, slots_before(results, i)));
    law_flattened_member(pair, view, i);
}

} // verus!
