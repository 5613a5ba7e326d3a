//! The metadata emitter: two named constants for every field of the view.

use crate::classify::{ClassModel, Classification, ClassificationResult, ResultModel};
use crate::error::{ErrorModel, GenerationError};
use crate::model::{first_true, lemma_first_true_at, lemma_first_true_none, models};
use crate::primitive::{hint_text, InputType};
use crate::text::{join, same_text, uppercase, uppercase_of};
use vstd::prelude::*;

verus! {

/// What presentation code needs to know of one view field.
#[derive(Clone, Debug, PartialEq, Eq)]
pub struct MetaEntry {
    /// The upper-case form of the domain field's name.
    pub key: String,
    /// The name of the view field.
    pub form_field: String,
    /// The input type of the view field.
    pub input_type: InputType,
}

/// What a [`MetaEntry`] denotes.
pub struct EntryModel {
    pub key: Seq<char>,
    pub form_field: Seq<char>,
    pub input_type: InputType,
}

impl View for MetaEntry {
    type V = EntryModel;

    open spec fn view(&self) -> EntryModel {
        EntryModel { key: self.key@, form_field: self.form_field@, input_type: self.input_type }
    }
}

/// A named text constant.
#[derive(Clone, Debug, PartialEq, Eq)]
pub struct Constant {
    pub name: String,
    pub value: String,
}

/// What a [`Constant`] denotes.
pub struct ConstantModel {
    pub name: Seq<char>,
    pub value: Seq<char>,
}

impl View for Constant {
    type V = ConstantModel;

    open spec fn view(&self) -> ConstantModel {
        ConstantModel { name: self.name@, value: self.value@ }
    }
}

/// The entry of a classified field, if the view has a field for it. Its key
/// is the upper-case form of the domain field's name.
pub open spec fn entry_slot(result: ResultModel) -> Option<EntryModel> {
    match result.class {
        ClassModel::ExposedPrimitive { view, hint } => Some(
            EntryModel { key: uppercase_of(result.field), form_field: view.name, input_type: hint },
        ),
        ClassModel::RecognizedComposite { view, hint, .. } => Some(
            EntryModel { key: uppercase_of(result.field), form_field: view.name, input_type: hint },
        ),
        _ => None,
    }
}

/// The entries of the classified fields, in declaration order.
pub open spec fn entries_of(results: Seq<ResultModel>) -> Seq<EntryModel> {
    results.filter_map(|r: ResultModel| entry_slot(r))
}

/// The name of the constant that holds the view field's name.
pub open spec fn form_field_constant(key: Seq<char>) -> Seq<char> {
    key + "_FORM_FIELD"@
}

/// The name of the constant that holds the input type.
pub open spec fn input_type_constant(key: Seq<char>) -> Seq<char> {
    key + "_INPUT_TYPE"@
}

/// Whether the entry at `j` has the key of an earlier entry, so that both
/// would declare the same constants.
pub open spec fn key_repeats(entries: Seq<EntryModel>, j: int) -> bool {
    exists|i: int| 0 <= i < j && entries[i].key == entries[j].key
}

/// For each entry, whether it repeats an earlier entry's key.
pub open spec fn collision_flags(entries: Seq<EntryModel>) -> Seq<bool> {
    Seq::new(entries.len(), |j: int| key_repeats(entries, j))
}

/// The first entry whose constants an earlier entry declares already.
pub open spec fn first_collision(entries: Seq<EntryModel>) -> Option<int> {
    first_true(collision_flags(entries))
}

/// The constants of the entries: first, for each entry in order, the constant
/// that names the view field; then, for each entry in order, the constant
/// that names the input type.
pub open spec fn constants_of(entries: Seq<EntryModel>) -> Seq<ConstantModel> {
    Seq::new(
        2 * entries.len(),
        |c: int|
            if c < entries.len() {
                ConstantModel {
                    name: form_field_constant(entries[c].key),
                    value: entries[c].form_field,
                }
            } else {
                ConstantModel {
                    name: input_type_constant(entries[c - entries.len()].key),
                    value: hint_text(entries[c - entries.len()].input_type),
                }
            },
    )
}

/// For each constant, whether it has the given name.
pub open spec fn constant_flags(constants: Seq<ConstantModel>, name: Seq<char>) -> Seq<bool> {
    Seq::new(constants.len(), |c: int| constants[c].name == name)
}

/// The entries of the classified fields. The keys come from the upper-casing
/// of the standard library.
pub fn metadata_entries(results: &Vec<ClassificationResult>) -> (r: Vec<MetaEntry>)
    ensures
        models(r@) == entries_of(models(results@)),
{
    let ghost all = models(results@);
    let ghost slot = |r: ResultModel| entry_slot(r);
    let mut out: Vec<MetaEntry> = Vec::new();
    let mut i: usize = 0;
    assert(all.take(0).filter_map(slot) =~= Seq::<EntryModel>::empty());
    while i < results.len()
        invariant
            i <= results.len(),
            all == models(results@),
            slot == |r: ResultModel| entry_slot(r),
            models(out@) =~= all.take(i as int).filter_map(slot),
        decreases results.len() - i,
    {
        proof {
            all.lemma_filter_map_take_succ(slot, i as int);
        }
        let ghost before = out@;
        let result = &results[i];
        match &result.class {
            Classification::ExposedPrimitive { view, hint } => {
                let entry = MetaEntry {
                    key: uppercase(result.field.as_str()),
                    form_field: view.name.clone(),
                    input_type: *hint,
                };
                out.push(entry);
                proof {
                    crate::model::lemma_models_push(before, entry);
                }
            },
            Classification::RecognizedComposite { view, hint, .. } => {
                let entry = MetaEntry {
                    key: uppercase(result.field.as_str()),
                    form_field: view.name.clone(),
                    input_type: *hint,
                };
                out.push(entry);
                proof {
                    crate::model::lemma_models_push(before, entry);
                }
            },
            _ => {},
        }
        i = i + 1;
    }
    assert(all.take(results.len() as int) =~= all);
    out
}

/// The first entry that has the key of an entry before it.
pub fn find_collision(entries: &Vec<MetaEntry>) -> (r: Option<usize>)
    ensures
        match r {
            Some(j) => j < entries.len() && first_collision(models(entries@)) == Some(j as int),
            None => first_collision(models(entries@)) is None,
        },
{
    let ghost model = models(entries@);
    let ghost flags = collision_flags(model);
    let mut j: usize = 0;
    while j < entries.len()
        invariant
            j <= entries.len(),
            model == models(entries@),
            flags == collision_flags(model),
            forall|k: int| 0 <= k < j ==> !flags[k],
        decreases entries.len() - j,
    {
        let mut i: usize = 0;
        while i < j
            invariant
                i <= j < entries.len(),
                model == models(entries@),
                flags == collision_flags(model),
                forall|k: int| 0 <= k < j ==> !flags[k],
                forall|k: int| 0 <= k < i ==> model[k].key != model[j as int].key,
            decreases j - i,
        {
            if same_text(entries[i].key.as_str(), entries[j].key.as_str()) {
                proof {
                    assert(model[i as int].key == model[j as int].key);
                    assert(key_repeats(model, j as int));
                    assert(flags[j as int]);
                    lemma_first_true_at(flags, j as int);
                }
                return Some(j);
            }
            i = i + 1;
        }
        assert(!key_repeats(model, j as int));
        j = j + 1;
    }
    proof {
        lemma_first_true_none(flags);
    }
    None
}

/// The constants of the given entries, or the name of the first constant
/// that two entries would both declare.
pub fn emit_constants(entries: &Vec<MetaEntry>) -> (r: Result<Vec<Constant>, GenerationError>)
    ensures
        match first_collision(models(entries@)) {
            Some(j) => r matches Err(e) && e@ == ErrorModel::ConstantCollision(
                form_field_constant(models(entries@)[j].key),
            ),
            None => r matches Ok(constants) && models(constants@) == constants_of(
                models(entries@),
            ),
        },
{
    match find_collision(entries) {
        Some(j) => {
            assert(models(entries@)[j as int] == entries[j as int]@);
            return Err(
                GenerationError::ConstantCollision(join(entries[j].key.as_str(), "_FORM_FIELD")),
            );
        },
        None => {},
    }
    let ghost model = models(entries@);
    let n = entries.len();
    let mut out: Vec<Constant> = Vec::new();
    let mut i: usize = 0;
    while i < n
        invariant
            i <= n,
            n == entries.len(),
            model == models(entries@),
            out.len() == i,
            forall|c: int|
                0 <= c < i ==> out[c]@ == (ConstantModel {
                    name: form_field_constant(model[c].key),
                    value: model[c].form_field,
                }),
        decreases n - i,
    {
        assert(model[i as int] == entries[i as int]@);
        let constant = Constant {
            name: join(entries[i].key.as_str(), "_FORM_FIELD"),
            value: entries[i].form_field.clone(),
        };
        out.push(constant);
        i = i + 1;
    }
    let mut k: usize = 0;
    while k < n
        invariant
            k <= n,
            n == entries.len(),
            model == models(entries@),
            out.len() == n + k,
            forall|c: int|
                0 <= c < n ==> out[c]@ == (ConstantModel {
                    name: form_field_constant(model[c].key),
                    value: model[c].form_field,
                }),
            forall|c: int|
                0 <= c < k ==> out[n + c]@ == (ConstantModel {
                    name: input_type_constant(model[c].key),
                    value: hint_text(model[c].input_type),
                }),
        decreases n - k,
    {
        assert(model[k as int] == entries[k as int]@);
        let constant = Constant {
            name: join(entries[k].key.as_str(), "_INPUT_TYPE"),
            value: entries[k].input_type.as_str().to_owned(),
        };
        out.push(constant);
        k = k + 1;
    }
    proof {
        let got = models(out@);
        let want = constants_of(model);
        assert(got.len() == want.len());
        assert forall|c: int| 0 <= c < got.len() implies got[c] == want[c] by {
            if c >= n {
                assert(out[n + (c - n)]@ == got[c]);
            }
        }
        assert(got =~= want);
    }
    Ok(out)
}

/// Emits the constants of the classified fields: for every field of the
/// view, one that names the view field and one that names its input type,
/// both keyed by the upper-case form of the domain field's name.
pub fn emit_metadata(results: &Vec<ClassificationResult>) -> (r: Result<
    Vec<Constant>,
    GenerationError,
>)
    ensures
        match first_collision(entries_of(models(results@))) {
            Some(j) => r matches Err(e) && e@ == ErrorModel::ConstantCollision(
                form_field_constant(entries_of(models(results@))[j].key),
            ),
            None => r matches Ok(constants) && models(constants@) == constants_of(
                entries_of(models(results@)),
            ),
        },
{
    let entries = metadata_entries(results);
    emit_constants(&entries)
}

/// The value of the first constant named `name`.
pub fn lookup(constants: &Vec<Constant>, name: &str) -> (r: Option<String>)
    ensures
        match first_true(constant_flags(models(constants@), name@)) {
            Some(c) => r matches Some(value) && value@ == models(constants@)[c].value,
            None => r is None,
        },
{
    let ghost flags = constant_flags(models(constants@), name@);
    let mut c: usize = 0;
    while c < constants.len()
        invariant
            c <= constants.len(),
            flags == constant_flags(models(constants@), name@),
            forall|k: int| 0 <= k < c ==> !flags[k],
        decreases constants.len() - c,
    {
        if same_text(constants[c].name.as_str(), name) {
            proof {
                assert(flags[c as int]);
                lemma_first_true_at(flags, c as int);
            }
            return Some(constants[c].value.clone());
        }
        c = c + 1;
    }
    proof {
        lemma_first_true_none(flags);
    }
    None
}

/// Where no two entries share a key, no two constants share a name.
pub proof fn law_constant_names_distinct(entries: Seq<EntryModel>)
    requires
        first_collision(entries) is None,
    ensures
        forall|a: int, b: int|
            0 <= a < b < 2 * entries.len() ==> constants_of(entries)[a].name != constants_of(
                entries,
            )[b].name,
{
    let n = entries.len() as int;
    let constants = constants_of(entries);
    let flags = collision_flags(entries);
    crate::model::lemma_first_true(flags);
    reveal_strlit("_FORM_FIELD");
    reveal_strlit("_INPUT_TYPE");
    assert forall|a: int, b: int| 0 <= a < b < 2 * n implies constants[a].name
        != constants[b].name by {
        let i = if a < n { a } else { a - n };
        let j = if b < n { b } else { b - n };
        let x = entries[i].key;
        let y = entries[j].key;
        if constants[a].name == constants[b].name {
            if (a < n) == (b < n) {
                let suffix = if a < n { "_FORM_FIELD"@ } else { "_INPUT_TYPE"@ };
                crate::text::lemma_same_suffix(x, y, suffix);
                assert(i < j);
                assert(!flags[j]);
                assert(key_repeats(entries, j));
            } else {
                let left = x + "_FORM_FIELD"@;
                let right = y + "_INPUT_TYPE"@;
                assert(left.len() == x.len() + 11);
                assert(right.len() == y.len() + 11);
                assert(left[x.len() as int + 1] == 'F');
                assert(right[y.len() as int + 1] == 'I');
                assert(false);
            }
        }
    }
}

} // verus!
