//! The description of a domain record: its fields in declaration order, and
//! the composite types that its fields may name.

use crate::error::{ErrorModel, GenerationError};
use crate::model::{first_true, lemma_first_true_at, lemma_first_true_none, models};
use crate::text::same_text;
use crate::value::{Value, ValueModel};
use vstd::prelude::*;

verus! {

/// One field of a domain record. Its position in the record's field list is
/// its declaration order index.
#[derive(Clone, Debug, PartialEq, Eq)]
pub struct FieldDescriptor {
    /// The field's name.
    pub name: String,
    /// The identifier of the field's declared type.
    pub declared_type: String,
    /// Whether the author marked the field as editable in the view.
    pub exposed: bool,
}

/// What a [`FieldDescriptor`] denotes.
pub struct FieldModel {
    pub name: Seq<char>,
    pub declared_type: Seq<char>,
    pub exposed: bool,
}

impl View for FieldDescriptor {
    type V = FieldModel;

    open spec fn view(&self) -> FieldModel {
        FieldModel { name: self.name@, declared_type: self.declared_type@, exposed: self.exposed }
    }
}

impl FieldDescriptor {
    /// The descriptor of the field `name` of type `declared_type`.
    pub fn new(name: &str, declared_type: &str, exposed: bool) -> (r: FieldDescriptor)
        ensures
            r@ == (FieldModel { name: name@, declared_type: declared_type@, exposed }),
    {
        FieldDescriptor { name: name.to_owned(), declared_type: declared_type.to_owned(), exposed }
    }
}

/// The fields of one record type, in declaration order.
#[derive(Clone, Debug, PartialEq, Eq)]
pub struct DomainSchema {
    /// The record type's name.
    pub name: String,
    /// The record's fields, in declaration order.
    pub fields: Vec<FieldDescriptor>,
}

/// What a [`DomainSchema`] denotes.
pub struct SchemaModel {
    pub name: Seq<char>,
    pub fields: Seq<FieldModel>,
}

impl View for DomainSchema {
    type V = SchemaModel;

    open spec fn view(&self) -> SchemaModel {
        SchemaModel { name: self.name@, fields: models(self.fields@) }
    }
}

/// A composite type that fields may name: its own fields, and the value that
/// default construction gives, member by member.
#[derive(Debug, PartialEq, Eq)]
pub struct CompositeType {
    pub schema: DomainSchema,
    pub default: Vec<Value>,
}

/// What a [`CompositeType`] denotes.
pub struct TypeModel {
    pub schema: SchemaModel,
    pub default: Seq<ValueModel>,
}

impl View for CompositeType {
    type V = TypeModel;

    open spec fn view(&self) -> TypeModel {
        TypeModel { schema: self.schema@, default: models(self.default@) }
    }
}

/// Whether no two of `fields` share a name.
pub open spec fn unique_names(fields: Seq<FieldModel>) -> bool {
    forall|i: int, j: int| 0 <= i < j < fields.len() ==> fields[i].name != fields[j].name
}

/// Whether the field at `j` has the name of a field declared before it.
pub open spec fn repeats_earlier(fields: Seq<FieldModel>, j: int) -> bool {
    exists|i: int| 0 <= i < j && fields[i].name == fields[j].name
}

/// For each field, whether it repeats the name of an earlier one.
pub open spec fn repeat_flags(fields: Seq<FieldModel>) -> Seq<bool> {
    Seq::new(fields.len(), |j: int| repeats_earlier(fields, j))
}

/// The first field that repeats an earlier field's name, if any does.
pub open spec fn first_repeat(fields: Seq<FieldModel>) -> Option<int> {
    first_true(repeat_flags(fields))
}

/// For each composite type, whether it has the given name.
pub open spec fn name_flags(catalogue: Seq<TypeModel>, name: Seq<char>) -> Seq<bool> {
    Seq::new(catalogue.len(), |k: int| catalogue[k].schema.name == name)
}

/// The first type of the catalogue that has the given name, if any has.
pub open spec fn type_named(catalogue: Seq<TypeModel>, name: Seq<char>) -> Option<int> {
    first_true(name_flags(catalogue, name))
}

impl SchemaModel {
    /// The invariant of a domain schema: field names are unique.
    pub open spec fn wf(self) -> bool {
        unique_names(self.fields)
    }
}

/// Names are unique exactly where no field repeats an earlier one.
pub proof fn lemma_unique_iff_no_repeat(fields: Seq<FieldModel>)
    ensures
        unique_names(fields) <==> first_repeat(fields) is None,
{
    let flags = repeat_flags(fields);
    crate::model::lemma_first_true(flags);
    if first_repeat(fields) is None {
        assert forall|i: int, j: int| 0 <= i < j < fields.len() implies fields[i].name
            != fields[j].name by {
            assert(!flags[j]);
        }
    } else {
        let j = first_repeat(fields)->0;
        assert(flags[j]);
        let i = choose|i: int| 0 <= i < j && fields[i].name == fields[j].name;
        assert(fields[i].name == fields[j].name);
    }
}

/// The first field that has the name of a field declared before it.
pub fn first_duplicate(fields: &Vec<FieldDescriptor>) -> (r: Option<usize>)
    ensures
        match r {
            Some(j) => j < fields.len() && first_repeat(models(fields@)) == Some(j as int),
            None => first_repeat(models(fields@)) is None,
        },
{
    let ghost model = models(fields@);
    let ghost flags = repeat_flags(model);
    let mut j: usize = 0;
    while j < fields.len()
        invariant
            j <= fields.len(),
            model == models(fields@),
            flags == repeat_flags(model),
            forall|k: int| 0 <= k < j ==> !flags[k],
        decreases fields.len() - j,
    {
        let mut i: usize = 0;
        while i < j
            invariant
                i <= j < fields.len(),
                model == models(fields@),
                flags == repeat_flags(model),
                forall|k: int| 0 <= k < j ==> !flags[k],
                forall|k: int| 0 <= k < i ==> model[k].name != model[j as int].name,
            decreases j - i,
        {
            if same_text(fields[i].name.as_str(), fields[j].name.as_str()) {
                proof {
                    assert(model[i as int].name == model[j as int].name);
                    assert(repeats_earlier(model, j as int));
                    assert(flags[j as int]);
                    lemma_first_true_at(flags, j as int);
                }
                return Some(j);
            }
            i = i + 1;
        }
        assert(!repeats_earlier(model, j as int));
        j = j + 1;
    }
    proof {
        lemma_first_true_none(flags);
    }
    None
}

impl DomainSchema {
    /// The schema of the record type `name` with the given fields, or the
    /// first field that repeats an earlier field's name.
    pub fn new(name: String, fields: Vec<FieldDescriptor>) -> (r: Result<
        DomainSchema,
        GenerationError,
    >)
        ensures
            match first_repeat(models(fields@)) {
                Some(j) => r matches Err(e) && e@ == ErrorModel::DuplicateField(
                    models(fields@)[j].name,
                ),
                None => r matches Ok(schema) && schema.name == name && schema.fields == fields
                    && schema@.wf(),
            },
    {
        match first_duplicate(&fields) {
            Some(j) => Err(GenerationError::DuplicateField(fields[j].name.clone())),
            None => {
                proof {
                    lemma_unique_iff_no_repeat(models(fields@));
                }
                Ok(DomainSchema { name, fields })
            },
        }
    }

    /// Whether the schema holds its invariant.
    pub fn is_well_formed(&self) -> (r: bool)
        ensures
            r == self@.wf(),
    {
        proof {
            lemma_unique_iff_no_repeat(models(self.fields@));
        }
        first_duplicate(&self.fields).is_none()
    }
}

/// The position in `catalogue` of the first composite type named `name`.
pub fn find_type(catalogue: &Vec<CompositeType>, name: &str) -> (r: Option<usize>)
    ensures
        match r {
            Some(k) => k < catalogue.len() && type_named(models(catalogue@), name@) == Some(
                k as int,
            ),
            None => type_named(models(catalogue@), name@) is None,
        },
{
    let ghost flags = name_flags(models(catalogue@), name@);
    let mut k: usize = 0;
    while k < catalogue.len()
        invariant
            k <= catalogue.len(),
            flags == name_flags(models(catalogue@), name@),
            forall|i: int| 0 <= i < k ==> !flags[i],
        decreases catalogue.len() - k,
    {
        if same_text(catalogue[k].schema.name.as_str(), name) {
            proof {
                assert(flags[k as int]);
                lemma_first_true_at(flags, k as int);
            }
            return Some(k);
        }
        k = k + 1;
    }
    proof {
        lemma_first_true_none(flags);
    }
    None
}

} // verus!
