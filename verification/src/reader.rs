//! The schema reader: from the declaration of a record type, as its author
//! wrote it, to the schema that generation works on.

use crate::error::{ErrorModel, GenerationError};
use crate::generate::{describes, generate, rejection, Generated, HiddenPolicy};
use crate::model::models;
use crate::schema::{
    first_repeat, CompositeType, DomainSchema, FieldDescriptor, FieldModel, SchemaModel,
};
use crate::text::same_text;
use vstd::prelude::*;

verus! {

/// The path of an attribute, segment by segment: `a::b` is `a`, `b`.
#[derive(Clone, Debug, PartialEq, Eq)]
pub struct AttrPath {
    pub segments: Vec<String>,
}

impl View for AttrPath {
    type V = Seq<Seq<char>>;

    open spec fn view(&self) -> Seq<Seq<char>> {
        models(self.segments@)
    }
}

/// The type that a field is declared with, as far as generation reads it.
#[derive(Clone, Debug, PartialEq, Eq)]
pub enum TypeExpr {
    /// A path type. `qualified` tells whether it starts with a qualified
    /// self type, as `<T as Trait>::Output` does; `segments` are the names
    /// along the path, without their generic arguments.
    Path { qualified: bool, segments: Vec<String> },
    /// Any other type: a reference, a tuple, an array and so on.
    Other,
}

/// What a [`TypeExpr`] denotes.
pub enum TypeExprModel {
    Path { qualified: bool, segments: Seq<Seq<char>> },
    Other,
}

impl View for TypeExpr {
    type V = TypeExprModel;

    open spec fn view(&self) -> TypeExprModel {
        match self {
            TypeExpr::Path { qualified, segments } => TypeExprModel::Path {
                qualified: *qualified,
                segments: models(segments@),
            },
            TypeExpr::Other => TypeExprModel::Other,
        }
    }
}

/// One declared field: its name, the attributes written above it, and its
/// type.
#[derive(Clone, Debug, PartialEq, Eq)]
pub struct FieldDecl {
    pub name: String,
    pub attrs: Vec<AttrPath>,
    pub ty: TypeExpr,
}

/// What a [`FieldDecl`] denotes.
pub struct FieldDeclModel {
    pub name: Seq<char>,
    pub attrs: Seq<Seq<Seq<char>>>,
    pub ty: TypeExprModel,
}

impl View for FieldDecl {
    type V = FieldDeclModel;

    open spec fn view(&self) -> FieldDeclModel {
        FieldDeclModel { name: self.name@, attrs: models(self.attrs@), ty: self.ty@ }
    }
}

/// What was declared under the type's name.
#[derive(Clone, Debug, PartialEq, Eq)]
pub enum DeclBody {
    /// A struct with named fields.
    Named(Vec<FieldDecl>),
    /// A struct whose fields have no names, or that has no fields at all.
    Unnamed,
    /// An enum or a union.
    NotStruct,
}

/// What a [`DeclBody`] denotes.
pub enum DeclBodyModel {
    Named(Seq<FieldDeclModel>),
    Unnamed,
    NotStruct,
}

impl View for DeclBody {
    type V = DeclBodyModel;

    open spec fn view(&self) -> DeclBodyModel {
        match self {
            DeclBody::Named(fields) => DeclBodyModel::Named(models(fields@)),
            DeclBody::Unnamed => DeclBodyModel::Unnamed,
            DeclBody::NotStruct => DeclBodyModel::NotStruct,
        }
    }
}

/// The declaration of one type.
#[derive(Clone, Debug, PartialEq, Eq)]
pub struct Declaration {
    pub name: String,
    pub body: DeclBody,
}

/// What a [`Declaration`] denotes.
pub struct DeclarationModel {
    pub name: Seq<char>,
    pub body: DeclBodyModel,
}

impl View for Declaration {
    type V = DeclarationModel;

    open spec fn view(&self) -> DeclarationModel {
        DeclarationModel { name: self.name@, body: self.body@ }
    }
}

/// Whether an attribute is the mark that exposes a field: the last segment
/// of its path is `mark`.
pub open spec fn is_mark(path: Seq<Seq<char>>) -> bool {
    path.len() > 0 && path.last() == "mark"@
}

/// Whether one of the attributes is the mark that exposes a field.
pub open spec fn has_mark(attrs: Seq<Seq<Seq<char>>>) -> bool {
    exists|i: int| 0 <= i < attrs.len() && is_mark(#[trigger] attrs[i])
}

/// The identifier of a declared type: the last name of an unqualified path.
/// A qualified path, an empty path and every other kind of type have none.
pub open spec fn type_ident(ty: TypeExprModel) -> Option<Seq<char>> {
    match ty {
        TypeExprModel::Path { qualified, segments } => if !qualified && segments.len() > 0 {
            Some(segments.last())
        } else {
            None
        },
        TypeExprModel::Other => None,
    }
}

/// The descriptor of a declared field. A type without an identifier is
/// described by the empty text, which names no primitive type.
pub open spec fn descriptor_of(field: FieldDeclModel) -> FieldModel {
    FieldModel {
        name: field.name,
        declared_type: match type_ident(field.ty) {
            Some(ident) => ident,
            None => Seq::empty(),
        },
        exposed: has_mark(field.attrs),
    }
}

/// The descriptors of the declared fields, in declaration order.
pub open spec fn descriptors_of(fields: Seq<FieldDeclModel>) -> Seq<FieldModel> {
    Seq::new(fields.len(), |i: int| descriptor_of(fields[i]))
}

/// What reading a declaration gives: the schema of a struct with named
/// fields whose names are unique, and otherwise the reason why there is no
/// schema.
pub open spec fn read_spec(declaration: DeclarationModel) -> Result<SchemaModel, ErrorModel> {
    match declaration.body {
        DeclBodyModel::NotStruct => Err(ErrorModel::NotAStruct),
        DeclBodyModel::Unnamed => Err(ErrorModel::UnnamedFields),
        DeclBodyModel::Named(fields) => match first_repeat(descriptors_of(fields)) {
            Some(j) => Err(ErrorModel::DuplicateField(fields[j].name)),
            None => Ok(SchemaModel { name: declaration.name, fields: descriptors_of(fields) }),
        },
    }
}

/// Whether a field carries the mark that exposes it.
pub fn has_mark_attr(attrs: &Vec<AttrPath>) -> (r: bool)
    ensures
        r == has_mark(models(attrs@)),
{
    let ghost all = models(attrs@);
    let mut i: usize = 0;
    while i < attrs.len()
        invariant
            i <= attrs.len(),
            all == models(attrs@),
            forall|k: int| 0 <= k < i ==> !is_mark(#[trigger] all[k]),
        decreases attrs.len() - i,
    {
        let segments = &attrs[i].segments;
        assert(all[i as int] == models(segments@));
        let n = segments.len();
        if n > 0 {
            assert(all[i as int].last() == segments[n - 1]@);
            if same_text(segments[n - 1].as_str(), "mark") {
                assert(is_mark(all[i as int]));
                return true;
            }
        }
        i = i + 1;
    }
    false
}

/// The identifier of a field's declared type.
pub fn get_type_name(ty: &TypeExpr) -> (r: Option<String>)
    ensures
        match r {
            Some(ident) => type_ident(ty@) == Some(ident@),
            None => type_ident(ty@) is None,
        },
{
    match ty {
        TypeExpr::Path { qualified, segments } => {
            let n = segments.len();
            if !*qualified && n > 0 {
                assert(models(segments@).last() == segments[n - 1]@);
                Some(segments[n - 1].clone())
            } else {
                None
            }
        },
        TypeExpr::Other => None,
    }
}

/// The descriptor of one declared field.
pub fn describe_field(field: &FieldDecl) -> (r: FieldDescriptor)
    ensures
        r@ == descriptor_of(field@),
{
    let declared_type = match get_type_name(&field.ty) {
        Some(ident) => ident,
        None => String::new(),
    };
    let exposed = has_mark_attr(&field.attrs);
    FieldDescriptor { name: field.name.clone(), declared_type, exposed }
}

/// Reads the schema of a declared type.
pub fn read_schema(declaration: &Declaration) -> (r: Result<DomainSchema, GenerationError>)
    ensures
        match read_spec(declaration@) {
            Ok(schema) => r matches Ok(read) && read@ == schema && read@.wf(),
            Err(e) => r matches Err(err) && err@ == e,
        },
{
    match &declaration.body {
        DeclBody::NotStruct => Err(GenerationError::NotAStruct),
        DeclBody::Unnamed => Err(GenerationError::UnnamedFields),
        DeclBody::Named(fields) => {
            let ghost declared = models(fields@);
            let mut out: Vec<FieldDescriptor> = Vec::new();
            let mut i: usize = 0;
            while i < fields.len()
                invariant
                    i <= fields.len(),
                    declared == models(fields@),
                    out.len() == i,
                    forall|k: int| 0 <= k < i ==> out[k]@ == descriptor_of(declared[k]),
                decreases fields.len() - i,
            {
                assert(declared[i as int] == fields[i as int]@);
                let descriptor = describe_field(&fields[i]);
                out.push(descriptor);
                i = i + 1;
            }
            assert(models(out@) =~= descriptors_of(declared));
            assert forall|j: int| 0 <= j < declared.len() implies models(out@)[j].name
                == declared[j].name by {}
            proof {
                crate::model::lemma_first_true(crate::schema::repeat_flags(models(out@)));
            }
            DomainSchema::new(declaration.name.clone(), out)
        },
    }
}

/// Whether `r` is what generation answers for `declaration`: the reader's
/// error where the declaration cannot be read, the reason of the rejection
/// where the schema read from it is rejected, and otherwise what is
/// generated for that schema.
pub open spec fn expands_to(
    declaration: DeclarationModel,
    catalogue: Seq<crate::schema::TypeModel>,
    policy: HiddenPolicy,
    r: Result<Generated, GenerationError>,
) -> bool {
    match read_spec(declaration) {
        Err(e) => r matches Err(err) && err@ == e,
        Ok(schema) => match rejection(schema, catalogue, policy) {
            Some(e) => r matches Err(err) && err@ == e,
            None => r matches Ok(generated) && describes(generated@, schema, catalogue),
        },
    }
}

/// Generates the view type, the conversions and the constants for a declared
/// type: the declaration is read, and generation runs on the schema read
/// from it.
pub fn generate_from(input: &Declaration, catalogue: &Vec<CompositeType>, policy: HiddenPolicy)
    -> (r: Result<Generated, GenerationError>)
    ensures
        expands_to(input@, models(catalogue@), policy, r),
{
    match read_schema(input) {
        Ok(schema) => generate(&schema, catalogue, policy),
        Err(e) => Err(e),
    }
}

} // verus!
