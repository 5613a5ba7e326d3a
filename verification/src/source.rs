//! Reading a declaration from source text. The text is parsed by `syn`, in
//! two steps: first the item, whose named fields come back as the text of
//! their tokens, then each field from its text. What generation reads of the
//! syntax trees is copied into plain values, and a
//! [`Declaration`](crate::reader::Declaration) is made of those.

use crate::error::{ErrorModel, GenerationError};
use crate::fields::text_option;
use crate::generate::{Generated, HiddenPolicy};
use crate::model::{first_true, lemma_first_true_at, lemma_first_true_none, models};
use crate::reader::{
    expands_to, generate_from, AttrPath, DeclBody, DeclBodyModel, Declaration, DeclarationModel,
    FieldDecl, FieldDeclModel, TypeExpr, TypeExprModel,
};
use crate::schema::CompositeType;
use quote::ToTokens;
use syn::parse::Parser;
use syn::{Data, Fields};
use vstd::prelude::*;

verus! {

/// The kind of item that a declaration declares.
#[derive(Clone, Copy, Debug, PartialEq, Eq, Structural)]
pub enum ItemKind {
    /// A struct whose fields have names.
    NamedStruct,
    /// A struct whose fields have none.
    TupleStruct,
    /// A struct without fields.
    UnitStruct,
    Enum,
    Union,
}

/// One field as the parser read it: its name, if it has one, the paths of
/// the attributes above it, and its type.
#[derive(Clone, Debug, PartialEq, Eq)]
pub struct RawField {
    pub name: Option<String>,
    pub attrs: Vec<AttrPath>,
    pub ty: TypeExpr,
}

/// What a [`RawField`] denotes.
pub struct RawFieldModel {
    pub name: Option<Seq<char>>,
    pub attrs: Seq<Seq<Seq<char>>>,
    pub ty: TypeExprModel,
}

impl View for RawField {
    type V = RawFieldModel;

    open spec fn view(&self) -> RawFieldModel {
        RawFieldModel { name: text_option(self.name), attrs: models(self.attrs@), ty: self.ty@ }
    }
}

/// One item as the parser read it: its name, its kind, and the source text
/// of each field of a struct with named fields. Every other kind of item
/// comes without fields.
#[derive(Clone, Debug, PartialEq, Eq)]
pub struct RawItem {
    pub name: String,
    pub kind: ItemKind,
    pub fields: Vec<String>,
}

/// What a [`RawItem`] denotes.
pub struct RawItemModel {
    pub name: Seq<char>,
    pub kind: ItemKind,
    pub fields: Seq<Seq<char>>,
}

impl View for RawItem {
    type V = RawItemModel;

    open spec fn view(&self) -> RawItemModel {
        RawItemModel { name: self.name@, kind: self.kind, fields: models(self.fields@) }
    }
}

/// What `syn::parse_str` reads from a source text as a `syn::DeriveInput`:
/// the item that the text declares, or the message of the parser's error.
pub uninterp spec fn parsed_item(source: Seq<char>) -> Result<RawItemModel, Seq<char>>;

/// What `syn::Field::parse_named` reads from the source text of one field:
/// the field, or the message of the parser's error.
pub uninterp spec fn parsed_field(text: Seq<char>) -> Result<RawFieldModel, Seq<char>>;

/// Calls `syn::parse_str` for a `syn::DeriveInput` and copies out the item's
/// identifier, the variant of its `syn::Data` and `syn::Fields`, and each
/// named field as the text of its tokens. An error is copied as its message.
/// Nothing is proved of this call: the contract only gives the result its
/// name, `parsed_item` of the text.
#[verifier::external_body]
fn parse_raw(source: &str) -> (r: Result<RawItem, String>)
    ensures
        match parsed_item(source@) {
            Ok(item) => r matches Ok(read) && read@ == item,
            Err(message) => r matches Err(said) && said@ == message,
        },
{
    let item: syn::DeriveInput = syn::parse_str(source).map_err(|e| e.to_string())?;
    let (kind, fields) = match &item.data {
        Data::Struct(data) => match &data.fields {
            Fields::Named(named) => (
                ItemKind::NamedStruct,
                named.named.iter().map(|f| f.to_token_stream().to_string()).collect(),
            ),
            Fields::Unnamed(_) => (ItemKind::TupleStruct, Vec::new()),
            Fields::Unit => (ItemKind::UnitStruct, Vec::new()),
        },
        Data::Enum(_) => (ItemKind::Enum, Vec::new()),
        Data::Union(_) => (ItemKind::Union, Vec::new()),
    };
    Ok(RawItem { name: item.ident.to_string(), kind, fields })
}

/// Calls `syn::Field::parse_named` on the text of one field and copies out
/// the field's identifier, the identifiers along each
/// `syn::Attribute::path` and, for a `syn::Type::Path`, whether a qualified
/// self type is present and the identifiers along the path. An error is
/// copied as its message. Nothing is proved of this call: the contract only
/// gives the result its name, `parsed_field` of the text.
#[verifier::external_body]
fn parse_field(text: &str) -> (r: Result<RawField, String>)
    ensures
        match parsed_field(text@) {
            Ok(field) => r matches Ok(read) && read@ == field,
            Err(message) => r matches Err(said) && said@ == message,
        },
{
    let field = syn::Field::parse_named.parse_str(text).map_err(|e| e.to_string())?;
    let idents = |p: &syn::Path| p.segments.iter().map(|s| s.ident.to_string()).collect();
    let ty = match &field.ty {
        syn::Type::Path(t) => TypeExpr::Path {
            qualified: t.qself.is_some(),
            segments: idents(&t.path),
        },
        _ => TypeExpr::Other,
    };
    let attrs = field.attrs.iter().map(|a| AttrPath { segments: idents(a.path()) }).collect();
    Ok(RawField { name: field.ident.as_ref().map(|i| i.to_string()), attrs, ty })
}

/// The declared field that stands for one field as it was read. A field
/// without a name is declared under the empty name.
pub open spec fn declared_field(
    name: Option<Seq<char>>,
    attrs: Seq<Seq<Seq<char>>>,
    ty: TypeExprModel,
) -> FieldDeclModel {
    FieldDeclModel {
        name: match name {
            Some(name) => name,
            None => Seq::empty(),
        },
        attrs,
        ty,
    }
}

/// The declared field that stands for what the parser reads from the text
/// of one field, where it reads one.
pub open spec fn field_read(text: Seq<char>) -> Result<FieldDeclModel, Seq<char>> {
    match parsed_field(text) {
        Ok(field) => Ok(declared_field(field.name, field.attrs, field.ty)),
        Err(message) => Err(message),
    }
}

/// For each text, whether the parser rejects it as a field.
pub open spec fn rejected_flags(texts: Seq<Seq<char>>) -> Seq<bool> {
    Seq::new(texts.len(), |i: int| field_read(texts[i]) is Err)
}

/// The declared fields that stand for the given texts of fields, or the
/// parser's message for the first text that it rejects.
pub open spec fn fields_read(texts: Seq<Seq<char>>) -> Result<Seq<FieldDeclModel>, Seq<char>> {
    match first_true(rejected_flags(texts)) {
        Some(i) => match field_read(texts[i]) {
            Err(message) => Err(message),
            Ok(_) => Ok(Seq::empty()),
        },
        None => Ok(
            Seq::new(
                texts.len(),
                |i: int|
                    match field_read(texts[i]) {
                        Ok(field) => field,
                        Err(_) => declared_field(None, Seq::empty(), TypeExprModel::Other),
                    },
            ),
        ),
    }
}

/// The declaration that stands for an item as it was read. Only a struct
/// with named fields keeps its fields; a tuple struct and a unit struct are
/// structs without named fields, an enum and a union are no structs.
pub open spec fn declared(name: Seq<char>, kind: ItemKind, fields: Seq<FieldDeclModel>)
    -> DeclarationModel {
    DeclarationModel {
        name,
        body: match kind {
            ItemKind::NamedStruct => DeclBodyModel::Named(fields),
            ItemKind::TupleStruct | ItemKind::UnitStruct => DeclBodyModel::Unnamed,
            ItemKind::Enum | ItemKind::Union => DeclBodyModel::NotStruct,
        },
    }
}

/// What reading a source text gives: a syntax error with the parser's
/// message where the text, or the text of one of its fields, does not parse,
/// and otherwise the declaration that stands for what the parser read.
pub open spec fn read_source(source: Seq<char>) -> Result<DeclarationModel, ErrorModel> {
    match parsed_item(source) {
        Err(message) => Err(ErrorModel::Syntax(message)),
        Ok(item) => match fields_read(item.fields) {
            Err(message) => Err(ErrorModel::Syntax(message)),
            Ok(fields) => Ok(declared(item.name, item.kind, fields)),
        },
    }
}

/// Declares one field from what was read of it: its name, if it has one, the
/// paths of its attributes, and its type.
pub fn field_decl(name: Option<String>, attrs: Vec<AttrPath>, ty: TypeExpr) -> (r: FieldDecl)
    ensures
        r@ == declared_field(text_option(name), models(attrs@), ty@),
{
    let name = match name {
        Some(name) => name,
        None => String::new(),
    };
    FieldDecl { name, attrs, ty }
}

/// Declares an item from what was read of it: its name, its kind, and its
/// fields where it is a struct with named fields.
pub fn declaration_of(name: String, kind: ItemKind, fields: Vec<FieldDecl>) -> (r: Declaration)
    ensures
        r@ == declared(name@, kind, models(fields@)),
{
    let body = match kind {
        ItemKind::NamedStruct => DeclBody::Named(fields),
        ItemKind::TupleStruct => DeclBody::Unnamed,
        ItemKind::UnitStruct => DeclBody::Unnamed,
        ItemKind::Enum => DeclBody::NotStruct,
        ItemKind::Union => DeclBody::NotStruct,
    };
    Declaration { name, body }
}

/// Reads the declaration that `source` holds: the text of one struct, enum
/// or union, with the attributes above it and above its fields.
///
/// Where the parser rejects the text, the error is a syntax error with the
/// parser's message. Otherwise the declaration is made of what the parser
/// read, as [`field_decl`] and [`declaration_of`] say.
pub fn parse_declaration(source: &str) -> (r: Result<Declaration, GenerationError>)
    ensures
        match read_source(source@) {
            Ok(declaration) => r matches Ok(read) && read@ == declaration,
            Err(e) => r matches Err(err) && err@ == e,
        },
{
    let raw = match parse_raw(source) {
        Ok(raw) => raw,
        Err(message) => {
            return Err(GenerationError::Syntax(message));
        },
    };
    let ghost texts = models(raw.fields@);
    let ghost flags = rejected_flags(texts);
    let mut out: Vec<FieldDecl> = Vec::new();
    let mut i: usize = 0;
    while i < raw.fields.len()
        invariant
            i <= raw.fields.len(),
            parsed_item(source@) == Ok::<RawItemModel, Seq<char>>(raw@),
            texts == models(raw.fields@),
            flags == rejected_flags(texts),
            out.len() == i,
            forall|k: int| 0 <= k < i ==> !flags[k],
            forall|k: int| 0 <= k < i ==> field_read(texts[k]) == Ok::<_, Seq<char>>(out[k]@),
        decreases raw.fields.len() - i,
    {
        assert(texts[i as int] == raw.fields[i as int]@);
        match parse_field(raw.fields[i].as_str()) {
            Ok(field) => {
                let RawField { name, attrs, ty } = field;
                out.push(field_decl(name, attrs, ty));
            },
            Err(message) => {
                proof {
                    assert(field_read(texts[i as int]) == Err::<FieldDeclModel, _>(message@));
                    assert(flags[i as int]);
                    lemma_first_true_at(flags, i as int);
                    assert(fields_read(texts) == Err::<Seq<FieldDeclModel>, _>(message@));
                }
                return Err(GenerationError::Syntax(message));
            },
        }
        i = i + 1;
    }
    proof {
        lemma_first_true_none(flags);
        assert(models(out@) =~= fields_read(texts)->Ok_0);
    }
    Ok(declaration_of(raw.name, raw.kind, out))
}

/// Generates the view type, the conversions and the constants for the type
/// that `input` declares in source text, as a derive on that type would.
///
/// The text is read first, as [`parse_declaration`] says; the answer for the
/// declaration read from it is what [`generate_from`] says.
pub fn form_gen(input: &str, catalogue: &Vec<CompositeType>, policy: HiddenPolicy) -> (r: Result<
    Generated,
    GenerationError,
>)
    ensures
        match read_source(input@) {
            Err(e) => r matches Err(err) && err@ == e,
            Ok(declaration) => expands_to(declaration, models(catalogue@), policy, r),
        },
{
    match parse_declaration(input) {
        Ok(declaration) => generate_from(&declaration, catalogue, policy),
        Err(e) => Err(e),
    }
}

} // verus!
