//! Why generation rejects a declaration.

use crate::text::join;
use vstd::prelude::*;

verus! {

/// A reason for which no view is generated. Every reason is final: the
/// declaration has to change before generation can succeed.
#[derive(Clone, Debug, PartialEq, Eq)]
pub enum GenerationError {
    /// The source text is no declaration of a type; the parser's message.
    Syntax(String),
    /// The declaration is not a record.
    NotAStruct,
    /// The record's fields have no names.
    UnnamedFields,
    /// Two fields of the record share the given name.
    DuplicateField(String),
    /// The named field is exposed, and its type is composite.
    UnsupportedField(String),
    /// The named field is an unexposed composite outside the recognized
    /// pattern, and the caller asked for such fields to be rejected.
    HiddenComposite(String),
    /// The named field is dropped from the view, and its type has no default
    /// value to fill it with.
    NoDefault(String),
    /// Two fields would both declare the named constant.
    ConstantCollision(String),
}

/// What a [`GenerationError`] denotes.
pub enum ErrorModel {
    Syntax(Seq<char>),
    NotAStruct,
    UnnamedFields,
    DuplicateField(Seq<char>),
    UnsupportedField(Seq<char>),
    HiddenComposite(Seq<char>),
    NoDefault(Seq<char>),
    ConstantCollision(Seq<char>),
}

impl View for GenerationError {
    type V = ErrorModel;

    open spec fn view(&self) -> ErrorModel {
        match self {
            GenerationError::Syntax(message) => ErrorModel::Syntax(message@),
            GenerationError::NotAStruct => ErrorModel::NotAStruct,
            GenerationError::UnnamedFields => ErrorModel::UnnamedFields,
            GenerationError::DuplicateField(name) => ErrorModel::DuplicateField(name@),
            GenerationError::UnsupportedField(name) => ErrorModel::UnsupportedField(name@),
            GenerationError::HiddenComposite(name) => ErrorModel::HiddenComposite(name@),
            GenerationError::NoDefault(name) => ErrorModel::NoDefault(name@),
            GenerationError::ConstantCollision(name) => ErrorModel::ConstantCollision(name@),
        }
    }
}

/// The diagnostic of an error: for a syntax error the parser's message,
/// otherwise a fixed sentence, followed by the name of the field or constant
/// at fault where there is one.
pub open spec fn message_of(error: ErrorModel) -> Seq<char> {
    match error {
        ErrorModel::Syntax(message) => message,
        ErrorModel::NotAStruct => "Only structs supported"@,
        ErrorModel::UnnamedFields => "Named fields required"@,
        ErrorModel::DuplicateField(name) => "Field declared twice: "@ + name,
        ErrorModel::UnsupportedField(name) => "Marked non-primitive fields not yet supported: "@
            + name,
        ErrorModel::HiddenComposite(name) => "Unmarked composite field left out of the form: "@
            + name,
        ErrorModel::NoDefault(name) => "No default value for the type of field: "@ + name,
        ErrorModel::ConstantCollision(name) => "Constant declared twice: "@ + name,
    }
}

impl GenerationError {
    /// The diagnostic to show to the author of the declaration.
    pub fn message(&self) -> (r: String)
        ensures
            r@ == message_of(self@),
    {
        match self {
            GenerationError::Syntax(message) => message.clone(),
            GenerationError::NotAStruct => "Only structs supported".to_owned(),
            GenerationError::UnnamedFields => "Named fields required".to_owned(),
            GenerationError::DuplicateField(name) => join("Field declared twice: ", name.as_str()),
            GenerationError::UnsupportedField(name) => join(
                "Marked non-primitive fields not yet supported: ",
                name.as_str(),
            ),
            GenerationError::HiddenComposite(name) => join(
                "Unmarked composite field left out of the form: ",
                name.as_str(),
            ),
            GenerationError::NoDefault(name) => join(
                "No default value for the type of field: ",
                name.as_str(),
            ),
            GenerationError::ConstantCollision(name) => join(
                "Constant declared twice: ",
                name.as_str(),
            ),
        }
    }
}

} // verus!
