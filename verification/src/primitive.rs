//! The primitive value types: which type names are primitive, which family
//! each belongs to, and what follows from the family.

use crate::text::same_text;
use crate::value::{Value, ValueModel};
use vstd::prelude::*;

verus! {

/// The family of a primitive type.
#[derive(Clone, Copy, Debug, PartialEq, Eq, Structural)]
pub enum PrimitiveKind {
    Integer,
    Floating,
    Boolean,
    Text,
    Character,
}

/// The kind of form control that edits a view field.
#[derive(Clone, Copy, Debug, PartialEq, Eq, Structural)]
pub enum InputType {
    Number,
    Text,
}

/// Whether `ty` names one of the integer families.
pub open spec fn is_integer_name(ty: Seq<char>) -> bool {
    ||| ty == "u8"@
    ||| ty == "u16"@
    ||| ty == "u32"@
    ||| ty == "u64"@
    ||| ty == "u128"@
    ||| ty == "usize"@
    ||| ty == "i8"@
    ||| ty == "i16"@
    ||| ty == "i32"@
    ||| ty == "i64"@
    ||| ty == "i128"@
    ||| ty == "isize"@
}

/// Whether `ty` names one of the floating families.
pub open spec fn is_floating_name(ty: Seq<char>) -> bool {
    ty == "f32"@ || ty == "f64"@
}

/// Whether `ty` names a text type.
pub open spec fn is_text_name(ty: Seq<char>) -> bool {
    ty == "String"@ || ty == "str"@
}

/// The family of the type named `ty`, or `None` where `ty` names no
/// primitive type.
pub open spec fn kind_of(ty: Seq<char>) -> Option<PrimitiveKind> {
    if is_integer_name(ty) {
        Some(PrimitiveKind::Integer)
    } else if is_floating_name(ty) {
        Some(PrimitiveKind::Floating)
    } else if ty == "bool"@ {
        Some(PrimitiveKind::Boolean)
    } else if is_text_name(ty) {
        Some(PrimitiveKind::Text)
    } else if ty == "char"@ {
        Some(PrimitiveKind::Character)
    } else {
        None
    }
}

/// Whether `ty` names a primitive type: an integer or floating family, the
/// boolean, a text type or the single character.
pub open spec fn primitive_name(ty: Seq<char>) -> bool {
    kind_of(ty) is Some
}

/// The input type of a field of the given family: `Number` for the integer
/// and floating families, `Text` for every other.
pub open spec fn hint_of(kind: PrimitiveKind) -> InputType {
    match kind {
        PrimitiveKind::Integer | PrimitiveKind::Floating => InputType::Number,
        _ => InputType::Text,
    }
}

/// The default value of a family: zero, positive zero, `false`, the empty
/// text, the character with code zero.
pub open spec fn default_of(kind: PrimitiveKind) -> ValueModel {
    match kind {
        PrimitiveKind::Integer => ValueModel::Int(0),
        PrimitiveKind::Floating => ValueModel::Real(0),
        PrimitiveKind::Boolean => ValueModel::Bool(false),
        PrimitiveKind::Text => ValueModel::Text(Seq::empty()),
        PrimitiveKind::Character => ValueModel::Char('\0'),
    }
}

fn is_integer(ty: &str) -> (r: bool)
    ensures
        r == is_integer_name(ty@),
{
    same_text(ty, "u8") || same_text(ty, "u16") || same_text(ty, "u32") || same_text(ty, "u64")
        || same_text(ty, "u128") || same_text(ty, "usize") || same_text(ty, "i8") || same_text(
        ty,
        "i16",
    ) || same_text(ty, "i32") || same_text(ty, "i64") || same_text(ty, "i128") || same_text(
        ty,
        "isize",
    )
}

/// The family of the primitive type named `ty`.
pub fn primitive_kind(ty: &str) -> (r: Option<PrimitiveKind>)
    ensures
        r == kind_of(ty@),
{
    if is_integer(ty) {
        Some(PrimitiveKind::Integer)
    } else if same_text(ty, "f32") || same_text(ty, "f64") {
        Some(PrimitiveKind::Floating)
    } else if same_text(ty, "bool") {
        Some(PrimitiveKind::Boolean)
    } else if same_text(ty, "String") || same_text(ty, "str") {
        Some(PrimitiveKind::Text)
    } else if same_text(ty, "char") {
        Some(PrimitiveKind::Character)
    } else {
        None
    }
}

/// Whether `ty` names a primitive type, whose values a view holds directly.
pub fn is_primitive(ty: &str) -> (r: bool)
    ensures
        r == primitive_name(ty@),
{
    primitive_kind(ty).is_some()
}

impl PrimitiveKind {
    /// The input type that edits a value of this family.
    pub fn input_type(self) -> (r: InputType)
        ensures
            r == hint_of(self),
    {
        match self {
            PrimitiveKind::Integer | PrimitiveKind::Floating => InputType::Number,
            _ => InputType::Text,
        }
    }

    /// The default value of this family.
    pub fn default_value(self) -> (r: Value)
        ensures
            r@ == default_of(self),
    {
        match self {
            PrimitiveKind::Integer => Value::Int(0),
            PrimitiveKind::Floating => Value::Real(0),
            PrimitiveKind::Boolean => Value::Bool(false),
            PrimitiveKind::Text => Value::Text(String::new()),
            PrimitiveKind::Character => Value::Char('\0'),
        }
    }
}

/// The text of an input type: `"number"` or `"text"`.
pub open spec fn hint_text(hint: InputType) -> Seq<char> {
    match hint {
        InputType::Number => "number"@,
        InputType::Text => "text"@,
    }
}

impl InputType {
    /// The word that markup writes for this input type.
    pub fn as_str(self) -> (r: &'static str)
        ensures
            r@ == hint_text(self),
    {
        match self {
            InputType::Number => "number",
            InputType::Text => "text",
        }
    }
}

} // verus!
