//! How the members of the form components are written as run-time values.

use crate::model::models;
use crate::value::{lemma_record_model, Value, ValueModel};
use vstd::prelude::*;

verus! {

/// What an optional text denotes.
pub open spec fn text_option(text: Option<String>) -> Option<Seq<char>> {
    match text {
        Some(s) => Some(s@),
        None => None,
    }
}

/// The value of an optional text: the empty record where there is none, the
/// record of the one text where there is one.
pub open spec fn value_of_text_option(text: Option<Seq<char>>) -> ValueModel {
    match text {
        Some(s) => ValueModel::Record(seq![ValueModel::Text(s)]),
        None => ValueModel::Record(Seq::empty()),
    }
}

/// The value of an optional count, written like an optional text.
pub open spec fn value_of_count_option(count: Option<u32>) -> ValueModel {
    match count {
        Some(n) => ValueModel::Record(seq![ValueModel::Int(n as int)]),
        None => ValueModel::Record(Seq::empty()),
    }
}

/// The text that a value holds, if it is a text.
pub open spec fn text_in(value: ValueModel) -> Option<Seq<char>> {
    match value {
        ValueModel::Text(s) => Some(s),
        _ => None,
    }
}

/// The truth value that a value holds, if it is one.
pub open spec fn bool_in(value: ValueModel) -> Option<bool> {
    match value {
        ValueModel::Bool(b) => Some(b),
        _ => None,
    }
}

/// The optional text that a value holds, if it is written as one.
pub open spec fn text_option_in(value: ValueModel) -> Option<Option<Seq<char>>> {
    match value {
        ValueModel::Record(members) => if members.len() == 0 {
            Some(None)
        } else if members.len() == 1 {
            match members[0] {
                ValueModel::Text(s) => Some(Some(s)),
                _ => None,
            }
        } else {
            None
        },
        _ => None,
    }
}

/// The optional count that a value holds, if it is written as one.
pub open spec fn count_option_in(value: ValueModel) -> Option<Option<u32>> {
    match value {
        ValueModel::Record(members) => if members.len() == 0 {
            Some(None)
        } else if members.len() == 1 {
            match members[0] {
                ValueModel::Int(n) => if 0 <= n <= u32::MAX {
                    Some(Some(n as u32))
                } else {
                    None
                },
                _ => None,
            }
        } else {
            None
        },
        _ => None,
    }
}

/// Writes a text as a value.
pub fn text_value(text: &String) -> (r: Value)
    ensures
        r@ == ValueModel::Text(text@),
{
    Value::Text(text.clone())
}

/// Writes an optional text as a value.
pub fn text_option_value(text: &Option<String>) -> (r: Value)
    ensures
        r@ == value_of_text_option(text_option(*text)),
{
    let mut members: Vec<Value> = Vec::new();
    match text {
        Some(s) => {
            members.push(Value::Text(s.clone()));
        },
        None => {},
    }
    proof {
        lemma_record_model(members);
        assert(models(members@) =~= value_of_text_option(text_option(*text))->Record_0);
    }
    Value::Record(members)
}

/// Writes an optional count as a value.
pub fn count_option_value(count: &Option<u32>) -> (r: Value)
    ensures
        r@ == value_of_count_option(*count),
{
    let mut members: Vec<Value> = Vec::new();
    match count {
        Some(n) => {
            let wide: i128 = *n as i128;
            members.push(Value::Int(wide));
        },
        None => {},
    }
    proof {
        lemma_record_model(members);
        assert(models(members@) =~= value_of_count_option(*count)->Record_0);
    }
    Value::Record(members)
}

/// Reads a text from a value.
pub fn read_text(value: &Value) -> (r: Option<String>)
    ensures
        text_option(r) == text_in(value@),
{
    match value {
        Value::Text(s) => Some(s.clone()),
        _ => None,
    }
}

/// Reads a truth value from a value.
pub fn read_bool(value: &Value) -> (r: Option<bool>)
    ensures
        r == bool_in(value@),
{
    match value {
        Value::Bool(b) => Some(*b),
        _ => None,
    }
}

/// Reads an optional text from a value.
pub fn read_text_option(value: &Value) -> (r: Option<Option<String>>)
    ensures
        match r {
            Some(text) => text_option_in(value@) == Some(text_option(text)),
            None => text_option_in(value@) is None,
        },
{
    match value {
        Value::Record(members) => {
            proof {
                lemma_record_model(*members);
            }
            if members.len() == 0 {
                Some(None)
            } else if members.len() == 1 {
                assert(models(members@)[0] == members[0]@);
                match &members[0] {
                    Value::Text(s) => Some(Some(s.clone())),
                    _ => None,
                }
            } else {
                None
            }
        },
        _ => None,
    }
}

/// Reads an optional count from a value.
pub fn read_count_option(value: &Value) -> (r: Option<Option<u32>>)
    ensures
        r == count_option_in(value@),
{
    match value {
        Value::Record(members) => {
            proof {
                lemma_record_model(*members);
            }
            if members.len() == 0 {
                Some(None)
            } else if members.len() == 1 {
                assert(models(members@)[0] == members[0]@);
                match &members[0] {
                    Value::Int(n) => {
                        if 0 <= *n && *n <= 4294967295 {
                            let narrow: u32 = *n as u32;
                            Some(Some(narrow))
                        } else {
                            None
                        }
                    },
                    Value::Unsigned(n) => {
                        if *n <= 4294967295 {
                            let narrow: u32 = *n as u32;
                            Some(Some(narrow))
                        } else {
                            None
                        }
                    },
                    _ => None,
                }
            } else {
                None
            }
        },
        _ => None,
    }
}

} // verus!
