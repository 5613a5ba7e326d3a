//! Run-time values of domain and view records.

use crate::model::models;
use vstd::prelude::*;

verus! {

/// A value of a domain or view field.
///
/// A primitive is held by what identifies it: an integer of any family as
/// `Int` or, where it is too large for that, as `Unsigned`; a floating value
/// as the bit pattern of its IEEE-754 encoding. A composite is the sequence
/// of its members in declaration order.
#[derive(Debug, PartialEq, Eq)]
pub enum Value {
    Int(i128),
    Unsigned(u128),
    Real(u64),
    Bool(bool),
    Text(String),
    Char(char),
    Record(Vec<Value>),
}

/// What a [`Value`] denotes.
pub enum ValueModel {
    Int(int),
    Real(u64),
    Bool(bool),
    Text(Seq<char>),
    Char(char),
    Record(Seq<ValueModel>),
}

/// What `value` denotes.
pub open spec fn model_of(value: Value) -> ValueModel
    decreases value,
{
    match value {
        Value::Int(i) => ValueModel::Int(i as int),
        Value::Unsigned(u) => ValueModel::Int(u as int),
        Value::Real(bits) => ValueModel::Real(bits),
        Value::Bool(b) => ValueModel::Bool(b),
        Value::Text(s) => ValueModel::Text(s@),
        Value::Char(c) => ValueModel::Char(c),
        Value::Record(members) => ValueModel::Record(
            Seq::new(
                members@.len(),
                |i: int|
                    if 0 <= i < members@.len() {
                        model_of(members@[i])
                    } else {
                        ValueModel::Bool(false)
                    },
            ),
        ),
    }
}

impl View for Value {
    type V = ValueModel;

    open spec fn view(&self) -> ValueModel {
        model_of(*self)
    }
}

/// A record denotes the record of what its members denote.
pub proof fn lemma_record_model(members: Vec<Value>)
    ensures
        Value::Record(members)@ == ValueModel::Record(models(members@)),
{
    assert(Value::Record(members)@->Record_0 =~= models(members@));
}

/// A fresh value that denotes what `value` denotes.
pub fn copy_value(value: &Value) -> (r: Value)
    ensures
        r@ == value@,
    decreases value,
{
    match value {
        Value::Int(i) => Value::Int(*i),
        Value::Unsigned(u) => Value::Unsigned(*u),
        Value::Real(bits) => Value::Real(*bits),
        Value::Bool(b) => Value::Bool(*b),
        Value::Text(s) => Value::Text(s.clone()),
        Value::Char(c) => Value::Char(*c),
        Value::Record(members) => {
            let mut out: Vec<Value> = Vec::new();
            let mut i: usize = 0;
            while i < members.len()
                invariant
                    i <= members.len(),
                    out.len() == i,
                    forall|k: int| 0 <= k < i ==> out[k]@ == members[k]@,
                    value is Record,
                    value->Record_0 == *members,
                decreases members.len() - i,
            {
                proof {
                    vstd::std_specs::vec::axiom_vec_index_decreases(*members, i as int);
                    assert(decreases_to!(value => value->Record_0));
                }
                let member = copy_value(&members[i]);
                out.push(member);
                i = i + 1;
            }
            proof {
                lemma_record_model(out);
                lemma_record_model(*members);
                assert(models(out@) =~= models(members@));
            }
            Value::Record(out)
        },
    }
}

/// Fresh values that denote, member by member, what `values` denote.
pub fn copy_values(values: &Vec<Value>) -> (r: Vec<Value>)
    ensures
        models(r@) == models(values@),
{
    let mut out: Vec<Value> = Vec::new();
    let mut i: usize = 0;
    while i < values.len()
        invariant
            i <= values.len(),
            out.len() == i,
            forall|k: int| 0 <= k < i ==> out[k]@ == values[k]@,
        decreases values.len() - i,
    {
        let member = copy_value(&values[i]);
        out.push(member);
        i = i + 1;
    }
    assert(models(out@) =~= models(values@));
    out
}

} // verus!
