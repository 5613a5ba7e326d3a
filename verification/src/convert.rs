//! The conversion pair: the two functions between a domain value and its
//! view, held as one plan that both interpret.

use crate::model::models;
use crate::value::{copy_value, copy_values, lemma_record_model, Value, ValueModel};
use vstd::prelude::*;

verus! {

/// What the conversions do with one field of the domain record.
#[derive(Debug, PartialEq, Eq)]
pub enum Step {
    /// The field and the view's slot `slot` hold the same value.
    Copy { slot: usize },
    /// The view's slot `slot` holds member `member` of the field's nested
    /// value. A nested value built from a view is `template` with that member
    /// replaced.
    Flatten { slot: usize, member: usize, template: Vec<Value> },
    /// The view has no slot for the field. A domain value built from a view
    /// holds `default` there.
    Fill { default: Value },
}

/// What a [`Step`] denotes.
pub enum StepModel {
    Copy { slot: int },
    Flatten { slot: int, member: int, template: Seq<ValueModel> },
    Fill { default: ValueModel },
}

impl View for Step {
    type V = StepModel;

    open spec fn view(&self) -> StepModel {
        match self {
            Step::Copy { slot } => StepModel::Copy { slot: *slot as int },
            Step::Flatten { slot, member, template } => StepModel::Flatten {
                slot: *slot as int,
                member: *member as int,
                template: models(template@),
            },
            Step::Fill { default } => StepModel::Fill { default: default@ },
        }
    }
}

/// The two conversions of one record type. `steps` has one entry for each
/// field of the domain record; `sources` has one entry for each slot of the
/// view, the position of the field that the slot shows.
#[derive(Debug, PartialEq, Eq)]
pub struct ConversionPair {
    pub steps: Vec<Step>,
    pub sources: Vec<usize>,
}

/// What a [`ConversionPair`] denotes.
pub struct PairModel {
    pub steps: Seq<StepModel>,
    pub sources: Seq<int>,
}

/// What a vector of positions denotes.
pub open spec fn positions(items: Seq<usize>) -> Seq<int> {
    Seq::new(items.len(), |k: int| items[k] as int)
}

impl View for ConversionPair {
    type V = PairModel;

    open spec fn view(&self) -> PairModel {
        PairModel { steps: models(self.steps@), sources: positions(self.sources@) }
    }
}

/// The slot of the view that a step shows its field in, if it shows it.
pub open spec fn slot_of(step: StepModel) -> Option<int> {
    match step {
        StepModel::Copy { slot } => Some(slot),
        StepModel::Flatten { slot, .. } => Some(slot),
        StepModel::Fill { .. } => None,
    }
}

/// What a step shows in the view of a field that holds `value`.
pub open spec fn shown(step: StepModel, value: ValueModel) -> ValueModel {
    match step {
        StepModel::Flatten { member, .. } => value->Record_0[member],
        _ => value,
    }
}

/// What a step puts into its field when the domain value is built from the
/// view `view`.
pub open spec fn built(step: StepModel, view: Seq<ValueModel>) -> ValueModel {
    match step {
        StepModel::Copy { slot } => view[slot],
        StepModel::Flatten { slot, member, template } => ValueModel::Record(
            template.update(member, view[slot]),
        ),
        StepModel::Fill { default } => default,
    }
}

impl PairModel {
    /// The invariant of a conversion pair: slots and the steps that show a
    /// field correspond one to one, slots follow declaration order, and a
    /// flattened member exists in its template.
    pub open spec fn wf(self) -> bool {
        &&& forall|k: int|
            0 <= k < self.sources.len() ==> 0 <= #[trigger] self.sources[k] < self.steps.len()
                && slot_of(self.steps[self.sources[k]]) == Some(k)
        &&& forall|i: int|
            0 <= i < self.steps.len() ==> match slot_of(#[trigger] self.steps[i]) {
                Some(k) => 0 <= k < self.sources.len() && self.sources[k] == i,
                None => true,
            }
        &&& forall|a: int, b: int|
            0 <= a < b < self.sources.len() ==> self.sources[a] < self.sources[b]
        &&& forall|i: int|
            0 <= i < self.steps.len() ==> match #[trigger] self.steps[i] {
                StepModel::Flatten { member, template, .. } => 0 <= member < template.len(),
                _ => true,
            }
    }

    /// Whether `domain` has the shape of a value of the domain record: one
    /// member for each field, and a record that holds the flattened member
    /// wherever a field is flattened.
    pub open spec fn accepts_domain(self, domain: Seq<ValueModel>) -> bool {
        &&& domain.len() == self.steps.len()
        &&& forall|i: int|
            0 <= i < self.steps.len() ==> match #[trigger] self.steps[i] {
                StepModel::Flatten { member, .. } => domain[i] is Record && 0 <= member
                    < domain[i]->Record_0.len(),
                _ => true,
            }
    }

    /// Whether `view` has the shape of a value of the view: one member for
    /// each slot.
    pub open spec fn accepts_view(self, view: Seq<ValueModel>) -> bool {
        view.len() == self.sources.len()
    }

    /// The view of the domain value `domain`: each slot shows its field.
    pub open spec fn to_view(self, domain: Seq<ValueModel>) -> Seq<ValueModel> {
        Seq::new(
            self.sources.len(),
            |k: int| shown(self.steps[self.sources[k]], domain[self.sources[k]]),
        )
    }

    /// The domain value that the view `view` stands for: each field holds
    /// what its step builds.
    pub open spec fn to_domain(self, view: Seq<ValueModel>) -> Seq<ValueModel> {
        Seq::new(self.steps.len(), |i: int| built(self.steps[i], view))
    }
}

impl ConversionPair {
    /// Whether the pair holds its invariant.
    pub fn is_well_formed(&self) -> (r: bool)
        ensures
            r == self@.wf(),
    {
        let ghost me = self@;
        let mut k: usize = 0;
        while k < self.sources.len()
            invariant
                k <= self.sources.len(),
                me == self@,
                forall|j: int|
                    0 <= j < k ==> 0 <= #[trigger] me.sources[j] < me.steps.len() && slot_of(
                        me.steps[me.sources[j]],
                    ) == Some(j),
                forall|a: int, b: int| 0 <= a < b < k ==> me.sources[a] < me.sources[b],
            decreases self.sources.len() - k,
        {
            let i = self.sources[k];
            assert(me.sources[k as int] == i as int);
            if i >= self.steps.len() {
                return false;
            }
            assert(me.steps[i as int] == self.steps[i as int]@);
            let slot = match &self.steps[i] {
                Step::Copy { slot } => Some(*slot),
                Step::Flatten { slot, .. } => Some(*slot),
                Step::Fill { .. } => None,
            };
            match slot {
                Some(s) => {
                    if s != k {
                        return false;
                    }
                },
                None => {
                    return false;
                },
            }
            if k > 0 {
                let before = self.sources[k - 1];
                assert(me.sources[k - 1] == before as int);
                if before >= i {
                    return false;
                }
            }
            k = k + 1;
        }
        let mut i: usize = 0;
        while i < self.steps.len()
            invariant
                i <= self.steps.len(),
                me == self@,
                forall|j: int|
                    0 <= j < i ==> match slot_of(#[trigger] me.steps[j]) {
                        Some(k) => 0 <= k < me.sources.len() && me.sources[k] == j,
                        None => true,
                    },
                forall|j: int|
                    0 <= j < i ==> match #[trigger] me.steps[j] {
                        StepModel::Flatten { member, template, .. } => 0 <= member
                            < template.len(),
                        _ => true,
                    },
            decreases self.steps.len() - i,
        {
            assert(me.steps[i as int] == self.steps[i as int]@);
            match &self.steps[i] {
                Step::Copy { slot } => {
                    if *slot >= self.sources.len() {
                        return false;
                    }
                    let source = self.sources[*slot];
                    assert(me.sources[*slot as int] == source as int);
                    if source != i {
                        return false;
                    }
                },
                Step::Flatten { slot, member, template } => {
                    if *slot >= self.sources.len() {
                        return false;
                    }
                    let source = self.sources[*slot];
                    assert(me.sources[*slot as int] == source as int);
                    if source != i {
                        return false;
                    }
                    if *member >= template.len() {
                        return false;
                    }
                },
                Step::Fill { .. } => {},
            }
            i = i + 1;
        }
        true
    }

    /// Whether `domain` has the shape of a value of the domain record.
    pub fn accepts_domain(&self, domain: &Vec<Value>) -> (r: bool)
        ensures
            r == self@.accepts_domain(models(domain@)),
    {
        if domain.len() != self.steps.len() {
            return false;
        }
        let ghost me = self@;
        let ghost given = models(domain@);
        let mut i: usize = 0;
        while i < self.steps.len()
            invariant
                i <= self.steps.len(),
                domain.len() == self.steps.len(),
                me == self@,
                given == models(domain@),
                forall|j: int|
                    0 <= j < i ==> match #[trigger] me.steps[j] {
                        StepModel::Flatten { member, .. } => given[j] is Record && 0 <= member
                            < given[j]->Record_0.len(),
                        _ => true,
                    },
            decreases self.steps.len() - i,
        {
            assert(me.steps[i as int] == self.steps[i as int]@);
            assert(given[i as int] == domain[i as int]@);
            match &self.steps[i] {
                Step::Flatten { member, .. } => {
                    match &domain[i] {
                        Value::Record(members) => {
                            proof {
                                lemma_record_model(*members);
                            }
                            if *member >= members.len() {
                                return false;
                            }
                        },
                        _ => {
                            return false;
                        },
                    }
                },
                _ => {},
            }
            i = i + 1;
        }
        true
    }

    /// Whether `view` has the shape of a value of the view.
    pub fn accepts_view(&self, view: &Vec<Value>) -> (r: bool)
        ensures
            r == self@.accepts_view(models(view@)),
    {
        view.len() == self.sources.len()
    }

    /// The view of a domain value. Every exposed primitive is copied, the
    /// `value` member of every recognized composite is copied out of its
    /// nested value, and every other field is left out.
    pub fn to_view(&self, domain: &Vec<Value>) -> (r: Vec<Value>)
        requires
            self@.wf(),
            self@.accepts_domain(models(domain@)),
        ensures
            models(r@) == self@.to_view(models(domain@)),
    {
        let ghost me = self@;
        let ghost given = models(domain@);
        let mut out: Vec<Value> = Vec::new();
        let mut k: usize = 0;
        while k < self.sources.len()
            invariant
                k <= self.sources.len(),
                me == self@,
                given == models(domain@),
                me.wf(),
                me.accepts_domain(given),
                out.len() == k,
                forall|j: int|
                    0 <= j < k ==> out[j]@ == shown(
                        me.steps[me.sources[j]],
                        given[me.sources[j]],
                    ),
            decreases self.sources.len() - k,
        {
            let i = self.sources[k];
            assert(me.sources[k as int] == i as int);
            assert(me.steps[i as int] == self.steps[i as int]@);
            assert(given[i as int] == domain[i as int]@);
            let member = match &self.steps[i] {
                Step::Flatten { member, .. } => Some(*member),
                _ => None,
            };
            let value = match (member, &domain[i]) {
                (Some(m), Value::Record(members)) => {
                    proof {
                        lemma_record_model(*members);
                    }
                    copy_value(&members[m])
                },
                _ => copy_value(&domain[i]),
            };
            out.push(value);
            k = k + 1;
        }
        assert(models(out@) =~= me.to_view(given));
        out
    }

    /// The domain value that a view stands for. Every exposed primitive is
    /// copied back, every recognized composite is its type's default with the
    /// `value` member taken from the view, and every other field is the
    /// default of its type.
    pub fn to_domain(&self, view: &Vec<Value>) -> (r: Vec<Value>)
        requires
            self@.wf(),
            self@.accepts_view(models(view@)),
        ensures
            models(r@) == self@.to_domain(models(view@)),
    {
        let ghost me = self@;
        let ghost given = models(view@);
        let mut out: Vec<Value> = Vec::new();
        let mut i: usize = 0;
        while i < self.steps.len()
            invariant
                i <= self.steps.len(),
                me == self@,
                given == models(view@),
                me.wf(),
                me.accepts_view(given),
                out.len() == i,
                forall|j: int| 0 <= j < i ==> out[j]@ == built(me.steps[j], given),
            decreases self.steps.len() - i,
        {
            assert(me.steps[i as int] == self.steps[i as int]@);
            let value = match &self.steps[i] {
                Step::Copy { slot } => {
                    assert(given[*slot as int] == view[*slot as int]@);
                    copy_value(&view[*slot])
                },
                Step::Flatten { slot, member, template } => {
                    assert(given[*slot as int] == view[*slot as int]@);
                    let mut members = copy_values(template);
                    assert(members.len() == template.len()) by {
                        assert(models(members@).len() == models(template@).len());
                    }
                    let shown_value = copy_value(&view[*slot]);
                    let ghost before = members@;
                    members.set(*member, shown_value);
                    proof {
                        lemma_record_model(members);
                        assert(models(members@) =~= models(before).update(
                            *member as int,
                            shown_value@,
                        ));
                    }
                    Value::Record(members)
                },
                Step::Fill { default } => copy_value(default),
            };
            out.push(value);
            i = i + 1;
        }
        assert(models(out@) =~= me.to_domain(given));
        out
    }

    /// The view of a domain value, where the pair holds its invariant and
    /// the value has the shape of the domain record; `None` otherwise.
    pub fn checked_to_view(&self, domain: &Vec<Value>) -> (r: Option<Vec<Value>>)
        ensures
            match r {
                Some(view) => self@.wf() && self@.accepts_domain(models(domain@)) && models(view@)
                    == self@.to_view(models(domain@)),
                None => !(self@.wf() && self@.accepts_domain(models(domain@))),
            },
    {
        if self.is_well_formed() && self.accepts_domain(domain) {
            Some(self.to_view(domain))
        } else {
            None
        }
    }

    /// The domain value that a view stands for, where the pair holds its
    /// invariant and the view has the shape of the view; `None` otherwise.
    pub fn checked_to_domain(&self, view: &Vec<Value>) -> (r: Option<Vec<Value>>)
        ensures
            match r {
                Some(domain) => self@.wf() && self@.accepts_view(models(view@)) && models(domain@)
                    == self@.to_domain(models(view@)),
                None => !(self@.wf() && self@.accepts_view(models(view@))),
            },
    {
        if self.is_well_formed() && self.accepts_view(view) {
            Some(self.to_domain(view))
        } else {
            None
        }
    }
}

/// A view that is turned into a domain value and shown again comes back
/// unchanged, and the domain value in between has the shape of the record.
pub proof fn law_view_round_trip(pair: PairModel, view: Seq<ValueModel>)
    requires
        pair.wf(),
        pair.accepts_view(view),
    ensures
        pair.accepts_domain(pair.to_domain(view)),
        pair.to_view(pair.to_domain(view)) == view,
{
    let domain = pair.to_domain(view);
    assert forall|i: int| 0 <= i < pair.steps.len() implies match #[trigger] pair.steps[i] {
        StepModel::Flatten { member, .. } => domain[i] is Record && 0 <= member
            < domain[i]->Record_0.len(),
        _ => true,
    } by {}
    assert forall|k: int| 0 <= k < view.len() implies pair.to_view(domain)[k] == view[k] by {
        let i = pair.sources[k];
        assert(slot_of(pair.steps[i]) == Some(k));
    }
    assert(pair.to_view(domain) =~= view);
}

/// The view of a domain value has the shape of the view.
pub proof fn law_view_shape(pair: PairModel, domain: Seq<ValueModel>)
    ensures
        pair.accepts_view(pair.to_view(domain)),
{
}

/// Showing a domain value is idempotent after one round trip: the view of
/// the domain value rebuilt from a view is that view again.
pub proof fn law_round_trip_idempotent(pair: PairModel, domain: Seq<ValueModel>)
    requires
        pair.wf(),
        pair.accepts_domain(domain),
    ensures
        pair.to_view(pair.to_domain(pair.to_view(domain))) == pair.to_view(domain),
{
    law_view_round_trip(pair, pair.to_view(domain));
}

/// A domain value that is shown and rebuilt keeps every copied field and the
/// flattened member of every flattened field; each other member of a
/// flattened field is the template's, and each field without a slot holds
/// its default.
pub proof fn law_domain_round_trip(pair: PairModel, domain: Seq<ValueModel>, i: int)
    requires
        pair.wf(),
        pair.accepts_domain(domain),
        0 <= i < pair.steps.len(),
    ensures
        match pair.steps[i] {
            StepModel::Copy { .. } => pair.to_domain(pair.to_view(domain))[i] == domain[i],
            StepModel::Flatten { member, template, .. } => {
                let rebuilt = pair.to_domain(pair.to_view(domain))[i];
                &&& rebuilt is Record
                &&& rebuilt->Record_0.len() == template.len()
                &&& rebuilt->Record_0[member] == domain[i]->Record_0[member]
                &&& forall|m: int|
                    0 <= m < template.len() && m != member ==> rebuilt->Record_0[m] == template[m]
            },
            StepModel::Fill { default } => pair.to_domain(pair.to_view(domain))[i] == default,
        },
{
    let view = pair.to_view(domain);
    match slot_of(pair.steps[i]) {
        Some(k) => {
            assert(pair.sources[k] == i);
            assert(view[k] == shown(pair.steps[i], domain[i]));
        },
        None => {},
    }
}

/// The domain value built from a view holds, in the flattened member of a
/// flattened field, exactly what the view holds in that field's slot.
pub proof fn law_flattened_member(pair: PairModel, view: Seq<ValueModel>, i: int)
    requires
        pair.wf(),
        pair.accepts_view(view),
        0 <= i < pair.steps.len(),
        pair.steps[i] is Flatten,
    ensures
        pair.to_domain(view)[i] is Record,
        pair.to_domain(view)[i]->Record_0[pair.steps[i]->Flatten_member]
            == view[pair.steps[i]->Flatten_slot],
{
}

} // verus!
