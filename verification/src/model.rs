//! The step from executable collections to their mathematical models.

use vstd::prelude::*;

verus! {

/// What a sequence of items denotes, item by item.
pub open spec fn models<T: View>(items: Seq<T>) -> Seq<T::V> {
    Seq::new(items.len(), |i: int| items[i]@)
}

/// Appending an item appends what it denotes.
pub proof fn lemma_models_push<T: View>(items: Seq<T>, item: T)
    ensures
        models(items.push(item)) == models(items).push(item@),
{
    assert(models(items.push(item)) =~= models(items).push(item@));
}

/// The least index at which `flags` holds `true`, if there is one.
pub open spec fn first_true(flags: Seq<bool>) -> Option<int>
    decreases flags.len(),
{
    if flags.len() == 0 {
        None
    } else {
        match first_true(flags.drop_last()) {
            Some(j) => Some(j),
            None => if flags.last() {
                Some(flags.len() - 1)
            } else {
                None
            },
        }
    }
}

/// `first_true` names an index that holds `true` and has only `false` before
/// it, and is `None` only where every flag is `false`.
pub proof fn lemma_first_true(flags: Seq<bool>)
    ensures
        match first_true(flags) {
            Some(j) => 0 <= j < flags.len() && flags[j] && forall|k: int| 0 <= k < j ==> !flags[k],
            None => forall|k: int| 0 <= k < flags.len() ==> !flags[k],
        },
    decreases flags.len(),
{
    if flags.len() > 0 {
        lemma_first_true(flags.drop_last());
        assert(forall|k: int| 0 <= k < flags.len() - 1 ==> flags.drop_last()[k] == flags[k]);
    }
}

/// An index that holds `true` with only `false` before it is `first_true`.
pub proof fn lemma_first_true_at(flags: Seq<bool>, j: int)
    requires
        0 <= j < flags.len(),
        flags[j],
        forall|k: int| 0 <= k < j ==> !flags[k],
    ensures
        first_true(flags) == Some(j),
{
    lemma_first_true(flags);
}

/// Where every flag is `false`, `first_true` is `None`.
pub proof fn lemma_first_true_none(flags: Seq<bool>)
    requires
        forall|k: int| 0 <= k < flags.len() ==> !flags[k],
    ensures
        first_true(flags) is None,
{
    lemma_first_true(flags);
}

} // verus!
