//! Small text operations with contracts over character sequences.

use vstd::prelude::*;
use vstd::string::StringExecFns;

verus! {

/// Whether two texts hold the same characters.
pub fn same_text(a: &str, b: &str) -> (r: bool)
    ensures
        r == (a@ == b@),
{
    a.to_owned() == b.to_owned()
}

/// The text `head` followed by the text `tail`.
pub fn join(head: &str, tail: &str) -> (r: String)
    ensures
        r@ == head@ + tail@,
{
    head.to_owned().concat(tail)
}

/// The upper-case form of a text, as `str::to_uppercase` of the standard
/// library computes it from the Unicode case mappings.
pub uninterp spec fn uppercase_of(text: Seq<char>) -> Seq<char>;

/// Calls `str::to_uppercase`. Nothing is proved of this call: the contract
/// only gives the result its name, `uppercase_of` of the argument.
#[verifier::external_body]
pub(crate) fn uppercase(text: &str) -> (r: String)
    ensures
        r@ == uppercase_of(text@),
{
    text.to_uppercase()
}

/// Two texts that agree after the same suffix is appended agree.
pub proof fn lemma_same_suffix(a: Seq<char>, b: Seq<char>, suffix: Seq<char>)
    requires
        a + suffix == b + suffix,
    ensures
        a == b,
{
    assert((a + suffix).len() == a.len() + suffix.len());
    assert((b + suffix).len() == b.len() + suffix.len());
    assert forall|i: int| 0 <= i < a.len() implies a[i] == b[i] by {
        assert((a + suffix)[i] == a[i]);
        assert((b + suffix)[i] == b[i]);
    }
    assert(a =~= b);
}

} // verus!
