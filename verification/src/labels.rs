//! Lists of labels, compared character by character.

use vstd::prelude::*;

verus! {

/// The labels of a sequence of strings, as mathematical sequences.
pub open spec fn label_seq(labels: Seq<String>) -> Seq<Seq<char>> {
    Seq::new(labels.len(), |i: int| labels[i]@)
}

/// Whether two pieces of text hold the same characters.
pub fn same_text(left: &str, right: &str) -> (same: bool)
    ensures
        same == (left@ == right@),
{
    left.to_owned() == right.to_owned()
}

/// Whether `label` is among `labels`. Nothing is trimmed or folded: a label
/// matches only the same characters.
pub fn contains_label(labels: &[String], label: &str) -> (found: bool)
    ensures
        found == label_seq(labels@).contains(label@),
{
    let wanted = label.to_owned();
    let mut i: usize = 0;
    while i < labels.len()
        invariant
            0 <= i <= labels@.len(),
            wanted@ == label@,
            forall|j: int| 0 <= j < i ==> labels@[j]@ != label@,
        decreases labels@.len() - i,
    {
        if labels[i] == wanted {
            proof {
                assert(label_seq(labels@)[i as int] == label@);
            }
            return true;
        }
        i = i + 1;
    }
    proof {
        assert forall|j: int| 0 <= j < label_seq(labels@).len() implies label_seq(labels@)[j]
            != label@ by {
            assert(labels@[j]@ != label@);
        }
    }
    false
}

} // verus!
