//! The three-level taxonomy of transaction tags.

use crate::labels::{contains_label, label_seq};
use vstd::hash_map::StringHashMap;
use vstd::prelude::*;

verus! {

/// The subcategories of one category, each with its list of leaf labels.
pub struct Subcategories(pub StringHashMap<Vec<String>>);

/// The taxonomy: category, then subcategory, then the leaf labels.
pub struct Tags(pub StringHashMap<Subcategories>);

impl View for Subcategories {
    type V = Map<Seq<char>, Seq<Seq<char>>>;

    open spec fn view(&self) -> Self::V {
        Map::new(|l2: Seq<char>| self.0@.contains_key(l2), |l2: Seq<char>| label_seq(self.0@[l2]@))
    }
}

impl View for Tags {
    type V = Map<Seq<char>, Map<Seq<char>, Seq<Seq<char>>>>;

    open spec fn view(&self) -> Self::V {
        Map::new(|l1: Seq<char>| self.0@.contains_key(l1), |l1: Seq<char>| self.0@[l1]@)
    }
}

/// A triple of labels is valid in a taxonomy when the first names a category,
/// the second a subcategory of it, and the third a leaf of that subcategory.
/// Labels match only when they are the same characters.
pub open spec fn is_valid_triple(
    taxonomy: Map<Seq<char>, Map<Seq<char>, Seq<Seq<char>>>>,
    l1: Seq<char>,
    l2: Seq<char>,
    l3: Seq<char>,
) -> bool {
    &&& taxonomy.contains_key(l1)
    &&& taxonomy[l1].contains_key(l2)
    &&& taxonomy[l1][l2].contains(l3)
}

impl Subcategories {
    /// No subcategories.
    pub fn new() -> (result: Subcategories)
        ensures
            result@ == Map::<Seq<char>, Seq<Seq<char>>>::empty(),
    {
        let result = Subcategories(StringHashMap::new());
        proof {
            assert(result@ =~= Map::<Seq<char>, Seq<Seq<char>>>::empty());
        }
        result
    }

    /// Sets the leaves of subcategory `l2`, replacing those it had.
    pub fn insert(&mut self, l2: String, leaves: Vec<String>)
        ensures
            final(self)@ == old(self)@.insert(l2@, label_seq(leaves@)),
    {
        self.0.insert(l2, leaves);
        proof {
            assert(final(self)@ =~= old(self)@.insert(l2@, label_seq(leaves@)));
        }
    }
}

impl Tags {
    /// The empty taxonomy, in which no triple is valid.
    pub fn new() -> (result: Tags)
        ensures
            result@ == Map::<Seq<char>, Map<Seq<char>, Seq<Seq<char>>>>::empty(),
    {
        let result = Tags(StringHashMap::new());
        proof {
            assert(result@ =~= Map::<Seq<char>, Map<Seq<char>, Seq<Seq<char>>>>::empty());
        }
        result
    }

    /// Sets the subcategories of category `l1`, replacing those it had.
    pub fn insert(&mut self, l1: String, subcategories: Subcategories)
        ensures
            final(self)@ == old(self)@.insert(l1@, subcategories@),
    {
        self.0.insert(l1, subcategories);
        proof {
            assert(final(self)@ =~= old(self)@.insert(l1@, subcategories@));
        }
    }

    /// Whether the triple is valid in this taxonomy. The levels are looked up
    /// in order, and the first that is missing makes the answer `false`.
    pub fn verify_tags(&self, l1_tag: &str, l2_tag: &str, l3_tag: &str) -> (valid: bool)
        ensures
            valid == is_valid_triple(self@, l1_tag@, l2_tag@, l3_tag@),
    {
        let level_2 = match self.0.get(l1_tag) {
            Some(level_2) => level_2,
            None => {
                return false;
            },
        };
        let level_3 = match level_2.0.get(l2_tag) {
            Some(level_3) => level_3,
            None => {
                return false;
            },
        };
        contains_label(level_3.as_slice(), l3_tag)
    }
}

} // verus!
