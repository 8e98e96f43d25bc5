//! The animation catalog: a mapping from state name to animation definition,
//! built once from a list of pairs and read-only during playback.

use vstd::prelude::*;
use crate::defs::{AnimError, AnimationDef};

verus! {

/// The mapping denoted by a sequence of `(name, definition)` pairs, later
/// pairs overriding earlier ones with the same name (last write wins).
pub open spec fn pairs_map(s: Seq<(String, AnimationDef)>) -> Map<Seq<char>, AnimationDef>
    decreases s.len(),
{
    if s.len() == 0 {
        Map::empty()
    } else {
        pairs_map(s.drop_last()).insert(s.last().0@, s.last().1)
    }
}

/// Mapping from state name to animation definition. Construction validates
/// every definition; there is no mutation API afterwards, so a catalog only
/// ever holds valid definitions.
pub struct AnimationCatalog {
    entries: Vec<(String, AnimationDef)>,
}

impl View for AnimationCatalog {
    type V = Map<Seq<char>, AnimationDef>;

    closed spec fn view(&self) -> Map<Seq<char>, AnimationDef> {
        pairs_map(self.entries@)
    }
}

/// Every definition a pair sequence denotes comes from one of its pairs, so
/// if all pairs hold valid definitions, so does the denoted mapping.
proof fn lemma_pairs_map_valid(s: Seq<(String, AnimationDef)>)
    requires
        forall|i: int| 0 <= i < s.len() ==> (#[trigger] s[i]).1.valid(),
    ensures
        forall|k: Seq<char>|
            #[trigger] pairs_map(s).contains_key(k) ==> pairs_map(s)[k].valid(),
    decreases s.len(),
{
    if s.len() > 0 {
        assert forall|i: int| 0 <= i < s.drop_last().len() implies (#[trigger] s.drop_last()[i]).1.valid() by {
            assert(s.drop_last()[i] == s[i]);
        }
        lemma_pairs_map_valid(s.drop_last());
        assert(s[s.len() - 1].1.valid());
        assert forall|k: Seq<char>| #[trigger] pairs_map(s).contains_key(k) implies pairs_map(s)[k].valid() by {
            if k != s.last().0@ {
                assert(pairs_map(s.drop_last()).contains_key(k));
            }
        }
    }
}

impl AnimationCatalog {
    /// Builds a catalog from explicit `(name, definition)` pairs. Duplicate
    /// names are not an error: the last pair with a given name wins. Any
    /// invalid definition is refused here, before any entity could play it.
    pub fn new(pairs: Vec<(String, AnimationDef)>) -> (r: Result<AnimationCatalog, AnimError>)
        ensures
            match r {
                Ok(c) => {
                    &&& c@ == pairs_map(pairs@)
                    &&& forall|i: int| 0 <= i < pairs@.len() ==> (#[trigger] pairs@[i]).1.valid()
                    &&& forall|k: Seq<char>| #[trigger] c@.contains_key(k) ==> c@[k].valid()
                },
                Err(e) => {
                    &&& e == AnimError::InvalidDefinition
                    &&& exists|i: int| 0 <= i < pairs@.len() && !(#[trigger] pairs@[i]).1.valid()
                },
            },
    {
        let mut i: usize = 0;
        while i < pairs.len()
            invariant
                i <= pairs@.len(),
                forall|j: int| 0 <= j < i ==> (#[trigger] pairs@[j]).1.valid(),
            decreases pairs@.len() - i,
        {
            if !pairs[i].1.is_valid() {
                assert(!pairs@[i as int].1.valid());
                return Err(AnimError::InvalidDefinition);
            }
            i = i + 1;
        }
        proof {
            lemma_pairs_map_valid(pairs@);
        }
        Ok(AnimationCatalog { entries: pairs })
    }

    /// Looks a state name up, returning its definition, or `None` when the
    /// name is not a key of the catalog.
    pub fn get(&self, name: &str) -> (r: Option<AnimationDef>)
        ensures
            r == if self@.contains_key(name@) {
                Some(self@[name@])
            } else {
                None::<AnimationDef>
            },
    {
        let key: String = name.to_owned();
        let ghost all: Seq<(String, AnimationDef)> = self.entries@;
        let mut i: usize = self.entries.len();
        proof {
            assert(all.take(i as int) =~= all);
        }
        while i > 0
            invariant
                i <= all.len(),
                all == self.entries@,
                key@ == name@,
                pairs_map(all).contains_key(name@) == pairs_map(all.take(i as int)).contains_key(
                    name@,
                ),
                pairs_map(all).contains_key(name@) ==> pairs_map(all)[name@] == pairs_map(
                    all.take(i as int),
                )[name@],
            decreases i,
        {
            i = i - 1;
            proof {
                assert(all.take(i + 1).drop_last() =~= all.take(i as int));
                assert(all.take(i + 1).last() == all[i as int]);
            }
            if self.entries[i].0 == key {
                return Some(self.entries[i].1);
            }
        }
        proof {
            assert(all.take(0) =~= Seq::<(String, AnimationDef)>::empty());
        }
        None
    }
}

} // verus!
