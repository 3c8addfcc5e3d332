//! A set of strings kept as a vector without repeated entries.
use vstd::prelude::*;

use crate::text::str_eq;

verus! {

/// A finite set of strings. Each string is held once.
pub struct StringSet {
    items: Vec<String>,
}

impl StringSet {
    /// The held strings, in insertion order.
    pub closed spec fn entries(&self) -> Seq<Seq<char>> {
        self.items@.map_values(|s: String| s@)
    }

    #[verifier::type_invariant]
    spec fn each_entry_once(&self) -> bool {
        self.entries().no_duplicates()
    }

    /// An empty set.
    pub fn new() -> (r: StringSet)
        ensures
            r@ == Set::<Seq<char>>::empty(),
    {
        let r = StringSet { items: Vec::new() };
        assert(r.entries() =~= Seq::<Seq<char>>::empty());
        r
    }

    /// Whether `s` is in the set.
    pub fn contains(&self, s: &str) -> (r: bool)
        ensures
            r == self@.contains(s@),
    {
        let mut i: usize = 0;
        while i < self.items.len()
            invariant
                i <= self.items@.len(),
                forall|j: int| 0 <= j < i ==> self.entries()[j] != s@,
            decreases self.items@.len() - i,
        {
            if str_eq(self.items[i].as_str(), s) {
                assert(self.entries()[i as int] == s@);
                return true;
            }
            i = i + 1;
        }
        proof {
            if self.entries().contains(s@) {
                let k = choose|k: int| 0 <= k < self.entries().len() && self.entries()[k] == s@;
                assert(self.entries()[k] != s@);
            }
        }
        false
    }

    /// Adds `s`; returns whether it was absent before.
    pub fn insert(&mut self, s: String) -> (r: bool)
        ensures
            final(self)@ == old(self)@.insert(s@),
            r == !old(self)@.contains(s@),
    {
        if self.contains(s.as_str()) {
            proof {
                assert(old(self)@.insert(s@) =~= old(self)@);
            }
            return false;
        }
        proof {
            use_type_invariant(&*self);
        }
        let ghost old_entries = self.entries();
        let ghost v = s@;
        let mut items: Vec<String> = Vec::new();
        std::mem::swap(&mut items, &mut self.items);
        items.push(s);
        proof {
            let e = items@.map_values(|t: String| t@);
            assert(e =~= old_entries.push(v));
            assert(!old_entries.contains(v));
            assert forall|i: int, j: int|
                0 <= i < e.len() && 0 <= j < e.len() && i != j implies e[i] != e[j] by {
                if i < old_entries.len() && j < old_entries.len() {
                    assert(e[i] == old_entries[i] && e[j] == old_entries[j]);
                } else if i < old_entries.len() {
                    assert(e[i] == old_entries[i]);
                } else {
                    assert(e[j] == old_entries[j]);
                }
            }
        }
        self.items = items;
        proof {
            assert(self.entries() =~= old_entries.push(v));
            assert(self.entries().to_set() =~= old_entries.to_set().insert(v)) by {
                old_entries.lemma_push_to_set_commute(v);
            }
        }
        true
    }

    /// The number of strings in the set.
    pub fn len(&self) -> (r: usize)
        ensures
            r == self@.len(),
    {
        proof {
            use_type_invariant(self);
            self.entries().unique_seq_to_set();
        }
        self.items.len()
    }
}

impl View for StringSet {
    type V = Set<Seq<char>>;

    closed spec fn view(&self) -> Set<Seq<char>> {
        self.entries().to_set()
    }
}

} // verus!
