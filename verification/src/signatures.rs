//! Sets of names that a probe looks for, matched exactly.

use vstd::prelude::*;

verus! {

/// The names that a vector of strings holds, each as its characters.
pub open spec fn names_of(strings: Seq<String>) -> Seq<Seq<char>> {
    Seq::new(strings.len(), |i: int| strings[i]@)
}

/// A set of names. The order of the entries and repeated entries have no
/// bearing on what the set holds.
pub struct SignatureSet {
    pub entries: Vec<String>,
}

impl View for SignatureSet {
    type V = Set<Seq<char>>;

    /// The names in the set.
    open spec fn view(&self) -> Set<Seq<char>> {
        Set::new(
            |name: Seq<char>|
                exists|i: int| 0 <= i < self.entries@.len() && (#[trigger] self.entries@[i])@ == name,
        )
    }
}

impl SignatureSet {
    /// The set holds the names of its entries and no other.
    pub proof fn lemma_view_is_names(&self)
        ensures
            self@ == names_of(self.entries@).to_set(),
    {
        let names = names_of(self.entries@);
        assert forall|name: Seq<char>| self@.contains(name) <==> names.to_set().contains(name) by {
            if self@.contains(name) {
                let k = choose|k: int|
                    0 <= k < self.entries@.len() && (#[trigger] self.entries@[k])@ == name;
                assert(names[k] == name);
            }
            if names.contains(name) {
                let k = choose|k: int| 0 <= k < names.len() && names[k] == name;
                assert(self.entries@[k]@ == name);
            }
        }
        assert(self@ =~= names.to_set());
    }

    /// The empty set.
    pub fn new() -> (s: SignatureSet)
        ensures
            s@ == Set::<Seq<char>>::empty(),
            s.entries@.len() == 0,
    {
        let s = SignatureSet { entries: Vec::new() };
        assert(s@ =~= Set::<Seq<char>>::empty());
        s
    }

    /// The set of the given names.
    pub fn from_names(names: &Vec<String>) -> (s: SignatureSet)
        ensures
            names_of(s.entries@) == names_of(names@),
            forall|name: Seq<char>| s@.contains(name) <==> names_of(names@).contains(name),
    {
        let mut s = SignatureSet { entries: Vec::new() };
        let mut i: usize = 0;
        while i < names.len()
            invariant
                0 <= i <= names.len(),
                s.entries@.len() == i,
                forall|k: int| 0 <= k < i ==> (#[trigger] s.entries@[k])@ == names@[k]@,
            decreases names.len() - i,
        {
            s.entries.push(names[i].clone());
            i += 1;
        }
        proof {
            assert(names_of(s.entries@) =~= names_of(names@));
            assert forall|name: Seq<char>| s@.contains(name) <==> names_of(names@).contains(
                name,
            ) by {
                if s@.contains(name) {
                    let k = choose|k: int|
                        0 <= k < s.entries@.len() && (#[trigger] s.entries@[k])@ == name;
                    assert(names_of(names@)[k] == name);
                }
                if names_of(names@).contains(name) {
                    let k = choose|k: int|
                        0 <= k < names_of(names@).len() && names_of(names@)[k] == name;
                    assert(s.entries@[k]@ == name);
                }
            }
        }
        s
    }

    /// Adds a name to the set.
    pub fn insert(&mut self, name: String)
        ensures
            final(self)@ == old(self)@.insert(name@),
            final(self).entries@ == old(self).entries@.push(name),
    {
        let ghost before = self.entries@;
        let ghost added = name@;
        self.entries.push(name);
        proof {
            assert forall|n: Seq<char>| self@.contains(n) <==> old(self)@.insert(added).contains(
                n,
            ) by {
                if self@.contains(n) {
                    let k = choose|k: int|
                        0 <= k < self.entries@.len() && (#[trigger] self.entries@[k])@ == n;
                    if k < before.len() {
                        assert(before[k]@ == n);
                    }
                }
                if old(self)@.contains(n) {
                    let k = choose|k: int| 0 <= k < before.len() && (#[trigger] before[k])@ == n;
                    assert(self.entries@[k]@ == n);
                }
                if n == added {
                    assert(self.entries@[before.len() as int]@ == n);
                }
            }
            assert(self@ =~= old(self)@.insert(added));
        }
    }

    /// Whether `name` is in the set: whether it equals one entry, character
    /// for character.
    pub fn contains(&self, name: &String) -> (found: bool)
        ensures
            found == self@.contains(name@),
    {
        let mut i: usize = 0;
        while i < self.entries.len()
            invariant
                0 <= i <= self.entries.len(),
                forall|k: int| 0 <= k < i ==> (#[trigger] self.entries@[k])@ != name@,
            decreases self.entries.len() - i,
        {
            if self.entries[i] == *name {
                return true;
            }
            i += 1;
        }
        false
    }

    /// How many entries the set was given, repeated ones counted each time.
    pub fn len(&self) -> (n: usize)
        ensures
            n == self.entries@.len(),
    {
        self.entries.len()
    }
}

} // verus!
