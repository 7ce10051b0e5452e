//! A set of names that is always held, and listed, in ascending order.

use crate::text::{ascending, before, lemma_before_asymmetric, lemma_before_transitive, rank, texts, Rank};
use vstd::prelude::*;

verus! {

/// A set of strings. Its view is the listing of its elements, which is
/// ascending, so that no text occurs twice in it.
pub struct StringSet {
    items: Vec<String>,
}

impl View for StringSet {
    type V = Seq<Seq<char>>;

    closed spec fn view(&self) -> Seq<Seq<char>> {
        texts(self.items@)
    }
}

impl StringSet {
    #[verifier::type_invariant]
    spec fn ordered(&self) -> bool {
        ascending(texts(self.items@))
    }

    /// The empty set.
    pub fn new() -> (r: Self)
        ensures
            r@ == Seq::<Seq<char>>::empty(),
    {
        let r = StringSet { items: Vec::new() };
        assert(texts(r.items@) =~= Seq::<Seq<char>>::empty());
        r
    }

    /// Takes every element out.
    pub fn clear(&mut self)
        ensures
            final(self)@ == Seq::<Seq<char>>::empty(),
    {
        self.items = Vec::new();
        assert(texts(self.items@) =~= Seq::<Seq<char>>::empty());
    }

    /// The number of elements.
    pub fn len(&self) -> (r: usize)
        ensures
            r == self@.len(),
            ascending(self@),
    {
        proof {
            use_type_invariant(self);
        }
        self.items.len()
    }

    /// The element at position `i` of the listing.
    pub fn get(&self, i: usize) -> (r: &String)
        requires
            i < self@.len(),
        ensures
            r@ == self@[i as int],
    {
        &self.items[i]
    }

    /// Whether `value` is an element.
    pub fn contains(&self, value: &str) -> (r: bool)
        ensures
            r == self@.contains(value@),
    {
        let mut i: usize = 0;
        while i < self.items.len()
            invariant
                i <= self.items.len(),
                forall|j: int| 0 <= j < i ==> texts(self.items@)[j] != value@,
            decreases self.items.len() - i,
        {
            if rank(self.items[i].as_str(), value) == Rank::Same {
                assert(texts(self.items@)[i as int] == value@);
                return true;
            }
            i = i + 1;
        }
        false
    }

    /// Adds `value`, and says whether it was new. The listing stays
    /// ascending.
    pub fn insert(&mut self, value: String) -> (r: bool)
        ensures
            final(self)@.to_set() == old(self)@.to_set().insert(value@),
            ascending(final(self)@),
            r == !old(self)@.contains(value@),
    {
        proof {
            use_type_invariant(&*self);
        }
        let ghost before_items = texts(self.items@);
        let mut i: usize = 0;
        let mut found = false;
        let mut stop = false;
        while i < self.items.len() && !stop
            invariant
                i <= self.items.len(),
                texts(self.items@) == before_items,
                forall|j: int| 0 <= j < i ==> before(before_items[j], value@),
                found ==> stop,
                stop ==> i < before_items.len(),
                found ==> before_items[i as int] == value@,
                stop && !found ==> before(value@, before_items[i as int]),
            decreases self.items.len() - i + (if stop { 0int } else { 1int }),
        {
            let place = rank(self.items[i].as_str(), value.as_str());
            if place == Rank::Same {
                found = true;
                stop = true;
            } else if place == Rank::After {
                stop = true;
            } else {
                i = i + 1;
            }
        }
        if found {
            proof {
                assert(before_items.contains(value@));
                assert(before_items.to_set().insert(value@) =~= before_items.to_set());
            }
            return false;
        }
        let ghost v = value@;
        let mut items: Vec<String> = Vec::new();
        assert(texts(items@) =~= Seq::<Seq<char>>::empty());
        core::mem::swap(&mut self.items, &mut items);
        items.insert(i, value);
        proof {
            let after_items = texts(items@);
            assert(after_items =~= before_items.insert(i as int, v));
            assert forall|a: int, b: int| 0 <= a < b < after_items.len() implies before(
                #[trigger] after_items[a],
                #[trigger] after_items[b],
            ) by {
                if b < i {
                    assert(before(before_items[a], before_items[b]));
                } else if b == i {
                } else if a == i {
                    if b - 1 > i {
                        assert(before(before_items[i as int], before_items[b - 1]));
                        lemma_before_transitive(v, before_items[i as int], before_items[b - 1]);
                    }
                } else if a < i {
                    assert(before(before_items[a], before_items[b - 1]));
                } else {
                    assert(before(before_items[a - 1], before_items[b - 1]));
                }
            }
            assert forall|j: int| 0 <= j < before_items.len() implies before_items[j] != v by {
                if j < i {
                    lemma_before_asymmetric(before_items[j], v);
                } else {
                    if j > i {
                        assert(before(before_items[i as int], before_items[j]));
                        lemma_before_transitive(v, before_items[i as int], before_items[j]);
                    }
                    lemma_before_asymmetric(v, before_items[j]);
                }
            }
            assert forall|x: Seq<char>|
                after_items.to_set().contains(x) == before_items.to_set().insert(v).contains(
                    x,
                ) by {
                if after_items.to_set().contains(x) {
                    let k = choose|k: int| 0 <= k < after_items.len() && after_items[k] == x;
                    if k < i {
                        assert(before_items[k] == x);
                    } else if k > i {
                        assert(before_items[k - 1] == x);
                    }
                }
                if before_items.to_set().contains(x) {
                    let k = choose|k: int| 0 <= k < before_items.len() && before_items[k] == x;
                    if k < i {
                        assert(after_items[k] == x);
                    } else {
                        assert(after_items[k + 1] == x);
                    }
                }
                if x == v {
                    assert(after_items[i as int] == x);
                }
            }
            assert(after_items.to_set() =~= before_items.to_set().insert(v));
        }
        self.items = items;
        true
    }
}

} // verus!
