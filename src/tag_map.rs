//! A mapping from tags to entries, kept in strictly ascending tag order.
use vstd::prelude::*;

use crate::order::{lemma_text_lt_irreflexive, lemma_text_lt_total, lemma_text_lt_transitive, text_less, text_lt};

verus! {

/// The tags of `s` ascend strictly.
pub open spec fn tags_ascending<E>(s: Seq<(String, E)>) -> bool {
    forall|i: int, j: int| 0 <= i < j < s.len() ==> text_lt(#[trigger] s[i].0@, #[trigger] s[j].0@)
}

/// Some entry of `s` has the tag `t`.
pub open spec fn has_tag<E>(s: Seq<(String, E)>, t: Seq<char>) -> bool {
    exists|i: int| 0 <= i < s.len() && (#[trigger] s[i]).0@ == t
}

pub struct TagMap<E> {
    entries: Vec<(String, E)>,
}

impl<E> TagMap<E> {
    /// The entries, in the order they are walked.
    pub closed spec fn entries(&self) -> Seq<(String, E)> {
        self.entries@
    }

    /// Tags are unique and ascend.
    pub open spec fn wf(&self) -> bool {
        tags_ascending(self.entries())
    }

    pub fn new() -> (r: Self)
        ensures
            r.entries() == Seq::<(String, E)>::empty(),
            r.wf(),
    {
        TagMap { entries: Vec::new() }
    }

    pub fn len(&self) -> (r: usize)
        ensures
            r == self.entries().len(),
    {
        self.entries.len()
    }

    pub fn is_empty(&self) -> (r: bool)
        ensures
            r == (self.entries().len() == 0),
    {
        self.entries.len() == 0
    }

    /// The entry at position `i` in ascending tag order.
    pub fn entry(&self, i: usize) -> (r: &(String, E))
        requires
            i < self.entries().len(),
        ensures
            *r == self.entries()[i as int],
    {
        &self.entries[i]
    }

    /// Adds `value` under `tag` at its place in tag order. A tag that is
    /// already present is refused and the map is left as it was.
    pub fn insert(&mut self, tag: String, value: E) -> (r: bool)
        requires
            old(self).wf(),
        ensures
            final(self).wf(),
            r == !has_tag(old(self).entries(), tag@),
            !r ==> final(self).entries() == old(self).entries(),
            r ==> exists|j: int|
                0 <= j <= old(self).entries().len() && final(self).entries() == old(
                    self,
                ).entries().insert(j, (tag, value)),
    {
        let n = self.entries.len();
        let mut j: usize = 0;
        while j < n
            invariant
                n == self.entries@.len(),
                j <= n,
                tags_ascending(self.entries@),
                forall|k: int| 0 <= k < j ==> text_lt(#[trigger] self.entries@[k].0@, tag@),
            ensures
                j <= n,
                forall|k: int| 0 <= k < j ==> text_lt(#[trigger] self.entries@[k].0@, tag@),
                j < n ==> !text_lt(self.entries@[j as int].0@, tag@),
            decreases n - j,
        {
            if !text_less(self.entries[j].0.as_str(), tag.as_str()) {
                break;
            }
            j = j + 1;
        }
        let ghost s = self.entries@;
        if j < n && !text_less(tag.as_str(), self.entries[j].0.as_str()) {
            proof {
                lemma_text_lt_total(s[j as int].0@, tag@);
                assert(s[j as int].0@ == tag@);
            }
            return false;
        }
        proof {
            assert forall|k: int| j <= k < n implies text_lt(tag@, #[trigger] s[k].0@) by {
                if k > j {
                    lemma_text_lt_transitive(tag@, s[j as int].0@, s[k].0@);
                }
            }
            assert forall|k: int| 0 <= k < s.len() implies (#[trigger] s[k]).0@ != tag@ by {
                lemma_text_lt_irreflexive(tag@);
            }
        }
        let ghost pair = (tag, value);
        self.entries.insert(j, (tag, value));
        proof {
            let t = self.entries@;
            assert(t == s.insert(j as int, pair));
            assert forall|p: int, q: int| 0 <= p < q < t.len() implies text_lt(
                #[trigger] t[p].0@,
                #[trigger] t[q].0@,
            ) by {
                if p < j && q > j {
                    assert(t[q] == s[q - 1]);
                    lemma_text_lt_transitive(t[p].0@, tag@, t[q].0@);
                } else if p < j && q < j {
                    assert(t[p] == s[p] && t[q] == s[q]);
                } else if p > j {
                    assert(t[p] == s[p - 1] && t[q] == s[q - 1]);
                } else if p == j {
                    assert(t[q] == s[q - 1]);
                } else {
                    assert(t[p] == s[p]);
                }
            }
        }
        true
    }
}

} // verus!
