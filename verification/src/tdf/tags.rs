//! The set of status tags that an evaluation collects.

use vstd::prelude::*;
use crate::text::{
    comes_before, lemma_precedes_irreflexive, lemma_precedes_total, lemma_precedes_transitive,
    precedes, same_text, texts,
};

verus! {

/// Each text of the sequence precedes all that follow it.
pub open spec fn ascending(s: Seq<Seq<char>>) -> bool {
    forall|i: int, j: int| 0 <= i < j < s.len() ==> precedes(#[trigger] s[i], #[trigger] s[j])
}

/// An ascending sequence holds nothing twice.
pub proof fn lemma_ascending_distinct(s: Seq<Seq<char>>)
    requires
        ascending(s),
    ensures
        s.no_duplicates(),
{
    assert forall|i: int, j: int| 0 <= i < s.len() && 0 <= j < s.len() && i != j implies s[i]
        != s[j] by {
        lemma_precedes_irreflexive(s[i]);
        if i < j {
            assert(precedes(s[i], s[j]));
        } else {
            assert(precedes(s[j], s[i]));
        }
    }
}

/// Putting a text between what precedes it and what it precedes keeps the order and
/// adds the text to the set of values.
proof fn lemma_insert_at(s: Seq<Seq<char>>, i: int, t: Seq<char>)
    requires
        ascending(s),
        0 <= i <= s.len(),
        forall|k: int| 0 <= k < i ==> precedes(#[trigger] s[k], t),
        i < s.len() ==> precedes(t, s[i]),
    ensures
        ascending(s.insert(i, t)),
        s.insert(i, t).to_set() == s.to_set().insert(t),
{
    let after = s.insert(i, t);
    assert forall|a: int, b: int| 0 <= a < b < after.len() implies precedes(
        #[trigger] after[a],
        #[trigger] after[b],
    ) by {
        if b < i {
            assert(precedes(s[a], s[b]));
        } else if b == i {
            assert(precedes(s[a], t));
        } else if a < i {
            assert(precedes(s[a], t));
            assert(precedes(t, s[i]));
            lemma_precedes_transitive(s[a], t, s[i]);
            if b - 1 > i {
                assert(precedes(s[i], s[b - 1]));
                lemma_precedes_transitive(s[a], s[i], s[b - 1]);
            }
        } else if a == i {
            assert(precedes(t, s[i]));
            if b - 1 > i {
                assert(precedes(s[i], s[b - 1]));
                lemma_precedes_transitive(t, s[i], s[b - 1]);
            }
        } else {
            assert(precedes(s[a - 1], s[b - 1]));
        }
    }
    assert forall|x: Seq<char>| after.to_set().contains(x) <==> s.to_set().insert(t).contains(
        x,
    ) by {
        if after.contains(x) {
            let k = choose|k: int| 0 <= k < after.len() && after[k] == x;
            if k < i {
                assert(s[k] == x);
            } else if k > i {
                assert(s[k - 1] == x);
            }
        }
        if s.contains(x) {
            let k = choose|k: int| 0 <= k < s.len() && s[k] == x;
            if k < i {
                assert(after[k] == x);
            } else {
                assert(after[k + 1] == x);
            }
        }
        if x == t {
            assert(after[i] == x);
        }
    }
    assert(after.to_set() =~= s.to_set().insert(t));
}

/// Dropping one position of an ascending sequence keeps the order and takes the value
/// out of the set of values.
proof fn lemma_remove_at(s: Seq<Seq<char>>, i: int)
    requires
        ascending(s),
        0 <= i < s.len(),
    ensures
        ascending(s.remove(i)),
        s.remove(i).to_set() == s.to_set().remove(s[i]),
{
    let after = s.remove(i);
    lemma_ascending_distinct(s);
    assert forall|a: int, b: int| 0 <= a < b < after.len() implies precedes(
        #[trigger] after[a],
        #[trigger] after[b],
    ) by {
        let a0 = if a < i { a } else { a + 1 };
        let b0 = if b < i { b } else { b + 1 };
        assert(precedes(s[a0], s[b0]));
    }
    assert forall|x: Seq<char>| after.to_set().contains(x) <==> s.to_set().remove(s[i]).contains(
        x,
    ) by {
        if after.contains(x) {
            let k = choose|k: int| 0 <= k < after.len() && after[k] == x;
            if k < i {
                assert(s[k] == x);
            } else {
                assert(s[k + 1] == x);
            }
        }
        if s.contains(x) && x != s[i] {
            let k = choose|k: int| 0 <= k < s.len() && s[k] == x;
            if k < i {
                assert(after[k] == x);
            } else {
                assert(after[k - 1] == x);
            }
        }
    }
    assert(after.to_set() =~= s.to_set().remove(s[i]));
}

/// A finite set of tags, kept in the order of texts. Its view is the set of the
/// tags' texts.
pub struct TagSet {
    tags: Vec<String>,
}

impl View for TagSet {
    type V = Set<Seq<char>>;

    closed spec fn view(&self) -> Set<Seq<char>> {
        self.names().to_set()
    }
}

impl TagSet {
    pub closed spec fn names(&self) -> Seq<Seq<char>> {
        texts(self.tags@)
    }

    /// The tags are held in ascending order, and so none twice.
    pub closed spec fn wf(&self) -> bool {
        ascending(self.names())
    }

    /// The empty set.
    pub fn new() -> (s: TagSet)
        ensures
            s.wf(),
            s@ == Set::<Seq<char>>::empty(),
    {
        let s = TagSet { tags: Vec::new() };
        assert(s.names() =~= Seq::<Seq<char>>::empty());
        assert(s@ =~= Set::<Seq<char>>::empty());
        s
    }

    fn position(&self, tag: &str) -> (r: Option<usize>)
        ensures
            match r {
                Some(i) => i < self.names().len() && self.names()[i as int] == tag@,
                None => !self.names().contains(tag@),
            },
    {
        let mut i: usize = 0;
        while i < self.tags.len()
            invariant
                i <= self.tags@.len(),
                forall|k: int| 0 <= k < i ==> self.names()[k] != tag@,
            decreases self.tags@.len() - i,
        {
            if same_text(self.tags[i].as_str(), tag) {
                return Some(i);
            }
            i += 1;
        }
        None
    }

    /// Whether the tag is in the set.
    pub fn contains(&self, tag: &str) -> (r: bool)
        ensures
            r == self@.contains(tag@),
    {
        self.position(tag).is_some()
    }

    /// Adds a tag; one that is already there is left alone.
    pub fn insert(&mut self, tag: &str)
        requires
            old(self).wf(),
        ensures
            final(self).wf(),
            final(self)@ == old(self)@.insert(tag@),
    {
        let ghost before = self.names();
        let mut i: usize = 0;
        while i < self.tags.len() && comes_before(self.tags[i].as_str(), tag)
            invariant
                i <= self.tags@.len(),
                self.names() == before,
                *self == *old(self),
                forall|k: int| 0 <= k < i ==> precedes(#[trigger] before[k], tag@),
            decreases self.tags@.len() - i,
        {
            i += 1;
        }
        if i < self.tags.len() && same_text(self.tags[i].as_str(), tag) {
            assert(before[i as int] == tag@);
            assert(self@ =~= old(self)@.insert(tag@));
        } else {
            proof {
                if i < before.len() {
                    lemma_precedes_total(tag@, before[i as int]);
                }
                lemma_insert_at(before, i as int, tag@);
            }
            self.tags.insert(i, tag.to_owned());
            assert(self.names() =~= before.insert(i as int, tag@));
        }
    }

    /// How many tags the set holds.
    pub fn len(&self) -> (n: usize)
        requires
            self.wf(),
        ensures
            n == self@.len(),
            self@.finite(),
    {
        proof {
            lemma_ascending_distinct(self.names());
            self.names().unique_seq_to_set();
        }
        self.tags.len()
    }

    /// The tags as a list, in ascending order.
    pub fn into_vec(self) -> (v: Vec<String>)
        requires
            self.wf(),
        ensures
            ascending(texts(v@)),
            texts(v@).to_set() == self@,
    {
        self.tags
    }

    /// Takes a tag out; one that is not there changes nothing.
    pub fn remove(&mut self, tag: &str)
        requires
            old(self).wf(),
        ensures
            final(self).wf(),
            final(self)@ == old(self)@.remove(tag@),
    {
        match self.position(tag) {
            Some(i) => {
                let ghost before = self.names();
                self.tags.remove(i);
                assert(self.names() =~= before.remove(i as int));
                proof {
                    lemma_remove_at(before, i as int);
                }
            },
            None => {
                assert(self@ =~= old(self)@.remove(tag@));
            },
        }
    }
}

} // verus!
