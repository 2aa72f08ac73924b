//! A set of free-text tags.
//!
//! The tags are kept in the order in which they came, each once.

use vstd::prelude::*;
use crate::text::{same_text, texts};

verus! {

/// `s` without every occurrence of `tag`.
pub open spec fn without(s: Seq<Seq<char>>, tag: Seq<char>) -> Seq<Seq<char>>
    decreases s.len(),
{
    if s.len() == 0 {
        s
    } else if s.last() == tag {
        without(s.drop_last(), tag)
    } else {
        without(s.drop_last(), tag).push(s.last())
    }
}

/// `s` with each text kept where it first occurs and dropped where it recurs.
pub open spec fn distinct(s: Seq<Seq<char>>) -> Seq<Seq<char>>
    decreases s.len(),
{
    if s.len() == 0 {
        s
    } else if distinct(s.drop_last()).contains(s.last()) {
        distinct(s.drop_last())
    } else {
        distinct(s.drop_last()).push(s.last())
    }
}

/// `s` with `tag` put at its end, unless `s` holds it already.
pub open spec fn with_tag(s: Seq<Seq<char>>, tag: Seq<char>) -> Seq<Seq<char>> {
    if s.contains(tag) {
        s
    } else {
        s.push(tag)
    }
}

/// What `without` keeps: the texts of `s` other than `tag`, in their order.
pub proof fn lemma_without(s: Seq<Seq<char>>, tag: Seq<char>)
    ensures
        !without(s, tag).contains(tag),
        forall|t: Seq<char>| t != tag ==> (#[trigger] without(s, tag).contains(t) <==> s.contains(t)),
        s.no_duplicates() ==> without(s, tag).no_duplicates(),
        !s.contains(tag) ==> without(s, tag) == s,
        without(s, tag).len() <= s.len(),
    decreases s.len(),
{
    if s.len() > 0 {
        let front = s.drop_last();
        lemma_without(front, tag);
        let w = without(s, tag);
        assert forall|t: Seq<char>| t != tag implies (#[trigger] w.contains(t) <==> s.contains(t)) by {
            if s.contains(t) {
                let i = choose|i: int| 0 <= i < s.len() && s[i] == t;
                if i < s.len() - 1 {
                    assert(front[i] == t);
                    assert(without(front, tag).contains(t));
                    let j = choose|j: int| 0 <= j < without(front, tag).len() && without(front, tag)[j] == t;
                    assert(w[j] == t);
                } else {
                    assert(w[w.len() - 1] == t);
                }
            }
            if w.contains(t) {
                let j = choose|j: int| 0 <= j < w.len() && w[j] == t;
                if j < without(front, tag).len() {
                    assert(without(front, tag)[j] == t);
                    assert(without(front, tag).contains(t));
                    assert(front.contains(t));
                    let i = choose|i: int| 0 <= i < front.len() && front[i] == t;
                    assert(s[i] == t);
                } else {
                    assert(s[s.len() - 1] == t);
                }
            }
        }
        if w.contains(tag) {
            let j = choose|j: int| 0 <= j < w.len() && w[j] == tag;
            assert(without(front, tag)[j] == tag);
        }
        if s.no_duplicates() {
            assert(front.no_duplicates());
            if s.last() != tag {
                if without(front, tag).contains(s.last()) {
                    assert(front.contains(s.last()));
                    let i = choose|i: int| 0 <= i < front.len() && front[i] == s.last();
                    assert(s[i] == s[s.len() - 1]);
                }
                assert(w.no_duplicates());
            }
        }
        if !s.contains(tag) {
            assert(s.last() == s[s.len() - 1]);
            assert(!front.contains(tag)) by {
                if front.contains(tag) {
                    let i = choose|i: int| 0 <= i < front.len() && front[i] == tag;
                    assert(s[i] == tag);
                }
            }
            assert(w =~= s);
        }
    }
}

/// What `distinct` gives: the same texts, none of them twice; a sequence
/// that holds nothing twice is left as it is.
pub proof fn lemma_distinct(s: Seq<Seq<char>>)
    ensures
        distinct(s).no_duplicates(),
        forall|t: Seq<char>| #[trigger] distinct(s).contains(t) <==> s.contains(t),
        s.no_duplicates() ==> distinct(s) == s,
        distinct(s).len() <= s.len(),
    decreases s.len(),
{
    if s.len() > 0 {
        let front = s.drop_last();
        lemma_distinct(front);
        let d = distinct(s);
        let df = distinct(front);
        assert forall|t: Seq<char>| #[trigger] d.contains(t) <==> s.contains(t) by {
            if s.contains(t) {
                let i = choose|i: int| 0 <= i < s.len() && s[i] == t;
                if i < s.len() - 1 {
                    assert(front[i] == t);
                    assert(df.contains(t));
                    let j = choose|j: int| 0 <= j < df.len() && df[j] == t;
                    assert(d[j] == t);
                } else if df.contains(t) {
                } else {
                    assert(d[d.len() - 1] == t);
                }
            }
            if d.contains(t) {
                let j = choose|j: int| 0 <= j < d.len() && d[j] == t;
                if j < df.len() {
                    assert(df[j] == t);
                    assert(df.contains(t));
                    assert(front.contains(t));
                    let i = choose|i: int| 0 <= i < front.len() && front[i] == t;
                    assert(s[i] == t);
                } else {
                    assert(s[s.len() - 1] == t);
                }
            }
        }
        if s.no_duplicates() {
            assert(front.no_duplicates());
            if front.contains(s.last()) {
                let i = choose|i: int| 0 <= i < front.len() && front[i] == s.last();
                assert(s[i] == s[s.len() - 1]);
            }
            assert(d =~= s);
        }
    }
}

/// A set of tags, in the order in which they were put in.
#[derive(Debug, Clone, PartialEq, Eq)]
pub struct TagSet {
    items: Vec<String>,
}

impl View for TagSet {
    type V = Seq<Seq<char>>;

    closed spec fn view(&self) -> Seq<Seq<char>> {
        texts(self.items@)
    }
}

impl TagSet {
    /// No tag occurs twice. Every `TagSet` that this module hands out is so.
    pub open spec fn wf(&self) -> bool {
        self@.no_duplicates()
    }

    /// The empty set.
    pub fn new() -> (r: TagSet)
        ensures
            r@ == Seq::<Seq<char>>::empty(),
            r.wf(),
    {
        let r = TagSet { items: Vec::new() };
        assert(r@ =~= Seq::<Seq<char>>::empty());
        r
    }

    /// How many tags there are.
    pub fn len(&self) -> (n: usize)
        ensures
            n == self@.len(),
    {
        self.items.len()
    }

    /// Whether there is no tag.
    pub fn is_empty(&self) -> (r: bool)
        ensures
            r == (self@.len() == 0),
    {
        self.items.len() == 0
    }

    /// Whether `tag` is in the set.
    pub fn contains(&self, tag: &str) -> (r: bool)
        ensures
            r == self@.contains(tag@),
    {
        let mut i: usize = 0;
        while i < self.items.len()
            invariant
                i <= self.items.len(),
                forall|k: int| 0 <= k < i ==> self@[k] != tag@,
            decreases self.items.len() - i,
        {
            if same_text(self.items[i].as_str(), tag) {
                assert(self@[i as int] == tag@);
                return true;
            }
            i += 1;
        }
        false
    }

    /// Puts `tag` into the set. Returns whether it was new; a tag that is
    /// there already leaves the set as it was.
    pub fn insert(&mut self, tag: String) -> (added: bool)
        ensures
            added == !old(self)@.contains(tag@),
            final(self)@ == with_tag(old(self)@, tag@),
            old(self).wf() ==> final(self).wf(),
    {
        if self.contains(tag.as_str()) {
            false
        } else {
            let ghost before = self@;
            self.items.push(tag);
            assert(self@ =~= before.push(tag@));
            proof {
                if before.no_duplicates() {
                    assert forall|i: int, j: int|
                        0 <= i < self@.len() && 0 <= j < self@.len() && i != j implies self@[i]
                        != self@[j] by {
                        if i < before.len() && j < before.len() {
                        } else if i < before.len() {
                            assert(before[i] != tag@);
                        } else {
                            assert(before[j] != tag@);
                        }
                    }
                }
            }
            true
        }
    }

    /// Takes `tag` out of the set. Returns whether it was there.
    pub fn remove(&mut self, tag: &str) -> (removed: bool)
        ensures
            removed == old(self)@.contains(tag@),
            final(self)@ == without(old(self)@, tag@),
            old(self).wf() ==> final(self).wf(),
    {
        let ghost before = self@;
        let mut kept: Vec<String> = Vec::new();
        let mut found = false;
        let mut i: usize = 0;
        assert(before.subrange(0, 0) =~= Seq::<Seq<char>>::empty());
        assert(texts(kept@) =~= Seq::<Seq<char>>::empty());
        while i < self.items.len()
            invariant
                i <= self.items.len(),
                self@ == before,
                texts(kept@) == without(before.subrange(0, i as int), tag@),
                found == before.subrange(0, i as int).contains(tag@),
            decreases self.items.len() - i,
        {
            let ghost seen = before.subrange(0, i as int);
            let ghost next = before.subrange(0, i as int + 1);
            assert(next.drop_last() =~= seen);
            assert(next.last() == before[i as int]);
            if same_text(self.items[i].as_str(), tag) {
                found = true;
                assert(next[i as int] == tag@);
            } else {
                let ghost old_kept = texts(kept@);
                kept.push(self.items[i].clone());
                assert(texts(kept@) =~= old_kept.push(before[i as int]));
                proof {
                    if next.contains(tag@) {
                        let k = choose|k: int| 0 <= k < next.len() && next[k] == tag@;
                        assert(seen[k] == tag@);
                    }
                    if seen.contains(tag@) {
                        let k = choose|k: int| 0 <= k < seen.len() && seen[k] == tag@;
                        assert(next[k] == tag@);
                    }
                }
            }
            i += 1;
        }
        assert(before.subrange(0, i as int) =~= before);
        proof {
            lemma_without(before, tag@);
        }
        self.items = kept;
        found
    }

    /// The tags, in their order.
    pub fn as_vec(&self) -> (r: &Vec<String>)
        ensures
            texts(r@) == self@,
    {
        &self.items
    }

    /// The set of the strings in `tags`: each is kept where it first occurs.
    pub fn from_vec(tags: Vec<String>) -> (r: TagSet)
        ensures
            r@ == distinct(texts(tags@)),
            r.wf(),
    {
        let ghost all = texts(tags@);
        let mut r = TagSet::new();
        let mut i: usize = 0;
        assert(all.subrange(0, 0) =~= Seq::<Seq<char>>::empty());
        while i < tags.len()
            invariant
                i <= tags.len(),
                all == texts(tags@),
                r@ == distinct(all.subrange(0, i as int)),
                r.wf(),
            decreases tags.len() - i,
        {
            let ghost next = all.subrange(0, i as int + 1);
            assert(next.drop_last() =~= all.subrange(0, i as int));
            assert(next.last() == tags@[i as int]@);
            r.insert(tags[i].clone());
            i += 1;
        }
        assert(all.subrange(0, i as int) =~= all);
        r
    }

    /// A copy of the set.
    pub fn duplicate(&self) -> (r: TagSet)
        ensures
            r@ == self@,
    {
        let mut items: Vec<String> = Vec::new();
        let mut i: usize = 0;
        while i < self.items.len()
            invariant
                i <= self.items.len(),
                items@.len() == i,
                forall|k: int| 0 <= k < i ==> items@[k]@ == self.items@[k]@,
            decreases self.items.len() - i,
        {
            items.push(self.items[i].clone());
            i += 1;
        }
        let r = TagSet { items };
        assert(r@ =~= self@);
        r
    }
}

} // verus!
