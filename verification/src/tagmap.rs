//! A map from tags to values, kept in the order of registration.

use vstd::prelude::*;
use crate::text::str_eq;

verus! {

/// The value found for `tag` in a list of entries: that of the first entry
/// under the tag.
pub open spec fn registered<H>(entries: Seq<(String, H)>, tag: Seq<char>) -> Option<H>
    decreases entries.len(),
{
    if entries.len() == 0 {
        None
    } else if entries[0].0@ == tag {
        Some(entries[0].1)
    } else {
        registered(entries.skip(1), tag)
    }
}

proof fn lemma_registered_skip<H>(entries: Seq<(String, H)>, tag: Seq<char>, n: int)
    requires
        0 <= n <= entries.len(),
        forall|k: int| 0 <= k < n ==> (#[trigger] entries[k]).0@ != tag,
    ensures
        registered(entries, tag) == registered(entries.skip(n), tag),
    decreases n,
{
    if n == 0 {
        assert(entries.skip(0) =~= entries);
    } else {
        lemma_registered_skip(entries, tag, n - 1);
        let rest = entries.skip(n - 1);
        assert(rest[0] == entries[n - 1]);
        assert(rest.skip(1) =~= entries.skip(n));
    }
}

proof fn lemma_registered_push<H>(entries: Seq<(String, H)>, entry: (String, H), tag: Seq<char>)
    ensures
        registered(entries.push(entry), tag) == (if registered(entries, tag) is Some {
            registered(entries, tag)
        } else if entry.0@ == tag {
            Some(entry.1)
        } else {
            None
        }),
    decreases entries.len(),
{
    let pushed = entries.push(entry);
    if entries.len() == 0 {
        assert(pushed[0] == entry);
        assert(pushed.skip(1) =~= Seq::<(String, H)>::empty());
        assert(registered(pushed.skip(1), tag) is None);
        assert(registered(entries, tag) is None);
    } else {
        assert(pushed[0] == entries[0]);
        assert(pushed.skip(1) =~= entries.skip(1).push(entry));
        lemma_registered_push(entries.skip(1), entry, tag);
        if entries[0].0@ == tag {
            assert(registered(entries, tag) == Some(entries[0].1));
            assert(registered(pushed, tag) == Some(entries[0].1));
        } else {
            assert(registered(entries, tag) == registered(entries.skip(1), tag));
            assert(registered(pushed, tag) == registered(pushed.skip(1), tag));
        }
    }
}

proof fn lemma_registered_update<H>(
    entries: Seq<(String, H)>,
    at: int,
    entry: (String, H),
    tag: Seq<char>,
)
    requires
        0 <= at < entries.len(),
        entries[at].0@ == entry.0@,
        forall|k: int| 0 <= k < at ==> (#[trigger] entries[k]).0@ != entry.0@,
    ensures
        registered(entries.update(at, entry), tag) == (if tag == entry.0@ {
            Some(entry.1)
        } else {
            registered(entries, tag)
        }),
    decreases at,
{
    let after = entries.update(at, entry);
    if at == 0 {
        assert(after.skip(1) =~= entries.skip(1));
    } else {
        assert(after[0] == entries[0]);
        assert(after.skip(1) =~= entries.skip(1).update(at - 1, entry));
        assert forall|k: int| 0 <= k < at - 1 implies (#[trigger] entries.skip(1)[k]).0@
            != entry.0@ by {
            assert(entries.skip(1)[k] == entries[k + 1]);
        }
        lemma_registered_update(entries.skip(1), at - 1, entry, tag);
    }
}

/// Values by tag.
pub struct TagMap<H> {
    entries: Vec<(String, H)>,
}

impl<H> TagMap<H> {
    /// The value under `tag`, if any.
    pub closed spec fn lookup(&self, tag: Seq<char>) -> Option<H> {
        registered(self.entries@, tag)
    }

    /// An empty map.
    pub fn new() -> (r: TagMap<H>)
        ensures
            forall|tag: Seq<char>| r.lookup(tag) is None,
    {
        TagMap { entries: Vec::new() }
    }

    fn position(&self, tag: &str) -> (r: Option<usize>)
        ensures
            match r {
                Some(i) => i < self.entries@.len() && self.entries@[i as int].0@ == tag@
                    && registered(self.entries@, tag@) == Some(self.entries@[i as int].1)
                    && forall|k: int| 0 <= k < i ==> (#[trigger] self.entries@[k]).0@ != tag@,
                None => registered(self.entries@, tag@) is None,
            },
    {
        let mut i: usize = 0;
        while i < self.entries.len()
            invariant
                i <= self.entries@.len(),
                forall|k: int| 0 <= k < i ==> (#[trigger] self.entries@[k]).0@ != tag@,
            decreases self.entries@.len() - i,
        {
            if str_eq(self.entries[i].0.as_str(), tag) {
                proof {
                    lemma_registered_skip(self.entries@, tag@, i as int);
                    assert(self.entries@.skip(i as int)[0] == self.entries@[i as int]);
                }
                return Some(i);
            }
            i = i + 1;
        }
        proof {
            lemma_registered_skip(self.entries@, tag@, i as int);
            assert(self.entries@.skip(i as int) =~= Seq::<(String, H)>::empty());
        }
        None
    }

    /// Puts `handler` under `tag`, in place of what was there.
    pub fn register(&mut self, tag: String, handler: H)
        ensures
            forall|t: Seq<char>|
                #[trigger] final(self).lookup(t) == (if t == tag@ {
                    Some(handler)
                } else {
                    old(self).lookup(t)
                }),
    {
        let ghost entry = (tag, handler);
        match self.position(tag.as_str()) {
            Some(i) => {
                self.entries.set(i, (tag, handler));
                proof {
                    assert forall|t: Seq<char>|
                        #[trigger] self.lookup(t) == (if t == entry.0@ {
                            Some(entry.1)
                        } else {
                            old(self).lookup(t)
                        }) by {
                        lemma_registered_update(old(self).entries@, i as int, entry, t);
                    }
                }
            },
            None => {
                self.entries.push((tag, handler));
                proof {
                    assert forall|t: Seq<char>|
                        #[trigger] self.lookup(t) == (if t == entry.0@ {
                            Some(entry.1)
                        } else {
                            old(self).lookup(t)
                        }) by {
                        lemma_registered_push(old(self).entries@, entry, t);
                    }
                }
            },
        }
    }

    /// The value under `tag`.
    pub fn get(&self, tag: &str) -> (r: Option<&H>)
        ensures
            match r {
                Some(h) => self.lookup(tag@) == Some(*h),
                None => self.lookup(tag@) is None,
            },
    {
        match self.position(tag) {
            Some(i) => Some(&self.entries[i].1),
            None => None,
        }
    }

    /// Whether a value stands under `tag`.
    pub fn contains(&self, tag: &str) -> (r: bool)
        ensures
            r == self.lookup(tag@) is Some,
    {
        self.position(tag).is_some()
    }
}

} // verus!
