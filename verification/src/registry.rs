//! The shared image registry: the mapping from image reference to assigned
//! container id, written once at the end of each successful pull. Its view is
//! a map; recording overwrites any prior mapping for the same reference
//! (last-writer-wins), and this core never removes an entry.

use vstd::prelude::*;
use vstd::string::StringExecFns;

use crate::strutil::str_eq;

verus! {

struct RegistryEntry {
    image: String,
    cid: String,
}

/// The map a sequence of recordings denotes: later entries shadow earlier
/// ones with the same image reference.
spec fn entries_map(s: Seq<(Seq<char>, Seq<char>)>) -> Map<Seq<char>, Seq<char>>
    decreases s.len(),
{
    if s.len() == 0 {
        Map::empty()
    } else {
        entries_map(s.drop_last()).insert(s.last().0, s.last().1)
    }
}

pub struct ImageRegistry {
    entries: Vec<RegistryEntry>,
}

impl ImageRegistry {
    pub closed spec fn view(&self) -> Map<Seq<char>, Seq<char>> {
        entries_map(self.entries@.map_values(|e: RegistryEntry| (e.image@, e.cid@)))
    }

    pub fn new() -> (r: Self)
        ensures
            r@ == Map::<Seq<char>, Seq<char>>::empty(),
    {
        let r = ImageRegistry { entries: Vec::new() };
        proof {
            assert(r.entries@.map_values(|e: RegistryEntry| (e.image@, e.cid@)) =~= Seq::empty());
        }
        r
    }

    /// Records the id assigned to an image reference, overwriting any prior
    /// mapping for the same reference.
    pub fn record(&mut self, image: &str, cid: &str)
        ensures
            final(self)@ == old(self)@.insert(image@, cid@),
    {
        let ghost pre = self.entries@.map_values(|e: RegistryEntry| (e.image@, e.cid@));
        self.entries.push(
            RegistryEntry { image: String::from_str(image), cid: String::from_str(cid) },
        );
        proof {
            let post = self.entries@.map_values(|e: RegistryEntry| (e.image@, e.cid@));
            assert(post.drop_last() =~= pre);
            assert(post.last() == (image@, cid@));
        }
    }

    /// The id recorded for an image reference, if any: the most recent one.
    pub fn lookup(&self, image: &str) -> (r: Option<&String>)
        ensures
            match r {
                Some(cid) => self@.contains_key(image@) && cid@ == self@[image@],
                None => !self@.contains_key(image@),
            },
    {
        let ghost all = self.entries@.map_values(|e: RegistryEntry| (e.image@, e.cid@));
        let n: usize = self.entries.len();
        let mut i: usize = n;
        while i > 0
            invariant
                n == self.entries@.len(),
                i <= n,
                all == self.entries@.map_values(|e: RegistryEntry| (e.image@, e.cid@)),
                forall|j: int| i <= j < n ==> all[j].0 != image@,
            decreases i,
        {
            if str_eq(self.entries[i - 1].image.as_str(), image) {
                proof {
                    lemma_unmatched_suffix(all, image@, i as int);
                    assert(all.subrange(0, i as int).last() == all[i - 1]);
                    assert(all.subrange(0, i as int).drop_last() =~= all.subrange(0, i - 1));
                }
                return Some(&self.entries[i - 1].cid);
            }
            i = i - 1;
        }
        proof {
            lemma_unmatched_suffix(all, image@, 0);
            assert(all.subrange(0, 0) =~= Seq::<(Seq<char>, Seq<char>)>::empty());
        }
        None
    }
}

/// When no entry at or after position `i` carries the key, the denoted map
/// agrees at that key with the map of the first `i` entries.
proof fn lemma_unmatched_suffix(s: Seq<(Seq<char>, Seq<char>)>, key: Seq<char>, i: int)
    requires
        0 <= i <= s.len(),
        forall|j: int| i <= j < s.len() ==> s[j].0 != key,
    ensures
        entries_map(s).contains_key(key) == entries_map(s.subrange(0, i)).contains_key(key),
        entries_map(s).contains_key(key) ==> entries_map(s)[key] == entries_map(
            s.subrange(0, i),
        )[key],
    decreases s.len() - i,
{
    if i < s.len() {
        lemma_unmatched_suffix(s.drop_last(), key, i);
        assert(s.drop_last().subrange(0, i) =~= s.subrange(0, i));
    } else {
        assert(s.subrange(0, i) =~= s);
    }
}

} // verus!
