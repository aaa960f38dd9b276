//! The set of URLs that some worker has already claimed.

use vstd::prelude::*;

verus! {

/// URLs claimed during one run.
///
/// A URL enters the set when it is claimed and never leaves it. Membership is
/// by exact text: two spellings of one address are two URLs.
pub struct VisitedSet {
    links: Vec<String>,
}

impl View for VisitedSet {
    type V = Set<Seq<char>>;

    closed spec fn view(&self) -> Set<Seq<char>> {
        self.texts().to_set()
    }
}

impl VisitedSet {
    /// The claimed URLs in the order of their claims.
    closed spec fn texts(&self) -> Seq<Seq<char>> {
        self.links@.map_values(|link: String| link@)
    }

    /// No URL is held twice.
    pub closed spec fn wf(&self) -> bool {
        self.texts().no_duplicates()
    }

    /// A set with no claim in it.
    pub fn new() -> (set: Self)
        ensures
            set.wf(),
            set@ == Set::<Seq<char>>::empty(),
    {
        VisitedSet { links: Vec::new() }
    }

    /// Whether `key` is held.
    fn holds(&self, key: &String) -> (found: bool)
        ensures
            found == self@.contains(key@),
    {
        let mut i: usize = 0;
        while i < self.links.len()
            invariant
                i <= self.links@.len(),
                forall|j: int| 0 <= j < i ==> self.texts()[j] != key@,
            decreases self.links@.len() - i,
        {
            if self.links[i] == *key {
                assert(self.texts()[i as int] == key@);
                return true;
            }
            i = i + 1;
        }
        false
    }

    /// Whether `url` has been claimed.
    pub fn contains(&self, url: &str) -> (found: bool)
        ensures
            found == self@.contains(url@),
    {
        let key = url.to_owned();
        self.holds(&key)
    }

    /// Claims `url`: records it, and tells whether this claim was the first.
    ///
    /// The test and the insertion are one step, so of any number of claims of
    /// one URL exactly one is told that it was first.
    pub fn claim(&mut self, url: &str) -> (first: bool)
        requires
            old(self).wf(),
        ensures
            final(self).wf(),
            first == !old(self)@.contains(url@),
            final(self)@ == old(self)@.insert(url@),
    {
        let key = url.to_owned();
        if self.holds(&key) {
            false
        } else {
            let ghost before = self.texts();
            self.links.push(key);
            assert(self.texts() =~= before.push(url@));
            proof {
                before.lemma_push_to_set_commute(url@);
            }
            true
        }
    }

    /// The number of claimed URLs.
    pub fn len(&self) -> (count: usize)
        requires
            self.wf(),
        ensures
            count == self@.len(),
    {
        proof {
            self.texts().unique_seq_to_set();
        }
        self.links.len()
    }
}

} // verus!
