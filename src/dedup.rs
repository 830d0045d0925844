//! Fingerprint-based acceptance of URLs: a URL is accepted once per session.

use std::collections::HashSet;
use vstd::prelude::*;

verus! {

broadcast use vstd::std_specs::hash::group_hash_axioms;

/// The fingerprint that the session hasher gives to the text of a URL.
pub uninterp spec fn fingerprint_of(url: Seq<char>) -> u64;

/// Relies on std's `DefaultHasher`, fed the text through `Hash` and read out
/// with `Hasher::finish`. Its documentation promises that every hasher made by
/// `DefaultHasher::new` is the same, so the value depends on the text alone.
#[verifier::external_body]
fn hash(url: &str) -> (r: u64)
    ensures
        r == fingerprint_of(url@),
{
    let mut hasher = std::collections::hash_map::DefaultHasher::new();
    std::hash::Hash::hash(url, &mut hasher);
    std::hash::Hasher::finish(&hasher)
}

/// The set of fingerprints of every URL accepted so far. It only grows.
pub struct DedupSet {
    seen: HashSet<u64>,
}

impl View for DedupSet {
    type V = Set<u64>;

    closed spec fn view(&self) -> Set<u64> {
        self.seen@
    }
}

/// What accepting `url` into a set holding `seen` leaves behind, and whether
/// the URL was accepted.
pub open spec fn accept_spec(seen: Set<u64>, url: Seq<char>) -> (Set<u64>, bool) {
    (seen.insert(fingerprint_of(url)), !seen.contains(fingerprint_of(url)))
}

impl DedupSet {
    /// An empty set: nothing has been seen.
    pub fn new() -> (r: Self)
        ensures
            r@ == Set::<u64>::empty(),
    {
        DedupSet { seen: HashSet::new() }
    }

    /// Accepts `url` if its fingerprint has not been seen, and records it.
    /// A rejected URL leaves the set as it was.
    pub fn accept(&mut self, url: &str) -> (accepted: bool)
        ensures
            (final(self)@, accepted) == accept_spec(old(self)@, url@),
    {
        let fp = hash(url);
        self.seen.insert(fp)
    }

    /// Whether `url` has been accepted before (or shares a fingerprint with
    /// one that was).
    pub fn contains(&self, url: &str) -> (r: bool)
        ensures
            r == self@.contains(fingerprint_of(url@)),
    {
        let fp = hash(url);
        self.seen.contains(&fp)
    }
}

/// Accepting the same URL twice: the second call never accepts, and the first
/// accepts exactly when the URL had not been seen.
pub proof fn lemma_accept_twice(seen: Set<u64>, url: Seq<char>)
    ensures
        accept_spec(accept_spec(seen, url).0, url).1 == false,
        accept_spec(seen, url).1 == !seen.contains(fingerprint_of(url)),
        accept_spec(Set::<u64>::empty(), url).1 == true,
        accept_spec(accept_spec(seen, url).0, url).0 == accept_spec(seen, url).0,
{
    assert(accept_spec(seen, url).0.insert(fingerprint_of(url)) =~= accept_spec(seen, url).0);
}

} // verus!
