//! The buffer-maintenance loop as a state machine: given the current state
//! and what just happened, it says what to do next. The caller performs the
//! action (a fetch, enqueueing, a wait) and reports back with the next event.

use crate::dedup::{accept_spec, fingerprint_of, DedupSet};
use crate::feed::{urls_view, SourceError};
use vstd::prelude::*;

verus! {

/// Seconds to wait after a failed refill before listening for events again.
pub const BACKOFF_SECS: u64 = 5;

/// Where the loop stands.
#[derive(Debug, Clone, Copy, PartialEq, Eq, Structural)]
pub enum Phase {
    /// The initial fetch is outstanding; nothing plays yet.
    Filling,
    /// The player advances; the loop waits for its events.
    Playing,
    /// A refill fetch is outstanding.
    Refilling,
    /// A refill failed; the loop waits before listening again.
    Backoff,
    /// The loop has stopped.
    Terminal,
}

/// The player's queue as read after an item ended.
#[derive(Debug, Clone, Copy, PartialEq, Eq, Structural)]
pub struct QueueStats {
    pub length: usize,
    pub position: usize,
}

/// Why the loop stopped.
#[derive(Debug, Clone, Copy, PartialEq, Eq, Structural)]
pub enum LoopError {
    /// The initial fetch failed: there is nothing to play.
    FetchFailed(SourceError),
    /// The player's control channel failed.
    PlayerUnavailable,
}

/// What happened since the last action.
#[derive(Debug, Clone, PartialEq, Eq)]
pub enum Event {
    /// The outstanding fetch succeeded with these URLs, in arrival order.
    Fetched(Vec<String>),
    /// The outstanding fetch failed.
    FetchFailed(SourceError),
    /// The current item ended; the queue stood as given.
    ItemEnded(QueueStats),
    /// The player reported something else.
    OtherPlayerEvent,
    /// The backoff wait is over.
    BackoffElapsed,
    /// A call to the player failed.
    PlayerFailed,
}

/// What the caller is to do next.
#[derive(Debug, Clone, PartialEq, Eq)]
pub enum Action {
    /// Fetch the next page of at most `limit` items.
    Fetch { limit: usize },
    /// Append these URLs to the player's queue in order; then, if
    /// `start_playback`, start playing at position 0.
    Enqueue { urls: Vec<String>, start_playback: bool },
    /// Wait for the player's next event.
    WaitForEvent,
    /// Report the error, wait this many seconds, then send `BackoffElapsed`.
    Backoff { error: SourceError, seconds: u64 },
    /// Stop with this error.
    Terminate(LoopError),
    /// The loop has already stopped; nothing more is done.
    Stop,
}

/// Whether the queue is low enough to ask for more: what remains after the
/// current position is at most the low watermark.
pub open spec fn needs_refill(stats: QueueStats, low_watermark: usize) -> bool {
    stats.length - stats.position <= low_watermark
}

/// The phase that follows `ph` on `event`, for a loop with the given low
/// watermark.
pub open spec fn phase_after(ph: Phase, event: Event, low_watermark: usize) -> Phase {
    if ph == Phase::Terminal {
        Phase::Terminal
    } else {
        match event {
            Event::Fetched(_) => if ph == Phase::Filling || ph == Phase::Refilling {
                Phase::Playing
            } else {
                ph
            },
            Event::FetchFailed(_) => if ph == Phase::Filling {
                Phase::Terminal
            } else if ph == Phase::Refilling {
                Phase::Backoff
            } else {
                ph
            },
            Event::ItemEnded(stats) => if ph == Phase::Playing && needs_refill(stats, low_watermark) {
                Phase::Refilling
            } else {
                ph
            },
            Event::BackoffElapsed => if ph == Phase::Backoff {
                Phase::Playing
            } else {
                ph
            },
            Event::PlayerFailed => Phase::Terminal,
            Event::OtherPlayerEvent => ph,
        }
    }
}

/// Passes each URL of `urls` in order through the set of fingerprints `seen`:
/// empty URLs are skipped, the others are accepted when new. Gives the set
/// afterwards and the accepted URLs in order.
pub open spec fn accept_run(seen: Set<u64>, urls: Seq<Seq<char>>) -> (Set<u64>, Seq<Seq<char>>)
    decreases urls.len(),
{
    if urls.len() == 0 {
        (seen, Seq::empty())
    } else {
        let (s, acc) = accept_run(seen, urls.drop_last());
        let u = urls.last();
        if u.len() == 0 {
            (s, acc)
        } else {
            let (s2, new) = accept_spec(s, u);
            (s2, if new { acc.push(u) } else { acc })
        }
    }
}

/// No two URLs of `h` share a fingerprint, and each one's fingerprint is in
/// `seen`.
pub open spec fn distinct_in(h: Seq<Seq<char>>, seen: Set<u64>) -> bool {
    &&& forall|i: int, j: int|
        0 <= i < j < h.len() ==> fingerprint_of(#[trigger] h[i]) != fingerprint_of(#[trigger] h[j])
    &&& forall|i: int| 0 <= i < h.len() ==> seen.contains(fingerprint_of(#[trigger] h[i]))
}

/// Whether `a` is an `Enqueue` of exactly `urls`, with the given playback flag.
pub open spec fn enqueues(a: Action, urls: Seq<Seq<char>>, start: bool) -> bool {
    match a {
        Action::Enqueue { urls: u, start_playback } => urls_view(u@) == urls && start_playback == start,
        _ => false,
    }
}

/// Accepting a run of URLs keeps the history distinct: what was already
/// handed out stays known, and what is newly accepted is new and distinct.
proof fn lemma_accept_run_distinct(seen: Set<u64>, urls: Seq<Seq<char>>, h: Seq<Seq<char>>)
    requires
        distinct_in(h, seen),
    ensures
        distinct_in(h + accept_run(seen, urls).1, accept_run(seen, urls).0),
        seen.subset_of(accept_run(seen, urls).0),
    decreases urls.len(),
{
    if urls.len() > 0 {
        lemma_accept_run_distinct(seen, urls.drop_last(), h);
        let (s, acc) = accept_run(seen, urls.drop_last());
        let u = urls.last();
        if u.len() != 0 && !s.contains(fingerprint_of(u)) {
            let h2 = h + acc.push(u);
            assert(h2 =~= (h + acc).push(u));
            let s2 = s.insert(fingerprint_of(u));
            assert forall|i: int| 0 <= i < h2.len() implies s2.contains(fingerprint_of(#[trigger] h2[i])) by {
                if i < h2.len() - 1 {
                    assert(h2[i] == (h + acc)[i]);
                }
            }
            assert forall|i: int, j: int|
                0 <= i < j < h2.len() implies fingerprint_of(#[trigger] h2[i]) != fingerprint_of(#[trigger] h2[j]) by {
                assert(h2[i] == (h + acc)[i]);
                if j < h2.len() - 1 {
                    assert(h2[j] == (h + acc)[j]);
                }
            }
        }
    }
}

/// Passes `urls` through `seen` as `accept_run` describes, in place.
pub fn accept_batch(seen: &mut DedupSet, urls: Vec<String>) -> (accepted: Vec<String>)
    ensures
        (final(seen)@, urls_view(accepted@)) == accept_run(old(seen)@, urls_view(urls@)),
{
    let mut accepted: Vec<String> = Vec::new();
    let mut i: usize = 0;
    while i < urls.len()
        invariant
            i <= urls.len(),
            (seen@, urls_view(accepted@)) == accept_run(old(seen)@, urls_view(urls@).take(i as int)),
        decreases urls.len() - i,
    {
        let ghost before = accepted@;
        assert(urls_view(urls@).take(i as int + 1).drop_last() == urls_view(urls@).take(i as int));
        let u = &urls[i];
        if !u.as_str().is_empty() {
            let ghost s = seen@;
            let new = seen.accept(u.as_str());
            if new {
                accepted.push(u.clone());
                assert(urls_view(accepted@) =~= urls_view(before).push(u@));
            } else {
                assert(seen@ =~= s);
            }
        }
        i = i + 1;
    }
    assert(urls_view(urls@).take(urls.len() as int) =~= urls_view(urls@));
    accepted
}

/// The loop's state: its configuration, its phase and the fingerprints of
/// every URL handed to the player so far.
pub struct BufferLoop {
    low_watermark: usize,
    refill_size: usize,
    phase: Phase,
    seen: DedupSet,
    history: Ghost<Seq<Seq<char>>>,
}

impl BufferLoop {
    /// The remaining-queue length at or below which a refill is fetched.
    pub closed spec fn low_watermark(&self) -> usize {
        self.low_watermark
    }

    /// The number of items asked for per fetch.
    pub closed spec fn refill_size(&self) -> usize {
        self.refill_size
    }

    pub closed spec fn phase(&self) -> Phase {
        self.phase
    }

    /// The fingerprints of the URLs accepted so far.
    pub closed spec fn seen(&self) -> Set<u64> {
        self.seen@
    }

    /// Every URL handed to the player so far, in order.
    pub closed spec fn history(&self) -> Seq<Seq<char>> {
        self.history@
    }

    pub closed spec fn wf(&self) -> bool {
        &&& self.refill_size > 0
        &&& distinct_in(self.history@, self.seen@)
    }

    /// A loop about to make its initial fetch, with nothing seen yet.
    pub fn new(low_watermark: usize, refill_size: usize) -> (r: Self)
        requires
            refill_size > 0,
        ensures
            r.wf(),
            r.low_watermark() == low_watermark,
            r.refill_size() == refill_size,
            r.phase() == Phase::Filling,
            r.seen() == Set::<u64>::empty(),
            r.history() == Seq::<Seq<char>>::empty(),
    {
        BufferLoop {
            low_watermark,
            refill_size,
            phase: Phase::Filling,
            seen: DedupSet::new(),
            history: Ghost(Seq::empty()),
        }
    }

    pub fn phase_of(&self) -> (r: Phase)
        ensures
            r == self.phase(),
    {
        self.phase
    }

    /// The first action: while filling, fetch a page of the refill size;
    /// once past that, wait for an event.
    pub fn start(&self) -> (r: Action)
        ensures
            self.phase() == Phase::Filling ==> r == (Action::Fetch { limit: self.refill_size() }),
            self.phase() != Phase::Filling ==> r == Action::WaitForEvent,
    {
        if self.phase == Phase::Filling {
            Action::Fetch { limit: self.refill_size }
        } else {
            Action::WaitForEvent
        }
    }

    /// Takes in one event and gives the next action.
    ///
    /// - A fetch that succeeds while filling or refilling hands the new URLs
    ///   over (starting playback after the initial fill) and returns to
    ///   playing.
    /// - A failed initial fetch stops the loop; a failed refill waits out the
    ///   backoff and then returns to playing, without retrying at once.
    /// - The end of an item, while playing, starts a refill when the queue is
    ///   at or below the low watermark.
    /// - A player failure stops the loop. Any other event changes nothing.
    /// - Once stopped, the loop stays stopped and answers `Stop`.
    pub fn step(&mut self, event: Event) -> (r: Action)
        requires
            old(self).wf(),
        ensures
            final(self).wf(),
            final(self).low_watermark() == old(self).low_watermark(),
            final(self).refill_size() == old(self).refill_size(),
            final(self).phase() == phase_after(old(self).phase(), event, old(self).low_watermark()),
            old(self).phase() != Phase::Terminal ==> ({
                let o = *old(self);
                let f = *final(self);
                let ph = o.phase();
                match event {
                    Event::Fetched(urls) => if ph == Phase::Filling || ph == Phase::Refilling {
                        let (s, acc) = accept_run(o.seen(), urls_view(urls@));
                        &&& f.phase() == Phase::Playing
                        &&& f.seen() == s
                        &&& f.history() == o.history() + acc
                        &&& enqueues(r, acc, ph == Phase::Filling)
                    } else {
                        f == o && r == Action::WaitForEvent
                    },
                    Event::FetchFailed(e) => if ph == Phase::Filling {
                        &&& f.phase() == Phase::Terminal
                        &&& f.seen() == o.seen() && f.history() == o.history()
                        &&& r == Action::Terminate(LoopError::FetchFailed(e))
                    } else if ph == Phase::Refilling {
                        &&& f.phase() == Phase::Backoff
                        &&& f.seen() == o.seen() && f.history() == o.history()
                        &&& r == (Action::Backoff { error: e, seconds: BACKOFF_SECS })
                    } else {
                        f == o && r == Action::WaitForEvent
                    },
                    Event::ItemEnded(stats) => if ph == Phase::Playing && needs_refill(stats, o.low_watermark()) {
                        &&& f.phase() == Phase::Refilling
                        &&& f.seen() == o.seen() && f.history() == o.history()
                        &&& r == (Action::Fetch { limit: o.refill_size() })
                    } else {
                        f == o && r == Action::WaitForEvent
                    },
                    Event::BackoffElapsed => if ph == Phase::Backoff {
                        &&& f.phase() == Phase::Playing
                        &&& f.seen() == o.seen() && f.history() == o.history()
                        &&& r == Action::WaitForEvent
                    } else {
                        f == o && r == Action::WaitForEvent
                    },
                    Event::PlayerFailed => {
                        &&& f.phase() == Phase::Terminal
                        &&& f.seen() == o.seen() && f.history() == o.history()
                        &&& r == Action::Terminate(LoopError::PlayerUnavailable)
                    },
                    Event::OtherPlayerEvent => f == o && r == Action::WaitForEvent,
                }
            }),
            old(self).phase() == Phase::Terminal ==> *final(self) == *old(self) && r == Action::Stop,
    {
        if self.phase == Phase::Terminal {
            return Action::Stop;
        }
        match event {
            Event::Fetched(urls) => {
                if self.phase == Phase::Filling || self.phase == Phase::Refilling {
                    let start_playback = self.phase == Phase::Filling;
                    let ghost s0 = self.seen@;
                    proof {
                        lemma_accept_run_distinct(s0, urls_view(urls@), self.history@);
                    }
                    let accepted = accept_batch(&mut self.seen, urls);
                    self.history = Ghost(self.history@ + urls_view(accepted@));
                    self.phase = Phase::Playing;
                    Action::Enqueue { urls: accepted, start_playback }
                } else {
                    Action::WaitForEvent
                }
            },
            Event::FetchFailed(e) => {
                if self.phase == Phase::Filling {
                    self.phase = Phase::Terminal;
                    Action::Terminate(LoopError::FetchFailed(e))
                } else if self.phase == Phase::Refilling {
                    self.phase = Phase::Backoff;
                    Action::Backoff { error: e, seconds: BACKOFF_SECS }
                } else {
                    Action::WaitForEvent
                }
            },
            Event::ItemEnded(stats) => {
                if self.phase == Phase::Playing && (stats.length <= stats.position
                    || stats.length - stats.position <= self.low_watermark) {
                    self.phase = Phase::Refilling;
                    Action::Fetch { limit: self.refill_size }
                } else {
                    Action::WaitForEvent
                }
            },
            Event::BackoffElapsed => {
                if self.phase == Phase::Backoff {
                    self.phase = Phase::Playing;
                }
                Action::WaitForEvent
            },
            Event::PlayerFailed => {
                self.phase = Phase::Terminal;
                Action::Terminate(LoopError::PlayerUnavailable)
            },
            Event::OtherPlayerEvent => Action::WaitForEvent,
        }
    }
}

/// Whatever events a loop has taken in, no URL was handed to the player
/// twice.
pub proof fn lemma_no_duplicate_enqueue(lp: &BufferLoop)
    requires
        lp.wf(),
    ensures
        lp.history().no_duplicates(),
{
}

/// A failed initial fetch stops the loop for good.
pub proof fn lemma_initial_failure_is_fatal(e: SourceError, low_watermark: usize, later: Event)
    ensures
        phase_after(Phase::Filling, Event::FetchFailed(e), low_watermark) == Phase::Terminal,
        phase_after(Phase::Terminal, later, low_watermark) == Phase::Terminal,
{
}

/// The same failure on a refill does not stop the loop: after the backoff it
/// plays again, the next low-queue event fetches again, and a successful
/// fetch returns it to playing.
pub proof fn lemma_refill_failure_recovers(e: SourceError, stats: QueueStats, low_watermark: usize, urls: Vec<String>)
    requires
        needs_refill(stats, low_watermark),
    ensures
        ({
            let p1 = phase_after(Phase::Refilling, Event::FetchFailed(e), low_watermark);
            let p2 = phase_after(p1, Event::BackoffElapsed, low_watermark);
            let p3 = phase_after(p2, Event::ItemEnded(stats), low_watermark);
            &&& p1 == Phase::Backoff
            &&& p2 == Phase::Playing
            &&& p3 == Phase::Refilling
            &&& phase_after(p3, Event::Fetched(urls), low_watermark) == Phase::Playing
        }),
{
}

} // verus!
