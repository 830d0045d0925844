use feed_consume::buffer::{accept_batch, Action, BufferLoop, Event, LoopError, Phase, QueueStats, BACKOFF_SECS};
use feed_consume::dedup::DedupSet;
use feed_consume::feed::SourceError;

fn urls(v: &[&str]) -> Vec<String> {
    v.iter().map(|s| s.to_string()).collect()
}

fn ended(length: usize, position: usize) -> Event {
    Event::ItemEnded(QueueStats { length, position })
}

/// A loop past its initial fill of `first`.
fn playing(low_watermark: usize, refill_size: usize, first: &[&str]) -> BufferLoop {
    let mut lp = BufferLoop::new(low_watermark, refill_size);
    assert_eq!(lp.start(), Action::Fetch { limit: refill_size });
    lp.step(Event::Fetched(urls(first)));
    assert_eq!(lp.phase_of(), Phase::Playing);
    lp
}

#[test]
fn initial_fill_enqueues_and_starts_playback() {
    let mut lp = BufferLoop::new(20, 20);
    assert_eq!(lp.phase_of(), Phase::Filling);
    assert_eq!(lp.start(), Action::Fetch { limit: 20 });
    let a = lp.step(Event::Fetched(urls(&["a", "b", "a", "", "c"])));
    assert_eq!(a, Action::Enqueue { urls: urls(&["a", "b", "c"]), start_playback: true });
    assert_eq!(lp.phase_of(), Phase::Playing);
    assert_eq!(lp.start(), Action::WaitForEvent);
}

#[test]
fn watermark_not_reached_does_not_refill() {
    let mut lp = playing(5, 10, &["a"]);
    assert_eq!(lp.step(ended(10, 4)), Action::WaitForEvent);
    assert_eq!(lp.phase_of(), Phase::Playing);
}

#[test]
fn watermark_reached_refills() {
    let mut lp = playing(5, 10, &["a"]);
    assert_eq!(lp.step(ended(10, 6)), Action::Fetch { limit: 10 });
    assert_eq!(lp.phase_of(), Phase::Refilling);
}

#[test]
fn watermark_boundary_refills() {
    let mut lp = playing(5, 10, &["a"]);
    assert_eq!(lp.step(ended(10, 5)), Action::Fetch { limit: 10 });
}

#[test]
fn position_past_length_refills() {
    let mut lp = playing(0, 3, &["a"]);
    assert_eq!(lp.step(ended(2, 7)), Action::Fetch { limit: 3 });
}

#[test]
fn zero_watermark_waits_for_empty_queue() {
    let mut lp = playing(0, 3, &["a"]);
    assert_eq!(lp.step(ended(3, 2)), Action::WaitForEvent);
    assert_eq!(lp.step(ended(3, 3)), Action::Fetch { limit: 3 });
}

#[test]
fn other_events_are_ignored() {
    let mut lp = playing(5, 10, &["a"]);
    assert_eq!(lp.step(Event::OtherPlayerEvent), Action::WaitForEvent);
    assert_eq!(lp.step(Event::BackoffElapsed), Action::WaitForEvent);
    assert_eq!(lp.step(Event::Fetched(urls(&["z"]))), Action::WaitForEvent);
    assert_eq!(lp.step(Event::FetchFailed(SourceError::Network)), Action::WaitForEvent);
    assert_eq!(lp.phase_of(), Phase::Playing);
    // "z" was not taken in, so a later refill still accepts it.
    lp.step(ended(1, 1));
    assert_eq!(
        lp.step(Event::Fetched(urls(&["z"]))),
        Action::Enqueue { urls: urls(&["z"]), start_playback: false }
    );
}

#[test]
fn initial_failure_is_fatal() {
    let mut lp = BufferLoop::new(2, 3);
    assert_eq!(
        lp.step(Event::FetchFailed(SourceError::Malformed)),
        Action::Terminate(LoopError::FetchFailed(SourceError::Malformed))
    );
    assert_eq!(lp.phase_of(), Phase::Terminal);
    assert_eq!(lp.step(Event::Fetched(urls(&["a"]))), Action::Stop);
    assert_eq!(lp.step(ended(1, 1)), Action::Stop);
    assert_eq!(lp.phase_of(), Phase::Terminal);
}

#[test]
fn refill_failure_backs_off_and_recovers() {
    let mut lp = playing(2, 3, &["a"]);
    assert_eq!(lp.step(ended(1, 0)), Action::Fetch { limit: 3 });
    assert_eq!(
        lp.step(Event::FetchFailed(SourceError::Malformed)),
        Action::Backoff { error: SourceError::Malformed, seconds: BACKOFF_SECS }
    );
    assert_eq!(BACKOFF_SECS, 5);
    assert_eq!(lp.phase_of(), Phase::Backoff);
    // No immediate retry: an item ending during the backoff does nothing.
    assert_eq!(lp.step(ended(1, 1)), Action::WaitForEvent);
    assert_eq!(lp.step(Event::BackoffElapsed), Action::WaitForEvent);
    assert_eq!(lp.phase_of(), Phase::Playing);
    assert_eq!(lp.step(ended(1, 1)), Action::Fetch { limit: 3 });
    assert_eq!(
        lp.step(Event::Fetched(urls(&["a", "b"]))),
        Action::Enqueue { urls: urls(&["b"]), start_playback: false }
    );
    assert_eq!(lp.phase_of(), Phase::Playing);
}

#[test]
fn player_failure_is_fatal() {
    let mut lp = playing(2, 3, &["a"]);
    assert_eq!(lp.step(Event::PlayerFailed), Action::Terminate(LoopError::PlayerUnavailable));
    assert_eq!(lp.phase_of(), Phase::Terminal);
    assert_eq!(lp.step(Event::PlayerFailed), Action::Stop);
}

#[test]
fn same_url_in_two_fetches_is_enqueued_once() {
    let mut lp = playing(1, 2, &["x", "y"]);
    lp.step(ended(2, 1));
    assert_eq!(
        lp.step(Event::Fetched(urls(&["y", "x", "w", "w"]))),
        Action::Enqueue { urls: urls(&["w"]), start_playback: false }
    );
    lp.step(ended(3, 2));
    assert_eq!(
        lp.step(Event::Fetched(urls(&["w", "x", "y"]))),
        Action::Enqueue { urls: vec![], start_playback: false }
    );
    assert_eq!(lp.phase_of(), Phase::Playing);
}

#[test]
fn end_to_end_scenario() {
    let mut enqueued: Vec<String> = Vec::new();
    let mut lp = BufferLoop::new(2, 3);
    assert_eq!(lp.start(), Action::Fetch { limit: 3 });
    match lp.step(Event::Fetched(urls(&["a", "b", "c"]))) {
        Action::Enqueue { urls: u, start_playback } => {
            assert!(start_playback);
            enqueued.extend(u);
        }
        other => panic!("unexpected {:?}", other),
    }
    // "a" ends: three items, position 1, two remain.
    assert_eq!(lp.step(ended(3, 1)), Action::Fetch { limit: 3 });
    match lp.step(Event::Fetched(urls(&["b", "d", "e"]))) {
        Action::Enqueue { urls: u, start_playback } => {
            assert!(!start_playback);
            enqueued.extend(u);
        }
        other => panic!("unexpected {:?}", other),
    }
    assert_eq!(enqueued, urls(&["a", "b", "c", "d", "e"]));
}

#[test]
fn accept_batch_skips_empty_and_seen() {
    let mut set = DedupSet::new();
    assert!(set.accept("seen"));
    let out = accept_batch(&mut set, urls(&["", "seen", "new", "", "new", "other"]));
    assert_eq!(out, urls(&["new", "other"]));
    assert!(set.contains("new"));
    assert!(set.contains("other"));
    assert!(!set.contains(""));
}
