//! The feed side: what a page fetch returns, and the cursor that walks the
//! feed's opaque continuation tokens.

use vstd::prelude::*;

verus! {

/// Why the source could not deliver a page.
#[derive(Debug, Clone, Copy, PartialEq, Eq, Structural)]
pub enum SourceError {
    Network,
    RateLimited,
    Malformed,
    NotFound,
}

/// One page of a feed: its candidate URLs in the order the source gave them
/// (absent where an item has none), and the token to resume after it.
#[derive(Debug, Clone, PartialEq, Eq)]
pub struct FetchResult {
    pub items: Vec<Option<String>>,
    pub next_token: Option<String>,
}

/// The text of an optional string.
pub open spec fn token_view(t: Option<String>) -> Option<Seq<char>> {
    match t {
        Some(s) => Some(s@),
        None => None,
    }
}

/// The texts of a sequence of strings.
pub open spec fn urls_view(v: Seq<String>) -> Seq<Seq<char>> {
    v.map_values(|s: String| s@)
}

/// The URLs that are present among `items`, in their order.
pub open spec fn present(items: Seq<Option<String>>) -> Seq<Seq<char>>
    decreases items.len(),
{
    if items.len() == 0 {
        Seq::empty()
    } else {
        let rest = present(items.drop_last());
        match items.last() {
            Some(u) => rest.push(u@),
            None => rest,
        }
    }
}

/// What a fetch outcome tells the cursor: the next token on success.
pub open spec fn outcome_view(o: Result<FetchResult, SourceError>) -> Result<Option<Seq<char>>, SourceError> {
    match o {
        Ok(r) => Ok(token_view(r.next_token)),
        Err(e) => Err(e),
    }
}

/// The cursor after one fetch outcome: a success overwrites the token (even
/// with an absent one), a failure keeps it.
pub open spec fn cursor_step(t: Option<Seq<char>>, o: Result<Option<Seq<char>>, SourceError>) -> Option<Seq<char>> {
    match o {
        Ok(next) => next,
        Err(_) => t,
    }
}

/// The cursor after a run of fetch outcomes, starting from `start`.
pub open spec fn cursor_after(start: Option<Seq<char>>, outcomes: Seq<Result<Option<Seq<char>>, SourceError>>) -> Option<Seq<char>>
    decreases outcomes.len(),
{
    if outcomes.len() == 0 {
        start
    } else {
        cursor_step(cursor_after(start, outcomes.drop_last()), outcomes.last())
    }
}

/// Keeps only the URLs that are present, in their order.
pub fn present_urls(items: Vec<Option<String>>) -> (r: Vec<String>)
    ensures
        urls_view(r@) == present(items@),
{
    let mut r: Vec<String> = Vec::new();
    let mut i: usize = 0;
    while i < items.len()
        invariant
            i <= items.len(),
            urls_view(r@) == present(items@.take(i as int)),
        decreases items.len() - i,
    {
        assert(items@.take(i as int + 1).drop_last() == items@.take(i as int));
        match &items[i] {
            Some(u) => {
                r.push(u.clone());
            },
            None => {},
        }
        proof {
            assert(urls_view(r@) =~= present(items@.take(i as int + 1)));
        }
        i = i + 1;
    }
    assert(items@.take(items.len() as int) =~= items@);
    r
}

/// The position in a feed: the continuation token to resume from, absent at
/// the start of the feed. The token is never inspected, only handed back.
pub struct FeedCursor {
    token: Option<String>,
}

impl View for FeedCursor {
    type V = Option<Seq<char>>;

    closed spec fn view(&self) -> Option<Seq<char>> {
        token_view(self.token)
    }
}

impl FeedCursor {
    /// A cursor at the start of the feed.
    pub fn new() -> (r: Self)
        ensures
            r@ == None::<Seq<char>>,
    {
        FeedCursor { token: None }
    }

    /// The token that the next fetch hands to the source.
    pub fn token(&self) -> (r: Option<String>)
        ensures
            token_view(r) == self@,
    {
        match &self.token {
            Some(t) => Some(t.clone()),
            None => None,
        }
    }

    /// Takes in the outcome of a fetch made with `token()`. On success the
    /// returned token replaces the current one, even when it is absent, and
    /// the present URLs come back in order; on failure the cursor stays where
    /// it was and the error comes back as it is.
    pub fn record(&mut self, outcome: Result<FetchResult, SourceError>) -> (r: Result<Vec<String>, SourceError>)
        ensures
            final(self)@ == cursor_step(old(self)@, outcome_view(outcome)),
            match outcome {
                Ok(page) => r is Ok && urls_view(r->Ok_0@) == present(page.items@),
                Err(e) => r == Err::<Vec<String>, SourceError>(e),
            },
    {
        match outcome {
            Ok(page) => {
                self.token = page.next_token;
                Ok(present_urls(page.items))
            },
            Err(e) => Err(e),
        }
    }
}

/// After a run of successful fetches, the cursor holds the token that the
/// last of them returned, whatever came before.
pub proof fn lemma_cursor_follows_success(
    start: Option<Seq<char>>,
    outcomes: Seq<Result<Option<Seq<char>>, SourceError>>,
    next: Option<Seq<char>>,
)
    ensures
        cursor_after(start, outcomes.push(Ok(next))) == next,
{
    assert(outcomes.push(Ok(next)).drop_last() =~= outcomes);
}

/// A failed fetch leaves the cursor where it was: the next fetch uses the
/// same token as the failed one.
pub proof fn lemma_cursor_stays_on_failure(
    start: Option<Seq<char>>,
    outcomes: Seq<Result<Option<Seq<char>>, SourceError>>,
    e: SourceError,
)
    ensures
        cursor_after(start, outcomes.push(Err(e))) == cursor_after(start, outcomes),
{
    assert(outcomes.push(Err(e)).drop_last() =~= outcomes);
}

} // verus!
