//! The Reddit back-end: which listing a resource names, and the page cursor.

use crate::common::CommonCli;
use crate::feed::{cursor_step, outcome_view, present, token_view, urls_view, FeedCursor, FetchResult, SourceError};
use vstd::prelude::*;

verus! {

/// Whether a resource names a subreddit or a user.
#[derive(Debug, Clone, Copy, PartialEq, Eq, Structural)]
pub enum FeedType {
    Sub,
    User,
}

/// Order of a subreddit listing.
#[derive(Debug, Clone, Copy, PartialEq, Eq, Structural)]
pub enum SortBy {
    Hot,
    Top,
    Latest,
    Rising,
}

/// Time window of a "top" listing.
#[derive(Debug, Clone, Copy, PartialEq, Eq, Structural)]
pub enum Period {
    Hour,
    Day,
    Week,
    Month,
    Year,
    All,
}

/// What the Reddit back-end was asked to consume.
pub struct Args {
    pub common: CommonCli,
    /// `r/<subreddit>` or `u/<user>`; anything else is searched for.
    pub resource: String,
    /// Order of a subreddit listing; ignored for a user.
    pub sort_by: SortBy,
    /// Time window of a "top" listing.
    pub period: Option<Period>,
    /// Include NSFW content in suggestions.
    pub nsfw: bool,
}

/// The request the back-end makes next.
#[derive(Debug, Clone, PartialEq, Eq)]
pub enum RedditQuery {
    /// A page of a listing of `name`, resuming after `after`.
    Listing {
        feed_type: FeedType,
        sort_by: SortBy,
        name: String,
        limit: u32,
        after: Option<String>,
        period: Option<Period>,
    },
    /// The resource names no feed: look for subreddits matching `query`
    /// instead, to suggest them.
    Suggest { query: String, limit: u32 },
}

/// Whether `s` starts with the two characters `a` and `b`.
pub open spec fn has_prefix(s: Seq<char>, a: char, b: char) -> bool {
    s.len() >= 2 && s[0] == a && s[1] == b
}

/// The feed a resource names: `u/` a user, `r/` a subreddit, else none.
pub open spec fn feed_type_of(resource: Seq<char>) -> Option<FeedType> {
    if has_prefix(resource, 'u', '/') {
        Some(FeedType::User)
    } else if has_prefix(resource, 'r', '/') {
        Some(FeedType::Sub)
    } else {
        None
    }
}

/// Whether `s` starts with the two characters `a` and `b`.
pub fn starts_with_pair(s: &str, a: char, b: char) -> (r: bool)
    ensures
        r == has_prefix(s@, a, b),
{
    let n = s.unicode_len();
    n >= 2 && s.get_char(0) == a && s.get_char(1) == b
}

/// The text of `s` without its first two characters.
pub fn after_prefix(s: &str) -> (r: String)
    requires
        s@.len() >= 2,
    ensures
        r@ == s@.subrange(2, s@.len() as int),
{
    let n = s.unicode_len();
    s.substring_char(2, n).to_string()
}

pub struct RedditLinkSource {
    page: FeedCursor,
    args: Args,
}

impl RedditLinkSource {
    pub closed spec fn cursor(&self) -> Option<Seq<char>> {
        self.page@
    }

    pub closed spec fn spec_args(&self) -> Args {
        self.args
    }

    /// A source at the start of the feed that `args` names.
    pub fn new(args: Args) -> (r: Self)
        ensures
            r.cursor() == None::<Seq<char>>,
            r.spec_args() == args,
    {
        RedditLinkSource { page: FeedCursor::new(), args }
    }

    pub fn args(&self) -> (r: &Args)
        ensures
            *r == self.spec_args(),
    {
        &self.args
    }

    pub fn get_common_cli(&self) -> (r: CommonCli)
        ensures
            r == self.spec_args().common,
    {
        self.args.common.clone()
    }

    /// The next request: a page of the named listing, as many items as a
    /// refill asks for, resuming at the cursor; or, where the resource names
    /// no feed, a subreddit search for it with the NSFW choice appended.
    pub fn query(&self) -> (r: RedditQuery)
        ensures
            ({
                let a = self.spec_args();
                let limit = a.common.buffer_increase as u32;
                match feed_type_of(a.resource@) {
                    Some(ft) => match r {
                        RedditQuery::Listing { feed_type, sort_by, name, limit: l, after, period } => {
                            &&& feed_type == ft
                            &&& sort_by == a.sort_by
                            &&& name@ == a.resource@.subrange(2, a.resource@.len() as int)
                            &&& l == limit
                            &&& token_view(after) == self.cursor()
                            &&& period == a.period
                        },
                        _ => false,
                    },
                    None => match r {
                        RedditQuery::Suggest { query, limit: l } => {
                            &&& query@ == a.resource@ + "&include_over_18="@ + (if a.nsfw { "on"@ } else { "off"@ })
                            &&& l == limit
                        },
                        _ => false,
                    },
                }
            }),
    {
        let limit = self.args.common.buffer_increase as u32;
        let res = self.args.resource.as_str();
        let feed_type = if starts_with_pair(res, 'u', '/') {
            FeedType::User
        } else if starts_with_pair(res, 'r', '/') {
            FeedType::Sub
        } else {
            let mut query = self.args.resource.clone();
            query.append("&include_over_18=");
            query.append(if self.args.nsfw { "on" } else { "off" });
            return RedditQuery::Suggest { query, limit };
        };
        RedditQuery::Listing {
            feed_type,
            sort_by: self.args.sort_by,
            name: after_prefix(res),
            limit,
            after: self.page.token(),
            period: self.args.period,
        }
    }

    /// Takes in the outcome of the request that `query` gave: the cursor
    /// moves to the returned token on success and stays on failure.
    pub fn record(&mut self, outcome: Result<FetchResult, SourceError>) -> (r: Result<Vec<String>, SourceError>)
        ensures
            final(self).cursor() == cursor_step(old(self).cursor(), outcome_view(outcome)),
            final(self).spec_args() == old(self).spec_args(),
            match outcome {
                Ok(page) => r is Ok && urls_view(r->Ok_0@) == present(page.items@),
                Err(e) => r == Err::<Vec<String>, SourceError>(e),
            },
    {
        self.page.record(outcome)
    }
}

} // verus!
