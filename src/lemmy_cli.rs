//! The Lemmy back-end: which endpoint a resource names, and how paging
//! advances on each.

use crate::common::CommonCli;
use crate::feed::{cursor_step, outcome_view, present, token_view, urls_view, FeedCursor, FetchResult, SourceError};
use crate::reddit_cli::{after_prefix, has_prefix, starts_with_pair};
use vstd::prelude::*;

verus! {

/// Order of a post listing or search.
#[derive(Debug, Clone, Copy, PartialEq, Eq, Structural)]
pub enum SortBy {
    Active,
    Hot,
    New,
    Old,
    TopDay,
    TopWeek,
    TopMonth,
    TopYear,
    TopAll,
    MostComments,
    NewComments,
    TopHour,
    TopSixHour,
    TopTwelveHour,
    TopThreeMonths,
    TopSixMonths,
    TopNineMonths,
    Controversial,
    Scaled,
}

impl SortBy {
    /// The variant's name, as the server spells the sort type.
    pub open spec fn name(self) -> Seq<char> {
        match self {
            SortBy::Active => "Active"@,
            SortBy::Hot => "Hot"@,
            SortBy::New => "New"@,
            SortBy::Old => "Old"@,
            SortBy::TopDay => "TopDay"@,
            SortBy::TopWeek => "TopWeek"@,
            SortBy::TopMonth => "TopMonth"@,
            SortBy::TopYear => "TopYear"@,
            SortBy::TopAll => "TopAll"@,
            SortBy::MostComments => "MostComments"@,
            SortBy::NewComments => "NewComments"@,
            SortBy::TopHour => "TopHour"@,
            SortBy::TopSixHour => "TopSixHour"@,
            SortBy::TopTwelveHour => "TopTwelveHour"@,
            SortBy::TopThreeMonths => "TopThreeMonths"@,
            SortBy::TopSixMonths => "TopSixMonths"@,
            SortBy::TopNineMonths => "TopNineMonths"@,
            SortBy::Controversial => "Controversial"@,
            SortBy::Scaled => "Scaled"@,
        }
    }

    pub fn as_str(&self) -> (r: &'static str)
        ensures
            r@ == self.name(),
    {
        match self {
            SortBy::Active => "Active",
            SortBy::Hot => "Hot",
            SortBy::New => "New",
            SortBy::Old => "Old",
            SortBy::TopDay => "TopDay",
            SortBy::TopWeek => "TopWeek",
            SortBy::TopMonth => "TopMonth",
            SortBy::TopYear => "TopYear",
            SortBy::TopAll => "TopAll",
            SortBy::MostComments => "MostComments",
            SortBy::NewComments => "NewComments",
            SortBy::TopHour => "TopHour",
            SortBy::TopSixHour => "TopSixHour",
            SortBy::TopTwelveHour => "TopTwelveHour",
            SortBy::TopThreeMonths => "TopThreeMonths",
            SortBy::TopSixMonths => "TopSixMonths",
            SortBy::TopNineMonths => "TopNineMonths",
            SortBy::Controversial => "Controversial",
            SortBy::Scaled => "Scaled",
        }
    }
}

/// Whether to search local content only or federated content too.
#[derive(Debug, Clone, Copy, PartialEq, Eq, Structural)]
pub enum ListingFrom {
    All,
    Local,
}

impl ListingFrom {
    /// The variant's name, as the server spells the listing type.
    pub open spec fn name(self) -> Seq<char> {
        match self {
            ListingFrom::All => "All"@,
            ListingFrom::Local => "Local"@,
        }
    }

    pub fn as_str(&self) -> (r: &'static str)
        ensures
            r@ == self.name(),
    {
        match self {
            ListingFrom::All => "All",
            ListingFrom::Local => "Local",
        }
    }
}

/// What the Lemmy back-end was asked to consume.
pub struct Args {
    pub common_cli: CommonCli,
    /// Server to connect to (the domain alone).
    pub server: String,
    /// Whether to use HTTPS.
    pub secure: bool,
    /// `c/<community>` (or `r/`) for its posts, `u/<user>` for a person's
    /// posts, anything else to search for; too short to hold a prefix, the
    /// front page.
    pub resource: String,
    pub sort_by: Option<SortBy>,
    pub listing_from: Option<ListingFrom>,
}

/// Which endpoint a resource names.
#[derive(Debug, Clone, Copy, PartialEq, Eq, Structural)]
pub enum Endpoint {
    Posts,
    Person,
    Search,
}

/// The endpoint for `resource`: posts for a `c/` or `r/` prefix or a text
/// shorter than a prefix, a person's posts for `u/`, a search otherwise.
pub open spec fn endpoint_of(resource: Seq<char>) -> Endpoint {
    if resource.len() < 2 || has_prefix(resource, 'c', '/') || has_prefix(resource, 'r', '/') {
        Endpoint::Posts
    } else if has_prefix(resource, 'u', '/') {
        Endpoint::Person
    } else {
        Endpoint::Search
    }
}

/// The page number after `page`: an absent page counts as 0, and the count
/// stops at the largest `i64`.
pub open spec fn next_page(page: Option<i64>) -> Option<i64> {
    match page {
        Some(p) => Some(if p < i64::MAX { (p + 1) as i64 } else { p }),
        None => Some(1),
    }
}

/// The request the back-end makes next.
#[derive(Debug, Clone, PartialEq, Eq)]
pub enum LemmyQuery {
    /// A page of posts, of one community if named.
    Posts {
        limit: i64,
        page_cursor: Option<String>,
        sort: Option<SortBy>,
        community_name: Option<String>,
    },
    /// A page of a person's posts.
    Person { limit: i64, page: Option<i64> },
    /// A page of search results for `q`.
    Search {
        limit: i64,
        q: String,
        page: Option<i64>,
        sort: Option<SortBy>,
        listing_type: Option<ListingFrom>,
    },
}

pub struct LemmyLinkSource {
    page_cursor: FeedCursor,
    page_index: Option<i64>,
    args: Args,
}

impl LemmyLinkSource {
    pub closed spec fn cursor(&self) -> Option<Seq<char>> {
        self.page_cursor@
    }

    pub closed spec fn page_index(&self) -> Option<i64> {
        self.page_index
    }

    pub closed spec fn spec_args(&self) -> Args {
        self.args
    }

    /// A source at the start of the feed that `args` names.
    pub fn new(args: Args) -> (r: Self)
        ensures
            r.cursor() == None::<Seq<char>>,
            r.page_index() == None::<i64>,
            r.spec_args() == args,
    {
        LemmyLinkSource { page_cursor: FeedCursor::new(), page_index: None, args }
    }

    pub fn args(&self) -> (r: &Args)
        ensures
            *r == self.spec_args(),
    {
        &self.args
    }

    pub fn get_common_cli(&self) -> (r: CommonCli)
        ensures
            r == self.spec_args().common_cli,
    {
        self.args.common_cli.clone()
    }

    /// The next request, on the endpoint that the resource names, for as many
    /// items as a refill asks for. Posts resume at the cursor and name the
    /// community after the prefix, if any; the other two go by page number.
    pub fn query(&self) -> (r: LemmyQuery)
        ensures
            ({
                let a = self.spec_args();
                let res = a.resource@;
                let limit = a.common_cli.buffer_increase as i64;
                match r {
                    LemmyQuery::Posts { limit: l, page_cursor, sort, community_name } => {
                        &&& endpoint_of(res) == Endpoint::Posts
                        &&& l == limit
                        &&& token_view(page_cursor) == self.cursor()
                        &&& sort == a.sort_by
                        &&& token_view(community_name) == (if res.len() > 2 {
                            Some(res.subrange(2, res.len() as int))
                        } else {
                            None
                        })
                    },
                    LemmyQuery::Person { limit: l, page } => {
                        &&& endpoint_of(res) == Endpoint::Person
                        &&& l == limit
                        &&& page == self.page_index()
                    },
                    LemmyQuery::Search { limit: l, q, page, sort, listing_type } => {
                        &&& endpoint_of(res) == Endpoint::Search
                        &&& l == limit
                        &&& q@ == res
                        &&& page == self.page_index()
                        &&& sort == a.sort_by
                        &&& listing_type == a.listing_from
                    },
                }
            }),
    {
        let limit = self.args.common_cli.buffer_increase as i64;
        let res = self.args.resource.as_str();
        let n = res.unicode_len();
        if n < 2 || starts_with_pair(res, 'c', '/') || starts_with_pair(res, 'r', '/') {
            let community_name = if n > 2 {
                Some(after_prefix(res))
            } else {
                None
            };
            LemmyQuery::Posts {
                limit,
                page_cursor: self.page_cursor.token(),
                sort: self.args.sort_by,
                community_name,
            }
        } else if starts_with_pair(res, 'u', '/') {
            LemmyQuery::Person { limit, page: self.page_index }
        } else {
            LemmyQuery::Search {
                limit,
                q: self.args.resource.clone(),
                page: self.page_index,
                sort: self.args.sort_by,
                listing_type: self.args.listing_from,
            }
        }
    }

    /// Takes in the outcome of the request that `query` gave. On success, a
    /// post listing moves the cursor to the returned token, and the other
    /// endpoints move on one page; on failure nothing moves.
    pub fn record(&mut self, outcome: Result<FetchResult, SourceError>) -> (r: Result<Vec<String>, SourceError>)
        ensures
            final(self).spec_args() == old(self).spec_args(),
            endpoint_of(old(self).spec_args().resource@) == Endpoint::Posts ==> {
                &&& final(self).cursor() == cursor_step(old(self).cursor(), outcome_view(outcome))
                &&& final(self).page_index() == old(self).page_index()
            },
            endpoint_of(old(self).spec_args().resource@) != Endpoint::Posts ==> {
                &&& final(self).cursor() == old(self).cursor()
                &&& final(self).page_index() == (if outcome is Ok {
                    next_page(old(self).page_index())
                } else {
                    old(self).page_index()
                })
            },
            match outcome {
                Ok(page) => r is Ok && urls_view(r->Ok_0@) == present(page.items@),
                Err(e) => r == Err::<Vec<String>, SourceError>(e),
            },
    {
        let res = self.args.resource.as_str();
        let n = res.unicode_len();
        if n < 2 || starts_with_pair(res, 'c', '/') || starts_with_pair(res, 'r', '/') {
            self.page_cursor.record(outcome)
        } else {
            match outcome {
                Ok(page) => {
                    self.page_index = match self.page_index {
                        Some(p) => Some(if p < i64::MAX { p + 1 } else { p }),
                        None => Some(1),
                    };
                    Ok(crate::feed::present_urls(page.items))
                },
                Err(e) => Err(e),
            }
        }
    }
}

} // verus!
