//! A one-shot Reddit listing request: its URL, and the posts of the page
//! fetched for it.

use vstd::prelude::*;

verus! {

/// Order of a listing; "top" and "controversial" take a time window.
#[derive(Debug, Clone, Copy, PartialEq, Eq, Structural)]
pub enum SortBy {
    Hot,
    Top(Timeslot),
    New,
    Controversial(Timeslot),
    Rising,
}

/// Time window of a "top" or "controversial" listing.
#[derive(Debug, Clone, Copy, PartialEq, Eq, Structural)]
pub enum Timeslot {
    Hour,
    Day,
    Week,
    Month,
    Year,
    All,
}

impl SortBy {
    /// The order's name in a listing URL, without its time window.
    pub open spec fn text(self) -> Seq<char> {
        match self {
            SortBy::Hot => "hot"@,
            SortBy::Top(_) => "top"@,
            SortBy::New => "new"@,
            SortBy::Controversial(_) => "controversial"@,
            SortBy::Rising => "rising"@,
        }
    }

    /// The time window the order takes, if any.
    pub open spec fn timeslot(self) -> Option<Timeslot> {
        match self {
            SortBy::Top(t) => Some(t),
            SortBy::Controversial(t) => Some(t),
            _ => None,
        }
    }

    pub fn to_string(&self) -> (r: String)
        ensures
            r@ == self.text(),
    {
        let s = match self {
            SortBy::Hot => "hot",
            SortBy::Top(_) => "top",
            SortBy::New => "new",
            SortBy::Controversial(_) => "controversial",
            SortBy::Rising => "rising",
        };
        s.to_string()
    }
}

impl Timeslot {
    /// The window's name in a listing URL.
    pub open spec fn text(self) -> Seq<char> {
        match self {
            Timeslot::Hour => "hour"@,
            Timeslot::Day => "day"@,
            Timeslot::Week => "week"@,
            Timeslot::Month => "month"@,
            Timeslot::Year => "year"@,
            Timeslot::All => "all"@,
        }
    }

    pub fn to_string(&self) -> (r: String)
        ensures
            r@ == self.text(),
    {
        let s = match self {
            Timeslot::Hour => "hour",
            Timeslot::Day => "day",
            Timeslot::Week => "week",
            Timeslot::Month => "month",
            Timeslot::Year => "year",
            Timeslot::All => "all",
        };
        s.to_string()
    }
}

/// The listing URL for `resource` in the order `sort_by`: a page of up to a
/// hundred posts, with the time window where the order takes one.
pub open spec fn listing_url(resource: Seq<char>, sort_by: SortBy) -> Seq<char> {
    let base = "https://reddit.com/"@ + resource + "/"@ + sort_by.text() + ".json?limit=100"@;
    match sort_by.timeslot() {
        Some(t) => base + "&t="@ + t.text(),
        None => base,
    }
}

/// What a fetched page says of one post: its URL, if it has one, and its
/// name as the page writes it.
#[derive(Debug, Clone, PartialEq, Eq)]
pub struct RedditPost {
    pub url: Option<String>,
    pub name: String,
}

pub struct RedditRequest {
    pub resource: String,
    pub sort_by: SortBy,
    pub after: Option<String>,
    /// The posts of the page last fetched.
    pub posts: Vec<RedditPost>,
}

/// The URLs of `posts`, in order, if every post has one.
pub open spec fn post_urls(posts: Seq<RedditPost>) -> Option<Seq<Seq<char>>>
    decreases posts.len(),
{
    if posts.len() == 0 {
        Some(Seq::empty())
    } else {
        match (post_urls(posts.drop_last()), posts.last().url) {
            (Some(urls), Some(u)) => Some(urls.push(u@)),
            _ => None,
        }
    }
}

impl RedditRequest {
    /// A request for `resource` in the order `sort_by`, from the first page,
    /// with no posts yet.
    pub fn new(resource: &str, sort_by: SortBy) -> (r: Self)
        ensures
            r.resource@ == resource@,
            r.sort_by == sort_by,
            r.after is None,
            r.posts@.len() == 0,
    {
        RedditRequest { resource: resource.to_string(), sort_by, after: None, posts: Vec::new() }
    }

    /// The URL of the listing this request names.
    pub fn get_url(&self) -> (r: String)
        ensures
            r@ == listing_url(self.resource@, self.sort_by),
    {
        let mut result = "https://reddit.com/".to_string();
        result.append(self.resource.as_str());
        result.append("/");
        let sort = self.sort_by.to_string();
        result.append(sort.as_str());
        result.append(".json?limit=100");
        let timeslot = match &self.sort_by {
            SortBy::Top(timeslot) => Some(timeslot),
            SortBy::Controversial(timeslot) => Some(timeslot),
            _ => None,
        };
        match timeslot {
            Some(t) => {
                result.append("&t=");
                let text = t.to_string();
                result.append(text.as_str());
            },
            None => {},
        }
        result
    }

    /// The URLs of the posts, in order; `None` if a post has none.
    pub fn get_post_urls(&self) -> (r: Option<Vec<String>>)
        ensures
            match r {
                Some(v) => post_urls(self.posts@) == Some(crate::feed::urls_view(v@)),
                None => post_urls(self.posts@) is None,
            },
    {
        let mut urls: Vec<String> = Vec::new();
        let mut i: usize = 0;
        while i < self.posts.len()
            invariant
                i <= self.posts@.len(),
                post_urls(self.posts@.take(i as int)) == Some(crate::feed::urls_view(urls@)),
            decreases self.posts@.len() - i,
        {
            assert(self.posts@.take(i as int + 1).drop_last() == self.posts@.take(i as int));
            match &self.posts[i].url {
                Some(u) => {
                    urls.push(u.clone());
                    assert(crate::feed::urls_view(urls@) =~= post_urls(self.posts@.take(i as int + 1))->Some_0);
                },
                None => {
                    proof {
                        lemma_missing_url_stays(self.posts@, i as int + 1, self.posts@.len() as int);
                    }
                    assert(self.posts@.take(self.posts@.len() as int) =~= self.posts@);
                    return None;
                },
            }
            i = i + 1;
        }
        assert(self.posts@.take(self.posts@.len() as int) =~= self.posts@);
        Some(urls)
    }

    /// Moves `after` to the name of the last post, so that the next page
    /// follows it. Without posts nothing moves.
    pub fn page_forward(&mut self)
        ensures
            final(self).posts@ == old(self).posts@,
            final(self).resource == old(self).resource,
            final(self).sort_by == old(self).sort_by,
            old(self).posts@.len() > 0 ==> final(self).after == Some(old(self).posts@.last().name),
            old(self).posts@.len() == 0 ==> final(self).after == old(self).after,
    {
        let n = self.posts.len();
        if n > 0 {
            self.after = Some(self.posts[n - 1].name.clone());
        }
    }
}

/// Once a prefix of the posts lacks a URL, every longer prefix does too.
proof fn lemma_missing_url_stays(posts: Seq<RedditPost>, i: int, j: int)
    requires
        0 <= i <= j <= posts.len(),
        post_urls(posts.take(i)) is None,
    ensures
        post_urls(posts.take(j)) is None,
    decreases j - i,
{
    if i < j {
        assert(posts.take(i + 1).drop_last() == posts.take(i));
        lemma_missing_url_stays(posts, i + 1, j);
    }
}

} // verus!
