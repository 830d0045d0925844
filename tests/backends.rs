use feed_consume::common::CommonCli;
use feed_consume::feed::{FetchResult, SourceError};
use feed_consume::lemmy_cli::{self, LemmyLinkSource, LemmyQuery, ListingFrom};
use feed_consume::reddit_cli::{self, FeedType, Period, RedditLinkSource, RedditQuery};

fn common(buffer_increase: usize) -> CommonCli {
    CommonCli { min_buffer_size: 20, buffer_increase, user_agent: None }
}

fn reddit(resource: &str, nsfw: bool) -> RedditLinkSource {
    RedditLinkSource::new(reddit_cli::Args {
        common: common(20),
        resource: resource.to_string(),
        sort_by: reddit_cli::SortBy::Top,
        period: Some(Period::Week),
        nsfw,
    })
}

fn lemmy(resource: &str) -> LemmyLinkSource {
    LemmyLinkSource::new(lemmy_cli::Args {
        common_cli: common(15),
        server: "lemmy.example".to_string(),
        secure: true,
        resource: resource.to_string(),
        sort_by: Some(lemmy_cli::SortBy::TopWeek),
        listing_from: Some(ListingFrom::Local),
    })
}

fn page(items: &[&str], next: Option<&str>) -> FetchResult {
    FetchResult {
        items: items.iter().map(|s| Some(s.to_string())).collect(),
        next_token: next.map(|s| s.to_string()),
    }
}

#[test]
fn reddit_subreddit_listing() {
    let src = reddit("r/videos", false);
    assert_eq!(
        src.query(),
        RedditQuery::Listing {
            feed_type: FeedType::Sub,
            sort_by: reddit_cli::SortBy::Top,
            name: "videos".to_string(),
            limit: 20,
            after: None,
            period: Some(Period::Week),
        }
    );
}

#[test]
fn reddit_user_listing() {
    let src = reddit("u/someone", false);
    match src.query() {
        RedditQuery::Listing { feed_type, name, .. } => {
            assert_eq!(feed_type, FeedType::User);
            assert_eq!(name, "someone");
        }
        other => panic!("unexpected {:?}", other),
    }
}

#[test]
fn reddit_other_resource_searches() {
    assert_eq!(
        reddit("cats", true).query(),
        RedditQuery::Suggest { query: "cats&include_over_18=on".to_string(), limit: 20 }
    );
    assert_eq!(
        reddit("u", false).query(),
        RedditQuery::Suggest { query: "u&include_over_18=off".to_string(), limit: 20 }
    );
}

#[test]
fn reddit_cursor_follows_pages() {
    let mut src = reddit("r/videos", false);
    let r = src.record(Ok(FetchResult {
        items: vec![Some("a".to_string()), None, Some("b".to_string())],
        next_token: Some("t3_x".to_string()),
    }));
    assert_eq!(r, Ok(vec!["a".to_string(), "b".to_string()]));
    match src.query() {
        RedditQuery::Listing { after, .. } => assert_eq!(after, Some("t3_x".to_string())),
        other => panic!("unexpected {:?}", other),
    }
    assert_eq!(src.record(Err(SourceError::NotFound)), Err(SourceError::NotFound));
    match src.query() {
        RedditQuery::Listing { after, .. } => assert_eq!(after, Some("t3_x".to_string())),
        other => panic!("unexpected {:?}", other),
    }
    assert_eq!(src.get_common_cli().buffer_increase, 20);
}

#[test]
fn lemmy_community_posts() {
    let src = lemmy("c/videos");
    assert_eq!(
        src.query(),
        LemmyQuery::Posts {
            limit: 15,
            page_cursor: None,
            sort: Some(lemmy_cli::SortBy::TopWeek),
            community_name: Some("videos".to_string()),
        }
    );
}

#[test]
fn lemmy_front_page_posts() {
    for res in ["", "c", "c/", "r/"] {
        match lemmy(res).query() {
            LemmyQuery::Posts { community_name, .. } => assert_eq!(community_name, None),
            other => panic!("unexpected {:?}", other),
        }
    }
}

#[test]
fn lemmy_person_and_search() {
    assert_eq!(lemmy("u/alice").query(), LemmyQuery::Person { limit: 15, page: None });
    assert_eq!(
        lemmy("cats").query(),
        LemmyQuery::Search {
            limit: 15,
            q: "cats".to_string(),
            page: None,
            sort: Some(lemmy_cli::SortBy::TopWeek),
            listing_type: Some(ListingFrom::Local),
        }
    );
}

#[test]
fn lemmy_posts_follow_cursor() {
    let mut src = lemmy("c/videos");
    assert_eq!(src.record(Ok(page(&["a"], Some("cur1")))), Ok(vec!["a".to_string()]));
    match src.query() {
        LemmyQuery::Posts { page_cursor, .. } => assert_eq!(page_cursor, Some("cur1".to_string())),
        other => panic!("unexpected {:?}", other),
    }
    assert_eq!(src.record(Err(SourceError::Network)), Err(SourceError::Network));
    match src.query() {
        LemmyQuery::Posts { page_cursor, .. } => assert_eq!(page_cursor, Some("cur1".to_string())),
        other => panic!("unexpected {:?}", other),
    }
}

#[test]
fn lemmy_search_pages_count_up() {
    let mut src = lemmy("cats");
    src.record(Ok(page(&["a"], Some("ignored")))).unwrap();
    match src.query() {
        LemmyQuery::Search { page, .. } => assert_eq!(page, Some(1)),
        other => panic!("unexpected {:?}", other),
    }
    src.record(Err(SourceError::RateLimited)).unwrap_err();
    src.record(Ok(page(&[], None))).unwrap();
    match src.query() {
        LemmyQuery::Search { page, .. } => assert_eq!(page, Some(2)),
        other => panic!("unexpected {:?}", other),
    }
    let mut person = lemmy("u/alice");
    person.record(Ok(page(&["a"], None))).unwrap();
    assert_eq!(person.query(), LemmyQuery::Person { limit: 15, page: Some(1) });
}

#[test]
fn lemmy_names() {
    assert_eq!(lemmy_cli::SortBy::TopSixHour.as_str(), "TopSixHour");
    assert_eq!(lemmy_cli::SortBy::Active.as_str(), "Active");
    assert_eq!(lemmy_cli::SortBy::Scaled.as_str(), "Scaled");
    assert_eq!(ListingFrom::All.as_str(), "All");
    assert_eq!(ListingFrom::Local.as_str(), "Local");
    assert_eq!(lemmy("c/x").get_common_cli().buffer_increase, 15);
    assert_eq!(lemmy("c/x").args().server, "lemmy.example");
}
