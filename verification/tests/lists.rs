use binge_rss::error::TaskError;
use binge_rss::feed::{Completion, Feed, FeedState, FetchTicket};
use binge_rss::feed_item::FeedItem;
use binge_rss::feed_list::FeedList;
use binge_rss::stored::{FeedSettings, StoredFeed};
use binge_rss::task::FetchResult;

fn s(text: &str) -> String {
    String::from(text)
}

fn record(title: &str, url: &str, viewed: i64, filter: &str) -> StoredFeed {
    StoredFeed { title: s(title), url: s(url), viewed, filter: s(filter) }
}

fn ids(feeds: &Vec<Feed>) -> Vec<u64> {
    feeds.iter().map(|f| f.get_id()).collect()
}

fn three() -> FeedList {
    let mut list = FeedList::new();
    assert_eq!(list.add(&s("A"), &s("https://a/"), &s(""), 0), Some(0));
    assert_eq!(list.add(&s("B"), &s(""), &s("x"), 5), Some(1));
    assert_eq!(list.add(&s("C"), &s("https://c/"), &s(""), 0), Some(2));
    list
}

fn one_item() -> FetchResult {
    FetchResult {
        title: Some(s("Doc")),
        items: vec![FeedItem::new(&s("i"), &s("https://i/"), 10)],
        icon: None,
    }
}

#[test]
fn record_of_a_feed_has_its_settings() {
    let feed = Feed::new(3, &s("Title"), &s("https://a/"), &s("rust"), 77);
    assert_eq!(StoredFeed::of(&feed), record("Title", "https://a/", 77, "rust"));
    assert_eq!(FeedSettings::of(&feed), FeedSettings { title: s("Title"), url: s("https://a/") });
}

#[test]
fn feed_of_a_record_has_its_settings_and_no_content() {
    let feed = record("Title", "https://a/", 77, "rust").to_feed(9);
    assert_eq!(feed.get_id(), 9);
    assert_eq!(feed.get_title(), "Title");
    assert_eq!(feed.get_url(), "https://a/");
    assert_eq!(feed.get_viewed(), 77);
    assert_eq!(feed.get_filter(), "rust");
    assert_eq!(feed.get_state(), FeedState::DownloadPending);
    assert!(feed.get_items().is_empty());
    assert_eq!(record("T", "", 0, "").to_feed(1).get_state(), FeedState::EmptyURL);
}

#[test]
fn record_survives_the_round_trip() {
    let stored = record("Title", "https://a/", -5, "f");
    assert_eq!(StoredFeed::of(&stored.to_feed(4)), stored);
    assert_eq!(stored.clone(), stored);
}

#[test]
fn short_record_is_completed_with_defaults() {
    let settings = FeedSettings { title: s("T"), url: s("https://a/") };
    assert_eq!(settings.complete(), record("T", "https://a/", 0, ""));
    let feed = settings.to_feed(2);
    assert_eq!(feed.get_id(), 2);
    assert_eq!(feed.get_title(), "T");
    assert_eq!(feed.get_url(), "https://a/");
    assert_eq!(feed.get_filter(), "");
    assert_eq!(feed.get_viewed(), 0);
    assert_eq!(feed.get_state(), FeedState::DownloadPending);
    assert_eq!(settings.clone(), settings);
}

#[test]
fn new_list_is_empty() {
    let list = FeedList::new();
    assert!(list.get_feeds().is_empty());
    assert!(list.get_removed().is_empty());
    assert_eq!(list.position(0), None);
    assert!(list.find(0).is_none());
    assert!(list.to_stored().is_empty());
}

#[test]
fn added_feeds_get_distinct_identifiers_in_order() {
    let list = three();
    assert_eq!(ids(list.get_feeds()), vec![0, 1, 2]);
    assert_eq!(list.position(1), Some(1));
    assert_eq!(list.position(3), None);
    let b = list.find(1).unwrap();
    assert_eq!(b.get_title(), "B");
    assert_eq!(b.get_state(), FeedState::EmptyURL);
    assert_eq!(b.get_filter(), "x");
    assert_eq!(b.get_viewed(), 5);
    assert_eq!(list.find(0).unwrap().get_state(), FeedState::DownloadPending);
}

#[test]
fn removed_feed_moves_to_the_removed_ones() {
    let mut list = three();
    assert!(list.remove(1));
    assert_eq!(ids(list.get_feeds()), vec![0, 2]);
    assert_eq!(ids(list.get_removed()), vec![1]);
    assert_eq!(list.position(2), Some(1));
    assert!(list.find(1).is_none());
    assert!(!list.remove(1));
    assert!(!list.remove(17));
    assert!(list.remove(0));
    assert_eq!(ids(list.get_feeds()), vec![2]);
    assert_eq!(ids(list.get_removed()), vec![1, 0]);
}

#[test]
fn restored_feed_comes_back_at_the_end() {
    let mut list = three();
    assert!(!list.restore(0));
    list.remove(0);
    list.remove(1);
    assert!(list.restore(0));
    assert_eq!(ids(list.get_feeds()), vec![2, 0]);
    assert_eq!(ids(list.get_removed()), vec![1]);
    assert_eq!(list.find(0).unwrap().get_title(), "A");
    assert!(!list.restore(0));
    assert!(list.restore(1));
    assert_eq!(ids(list.get_feeds()), vec![2, 0, 1]);
    assert!(list.get_removed().is_empty());
}

#[test]
fn identifiers_are_not_used_again() {
    let mut list = three();
    list.remove(2);
    assert_eq!(list.add(&s("D"), &s(""), &s(""), 0), Some(3));
    list.restore(2);
    assert_eq!(ids(list.get_feeds()), vec![0, 1, 3, 2]);
}

#[test]
fn settings_of_a_feed_in_the_list_can_be_changed() {
    let mut list = three();
    assert_eq!(list.set_url(1, s("https://b/")), Some(FeedState::DownloadPending));
    assert_eq!(list.set_url(0, s("")), Some(FeedState::EmptyURL));
    assert_eq!(list.set_url(9, s("https://z/")), None);
    assert!(list.set_title(1, s("Bee")));
    assert!(!list.set_title(9, s("Zed")));
    assert!(list.set_filter(2, s("news")));
    assert!(!list.set_filter(9, s("news")));
    assert!(list.mark_viewed(2, 123));
    assert!(!list.mark_viewed(9, 123));

    let stored = list.to_stored();
    assert_eq!(
        stored,
        vec![record("A", "", 0, ""), record("Bee", "https://b/", 5, "x"), record("C", "https://c/", 123, "news")]
    );
}

#[test]
fn download_and_finish_go_to_the_named_feed() {
    let mut list = three();
    assert_eq!(list.download(1), None);
    assert_eq!(list.download(9), None);
    let ticket = list.download(2).unwrap();
    assert_eq!(ticket, FetchTicket { feed: 2, token: 1, url: s("https://c/") });
    assert_eq!(list.find(2).unwrap().get_state(), FeedState::DownloadStarted);
    assert_eq!(list.find(0).unwrap().get_state(), FeedState::DownloadPending);

    assert_eq!(list.finish(0, ticket.token, Ok(one_item())), Completion::Discarded);
    assert_eq!(list.finish(9, ticket.token, Ok(one_item())), Completion::Discarded);
    assert_eq!(
        list.finish(ticket.feed, ticket.token, Ok(one_item())),
        Completion::Succeeded { title_replaced: false }
    );
    let c = list.find(2).unwrap();
    assert_eq!(c.get_state(), FeedState::DownloadSucceeded);
    assert_eq!(c.get_items().len(), 1);
    assert_eq!(c.get_title(), "C");
    assert_eq!(c.get_unread(), 1);
}

#[test]
fn removed_feed_still_takes_the_outcome_of_its_task() {
    let mut list = three();
    let ticket = list.download(0).unwrap();
    list.remove(0);
    assert_eq!(list.finish(0, ticket.token, Err(TaskError::FetchError)), Completion::Failed);
    assert_eq!(list.get_removed()[0].get_state(), FeedState::DownloadFailed);
    list.restore(0);
    assert_eq!(list.find(0).unwrap().get_state(), FeedState::DownloadFailed);
}

#[test]
fn refresh_starts_every_feed_with_an_address() {
    let mut list = three();
    list.remove(2);
    let first = list.refresh();
    assert_eq!(first, vec![FetchTicket { feed: 0, token: 1, url: s("https://a/") }]);
    list.restore(2);
    let second = list.refresh();
    assert_eq!(
        second,
        vec![
            FetchTicket { feed: 0, token: 2, url: s("https://a/") },
            FetchTicket { feed: 2, token: 1, url: s("https://c/") },
        ]
    );
    assert_eq!(list.find(0).unwrap().get_state(), FeedState::DownloadStarted);
    assert_eq!(list.find(1).unwrap().get_state(), FeedState::EmptyURL);
    assert_eq!(list.find(2).unwrap().get_state(), FeedState::DownloadStarted);
    assert_eq!(list.finish(0, 1, Ok(one_item())), Completion::Discarded);
    assert_eq!(list.finish(0, 2, Ok(one_item())), Completion::Succeeded { title_replaced: false });
    assert!(FeedList::new().refresh().is_empty());
}

#[test]
fn list_from_records_keeps_them_in_order() {
    let stored = vec![record("A", "https://a/", 1, ""), record("B", "", 2, "f"), record("C", "https://c/", 3, "")];
    let mut list = FeedList::from_stored(&stored);
    assert_eq!(ids(list.get_feeds()), vec![0, 1, 2]);
    assert!(list.get_removed().is_empty());
    assert_eq!(list.find(1).unwrap().get_state(), FeedState::EmptyURL);
    assert_eq!(list.find(2).unwrap().get_state(), FeedState::DownloadPending);
    assert_eq!(list.to_stored(), stored);
    assert_eq!(list.add(&s("D"), &s(""), &s(""), 0), Some(3));
    assert!(FeedList::from_stored(&Vec::new()).get_feeds().is_empty());
}

#[test]
fn removed_feeds_are_not_stored() {
    let mut list = three();
    list.remove(1);
    assert_eq!(list.to_stored(), vec![record("A", "https://a/", 0, ""), record("C", "https://c/", 0, "")]);
}

#[test]
fn assigning_an_address_in_the_list_triggers_a_fetch() {
    let mut list = three();
    let ticket = list.assign_url(1, s("https://b/")).unwrap();
    assert_eq!(ticket, FetchTicket { feed: 1, token: 1, url: s("https://b/") });
    assert_eq!(list.find(1).unwrap().get_state(), FeedState::DownloadStarted);
    assert_eq!(list.assign_url(0, s("")), None);
    assert_eq!(list.find(0).unwrap().get_state(), FeedState::EmptyURL);
    assert_eq!(list.assign_url(9, s("https://z/")), None);
    assert_eq!(list.find(2).unwrap().get_state(), FeedState::DownloadPending);
}
