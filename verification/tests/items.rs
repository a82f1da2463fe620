use binge_rss::document::{normalize_entries, normalize_entry, Entry, UNNAMED_ITEM};
use binge_rss::error::ItemLinkMissing;
use binge_rss::feed_item::{count_newer_items, FeedItem};

fn entry(title: Option<&str>, links: &[&str], summary: Option<&str>, published: Option<i64>) -> Entry {
    Entry {
        title: title.map(String::from),
        links: links.iter().map(|l| String::from(*l)).collect(),
        summary: summary.map(String::from),
        published,
    }
}

#[test]
fn new_item_keeps_its_values() {
    let item = FeedItem::new(&String::from("Title"), &String::from("https://a/b"), 42);
    assert_eq!(item.get_title(), "Title");
    assert_eq!(item.get_url(), "https://a/b");
    assert_eq!(item.get_summary(), "");
    assert_eq!(item.get_published(), 42);
}

#[test]
fn item_with_summary_keeps_its_values() {
    let item = FeedItem::with_summary(
        String::from("T"),
        String::from("U"),
        String::from("S"),
        -3,
    );
    assert_eq!(item.get_title(), "T");
    assert_eq!(item.get_url(), "U");
    assert_eq!(item.get_summary(), "S");
    assert_eq!(item.get_published(), -3);
    let copy = item.clone();
    assert_eq!(copy, item);
}

#[test]
fn is_newer_is_strict() {
    let item = FeedItem::new(&String::from("t"), &String::from("u"), 100);
    assert!(item.is_newer(99));
    assert!(!item.is_newer(100));
    assert!(!item.is_newer(101));
    assert!(item.is_newer(i64::MIN));
    assert!(!item.is_newer(i64::MAX));
}

#[test]
fn count_newer_counts_strictly_later_items() {
    let items: Vec<FeedItem> = [5i64, 10, 10, 11, 0, 99]
        .iter()
        .map(|d| FeedItem::new(&String::from("t"), &String::from("u"), *d))
        .collect();
    assert_eq!(count_newer_items(&items, 10), 2);
    assert_eq!(count_newer_items(&items, -1), 6);
    assert_eq!(count_newer_items(&items, 0), 5);
    assert_eq!(count_newer_items(&items, 99), 0);
    assert_eq!(count_newer_items(&Vec::new(), 0), 0);
}

#[test]
fn entry_without_title_gets_the_placeholder() {
    let item = normalize_entry(&entry(None, &["https://a/1"], None, None)).unwrap();
    assert_eq!(UNNAMED_ITEM, "Unnamed Item");
    assert_eq!(item.get_title(), "Unnamed Item");
    assert_eq!(item.get_url(), "https://a/1");
    assert_eq!(item.get_summary(), "");
    assert_eq!(item.get_published(), 0);
}

#[test]
fn entry_with_everything_is_taken_over() {
    let made = normalize_entry(&entry(
        Some("Named"),
        &["https://a/first", "https://a/second"],
        Some("text"),
        Some(1431648000),
    ));
    let item = made.unwrap();
    assert_eq!(item.get_title(), "Named");
    assert_eq!(item.get_url(), "https://a/first");
    assert_eq!(item.get_summary(), "text");
    assert_eq!(item.get_published(), 1431648000);
}

#[test]
fn entry_without_link_is_reported() {
    let made = normalize_entry(&entry(Some("Named"), &[], Some("text"), Some(7)));
    assert_eq!(made, Err(ItemLinkMissing));
}

#[test]
fn entries_without_link_are_skipped_in_order() {
    let entries = vec![
        entry(Some("a"), &["https://a"], None, Some(1)),
        entry(Some("b"), &[], None, Some(2)),
        entry(None, &["https://c"], None, None),
        entry(Some("d"), &[], None, None),
        entry(Some("e"), &["https://e"], Some("s"), Some(5)),
    ];
    let items = normalize_entries(&entries);
    let titles: Vec<&str> = items.iter().map(|i| i.get_title().as_str()).collect();
    assert_eq!(titles, vec!["a", "Unnamed Item", "e"]);
    let urls: Vec<&str> = items.iter().map(|i| i.get_url().as_str()).collect();
    assert_eq!(urls, vec!["https://a", "https://c", "https://e"]);
    assert!(normalize_entries(&Vec::new()).is_empty());
}

#[test]
fn three_entries_one_untitled_give_three_items() {
    let entries = vec![
        entry(Some("First"), &["https://example.com/1"], Some("one"), Some(1431648000)),
        entry(None, &["https://example.com/2"], None, None),
        entry(Some("Third"), &["https://example.com/3"], None, None),
    ];
    let items = normalize_entries(&entries);
    assert_eq!(items.len(), 3);
    assert_eq!(items[0].get_title(), "First");
    assert_eq!(items[0].get_summary(), "one");
    assert_eq!(items[0].get_published(), 1431648000);
    assert_eq!(items[1].get_title(), "Unnamed Item");
    assert_eq!(items[1].get_url(), "https://example.com/2");
    assert_eq!(items[1].get_published(), 0);
    assert_eq!(items[2].get_title(), "Third");
    assert_eq!(items[2].get_url(), "https://example.com/3");
}

#[test]
fn only_the_first_link_of_an_entry_counts() {
    let entries = vec![
        entry(Some("Linked"), &["https://atom.example.org/1", "https://atom.example.org/1-alt"], Some("short text"), Some(1431648001)),
        entry(Some("Unlinked"), &[], None, None),
    ];
    let items = normalize_entries(&entries);
    assert_eq!(items.len(), 1);
    assert_eq!(items[0].get_title(), "Linked");
    assert_eq!(items[0].get_url(), "https://atom.example.org/1");
    assert_eq!(items[0].get_summary(), "short text");
    assert_eq!(items[0].get_published(), 1431648001);
}
