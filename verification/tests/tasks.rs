use binge_rss::document::{Document, Entry};
use binge_rss::error::{IconError, TaskError};
use binge_rss::feed_item::FeedItem;
use binge_rss::task::{on_document, on_icon, plan_for_document, FetchResult, Response, Step};

fn s(text: &str) -> String {
    String::from(text)
}

fn linked(title: Option<&str>, link: &str) -> Entry {
    Entry { title: title.map(s), links: vec![s(link)], summary: None, published: None }
}

fn document() -> Document {
    Document {
        title: Some(String::from("Doc")),
        links: vec![String::from("https://doc.example.com/")],
        entries: vec![
            Entry {
                title: Some(String::from("One")),
                links: vec![String::from("https://doc.example.com/1")],
                summary: Some(String::from("first")),
                published: Some(10),
            },
            Entry { title: None, links: vec![], summary: None, published: Some(20) },
            Entry {
                title: None,
                links: vec![String::from("https://doc.example.com/3")],
                summary: None,
                published: None,
            },
        ],
    }
}

fn expected_pending() -> FetchResult {
    FetchResult {
        title: Some(String::from("Doc")),
        items: vec![
            FeedItem::with_summary(
                String::from("One"),
                String::from("https://doc.example.com/1"),
                String::from("first"),
                10,
            ),
            FeedItem::new(&String::from("Unnamed Item"), &String::from("https://doc.example.com/3"), 0),
        ],
        icon: None,
    }
}

#[test]
fn failed_request_is_a_fetch_error() {
    assert_eq!(on_document(Response::Failed), Step::Done(Err(TaskError::FetchError)));
}

#[test]
fn unreadable_body_is_a_parse_error() {
    assert_eq!(on_document(Response::Unreadable), Step::Done(Err(TaskError::ParseError)));
}

#[test]
fn document_without_link_succeeds_without_icon_request() {
    let document = Document {
        title: Some(s("Atom Feed")),
        links: vec![],
        entries: vec![linked(Some("Linked"), "https://atom.example.org/1")],
    };
    let expected = FetchResult {
        title: Some(s("Atom Feed")),
        items: vec![FeedItem::new(&s("Linked"), &s("https://atom.example.org/1"), 0)],
        icon: None,
    };
    assert_eq!(on_document(Response::Document(document)), Step::Done(Ok(expected)));
}

#[test]
fn document_whose_first_link_has_no_host_succeeds_without_icon_request() {
    let document = Document {
        title: Some(s("Mail Feed")),
        links: vec![s("mailto:someone@example.org"), s("https://atom.example.org/")],
        entries: vec![linked(None, "https://atom.example.org/1")],
    };
    let expected = FetchResult {
        title: Some(s("Mail Feed")),
        items: vec![FeedItem::new(&s("Unnamed Item"), &s("https://atom.example.org/1"), 0)],
        icon: None,
    };
    assert_eq!(on_document(Response::Document(document)), Step::Done(Ok(expected)));
}

#[test]
fn document_whose_first_link_is_no_address_succeeds_without_icon_request() {
    let document = Document { title: None, links: vec![s("not a url")], entries: vec![] };
    let expected = FetchResult { title: None, items: vec![], icon: None };
    assert_eq!(on_document(Response::Document(document)), Step::Done(Ok(expected)));
}

#[test]
fn document_with_link_asks_for_the_icon() {
    let document = Document {
        title: None,
        links: vec![s("HTTP://Atom.Example.ORG:8080/feed.atom")],
        entries: vec![Entry { title: Some(s("Unlinked")), links: vec![], summary: None, published: None }],
    };
    let expected = Step::FetchIcon {
        url: s("http://atom.example.org/favicon.ico"),
        pending: FetchResult { title: None, items: vec![], icon: None },
    };
    assert_eq!(on_document(Response::Document(document)), expected);
}

#[test]
fn document_is_planned_as_its_parts_are() {
    let step = on_document(Response::Document(document()));
    let expected = Step::FetchIcon {
        url: s("https://doc.example.com/favicon.ico"),
        pending: expected_pending(),
    };
    assert_eq!(step, expected);
}

#[test]
fn plan_with_icon_address_asks_for_the_icon() {
    let step = plan_for_document(&document(), Ok(String::from("https://doc.example.com/favicon.ico")));
    let expected = Step::FetchIcon {
        url: String::from("https://doc.example.com/favicon.ico"),
        pending: expected_pending(),
    };
    assert_eq!(step, expected);
}

#[test]
fn plan_without_icon_address_is_done() {
    let step = plan_for_document(&document(), Err(IconError::IconDerivationError));
    assert_eq!(step, Step::Done(Ok(expected_pending())));
}

#[test]
fn icon_bytes_are_attached() {
    let result = on_icon(expected_pending(), Ok(vec![1, 2, 3]));
    assert_eq!(result.icon, Some(vec![1, 2, 3]));
    assert_eq!(result.title, expected_pending().title);
    assert_eq!(result.items, expected_pending().items);
}

#[test]
fn icon_failures_leave_the_result_without_icon() {
    for error in [IconError::IconFetchError, IconError::IconDecodeError, IconError::IconDerivationError] {
        let result = on_icon(expected_pending(), Err(error));
        assert_eq!(result, expected_pending());
    }
}

#[test]
fn icon_failure_clears_an_earlier_icon() {
    let mut pending = expected_pending();
    pending.icon = Some(vec![9]);
    let result = on_icon(pending, Err(IconError::IconDecodeError));
    assert_eq!(result.icon, None);
}
