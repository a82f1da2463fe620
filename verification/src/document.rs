//! A parsed feed document as plain values, and how its entries become items.
//!
//! The library does not parse: whoever fetches a feed reads the bytes as RSS,
//! Atom or JSON Feed and hands over what was found, as a [`Document`].

use vstd::prelude::*;
use crate::error::ItemLinkMissing;
use crate::feed_item::{FeedItem, FeedItemView};

verus! {

/// One entry of a parsed document, as the parser found it.
#[derive(Debug, PartialEq, Eq)]
pub struct Entry {
    pub title: Option<String>,
    pub links: Vec<String>,
    pub summary: Option<String>,
    /// Seconds since the Unix epoch.
    pub published: Option<i64>,
}

/// What a fetch reads of a parsed feed document.
#[derive(Debug, PartialEq, Eq)]
pub struct Document {
    pub title: Option<String>,
    pub links: Vec<String>,
    pub entries: Vec<Entry>,
}

/// The mathematical value of an [`Entry`].
pub struct EntryView {
    pub title: Option<Seq<char>>,
    pub links: Seq<Seq<char>>,
    pub summary: Option<Seq<char>>,
    pub published: Option<i64>,
}

/// The mathematical value of a [`Document`].
pub struct DocumentView {
    pub title: Option<Seq<char>>,
    pub links: Seq<Seq<char>>,
    pub entries: Seq<EntryView>,
}

impl DeepView for Entry {
    type V = EntryView;

    open spec fn deep_view(&self) -> EntryView {
        EntryView {
            title: self.title.deep_view(),
            links: self.links.deep_view(),
            summary: self.summary.deep_view(),
            published: self.published,
        }
    }
}

impl View for Entry {
    type V = EntryView;

    open spec fn view(&self) -> EntryView {
        self.deep_view()
    }
}

impl DeepView for Document {
    type V = DocumentView;

    open spec fn deep_view(&self) -> DocumentView {
        DocumentView {
            title: self.title.deep_view(),
            links: self.links.deep_view(),
            entries: self.entries.deep_view(),
        }
    }
}

impl View for Document {
    type V = DocumentView;

    open spec fn view(&self) -> DocumentView {
        self.deep_view()
    }
}

/// The title given to an entry whose source has none.
pub const UNNAMED_ITEM: &'static str = "Unnamed Item";

/// The item that an entry becomes: `None` for an entry without a link.
///
/// The title falls back to [`UNNAMED_ITEM`], the summary to the empty text and
/// the publication time to 0; the first link is the item's address.
pub open spec fn item_of(entry: EntryView) -> Option<FeedItemView> {
    if entry.links.len() == 0 {
        None
    } else {
        Some(
            FeedItemView {
                title: match entry.title {
                    Some(title) => title,
                    None => UNNAMED_ITEM@,
                },
                url: entry.links[0],
                summary: match entry.summary {
                    Some(summary) => summary,
                    None => Seq::empty(),
                },
                published: match entry.published {
                    Some(date) => date as int,
                    None => 0,
                },
            },
        )
    }
}

/// [`item_of`] as a function value.
pub open spec fn to_item() -> spec_fn(EntryView) -> Option<FeedItemView> {
    |entry: EntryView| item_of(entry)
}

/// The items of a document: one for each entry that has a link, in document
/// order.
pub open spec fn items_of(entries: Seq<EntryView>) -> Seq<FeedItemView> {
    entries.filter_map(to_item())
}

/// Makes the item of one entry, or reports that the entry has no link.
pub fn normalize_entry(entry: &Entry) -> (made: Result<FeedItem, ItemLinkMissing>)
    ensures
        made matches Ok(item) ==> item_of(entry@) == Some(item@),
        made is Err ==> item_of(entry@) is None,
{
    if entry.links.len() == 0 {
        return Err(ItemLinkMissing);
    }
    let title = match &entry.title {
        Some(title) => title.clone(),
        None => String::from_str(UNNAMED_ITEM),
    };
    let summary = match &entry.summary {
        Some(summary) => summary.clone(),
        None => String::new(),
    };
    let published = match entry.published {
        Some(date) => date,
        None => 0,
    };
    Ok(FeedItem::with_summary(title, entry.links[0].clone(), summary, published))
}

/// Makes the items of a document's entries; an entry without a link is skipped.
pub fn normalize_entries(entries: &Vec<Entry>) -> (items: Vec<FeedItem>)
    ensures
        items.deep_view() == items_of(entries.deep_view()),
{
    let ghost all = entries.deep_view();
    let mut items: Vec<FeedItem> = Vec::new();
    let mut i: usize = 0;
    proof {
        assert(items.deep_view() == all.take(0).filter_map(to_item()));
    }
    while i < entries.len()
        invariant
            i <= entries.len(),
            all == entries.deep_view(),
            items.deep_view() == all.take(i as int).filter_map(to_item()),
        decreases entries.len() - i,
    {
        proof {
            let next = all.take(i as int + 1);
            assert(next.drop_last() == all.take(i as int));
            assert(next.last() == entries[i as int]@);
        }
        match normalize_entry(&entries[i]) {
            Ok(item) => {
                let ghost before = items.deep_view();
                items.push(item);
                proof {
                    assert(items.deep_view() == before + seq![item@]);
                }
            },
            Err(_) => {},
        }
        i = i + 1;
    }
    proof {
        assert(all.take(i as int) == all);
    }
    items
}

} // verus!
