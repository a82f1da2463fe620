//! One entry of a feed, and the unread count over a list of entries.

use vstd::prelude::*;

verus! {

/// One entry of a feed: an immutable value made in bulk by a fetch.
#[derive(Debug, PartialEq, Eq)]
pub struct FeedItem {
    title: String,
    url: String,
    summary: String,
    published: i64,
}

/// The mathematical value of a [`FeedItem`].
pub struct FeedItemView {
    pub title: Seq<char>,
    pub url: Seq<char>,
    pub summary: Seq<char>,
    /// Seconds since the Unix epoch; 0 where the source gave no time.
    pub published: int,
}

impl DeepView for FeedItem {
    type V = FeedItemView;

    closed spec fn deep_view(&self) -> FeedItemView {
        FeedItemView {
            title: self.title@,
            url: self.url@,
            summary: self.summary@,
            published: self.published as int,
        }
    }
}

impl View for FeedItem {
    type V = FeedItemView;

    open spec fn view(&self) -> FeedItemView {
        self.deep_view()
    }
}

impl Clone for FeedItem {
    fn clone(&self) -> (copy: FeedItem)
        ensures
            copy@ == self@,
    {
        FeedItem {
            title: self.title.clone(),
            url: self.url.clone(),
            summary: self.summary.clone(),
            published: self.published,
        }
    }
}

impl FeedItemView {
    /// Whether the entry was published strictly after `date`.
    pub open spec fn is_newer(self, date: int) -> bool {
        self.published > date
    }
}

/// The predicate "published strictly after `date`".
pub open spec fn newer_than(date: int) -> spec_fn(FeedItemView) -> bool {
    |item: FeedItemView| item.is_newer(date)
}

/// How many of `items` were published strictly after `date`.
pub open spec fn count_newer(items: Seq<FeedItemView>, date: int) -> nat {
    items.filter(newer_than(date)).len()
}

impl FeedItem {
    /// An entry without a summary.
    pub fn new(title: &String, url: &String, date: i64) -> (item: FeedItem)
        ensures
            item@ == (FeedItemView {
                title: title@,
                url: url@,
                summary: Seq::empty(),
                published: date as int,
            }),
    {
        FeedItem { title: title.clone(), url: url.clone(), summary: String::new(), published: date }
    }

    /// An entry with the secondary text that detail views show.
    pub fn with_summary(title: String, url: String, summary: String, date: i64) -> (item: FeedItem)
        ensures
            item@ == (FeedItemView {
                title: title@,
                url: url@,
                summary: summary@,
                published: date as int,
            }),
    {
        FeedItem { title, url, summary, published: date }
    }

    /// The title to show for the entry.
    pub fn get_title(&self) -> (title: &String)
        ensures
            title@ == self@.title,
    {
        &self.title
    }

    /// The link to open when the entry is activated.
    pub fn get_url(&self) -> (url: &String)
        ensures
            url@ == self@.url,
    {
        &self.url
    }

    /// The secondary text of the entry; empty where the source had none.
    pub fn get_summary(&self) -> (summary: &String)
        ensures
            summary@ == self@.summary,
    {
        &self.summary
    }

    /// When the entry was published, in seconds since the Unix epoch.
    pub fn get_published(&self) -> (date: i64)
        ensures
            date == self@.published,
    {
        self.published
    }

    /// Whether the entry was published strictly after `date`.
    pub fn is_newer(&self, date: i64) -> (newer: bool)
        ensures
            newer == self@.is_newer(date as int),
    {
        self.published > date
    }
}

/// Counts the entries of `items` that were published strictly after `date`.
pub fn count_newer_items(items: &Vec<FeedItem>, date: i64) -> (count: usize)
    ensures
        count == count_newer(items.deep_view(), date as int),
{
    let ghost all = items.deep_view();
    let ghost pred = newer_than(date as int);
    let mut count: usize = 0;
    let mut i: usize = 0;
    proof {
        reveal(Seq::filter);
        assert(all.take(0).filter(pred).len() == 0);
    }
    while i < items.len()
        invariant
            i <= items.len(),
            all == items.deep_view(),
            pred == newer_than(date as int),
            count == all.take(i as int).filter(pred).len(),
            count <= i,
        decreases items.len() - i,
    {
        proof {
            let next = all.take(i as int + 1);
            assert(next.drop_last() == all.take(i as int));
            assert(next.last() == items[i as int]@);
            reveal(Seq::filter);
        }
        if items[i].is_newer(date) {
            count = count + 1;
        }
        i = i + 1;
    }
    proof {
        assert(all.take(i as int) == all);
    }
    count
}

} // verus!
