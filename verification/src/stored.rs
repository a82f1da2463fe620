//! The records under which feeds are kept between runs.

use vstd::prelude::*;
use crate::feed::{Feed, FeedView};

verus! {

/// What is kept of a feed between runs.
#[derive(Debug, PartialEq, Eq)]
pub struct StoredFeed {
    /// The name of the feed.
    pub title: String,
    /// The address of the feed document.
    pub url: String,
    /// When the feed was last viewed, in seconds since the Unix epoch.
    pub viewed: i64,
    /// The filter query.
    pub filter: String,
}

/// The mathematical value of a [`StoredFeed`].
pub struct StoredFeedView {
    pub title: Seq<char>,
    pub url: Seq<char>,
    pub viewed: int,
    pub filter: Seq<char>,
}

impl DeepView for StoredFeed {
    type V = StoredFeedView;

    open spec fn deep_view(&self) -> StoredFeedView {
        StoredFeedView {
            title: self.title@,
            url: self.url@,
            viewed: self.viewed as int,
            filter: self.filter@,
        }
    }
}

impl View for StoredFeed {
    type V = StoredFeedView;

    open spec fn view(&self) -> StoredFeedView {
        self.deep_view()
    }
}

impl Clone for StoredFeed {
    fn clone(&self) -> (copy: StoredFeed)
        ensures
            copy@ == self@,
    {
        StoredFeed {
            title: self.title.clone(),
            url: self.url.clone(),
            viewed: self.viewed,
            filter: self.filter.clone(),
        }
    }
}

/// The short record of a feed: name and address only.
#[derive(Debug, PartialEq, Eq)]
pub struct FeedSettings {
    pub title: String,
    pub url: String,
}

/// The mathematical value of a [`FeedSettings`].
pub struct FeedSettingsView {
    pub title: Seq<char>,
    pub url: Seq<char>,
}

impl DeepView for FeedSettings {
    type V = FeedSettingsView;

    open spec fn deep_view(&self) -> FeedSettingsView {
        FeedSettingsView { title: self.title@, url: self.url@ }
    }
}

impl View for FeedSettings {
    type V = FeedSettingsView;

    open spec fn view(&self) -> FeedSettingsView {
        self.deep_view()
    }
}

impl Clone for FeedSettings {
    fn clone(&self) -> (copy: FeedSettings)
        ensures
            copy@ == self@,
    {
        FeedSettings { title: self.title.clone(), url: self.url.clone() }
    }
}

/// The record of a feed.
pub open spec fn stored_of(feed: FeedView) -> StoredFeedView {
    StoredFeedView { title: feed.title, url: feed.url, viewed: feed.viewed, filter: feed.filter }
}

/// The feed that a record gives under the identifier `id`: it has the settings
/// of the record and no content.
pub open spec fn restored(id: u64, stored: StoredFeedView) -> FeedView {
    FeedView::initial(id, stored.title, stored.url, stored.filter, stored.viewed)
}

impl FeedSettingsView {
    /// The full record with the same name and address: never viewed, without
    /// filter.
    pub open spec fn completed(self) -> StoredFeedView {
        StoredFeedView { title: self.title, url: self.url, viewed: 0, filter: Seq::empty() }
    }
}

impl StoredFeed {
    /// The record of `feed`.
    pub fn of(feed: &Feed) -> (stored: StoredFeed)
        ensures
            stored@ == stored_of(feed@),
    {
        StoredFeed {
            title: feed.get_title().clone(),
            url: feed.get_url().clone(),
            viewed: feed.get_viewed(),
            filter: feed.get_filter().clone(),
        }
    }

    /// The feed that this record gives under the identifier `id`.
    pub fn to_feed(&self, id: u64) -> (feed: Feed)
        ensures
            feed@ == restored(id, self@),
            feed@.valid(),
    {
        Feed::new(id, &self.title, &self.url, &self.filter, self.viewed)
    }
}

impl FeedSettings {
    /// The short record of `feed`.
    pub fn of(feed: &Feed) -> (settings: FeedSettings)
        ensures
            settings@ == (FeedSettingsView { title: feed@.title, url: feed@.url }),
    {
        FeedSettings { title: feed.get_title().clone(), url: feed.get_url().clone() }
    }

    /// The full record with the same name and address.
    pub fn complete(&self) -> (stored: StoredFeed)
        ensures
            stored@ == self@.completed(),
    {
        StoredFeed {
            title: self.title.clone(),
            url: self.url.clone(),
            viewed: 0,
            filter: String::new(),
        }
    }

    /// The feed that this record gives under the identifier `id`.
    pub fn to_feed(&self, id: u64) -> (feed: Feed)
        ensures
            feed@ == restored(id, self@.completed()),
            feed@.valid(),
    {
        let filter = String::new();
        Feed::new(id, &self.title, &self.url, &filter, 0)
    }
}

/// A feed restored from a record has that record: nothing of the settings is
/// lost between runs.
pub proof fn lemma_restore_then_store(id: u64, stored: StoredFeedView)
    ensures
        stored_of(restored(id, stored)) == stored,
        restored(id, stored).valid(),
{
}

/// Storing keeps the settings of a feed: the feed restored from its record
/// differs from it only in what a fetch brings.
pub proof fn lemma_store_then_restore(feed: FeedView)
    ensures
        ({
            let again = restored(feed.id, stored_of(feed));
            &&& again.id == feed.id
            &&& again.title == feed.title
            &&& again.url == feed.url
            &&& again.filter == feed.filter
            &&& again.viewed == feed.viewed
        }),
{
}

} // verus!
