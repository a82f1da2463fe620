//! The feeds of one user: those subscribed to, and those removed but still to
//! be had back. The list gives every feed its identifier.

use vstd::prelude::*;
use crate::error::TaskError;
use crate::feed::{outcome_view, Completion, Feed, FeedState, FeedView, FetchTicket, FetchTicketView};
use crate::stored::{restored, stored_of, StoredFeed, StoredFeedView};
use crate::task::FetchResult;

verus! {

/// The place of the feed with the identifier `id` in `feeds`: that of the
/// first such feed, `None` where there is none.
pub open spec fn position_of(feeds: Seq<FeedView>, id: u64) -> Option<int>
    decreases feeds.len(),
{
    if feeds.len() == 0 {
        None
    } else {
        match position_of(feeds.drop_last(), id) {
            Some(i) => Some(i),
            None => if feeds.last().id == id {
                Some(feeds.len() - 1)
            } else {
                None
            },
        }
    }
}

/// What [`position_of`] finds: the first feed with the identifier, or that no
/// feed has it.
pub proof fn lemma_position_of(feeds: Seq<FeedView>, id: u64)
    ensures
        match position_of(feeds, id) {
            Some(i) => {
                &&& 0 <= i < feeds.len()
                &&& feeds[i].id == id
                &&& forall|j: int| 0 <= j < i ==> (#[trigger] feeds[j]).id != id
            },
            None => forall|j: int| 0 <= j < feeds.len() ==> (#[trigger] feeds[j]).id != id,
        },
    decreases feeds.len(),
{
    if feeds.len() > 0 {
        let before = feeds.drop_last();
        lemma_position_of(before, id);
        assert forall|j: int| 0 <= j < before.len() implies before[j] == feeds[j] by {}
        match position_of(before, id) {
            Some(i) => {
                assert(before[i] == feeds[i]);
                assert forall|j: int| 0 <= j < i implies (#[trigger] feeds[j]).id != id by {
                    assert(before[j] == feeds[j]);
                }
            },
            None => {
                assert forall|j: int| 0 <= j < before.len() implies (#[trigger] feeds[j]).id
                    != id by {
                    assert(before[j] == feeds[j]);
                }
            },
        }
    }
}

/// Whether no two of `feeds` have the same identifier.
pub open spec fn distinct_ids(feeds: Seq<FeedView>) -> bool {
    forall|i: int, j: int|
        0 <= i < j < feeds.len() ==> (#[trigger] feeds[i]).id != (#[trigger] feeds[j]).id
}

/// Whether no feed of `one` has the identifier of a feed of `other`.
pub open spec fn disjoint_ids(one: Seq<FeedView>, other: Seq<FeedView>) -> bool {
    forall|i: int, j: int|
        0 <= i < one.len() && 0 <= j < other.len() ==> (#[trigger] one[i]).id != (
        #[trigger] other[j]).id
}

/// Whether every feed of `feeds` is valid and has an identifier below `bound`.
pub open spec fn all_known(feeds: Seq<FeedView>, bound: u64) -> bool {
    forall|i: int|
        0 <= i < feeds.len() ==> (#[trigger] feeds[i]).valid() && feeds[i].id < bound
}

/// The mathematical value of a [`FeedList`].
pub struct FeedListView {
    /// The subscribed feeds, in the order in which they were added.
    pub feeds: Seq<FeedView>,
    /// The removed feeds, in the order in which they were removed.
    pub removed: Seq<FeedView>,
    /// The identifier of the next feed.
    pub next_id: u64,
}

impl FeedListView {
    /// What holds of every list: its feeds are valid, and no two of them,
    /// subscribed or removed, have the same identifier.
    pub open spec fn valid(self) -> bool {
        &&& all_known(self.feeds, self.next_id)
        &&& all_known(self.removed, self.next_id)
        &&& distinct_ids(self.feeds)
        &&& distinct_ids(self.removed)
        &&& disjoint_ids(self.feeds, self.removed)
    }

    /// The list without feeds.
    pub open spec fn empty() -> FeedListView {
        FeedListView { feeds: Seq::empty(), removed: Seq::empty(), next_id: 0 }
    }

    /// Whether the list can take another feed.
    pub open spec fn has_room(self) -> bool {
        self.next_id < u64::MAX
    }

    /// The place of the subscribed feed with the identifier `id`.
    pub open spec fn position(self, id: u64) -> Option<int> {
        position_of(self.feeds, id)
    }

    /// The place of the removed feed with the identifier `id`.
    pub open spec fn removed_position(self, id: u64) -> Option<int> {
        position_of(self.removed, id)
    }

    /// The list after `feed` was added at the end.
    pub open spec fn with(self, feed: FeedView) -> FeedListView {
        FeedListView {
            feeds: self.feeds.push(feed),
            next_id: (self.next_id + 1) as u64,
            ..self
        }
    }

    /// The list with `feed` in the place `i` of the subscribed feeds.
    pub open spec fn with_feed(self, i: int, feed: FeedView) -> FeedListView {
        FeedListView { feeds: self.feeds.update(i, feed), ..self }
    }

    /// The list with `feed` in the place `i` of the removed feeds.
    pub open spec fn with_removed_feed(self, i: int, feed: FeedView) -> FeedListView {
        FeedListView { removed: self.removed.update(i, feed), ..self }
    }

    /// The list after a download was asked for of every subscribed feed.
    pub open spec fn refreshed(self) -> FeedListView {
        FeedListView { feeds: self.feeds.map_values(to_started()), ..self }
    }

    /// The list that a sequence of records gives.
    pub open spec fn from_stored(stored: Seq<StoredFeedView>) -> FeedListView {
        FeedListView {
            feeds: restored_feeds(stored),
            removed: Seq::empty(),
            next_id: stored.len() as u64,
        }
    }

    /// The records of the subscribed feeds, in their order.
    pub open spec fn stored(self) -> Seq<StoredFeedView> {
        self.feeds.map_values(to_stored())
    }

    /// The list after the subscribed feed with the identifier `id` was removed:
    /// the feed is the last of the removed ones. Unchanged without such a feed.
    pub open spec fn without(self, id: u64) -> FeedListView {
        match self.position(id) {
            Some(i) => FeedListView {
                feeds: self.feeds.remove(i),
                removed: self.removed.push(self.feeds[i]),
                ..self
            },
            None => self,
        }
    }

    /// The list after the removed feed with the identifier `id` was taken back:
    /// the feed is the last of the subscribed ones. Unchanged without such a
    /// feed.
    pub open spec fn with_again(self, id: u64) -> FeedListView {
        match self.removed_position(id) {
            Some(i) => FeedListView {
                feeds: self.feeds.push(self.removed[i]),
                removed: self.removed.remove(i),
                ..self
            },
            None => self,
        }
    }
}

/// [`FeedView::started`] as a function value.
pub open spec fn to_started() -> spec_fn(FeedView) -> FeedView {
    |feed: FeedView| feed.started()
}

/// [`FeedView::ticket`] as a function value.
pub open spec fn to_ticket() -> spec_fn(FeedView) -> Option<FetchTicketView> {
    |feed: FeedView| feed.ticket()
}

/// [`stored_of`] as a function value.
pub open spec fn to_stored() -> spec_fn(FeedView) -> StoredFeedView {
    |feed: FeedView| stored_of(feed)
}

/// The feeds that a sequence of records gives: one for each record, in their
/// order, the identifier of each its place in the sequence.
pub open spec fn restored_feeds(stored: Seq<StoredFeedView>) -> Seq<FeedView> {
    Seq::new(stored.len(), |i: int| restored(i as u64, stored[i]))
}

/// The feeds of one user.
pub struct FeedList {
    feeds: Vec<Feed>,
    removed: Vec<Feed>,
    next_id: u64,
}

impl View for FeedList {
    type V = FeedListView;

    closed spec fn view(&self) -> FeedListView {
        FeedListView {
            feeds: self.feeds.deep_view(),
            removed: self.removed.deep_view(),
            next_id: self.next_id,
        }
    }
}

/// Finds the feed with the identifier `id` in `feeds`.
fn find_position(feeds: &Vec<Feed>, id: u64) -> (found: Option<usize>)
    ensures
        found matches Some(i) ==> position_of(feeds.deep_view(), id) == Some(i as int),
        found is None ==> position_of(feeds.deep_view(), id) is None,
{
    let ghost all = feeds.deep_view();
    let mut i: usize = 0;
    while i < feeds.len()
        invariant
            i <= feeds.len(),
            all == feeds.deep_view(),
            forall|j: int| 0 <= j < i ==> (#[trigger] all[j]).id != id,
        decreases feeds.len() - i,
    {
        if feeds[i].get_id() == id {
            proof {
                assert(all[i as int].id == id);
                lemma_position_of(all, id);
            }
            return Some(i);
        }
        i = i + 1;
    }
    proof {
        lemma_position_of(all, id);
    }
    None
}

impl FeedList {
    #[verifier::type_invariant]
    closed spec fn well_formed(self) -> bool {
        self@.valid()
    }

    /// A list without feeds.
    pub fn new() -> (list: FeedList)
        ensures
            list@ == FeedListView::empty(),
            list@.valid(),
    {
        let feeds: Vec<Feed> = Vec::new();
        let removed: Vec<Feed> = Vec::new();
        assert(feeds.deep_view() =~= Seq::empty());
        assert(removed.deep_view() =~= Seq::empty());
        FeedList { feeds, removed, next_id: 0 }
    }

    /// The subscribed feeds, in the order in which they were added. Every list
    /// is valid.
    pub fn get_feeds(&self) -> (feeds: &Vec<Feed>)
        ensures
            feeds.deep_view() == self@.feeds,
            self@.valid(),
    {
        proof {
            use_type_invariant(self);
        }
        &self.feeds
    }

    /// The removed feeds, in the order in which they were removed.
    pub fn get_removed(&self) -> (removed: &Vec<Feed>)
        ensures
            removed.deep_view() == self@.removed,
    {
        &self.removed
    }

    /// The place of the subscribed feed with the identifier `id`.
    pub fn position(&self, id: u64) -> (found: Option<usize>)
        ensures
            found matches Some(i) ==> self@.position(id) == Some(i as int),
            found is None ==> self@.position(id) is None,
    {
        find_position(&self.feeds, id)
    }

    /// The subscribed feed with the identifier `id`.
    pub fn find(&self, id: u64) -> (found: Option<&Feed>)
        ensures
            found matches Some(feed) ==> self@.position(id) matches Some(i) && feed@
                == self@.feeds[i],
            found is None ==> self@.position(id) is None,
    {
        proof {
            lemma_position_of(self@.feeds, id);
        }
        match find_position(&self.feeds, id) {
            Some(i) => Some(&self.feeds[i]),
            None => None,
        }
    }

    /// Adds a feed with the given settings at the end of the subscribed feeds
    /// and returns its identifier, which no other feed of the list has.
    /// Returns `None`, and adds nothing, where the identifiers are used up.
    pub fn add(&mut self, title: &String, url: &String, filter: &String, viewed: i64) -> (id:
        Option<u64>)
        ensures
            final(self)@.valid(),
            old(self)@.has_room() ==> id == Some(old(self)@.next_id) && final(self)@ == old(
                self,
            )@.with(FeedView::initial(old(self)@.next_id, title@, url@, filter@, viewed as int)),
            !old(self)@.has_room() ==> id is None && final(self)@ == old(self)@,
    {
        proof {
            use_type_invariant(&*self);
        }
        if self.next_id == u64::MAX {
            return None;
        }
        let mut list = FeedList::new();
        std::mem::swap(&mut list, self);
        proof {
            use_type_invariant(&list);
        }
        let FeedList { mut feeds, removed, next_id } = list;
        let ghost before = feeds.deep_view();
        let feed = Feed::new(next_id, title, url, filter, viewed);
        feeds.push(feed);
        proof {
            assert(feeds.deep_view() == before.push(feed@));
        }
        *self = FeedList { feeds, removed, next_id: next_id + 1 };
        Some(next_id)
    }

    /// Removes the subscribed feed with the identifier `id` and keeps it among
    /// the removed ones. Says whether there was such a feed.
    pub fn remove(&mut self, id: u64) -> (found: bool)
        ensures
            final(self)@ == old(self)@.without(id),
            found == old(self)@.position(id) is Some,
            final(self)@.valid(),
    {
        proof {
            use_type_invariant(&*self);
            lemma_position_of(self@.feeds, id);
        }
        match find_position(&self.feeds, id) {
            None => false,
            Some(i) => {
                let mut list = FeedList::new();
                std::mem::swap(&mut list, self);
                let FeedList { mut feeds, mut removed, next_id } = list;
                let ghost feeds_before = feeds.deep_view();
                let ghost removed_before = removed.deep_view();
                let feed = feeds.remove(i);
                removed.push(feed);
                proof {
                    assert(feeds.deep_view() == feeds_before.remove(i as int));
                    assert(removed.deep_view() == removed_before.push(feeds_before[i as int]));
                }
                *self = FeedList { feeds, removed, next_id };
                true
            },
        }
    }

    /// Takes the removed feed with the identifier `id` back, at the end of the
    /// subscribed feeds. Says whether there was such a feed.
    pub fn restore(&mut self, id: u64) -> (found: bool)
        ensures
            final(self)@ == old(self)@.with_again(id),
            found == old(self)@.removed_position(id) is Some,
            final(self)@.valid(),
    {
        proof {
            use_type_invariant(&*self);
            lemma_position_of(self@.removed, id);
        }
        match find_position(&self.removed, id) {
            None => false,
            Some(i) => {
                let mut list = FeedList::new();
                std::mem::swap(&mut list, self);
                let FeedList { mut feeds, mut removed, next_id } = list;
                let ghost feeds_before = feeds.deep_view();
                let ghost removed_before = removed.deep_view();
                let feed = removed.remove(i);
                feeds.push(feed);
                proof {
                    assert(removed.deep_view() == removed_before.remove(i as int));
                    assert(feeds.deep_view() == feeds_before.push(removed_before[i as int]));
                }
                *self = FeedList { feeds, removed, next_id };
                true
            },
        }
    }
    /// Assigns the address of the subscribed feed with the identifier `id`, as
    /// [`Feed::set_url`] does. Returns the state entered, `None` without such
    /// a feed.
    pub fn set_url(&mut self, id: u64, url: String) -> (entered: Option<FeedState>)
        ensures
            final(self)@.valid(),
            match old(self)@.position(id) {
                Some(i) => {
                    &&& final(self)@ == old(self)@.with_feed(
                        i,
                        old(self)@.feeds[i].with_url(url@),
                    )
                    &&& entered == Some(final(self)@.feeds[i].state)
                },
                None => final(self)@ == old(self)@ && entered is None,
            },
    {
        proof {
            use_type_invariant(&*self);
            lemma_position_of(self@.feeds, id);
        }
        match find_position(&self.feeds, id) {
            None => None,
            Some(i) => {
                let mut list = FeedList::new();
                std::mem::swap(&mut list, self);
                let FeedList { mut feeds, removed, next_id } = list;
                let ghost before = feeds.deep_view();
                let entered = feeds[i].set_url(url);
                proof {
                    assert(feeds.deep_view() == before.update(
                        i as int,
                        before[i as int].with_url(url@),
                    ));
                }
                *self = FeedList { feeds, removed, next_id };
                Some(entered)
            },
        }
    }

    /// Assigns the address of the subscribed feed with the identifier `id` and
    /// triggers the fetch that a new address is due, as [`Feed::assign_url`]
    /// does. Returns the ticket of the new task, `None` without such a feed or
    /// where the address is empty.
    pub fn assign_url(&mut self, id: u64, url: String) -> (ticket: Option<FetchTicket>)
        ensures
            final(self)@.valid(),
            match old(self)@.position(id) {
                Some(i) => {
                    &&& final(self)@ == old(self)@.with_feed(
                        i,
                        old(self)@.feeds[i].assigned(url@),
                    )
                    &&& ticket.deep_view() == old(self)@.feeds[i].with_url(url@).ticket()
                },
                None => final(self)@ == old(self)@ && ticket is None,
            },
    {
        proof {
            use_type_invariant(&*self);
            lemma_position_of(self@.feeds, id);
        }
        match find_position(&self.feeds, id) {
            None => None,
            Some(i) => {
                let mut list = FeedList::new();
                std::mem::swap(&mut list, self);
                let FeedList { mut feeds, removed, next_id } = list;
                let ghost before = feeds.deep_view();
                let ticket = feeds[i].assign_url(url);
                proof {
                    assert(feeds.deep_view() == before.update(
                        i as int,
                        before[i as int].assigned(url@),
                    ));
                }
                *self = FeedList { feeds, removed, next_id };
                ticket
            },
        }
    }

    /// Names the subscribed feed with the identifier `id`. Says whether there
    /// was such a feed.
    pub fn set_title(&mut self, id: u64, title: String) -> (found: bool)
        ensures
            final(self)@.valid(),
            match old(self)@.position(id) {
                Some(i) => {
                    &&& final(self)@ == old(self)@.with_feed(
                        i,
                        FeedView { title: title@, ..old(self)@.feeds[i] },
                    )
                    &&& found
                },
                None => final(self)@ == old(self)@ && !found,
            },
    {
        proof {
            use_type_invariant(&*self);
            lemma_position_of(self@.feeds, id);
        }
        match find_position(&self.feeds, id) {
            None => false,
            Some(i) => {
                let mut list = FeedList::new();
                std::mem::swap(&mut list, self);
                let FeedList { mut feeds, removed, next_id } = list;
                let ghost before = feeds.deep_view();
                feeds[i].set_title(title);
                proof {
                    assert(feeds.deep_view() == before.update(
                        i as int,
                        FeedView { title: title@, ..before[i as int] },
                    ));
                }
                *self = FeedList { feeds, removed, next_id };
                true
            },
        }
    }

    /// Sets the filter query of the subscribed feed with the identifier `id`.
    /// Says whether there was such a feed.
    pub fn set_filter(&mut self, id: u64, filter: String) -> (found: bool)
        ensures
            final(self)@.valid(),
            match old(self)@.position(id) {
                Some(i) => {
                    &&& final(self)@ == old(self)@.with_feed(
                        i,
                        FeedView { filter: filter@, ..old(self)@.feeds[i] },
                    )
                    &&& found
                },
                None => final(self)@ == old(self)@ && !found,
            },
    {
        proof {
            use_type_invariant(&*self);
            lemma_position_of(self@.feeds, id);
        }
        match find_position(&self.feeds, id) {
            None => false,
            Some(i) => {
                let mut list = FeedList::new();
                std::mem::swap(&mut list, self);
                let FeedList { mut feeds, removed, next_id } = list;
                let ghost before = feeds.deep_view();
                feeds[i].set_filter(filter);
                proof {
                    assert(feeds.deep_view() == before.update(
                        i as int,
                        FeedView { filter: filter@, ..before[i as int] },
                    ));
                }
                *self = FeedList { feeds, removed, next_id };
                true
            },
        }
    }

    /// Records that the items of the subscribed feed with the identifier `id`
    /// were viewed at the time `now`. Says whether there was such a feed.
    pub fn mark_viewed(&mut self, id: u64, now: i64) -> (found: bool)
        ensures
            final(self)@.valid(),
            match old(self)@.position(id) {
                Some(i) => {
                    &&& final(self)@ == old(self)@.with_feed(
                        i,
                        old(self)@.feeds[i].viewed_at(now as int),
                    )
                    &&& found
                },
                None => final(self)@ == old(self)@ && !found,
            },
    {
        proof {
            use_type_invariant(&*self);
            lemma_position_of(self@.feeds, id);
        }
        match find_position(&self.feeds, id) {
            None => false,
            Some(i) => {
                let mut list = FeedList::new();
                std::mem::swap(&mut list, self);
                let FeedList { mut feeds, removed, next_id } = list;
                let ghost before = feeds.deep_view();
                feeds[i].mark_viewed(now);
                proof {
                    assert(feeds.deep_view() == before.update(
                        i as int,
                        before[i as int].viewed_at(now as int),
                    ));
                }
                *self = FeedList { feeds, removed, next_id };
                true
            },
        }
    }

    /// Records that the items of the subscribed feed with the identifier `id`
    /// are viewed now, as [`Feed::set_viewed`] does. Says whether there was
    /// such a feed.
    pub fn set_viewed(&mut self, id: u64) -> (found: bool)
        ensures
            final(self)@.valid(),
            match old(self)@.position(id) {
                Some(i) => {
                    &&& final(self)@ == old(self)@.with_feed(
                        i,
                        old(self)@.feeds[i].viewed_at(final(self)@.feeds[i].viewed),
                    )
                    &&& found
                },
                None => final(self)@ == old(self)@ && !found,
            },
    {
        proof {
            use_type_invariant(&*self);
            lemma_position_of(self@.feeds, id);
        }
        match find_position(&self.feeds, id) {
            None => false,
            Some(i) => {
                let mut list = FeedList::new();
                std::mem::swap(&mut list, self);
                let FeedList { mut feeds, removed, next_id } = list;
                let ghost before = feeds.deep_view();
                feeds[i].set_viewed();
                proof {
                    assert(feeds.deep_view() == before.update(
                        i as int,
                        before[i as int].viewed_at(feeds[i as int]@.viewed),
                    ));
                }
                *self = FeedList { feeds, removed, next_id };
                true
            },
        }
    }

    /// Asks for a download of the subscribed feed with the identifier `id`, as
    /// [`Feed::download`] does. Returns the ticket of the new task, `None`
    /// without such a feed or where the feed has no address.
    pub fn download(&mut self, id: u64) -> (ticket: Option<FetchTicket>)
        ensures
            final(self)@.valid(),
            match old(self)@.position(id) {
                Some(i) => {
                    &&& final(self)@ == old(self)@.with_feed(i, old(self)@.feeds[i].started())
                    &&& ticket.deep_view() == old(self)@.feeds[i].ticket()
                },
                None => final(self)@ == old(self)@ && ticket is None,
            },
    {
        proof {
            use_type_invariant(&*self);
            lemma_position_of(self@.feeds, id);
        }
        match find_position(&self.feeds, id) {
            None => None,
            Some(i) => {
                let mut list = FeedList::new();
                std::mem::swap(&mut list, self);
                let FeedList { mut feeds, removed, next_id } = list;
                let ghost before = feeds.deep_view();
                let ticket = feeds[i].download();
                proof {
                    assert(feeds.deep_view() == before.update(i as int, before[i as int].started()));
                }
                *self = FeedList { feeds, removed, next_id };
                ticket
            },
        }
    }

    /// Takes the outcome of the task that was launched with `token` for the
    /// feed with the identifier `id`, as [`Feed::finish`] does. A removed feed
    /// takes the outcome of its task as a subscribed one does. Without such a
    /// feed the outcome is discarded.
    pub fn finish(&mut self, id: u64, token: u64, outcome: Result<FetchResult, TaskError>) -> (done:
        Completion)
        ensures
            final(self)@.valid(),
            match old(self)@.position(id) {
                Some(i) => {
                    &&& final(self)@ == old(self)@.with_feed(
                        i,
                        old(self)@.feeds[i].finished(token, outcome_view(outcome)),
                    )
                    &&& done == old(self)@.feeds[i].completion(token, outcome_view(outcome))
                },
                None => match old(self)@.removed_position(id) {
                    Some(i) => {
                        &&& final(self)@ == old(self)@.with_removed_feed(
                            i,
                            old(self)@.removed[i].finished(token, outcome_view(outcome)),
                        )
                        &&& done == old(self)@.removed[i].completion(token, outcome_view(outcome))
                    },
                    None => final(self)@ == old(self)@ && done == Completion::Discarded,
                },
            },
    {
        proof {
            use_type_invariant(&*self);
            lemma_position_of(self@.feeds, id);
            lemma_position_of(self@.removed, id);
        }
        match find_position(&self.feeds, id) {
            Some(i) => {
                let mut list = FeedList::new();
                std::mem::swap(&mut list, self);
                let FeedList { mut feeds, removed, next_id } = list;
                let ghost before = feeds.deep_view();
                let done = feeds[i].finish(token, outcome);
                proof {
                    assert(feeds.deep_view() == before.update(
                        i as int,
                        before[i as int].finished(token, outcome_view(outcome)),
                    ));
                }
                *self = FeedList { feeds, removed, next_id };
                done
            },
            None => match find_position(&self.removed, id) {
                Some(i) => {
                    let mut list = FeedList::new();
                    std::mem::swap(&mut list, self);
                    let FeedList { feeds, mut removed, next_id } = list;
                    let ghost before = removed.deep_view();
                    let done = removed[i].finish(token, outcome);
                    proof {
                        assert(removed.deep_view() == before.update(
                            i as int,
                            before[i as int].finished(token, outcome_view(outcome)),
                        ));
                    }
                    *self = FeedList { feeds, removed, next_id };
                    done
                },
                None => Completion::Discarded,
            },
        }
    }

    /// Asks for a download of every subscribed feed and returns the tickets of
    /// the new tasks, in the order of the feeds. A feed without address gets
    /// none.
    pub fn refresh(&mut self) -> (tickets: Vec<FetchTicket>)
        ensures
            final(self)@ == old(self)@.refreshed(),
            tickets.deep_view() == old(self)@.feeds.filter_map(to_ticket()),
            final(self)@.valid(),
    {
        proof {
            use_type_invariant(&*self);
        }
        let mut list = FeedList::new();
        std::mem::swap(&mut list, self);
        let FeedList { mut feeds, removed, next_id } = list;
        let ghost before = feeds.deep_view();
        let mut tickets: Vec<FetchTicket> = Vec::new();
        let mut i: usize = 0;
        proof {
            assert(tickets.deep_view() == before.take(0).filter_map(to_ticket()));
        }
        while i < feeds.len()
            invariant
                i <= feeds.len(),
                feeds.len() == before.len(),
                forall|j: int| 0 <= j < i ==> (#[trigger] feeds[j])@ == before[j].started(),
                forall|j: int| i <= j < feeds.len() ==> (#[trigger] feeds[j])@ == before[j],
                tickets.deep_view() == before.take(i as int).filter_map(to_ticket()),
            decreases feeds.len() - i,
        {
            proof {
                let next = before.take(i as int + 1);
                assert(next.drop_last() == before.take(i as int));
                assert(next.last() == before[i as int]);
            }
            let ghost so_far = tickets.deep_view();
            match feeds[i].download() {
                Some(ticket) => {
                    tickets.push(ticket);
                    proof {
                        assert(tickets.deep_view() == so_far + seq![ticket@]);
                    }
                },
                None => {},
            }
            i = i + 1;
        }
        proof {
            assert(before.take(i as int) == before);
            assert(feeds.deep_view() == before.map_values(to_started()));
        }
        *self = FeedList { feeds, removed, next_id };
        tickets
    }

    /// The list that a sequence of records gives: its feeds are subscribed, in
    /// the order of the records, and none is removed.
    pub fn from_stored(stored: &Vec<StoredFeed>) -> (list: FeedList)
        ensures
            list@ == FeedListView::from_stored(stored.deep_view()),
            list@.valid(),
    {
        let ghost all = stored.deep_view();
        let mut feeds: Vec<Feed> = Vec::new();
        let mut i: usize = 0;
        while i < stored.len()
            invariant
                i <= stored.len(),
                all == stored.deep_view(),
                feeds.len() == i,
                forall|j: int| 0 <= j < i ==> (#[trigger] feeds[j])@ == restored(j as u64, all[j]),
                forall|j: int| 0 <= j < i ==> (#[trigger] feeds[j])@.valid(),
            decreases stored.len() - i,
        {
            let feed = stored[i].to_feed(i as u64);
            feeds.push(feed);
            i = i + 1;
        }
        let removed: Vec<Feed> = Vec::new();
        proof {
            assert(removed.deep_view() =~= Seq::empty());
            assert(feeds.deep_view() =~= restored_feeds(all));
        }
        FeedList { feeds, removed, next_id: stored.len() as u64 }
    }

    /// The records of the subscribed feeds, in their order.
    pub fn to_stored(&self) -> (stored: Vec<StoredFeed>)
        ensures
            stored.deep_view() == self@.stored(),
    {
        let ghost all = self.feeds.deep_view();
        let mut stored: Vec<StoredFeed> = Vec::new();
        let mut i: usize = 0;
        while i < self.feeds.len()
            invariant
                i <= self.feeds.len(),
                all == self.feeds.deep_view(),
                stored.len() == i,
                forall|j: int| 0 <= j < i ==> (#[trigger] stored[j])@ == stored_of(all[j]),
            decreases self.feeds.len() - i,
        {
            stored.push(StoredFeed::of(&self.feeds[i]));
            i = i + 1;
        }
        proof {
            assert(stored.deep_view() =~= all.map_values(to_stored()));
        }
        stored
    }
}

/// The identifier that the next feed gets is that of no feed of the list,
/// subscribed or removed, and the list with the new feed is valid.
pub proof fn lemma_next_id_is_fresh(list: FeedListView, feed: FeedView)
    requires
        list.valid(),
        list.has_room(),
        feed.valid(),
        feed.id == list.next_id,
    ensures
        list.position(feed.id) is None,
        list.removed_position(feed.id) is None,
        list.with(feed).valid(),
{
    lemma_position_of(list.feeds, feed.id);
    lemma_position_of(list.removed, feed.id);
}

/// A list made from records has those records: nothing of the settings is lost
/// between runs.
pub proof fn lemma_stored_list_round_trip(stored: Seq<StoredFeedView>)
    requires
        stored.len() <= u64::MAX,
    ensures
        FeedListView::from_stored(stored).stored() == stored,
        FeedListView::from_stored(stored).valid(),
{
    let list = FeedListView::from_stored(stored);
    assert(list.stored() =~= stored);
}

/// Removing a feed and taking it back keeps every feed of the list, and puts
/// the feed at the end of the subscribed ones.
pub proof fn lemma_remove_then_restore(list: FeedListView, id: u64)
    requires
        list.valid(),
        list.position(id) is Some,
    ensures
        ({
            let i = list.position(id)->0;
            let again = list.without(id).with_again(id);
            &&& again.valid()
            &&& again.removed == list.removed
            &&& again.feeds == list.feeds.remove(i).push(list.feeds[i])
        }),
{
    let i = list.position(id)->0;
    lemma_position_of(list.feeds, id);
    let gone = list.without(id);
    lemma_position_of(gone.removed, id);
    assert(gone.removed[list.removed.len() as int].id == id);
    assert(gone.removed.remove(list.removed.len() as int) == list.removed);
}

} // verus!
