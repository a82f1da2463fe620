//! A subscribed feed: its settings, the content of its last successful fetch,
//! and the state machine that governs downloads.
//!
//! A feed never fetches anything itself. [`Feed::download`] hands out a ticket
//! for one fetch task, and [`Feed::finish`] takes the task's outcome back. Each
//! ticket carries a token; only the outcome that comes with the token of the
//! most recent launch is applied, so a task that was overtaken by a later
//! `download`, or by a change of the address, has no effect.

use vstd::prelude::*;
use crate::clock::unix_now;
use crate::error::TaskError;
use crate::feed_item::{count_newer, count_newer_items, FeedItem, FeedItemView};
use crate::task::{FetchResult, FetchResultView};

verus! {

/// Where a feed stands in its download cycle.
#[derive(Clone, Copy, Debug, PartialEq, Eq, Structural)]
pub enum FeedState {
    /// No address is configured.
    EmptyURL,
    /// An address is configured and nothing has been fetched from it yet.
    DownloadPending,
    /// A fetch task is in flight.
    DownloadStarted,
    /// The last fetch task failed.
    DownloadFailed,
    /// The last fetch task succeeded.
    DownloadSucceeded,
}

impl Default for FeedState {
    fn default() -> (state: FeedState)
        ensures
            state == FeedState::EmptyURL,
    {
        FeedState::EmptyURL
    }
}

/// What can happen to a feed's state.
pub enum Input {
    /// The address was assigned; `empty` says whether to the empty text.
    UrlAssigned { empty: bool },
    /// A download was asked for.
    DownloadRequested,
    /// The task in flight ended with a result.
    TaskSucceeded,
    /// The task in flight ended with an error.
    TaskFailed,
}

/// The transition table of a feed's state.
pub open spec fn transition(state: FeedState, input: Input) -> FeedState {
    match input {
        Input::UrlAssigned { empty } => if empty {
            FeedState::EmptyURL
        } else {
            FeedState::DownloadPending
        },
        Input::DownloadRequested => if state == FeedState::EmptyURL {
            FeedState::EmptyURL
        } else {
            FeedState::DownloadStarted
        },
        Input::TaskSucceeded => FeedState::DownloadSucceeded,
        Input::TaskFailed => FeedState::DownloadFailed,
    }
}

/// The title of a feed that has not been named yet. A successful fetch
/// replaces it with the title of the document.
pub const NEW_FEED_TITLE: &'static str = "New Feed";

/// The token of the launch after the one with `token`.
pub open spec fn next_token(token: u64) -> u64 {
    if token == u64::MAX {
        0
    } else {
        (token + 1) as u64
    }
}

/// The mathematical value of a [`Feed`].
pub struct FeedView {
    pub id: u64,
    pub title: Seq<char>,
    pub url: Seq<char>,
    pub filter: Seq<char>,
    /// When the items were last viewed, in seconds since the Unix epoch.
    pub viewed: int,
    pub state: FeedState,
    pub items: Seq<FeedItemView>,
    pub icon: Option<Seq<u8>>,
    /// The token of the task whose outcome will be applied, if there is one.
    pub in_flight: Option<u64>,
    /// The token of the most recent launch.
    pub launched: u64,
}

impl FeedView {
    /// What holds of every feed.
    pub open spec fn valid(self) -> bool {
        &&& self.state == FeedState::EmptyURL <==> self.url.len() == 0
        &&& self.in_flight is Some <==> self.state == FeedState::DownloadStarted
        &&& self.in_flight is Some ==> self.in_flight == Some(self.launched)
        &&& self.state == FeedState::EmptyURL || self.state == FeedState::DownloadPending ==> {
            &&& self.items.len() == 0
            &&& self.icon is None
        }
    }

    /// A feed as it is constructed.
    pub open spec fn initial(
        id: u64,
        title: Seq<char>,
        url: Seq<char>,
        filter: Seq<char>,
        viewed: int,
    ) -> FeedView {
        FeedView {
            id,
            title,
            url,
            filter,
            viewed,
            state: transition(FeedState::EmptyURL, Input::UrlAssigned { empty: url.len() == 0 }),
            items: Seq::empty(),
            icon: None,
            in_flight: None,
            launched: 0,
        }
    }

    /// The feed after its address was assigned: content cleared, any task in
    /// flight abandoned.
    pub open spec fn with_url(self, url: Seq<char>) -> FeedView {
        FeedView {
            url,
            state: transition(self.state, Input::UrlAssigned { empty: url.len() == 0 }),
            items: Seq::empty(),
            icon: None,
            in_flight: None,
            ..self
        }
    }

    /// The feed after its address was assigned and the download that a new
    /// address is due was asked for.
    pub open spec fn assigned(self, url: Seq<char>) -> FeedView {
        self.with_url(url).started()
    }

    /// The feed after a download was asked for: unchanged without an address,
    /// else with a newly launched task in flight.
    pub open spec fn started(self) -> FeedView {
        if self.state == FeedState::EmptyURL {
            self
        } else {
            FeedView {
                state: transition(self.state, Input::DownloadRequested),
                in_flight: Some(next_token(self.launched)),
                launched: next_token(self.launched),
                ..self
            }
        }
    }

    /// The ticket that a download request gives: none without an address, else
    /// one for the feed's address under the token of the new launch.
    pub open spec fn ticket(self) -> Option<FetchTicketView> {
        if self.state == FeedState::EmptyURL {
            None
        } else {
            Some(FetchTicketView { feed: self.id, token: next_token(self.launched), url: self.url })
        }
    }

    /// Whether the outcome of the task with `token` would be applied.
    pub open spec fn accepts(self, token: u64) -> bool {
        self.in_flight == Some(token)
    }

    /// Whether a successful fetch with `result` replaces the title.
    pub open spec fn takes_title_of(self, result: FetchResultView) -> bool {
        self.title == NEW_FEED_TITLE@ && result.title is Some
    }

    /// The feed after the task with `token` ended with `outcome`: unchanged
    /// where the token is not the one in flight; after an error only the state
    /// changes; after a success items and icon are replaced.
    pub open spec fn finished(
        self,
        token: u64,
        outcome: Result<FetchResultView, TaskError>,
    ) -> FeedView {
        if !self.accepts(token) {
            self
        } else {
            match outcome {
                Err(_) => FeedView {
                    state: transition(self.state, Input::TaskFailed),
                    in_flight: None,
                    ..self
                },
                Ok(result) => FeedView {
                    title: if self.takes_title_of(result) {
                        result.title->0
                    } else {
                        self.title
                    },
                    state: transition(self.state, Input::TaskSucceeded),
                    items: result.items,
                    icon: result.icon,
                    in_flight: None,
                    ..self
                },
            }
        }
    }

    /// What [`Feed::finish`] reports of the task with `token` and `outcome`.
    pub open spec fn completion(
        self,
        token: u64,
        outcome: Result<FetchResultView, TaskError>,
    ) -> Completion {
        if !self.accepts(token) {
            Completion::Discarded
        } else {
            match outcome {
                Err(_) => Completion::Failed,
                Ok(result) => Completion::Succeeded { title_replaced: self.takes_title_of(result) },
            }
        }
    }

    /// The feed after its items were viewed at the time `now`.
    pub open spec fn viewed_at(self, now: int) -> FeedView {
        FeedView { viewed: now, ..self }
    }

    /// How many items were published after the feed was last viewed.
    pub open spec fn unread(self) -> nat {
        count_newer(self.items, self.viewed)
    }
}

/// The outcome of a task, as mathematical value.
pub open spec fn outcome_view(outcome: Result<FetchResult, TaskError>) -> Result<
    FetchResultView,
    TaskError,
> {
    match outcome {
        Ok(result) => Ok(result@),
        Err(e) => Err(e),
    }
}

/// The right to run one fetch task for a feed.
#[derive(Debug, PartialEq, Eq)]
pub struct FetchTicket {
    /// The identifier of the feed that the task is for.
    pub feed: u64,
    /// Names the launch; to be handed back with the task's outcome.
    pub token: u64,
    /// The address to fetch: the feed's address when the ticket was made.
    pub url: String,
}

/// The mathematical value of a [`FetchTicket`].
pub struct FetchTicketView {
    pub feed: u64,
    pub token: u64,
    pub url: Seq<char>,
}

impl DeepView for FetchTicket {
    type V = FetchTicketView;

    open spec fn deep_view(&self) -> FetchTicketView {
        FetchTicketView { feed: self.feed, token: self.token, url: self.url@ }
    }
}

impl View for FetchTicket {
    type V = FetchTicketView;

    open spec fn view(&self) -> FetchTicketView {
        self.deep_view()
    }
}

/// What became of a task's outcome.
#[derive(Clone, Copy, Debug, PartialEq, Eq, Structural)]
pub enum Completion {
    /// The task had been overtaken: the feed is unchanged.
    Discarded,
    /// The feed is now in `DownloadFailed`, its content as before.
    Failed,
    /// The feed is now in `DownloadSucceeded`, with new items and icon.
    Succeeded { title_replaced: bool },
}

struct Content {
    url: String,
    state: FeedState,
    items: Vec<FeedItem>,
    icon: Option<Vec<u8>>,
    in_flight: Option<u64>,
    launched: u64,
}

/// One subscribed source.
pub struct Feed {
    id: u64,
    title: String,
    filter: String,
    viewed: i64,
    content: Content,
}

impl View for Feed {
    type V = FeedView;

    closed spec fn view(&self) -> FeedView {
        FeedView {
            id: self.id,
            title: self.title@,
            url: self.content.url@,
            filter: self.filter@,
            viewed: self.viewed as int,
            state: self.content.state,
            items: self.content.items.deep_view(),
            icon: match self.content.icon {
                Some(bytes) => Some(bytes@),
                None => None,
            },
            in_flight: self.content.in_flight,
            launched: self.content.launched,
        }
    }
}

impl DeepView for Feed {
    type V = FeedView;

    open spec fn deep_view(&self) -> FeedView {
        self@
    }
}

impl Content {
    fn blank() -> (content: Content)
        ensures
            content.url@.len() == 0,
            content.state == FeedState::EmptyURL,
            content.items@.len() == 0,
            content.icon is None,
            content.in_flight is None,
    {
        Content {
            url: String::new(),
            state: FeedState::EmptyURL,
            items: Vec::new(),
            icon: None,
            in_flight: None,
            launched: 0,
        }
    }
}

impl Feed {
    #[verifier::type_invariant]
    closed spec fn well_formed(self) -> bool {
        self@.valid()
    }

    /// A feed with the given identifier and settings, without content. Its
    /// state is `EmptyURL` for an empty address and `DownloadPending` else.
    pub fn new(id: u64, title: &String, url: &String, filter: &String, viewed: i64) -> (feed: Feed)
        ensures
            feed@ == FeedView::initial(id, title@, url@, filter@, viewed as int),
            feed@.valid(),
    {
        let state = if url.as_str().is_empty() {
            FeedState::EmptyURL
        } else {
            FeedState::DownloadPending
        };
        let items: Vec<FeedItem> = Vec::new();
        assert(items.deep_view() =~= Seq::empty());
        Feed {
            id,
            title: title.clone(),
            filter: filter.clone(),
            viewed,
            content: Content {
                url: url.clone(),
                state,
                items,
                icon: None,
                in_flight: None,
                launched: 0,
            },
        }
    }

    /// Assigns the address. Items and icon are cleared and a task in flight is
    /// abandoned. Returns the state entered: `EmptyURL` for an empty address,
    /// else `DownloadPending`, on which a download is due.
    pub fn set_url(&mut self, url: String) -> (entered: FeedState)
        ensures
            final(self)@ == old(self)@.with_url(url@),
            entered == final(self)@.state,
            final(self)@.valid(),
    {
        proof {
            use_type_invariant(&*self);
        }
        let state = if url.as_str().is_empty() {
            FeedState::EmptyURL
        } else {
            FeedState::DownloadPending
        };
        let launched = self.content.launched;
        let items: Vec<FeedItem> = Vec::new();
        assert(items.deep_view() =~= Seq::empty());
        self.content = Content { url, state, items, icon: None, in_flight: None, launched };
        state
    }

    /// Assigns the address and triggers the fetch that a new address is due:
    /// the feed is cleared as by [`Feed::set_url`], and where the address is not
    /// empty a download is asked for as by [`Feed::download`], whose ticket is
    /// returned. The feed ends in `EmptyURL` for the empty address and in
    /// `DownloadStarted`, by way of `DownloadPending`, for every other.
    pub fn assign_url(&mut self, url: String) -> (ticket: Option<FetchTicket>)
        ensures
            final(self)@ == old(self)@.assigned(url@),
            ticket.deep_view() == old(self)@.with_url(url@).ticket(),
            final(self)@.valid(),
    {
        self.set_url(url);
        self.download()
    }

    /// Asks for a download. Without an address nothing happens and `None` is
    /// returned. Otherwise the feed enters `DownloadStarted` and the ticket of
    /// a new task is returned; a task that was in flight is thereby abandoned.
    pub fn download(&mut self) -> (ticket: Option<FetchTicket>)
        ensures
            final(self)@ == old(self)@.started(),
            ticket.deep_view() == old(self)@.ticket(),
            final(self)@.valid(),
    {
        proof {
            use_type_invariant(&*self);
        }
        if self.content.state == FeedState::EmptyURL {
            return None;
        }
        let mut content = Content::blank();
        std::mem::swap(&mut content, &mut self.content);
        let Content { url, state: _, items, icon, in_flight: _, launched } = content;
        let token = if launched == u64::MAX {
            0
        } else {
            launched + 1
        };
        let ticket = FetchTicket { feed: self.id, token, url: url.clone() };
        self.content =
        Content {
            url,
            state: FeedState::DownloadStarted,
            items,
            icon,
            in_flight: Some(token),
            launched: token,
        };
        Some(ticket)
    }

    /// Takes the outcome of the task that was launched with `token`.
    ///
    /// The outcome of a task that is not the one in flight is discarded and the
    /// feed stays as it is. An error moves the feed to `DownloadFailed` and
    /// leaves title, items and icon alone. A result moves it to
    /// `DownloadSucceeded` and replaces items and icon; the title is replaced by
    /// the document's where it was still [`NEW_FEED_TITLE`].
    pub fn finish(&mut self, token: u64, outcome: Result<FetchResult, TaskError>) -> (done:
        Completion)
        ensures
            final(self)@ == old(self)@.finished(token, outcome_view(outcome)),
            done == old(self)@.completion(token, outcome_view(outcome)),
            final(self)@.valid(),
    {
        proof {
            use_type_invariant(&*self);
        }
        let current = match self.content.in_flight {
            Some(t) => t == token,
            None => false,
        };
        if !current {
            return Completion::Discarded;
        }
        let mut content = Content::blank();
        std::mem::swap(&mut content, &mut self.content);
        let Content { url, state: _, items, icon, in_flight: _, launched } = content;
        match outcome {
            Err(_) => {
                self.content =
                Content {
                    url,
                    state: FeedState::DownloadFailed,
                    items,
                    icon,
                    in_flight: None,
                    launched,
                };
                Completion::Failed
            },
            Ok(result) => {
                let FetchResult { title, items: new_items, icon: new_icon } = result;
                self.content =
                Content {
                    url,
                    state: FeedState::DownloadSucceeded,
                    items: new_items,
                    icon: new_icon,
                    in_flight: None,
                    launched,
                };
                let placeholder = String::from_str(NEW_FEED_TITLE);
                match title {
                    Some(title) => {
                        if self.title == placeholder {
                            self.title = title;
                            Completion::Succeeded { title_replaced: true }
                        } else {
                            Completion::Succeeded { title_replaced: false }
                        }
                    },
                    None => Completion::Succeeded { title_replaced: false },
                }
            },
        }
    }

    /// Records that the items were viewed at the time `now`, in seconds since
    /// the Unix epoch.
    pub fn mark_viewed(&mut self, now: i64)
        ensures
            final(self)@ == old(self)@.viewed_at(now as int),
            final(self)@.valid(),
    {
        proof {
            use_type_invariant(&*self);
        }
        self.viewed = now;
    }

    /// Records that the items are viewed now: sets the time of the last view to
    /// the current time of the wall clock and changes nothing else.
    pub fn set_viewed(&mut self)
        ensures
            final(self)@ == old(self)@.viewed_at(final(self)@.viewed),
            final(self)@.valid(),
    {
        let now = unix_now();
        self.mark_viewed(now);
    }

    /// Names the feed.
    pub fn set_title(&mut self, title: String)
        ensures
            final(self)@ == (FeedView { title: title@, ..old(self)@ }),
            final(self)@.valid(),
    {
        proof {
            use_type_invariant(&*self);
        }
        self.title = title;
    }

    /// Sets the query by which the items are filtered for display.
    pub fn set_filter(&mut self, filter: String)
        ensures
            final(self)@ == (FeedView { filter: filter@, ..old(self)@ }),
            final(self)@.valid(),
    {
        proof {
            use_type_invariant(&*self);
        }
        self.filter = filter;
    }

    /// The identifier given at construction.
    pub fn get_id(&self) -> (id: u64)
        ensures
            id == self@.id,
    {
        self.id
    }

    /// The name of the feed.
    pub fn get_title(&self) -> (title: &String)
        ensures
            title@ == self@.title,
    {
        &self.title
    }

    /// The configured address; empty where none is configured.
    pub fn get_url(&self) -> (url: &String)
        ensures
            url@ == self@.url,
    {
        &self.content.url
    }

    /// The configured filter query.
    pub fn get_filter(&self) -> (filter: &String)
        ensures
            filter@ == self@.filter,
    {
        &self.filter
    }

    /// When the items were last viewed.
    pub fn get_viewed(&self) -> (viewed: i64)
        ensures
            viewed == self@.viewed,
    {
        self.viewed
    }

    /// The current state. Every feed is valid.
    pub fn get_state(&self) -> (state: FeedState)
        ensures
            state == self@.state,
            self@.valid(),
    {
        proof {
            use_type_invariant(self);
        }
        self.content.state
    }

    /// The items of the last successful fetch, in document order.
    pub fn get_items(&self) -> (items: &Vec<FeedItem>)
        ensures
            items.deep_view() == self@.items,
    {
        &self.content.items
    }

    /// The icon bytes of the last successful fetch, where it gave an icon.
    pub fn get_icon(&self) -> (icon: &Option<Vec<u8>>)
        ensures
            icon matches Some(bytes) ==> self@.icon == Some(bytes@),
            icon is None ==> self@.icon is None,
    {
        &self.content.icon
    }

    /// The token of the task whose outcome would be applied, if any.
    pub fn get_in_flight(&self) -> (token: Option<u64>)
        ensures
            token == self@.in_flight,
    {
        self.content.in_flight
    }

    /// The number of items published after the feed was last viewed.
    pub fn get_unread(&self) -> (unread: usize)
        ensures
            unread == self@.unread(),
    {
        count_newer_items(&self.content.items, self.viewed)
    }
}

} // verus!
