//! What holds of every feed, whatever is done to it.

use vstd::prelude::*;
use crate::error::{IconError, TaskError};
use crate::feed::{next_token, transition, Completion, FeedState, FeedView, Input, NEW_FEED_TITLE};
use crate::feed_item::{count_newer, newer_than, FeedItemView};
use crate::task::{result_with_icon, FetchResultView};

verus! {

/// Something done to a feed.
pub enum Operation {
    /// The address is assigned.
    AssignUrl(Seq<char>),
    /// A download is asked for.
    Download,
    /// The task launched with the token ends with the outcome.
    Finish(u64, Result<FetchResultView, TaskError>),
    /// The items are viewed at the given time.
    View(int),
}

/// The feed after one operation.
pub open spec fn apply(feed: FeedView, operation: Operation) -> FeedView {
    match operation {
        Operation::AssignUrl(url) => feed.with_url(url),
        Operation::Download => feed.started(),
        Operation::Finish(token, outcome) => feed.finished(token, outcome),
        Operation::View(now) => feed.viewed_at(now),
    }
}

/// The feed after a sequence of operations, the first one first.
pub open spec fn run(feed: FeedView, operations: Seq<Operation>) -> FeedView
    decreases operations.len(),
{
    if operations.len() == 0 {
        feed
    } else {
        apply(run(feed, operations.drop_last()), operations.last())
    }
}

/// Whether the operation is an address assignment or a download request.
pub open spec fn is_request(operation: Operation) -> bool {
    operation is AssignUrl || operation is Download
}

/// What an address assignment or a download request is to the state.
pub open spec fn input_of(operation: Operation) -> Input {
    match operation {
        Operation::AssignUrl(url) => Input::UrlAssigned { empty: url.len() == 0 },
        _ => Input::DownloadRequested,
    }
}

/// The state that the transition table gives after a sequence of address
/// assignments and download requests.
pub open spec fn state_after(state: FeedState, operations: Seq<Operation>) -> FeedState
    decreases operations.len(),
{
    if operations.len() == 0 {
        state
    } else {
        transition(state_after(state, operations.drop_last()), input_of(operations.last()))
    }
}

/// Every operation leaves a valid feed valid.
pub proof fn lemma_apply_keeps_valid(feed: FeedView, operation: Operation)
    requires
        feed.valid(),
    ensures
        apply(feed, operation).valid(),
{
}

/// Every sequence of operations leaves a valid feed valid.
pub proof fn lemma_run_keeps_valid(feed: FeedView, operations: Seq<Operation>)
    requires
        feed.valid(),
    ensures
        run(feed, operations).valid(),
    decreases operations.len(),
{
    if operations.len() > 0 {
        lemma_run_keeps_valid(feed, operations.drop_last());
        lemma_apply_keeps_valid(run(feed, operations.drop_last()), operations.last());
    }
}

/// Through every sequence of address assignments and download requests the
/// state of a feed follows the transition table: it depends on the state
/// before and on the operations, and on nothing else.
pub proof fn lemma_state_follows_table(feed: FeedView, operations: Seq<Operation>)
    requires
        feed.valid(),
        forall|i: int| 0 <= i < operations.len() ==> is_request(#[trigger] operations[i]),
    ensures
        run(feed, operations).state == state_after(feed.state, operations),
    decreases operations.len(),
{
    if operations.len() > 0 {
        let before = operations.drop_last();
        assert forall|i: int| 0 <= i < before.len() implies is_request(#[trigger] before[i]) by {
            assert(before[i] == operations[i]);
        }
        lemma_state_follows_table(feed, before);
        assert(is_request(operations[operations.len() - 1]));
    }
}

/// Assigning the empty address yields `EmptyURL`, and assigning any other
/// yields `DownloadPending`, whatever the feed was before; content and task in
/// flight are gone.
pub proof fn lemma_url_assignment(feed: FeedView, url: Seq<char>)
    ensures
        url.len() == 0 ==> feed.with_url(url).state == FeedState::EmptyURL,
        url.len() > 0 ==> feed.with_url(url).state == FeedState::DownloadPending,
        feed.with_url(url).items.len() == 0,
        feed.with_url(url).icon is None,
        feed.with_url(url).in_flight is None,
{
}

/// Assigning an address triggers a fetch exactly where the address is not
/// empty: the feed passes through `DownloadPending` into `DownloadStarted`
/// with a ticket for the new address, and whatever was in flight before is
/// abandoned. The empty address leaves the feed in `EmptyURL` without ticket.
pub proof fn lemma_assignment_triggers_fetch(
    feed: FeedView,
    url: Seq<char>,
    token: u64,
    outcome: Result<FetchResultView, TaskError>,
)
    requires
        feed.valid(),
    ensures
        feed.assigned(url).valid(),
        feed.assigned(url) == feed.with_url(url).started(),
        url.len() == 0 ==> feed.assigned(url).state == FeedState::EmptyURL && feed.with_url(
            url,
        ).ticket() is None,
        url.len() > 0 ==> feed.with_url(url).state == FeedState::DownloadPending && feed.assigned(
            url,
        ).state == FeedState::DownloadStarted && feed.with_url(url).ticket() is Some
            && feed.with_url(url).ticket()->0.url == url && feed.assigned(url).accepts(
            feed.with_url(url).ticket()->0.token,
        ),
        feed.in_flight == Some(token) ==> feed.assigned(url).finished(token, outcome)
            == feed.assigned(url),
        feed.assigned(url).items.len() == 0,
        feed.assigned(url).icon is None,
{
}

/// A download request does nothing to a feed without address and starts a task
/// on every other.
pub proof fn lemma_download_request(feed: FeedView)
    requires
        feed.valid(),
    ensures
        feed.state == FeedState::EmptyURL ==> feed.started() == feed,
        feed.state != FeedState::EmptyURL ==> feed.started().state == FeedState::DownloadStarted
            && feed.started().in_flight is Some,
{
}

/// Of two downloads asked for in succession only the later task's outcome is
/// applied. The earlier task's outcome is discarded, whether it arrives before
/// or after that of the later one.
pub proof fn lemma_only_latest_applies(
    feed: FeedView,
    earlier: Result<FetchResultView, TaskError>,
    later: Result<FetchResultView, TaskError>,
)
    requires
        feed.valid(),
        feed.state != FeedState::EmptyURL,
    ensures
        ({
            let first = feed.started();
            let second = first.started();
            let stale = first.in_flight->0;
            let current = second.in_flight->0;
            &&& stale != current
            &&& second.finished(stale, earlier) == second
            &&& second.finished(current, later).finished(stale, earlier) == second.finished(
                current,
                later,
            )
            &&& second.finished(current, later).state == match later {
                Ok(_) => FeedState::DownloadSucceeded,
                Err(_) => FeedState::DownloadFailed,
            }
        }),
{
}

/// The token after `n` further launches.
pub open spec fn token_after(token: u64, n: nat) -> u64
    decreases n,
{
    if n == 0 {
        token
    } else {
        next_token(token_after(token, (n - 1) as nat))
    }
}

/// The feed after `n` download requests in succession.
pub open spec fn started_times(feed: FeedView, n: nat) -> FeedView
    decreases n,
{
    if n == 0 {
        feed
    } else {
        started_times(feed, (n - 1) as nat).started()
    }
}

/// Tokens count up modulo 2^64: a token comes again only after 2^64 launches.
pub proof fn lemma_token_after(token: u64, n: nat)
    ensures
        token_after(token, n) == (token + n) % 0x1_0000_0000_0000_0000,
        0 < n < 0x1_0000_0000_0000_0000 ==> token_after(token, n) != token,
    decreases n,
{
    if n > 0 {
        lemma_token_after(token, (n - 1) as nat);
    }
}

/// A task that was overtaken by later downloads, however many below 2^64, is
/// discarded: the feed accepts only the token of the last launch.
pub proof fn lemma_overtaken_task_is_discarded(
    feed: FeedView,
    n: nat,
    outcome: Result<FetchResultView, TaskError>,
)
    requires
        feed.valid(),
        feed.in_flight is Some,
        0 < n < 0x1_0000_0000_0000_0000,
    ensures
        started_times(feed, n).in_flight == Some(token_after(feed.in_flight->0, n)),
        !started_times(feed, n).accepts(feed.in_flight->0),
        started_times(feed, n).finished(feed.in_flight->0, outcome) == started_times(feed, n),
{
    lemma_started_times(feed, n);
    lemma_token_after(feed.launched, n);
}

/// After `n` download requests a feed with an address has launched `n` more
/// tasks, and the last of them is in flight.
pub proof fn lemma_started_times(feed: FeedView, n: nat)
    requires
        feed.valid(),
        feed.state != FeedState::EmptyURL,
    ensures
        started_times(feed, n).valid(),
        started_times(feed, n).state != FeedState::EmptyURL,
        started_times(feed, n).launched == token_after(feed.launched, n),
        n > 0 ==> started_times(feed, n).in_flight == Some(token_after(feed.launched, n)),
    decreases n,
{
    if n > 0 {
        lemma_started_times(feed, (n - 1) as nat);
    }
}

/// No transition is silent: a download request that hands out no ticket, and
/// an outcome that is reported as discarded, leave the feed as it was. Every
/// other one brings the feed to the state that the ticket or the report
/// stands for.
pub proof fn lemma_every_transition_is_reported(
    feed: FeedView,
    token: u64,
    outcome: Result<FetchResultView, TaskError>,
)
    requires
        feed.valid(),
    ensures
        feed.ticket() is None ==> feed.started() == feed,
        feed.ticket() is Some ==> feed.started().state == FeedState::DownloadStarted
            && feed.started().in_flight == Some(feed.ticket()->0.token),
        feed.completion(token, outcome) == Completion::Discarded ==> feed.finished(token, outcome)
            == feed,
        feed.completion(token, outcome) == Completion::Failed ==> feed.finished(
            token,
            outcome,
        ).state == FeedState::DownloadFailed,
        feed.completion(token, outcome) is Succeeded ==> feed.finished(token, outcome).state
            == FeedState::DownloadSucceeded,
{
}

/// A task that was in flight when the address was assigned is abandoned: its
/// outcome is discarded.
pub proof fn lemma_url_assignment_abandons_task(
    feed: FeedView,
    url: Seq<char>,
    token: u64,
    outcome: Result<FetchResultView, TaskError>,
)
    ensures
        feed.with_url(url).finished(token, outcome) == feed.with_url(url),
{
}

/// An outcome is applied at most once: after a task's outcome has been taken,
/// whatever arrives under any token is discarded until a new download.
pub proof fn lemma_outcome_applies_once(
    feed: FeedView,
    token: u64,
    outcome: Result<FetchResultView, TaskError>,
    again: u64,
    repeated: Result<FetchResultView, TaskError>,
)
    requires
        feed.valid(),
        feed.accepts(token),
    ensures
        feed.finished(token, outcome).finished(again, repeated) == feed.finished(token, outcome),
{
}

/// A download that fails leaves title, items and icon as they were, and the
/// feed in `DownloadFailed`.
pub proof fn lemma_failure_keeps_content(feed: FeedView, error: TaskError)
    requires
        feed.valid(),
        feed.state != FeedState::EmptyURL,
    ensures
        ({
            let started = feed.started();
            let failed = started.finished(started.in_flight->0, Err(error));
            &&& failed.state == FeedState::DownloadFailed
            &&& failed.items == feed.items
            &&& failed.icon == feed.icon
            &&& failed.title == feed.title
        }),
{
}

/// A download that succeeds replaces the title by the document's exactly where
/// the feed still had the placeholder title and the document has a title.
pub proof fn lemma_title_after_success(feed: FeedView, result: FetchResultView)
    requires
        feed.valid(),
        feed.state != FeedState::EmptyURL,
    ensures
        ({
            let started = feed.started();
            let done = started.finished(started.in_flight->0, Ok(result));
            &&& feed.title == NEW_FEED_TITLE@ && result.title is Some ==> done.title
                == result.title->0
            &&& feed.title != NEW_FEED_TITLE@ || result.title is None ==> done.title == feed.title
        }),
{
}

/// A download whose icon could not be had still succeeds: the feed is in
/// `DownloadSucceeded` with the items of the document and without icon.
pub proof fn lemma_success_without_icon(feed: FeedView, pending: FetchResultView, error: IconError)
    requires
        feed.valid(),
        feed.state != FeedState::EmptyURL,
    ensures
        ({
            let started = feed.started();
            let result = result_with_icon(pending, Err(error));
            let done = started.finished(started.in_flight->0, Ok(result));
            &&& done.state == FeedState::DownloadSucceeded
            &&& done.items == pending.items
            &&& done.icon is None
        }),
{
}

/// Items and icon change together or not at all: only an address assignment
/// and the success of the task in flight touch either of them.
pub proof fn lemma_content_changes_as_a_pair(feed: FeedView, operation: Operation)
    requires
        feed.valid(),
    ensures
        ({
            let after = apply(feed, operation);
            after.items != feed.items || after.icon != feed.icon ==> {
                ||| operation is AssignUrl
                ||| operation matches Operation::Finish(token, outcome) && feed.accepts(token)
                    && outcome is Ok
            }
        }),
{
}

/// No item is newer than `date` exactly where the count of newer items is 0.
pub proof fn lemma_count_newer_zero(items: Seq<FeedItemView>, date: int)
    ensures
        count_newer(items, date) == 0 <==> forall|i: int|
            0 <= i < items.len() ==> !(#[trigger] items[i]).is_newer(date),
    decreases items.len(),
{
    reveal(Seq::filter);
    if items.len() > 0 {
        let before = items.drop_last();
        lemma_count_newer_zero(before, date);
        assert forall|i: int| 0 <= i < before.len() implies before[i] == items[i] by {}
        if count_newer(items, date) == 0 {
            assert forall|i: int| 0 <= i < items.len() implies !(#[trigger] items[i]).is_newer(
                date,
            ) by {
                if i < before.len() {
                    assert(before[i] == items[i]);
                }
            }
        }
        if forall|i: int| 0 <= i < items.len() ==> !(#[trigger] items[i]).is_newer(date) {
            assert forall|i: int| 0 <= i < before.len() implies !(#[trigger] before[i]).is_newer(
                date,
            ) by {
                assert(before[i] == items[i]);
            }
            assert(!items[items.len() - 1].is_newer(date));
        }
    }
}

/// The unread count never exceeds the number of items.
pub proof fn lemma_unread_bounded(feed: FeedView)
    ensures
        feed.unread() <= feed.items.len(),
{
    feed.items.lemma_filter_len(newer_than(feed.viewed));
}

/// Viewing the items at a time by which all of them were published brings the
/// unread count to 0.
pub proof fn lemma_viewing_reads_all(feed: FeedView, now: int)
    requires
        forall|i: int| 0 <= i < feed.items.len() ==> (#[trigger] feed.items[i]).published <= now,
    ensures
        feed.viewed_at(now).unread() == 0,
{
    lemma_count_newer_zero(feed.items, now);
}

} // verus!
