//! What a user interface shows of a feed in each state, and which feed is
//! selected once the selected one is removed.

use vstd::prelude::*;
use crate::feed::FeedState;

verus! {

/// The icon of a feed that is not known to work.
pub const ICON_NO_ROUTE: &'static str = "network-no-route-symbolic";

/// The icon of a feed whose last fetch succeeded.
pub const ICON_FEED: &'static str = "rss-symbolic";

/// The line under the name of a feed whose last fetch failed.
pub const SUBTITLE_FAILED: &'static str = "Connection failed";

/// The line under the name of a feed without address.
pub const SUBTITLE_EMPTY_URL: &'static str = "Empty URL";

/// The line under the name of every other feed.
pub const SUBTITLE_NONE: &'static str = "";

/// How the row of a feed looks in the list of feeds.
#[derive(Clone, Copy, Debug, PartialEq, Eq)]
pub struct RowAppearance {
    /// Whether the progress spinner is shown.
    pub spinner: bool,
    /// Whether the avatar is shown; it gives way to the spinner.
    pub avatar: bool,
    /// Whether the unread count is shown.
    pub badge: bool,
    /// The name of the icon that the avatar falls back to.
    pub icon_name: &'static str,
    /// The line under the name of the feed.
    pub subtitle: &'static str,
}

/// How the page of a feed looks.
#[derive(Clone, Copy, Debug, PartialEq, Eq, Structural)]
pub struct PageAppearance {
    /// Whether the hint that no address is configured is shown.
    pub no_url_message: bool,
    /// Whether the hint that the connection failed is shown.
    pub connection_error_message: bool,
    /// Whether the items are shown.
    pub items: bool,
    /// Whether the shown items are to be replaced by the feed's items. They are
    /// left alone while a download runs.
    pub reload_items: bool,
}

/// The icon name for a feed in `state`.
pub open spec fn icon_name_in(state: FeedState) -> Seq<char> {
    if state == FeedState::DownloadSucceeded {
        ICON_FEED@
    } else {
        ICON_NO_ROUTE@
    }
}

/// The subtitle for a feed in `state`.
pub open spec fn subtitle_in(state: FeedState) -> Seq<char> {
    match state {
        FeedState::DownloadFailed => SUBTITLE_FAILED@,
        FeedState::EmptyURL => SUBTITLE_EMPTY_URL@,
        _ => SUBTITLE_NONE@,
    }
}

/// The page of a feed in `state`: a feed without address shows the hint for
/// that and no items; a feed whose last fetch failed shows the hint for that
/// beside the items it still has.
pub open spec fn page_in(state: FeedState) -> PageAppearance {
    PageAppearance {
        no_url_message: state == FeedState::EmptyURL,
        connection_error_message: state == FeedState::DownloadFailed,
        items: state != FeedState::EmptyURL,
        reload_items: state != FeedState::DownloadStarted,
    }
}

/// How the row of a feed in `state` looks.
pub fn row_appearance(state: FeedState) -> (row: RowAppearance)
    ensures
        row.spinner == (state == FeedState::DownloadStarted),
        row.avatar == (state != FeedState::DownloadStarted),
        row.badge == (state == FeedState::DownloadSucceeded),
        row.icon_name@ == icon_name_in(state),
        row.subtitle@ == subtitle_in(state),
{
    let started = match state {
        FeedState::DownloadStarted => true,
        _ => false,
    };
    let (badge, icon_name) = match state {
        FeedState::DownloadSucceeded => (true, ICON_FEED),
        _ => (false, ICON_NO_ROUTE),
    };
    let subtitle = match state {
        FeedState::DownloadFailed => SUBTITLE_FAILED,
        FeedState::EmptyURL => SUBTITLE_EMPTY_URL,
        _ => SUBTITLE_NONE,
    };
    RowAppearance { spinner: started, avatar: !started, badge, icon_name, subtitle }
}

/// How the page of a feed in `state` looks.
pub fn page_appearance(state: FeedState) -> (page: PageAppearance)
    ensures
        page == page_in(state),
{
    let (empty, failed, started) = match state {
        FeedState::EmptyURL => (true, false, false),
        FeedState::DownloadFailed => (false, true, false),
        FeedState::DownloadStarted => (false, false, true),
        _ => (false, false, false),
    };
    PageAppearance {
        no_url_message: empty,
        connection_error_message: failed,
        items: !empty,
        reload_items: !started,
    }
}

/// The row to select once the row `selected` of `count` rows is removed: the
/// one below it, the one above it where it is the last, none where it is the
/// only one or no row at all. The place is that before the removal.
pub open spec fn selection_after(selected: int, count: int) -> Option<int> {
    if !(0 <= selected < count) {
        None
    } else if selected + 1 < count {
        Some(selected + 1)
    } else if selected > 0 {
        Some(selected - 1)
    } else {
        None
    }
}

/// Chooses the row to select once the row `selected` of `count` rows is
/// removed.
pub fn next_selection(selected: usize, count: usize) -> (next: Option<usize>)
    ensures
        next matches Some(row) ==> selection_after(selected as int, count as int) == Some(
            row as int,
        ) && row < count && row != selected,
        next is None ==> selection_after(selected as int, count as int) is None,
{
    if selected >= count {
        None
    } else if selected < count - 1 {
        Some(selected + 1)
    } else if selected > 0 {
        Some(selected - 1)
    } else {
        None
    }
}

} // verus!
