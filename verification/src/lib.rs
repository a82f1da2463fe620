//! The core of a feed reader: feeds with a download state machine, the
//! fetch-and-parse task that fills them, and the records under which feeds are
//! kept between runs.
//!
//! The library performs no I/O and parses no feed. A caller issues the HTTP
//! requests that a task asks for, reads the feed document, and hands what it
//! found back.

pub mod appearance;
pub mod clock;
pub mod document;
pub mod error;
pub mod favicon;
pub mod feed;
pub mod feed_item;
pub mod feed_list;
pub mod laws;
pub mod stored;
pub mod task;

pub use crate::feed::{Completion, Feed, FeedState, FetchTicket};
pub use crate::feed_item::FeedItem;
pub use crate::stored::{FeedSettings, StoredFeed};
