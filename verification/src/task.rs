//! The fetch-and-parse task as a sequence of decisions.
//!
//! The task issues at most two HTTP requests: one for the feed document and one
//! for the icon. The caller performs them, and parses the body of the first.
//! After the first response [`on_document`] says whether the task is over or
//! the icon is to be fetched; after the second [`on_icon`] gives the result.
//! Only a failure of the first request or of parsing fails the task: without
//! an icon it still succeeds.

use vstd::prelude::*;
use crate::document::{items_of, normalize_entries, Document, DocumentView};
use crate::error::{IconError, TaskError};
use crate::favicon::{derive_icon_url, derived_icon_url};
use crate::feed_item::{FeedItem, FeedItemView};

verus! {

/// What a successful task hands to its feed.
#[derive(Debug, PartialEq, Eq)]
pub struct FetchResult {
    /// The title of the document, where it has one.
    pub title: Option<String>,
    /// The items of the document, in document order.
    pub items: Vec<FeedItem>,
    /// The bytes of the icon, where one was fetched and is an image.
    pub icon: Option<Vec<u8>>,
}

/// The mathematical value of a [`FetchResult`].
pub struct FetchResultView {
    pub title: Option<Seq<char>>,
    pub items: Seq<FeedItemView>,
    pub icon: Option<Seq<u8>>,
}

impl DeepView for FetchResult {
    type V = FetchResultView;

    open spec fn deep_view(&self) -> FetchResultView {
        FetchResultView {
            title: self.title.deep_view(),
            items: self.items.deep_view(),
            icon: match self.icon {
                Some(bytes) => Some(bytes@),
                None => None,
            },
        }
    }
}

impl View for FetchResult {
    type V = FetchResultView;

    open spec fn view(&self) -> FetchResultView {
        self.deep_view()
    }
}

/// How the request for the feed document ended.
#[derive(Debug, PartialEq, Eq)]
pub enum Response {
    /// A successful response whose body is the given feed document.
    Document(Document),
    /// A successful response whose body is no feed document.
    Unreadable,
    /// No response, or one without a success status.
    Failed,
}

impl View for Response {
    type V = Result<DocumentView, TaskError>;

    /// The document, or the error that the missing document is to the task.
    open spec fn view(&self) -> Result<DocumentView, TaskError> {
        match self {
            Response::Document(document) => Ok(document@),
            Response::Unreadable => Err(TaskError::ParseError),
            Response::Failed => Err(TaskError::FetchError),
        }
    }
}

/// What the task does once the feed document has been dealt with.
#[derive(Debug, PartialEq, Eq)]
pub enum Step {
    /// The task is over, with this outcome.
    Done(Result<FetchResult, TaskError>),
    /// The icon at `url` is to be fetched; `pending` is the result so far.
    FetchIcon { url: String, pending: FetchResult },
}

/// The mathematical value of a [`Step`].
pub enum StepView {
    Done(Result<FetchResultView, TaskError>),
    FetchIcon { url: Seq<char>, pending: FetchResultView },
}

impl View for Step {
    type V = StepView;

    open spec fn view(&self) -> StepView {
        match self {
            Step::Done(Ok(result)) => StepView::Done(Ok(result@)),
            Step::Done(Err(e)) => StepView::Done(Err(*e)),
            Step::FetchIcon { url, pending } => StepView::FetchIcon { url: url@, pending: pending@ },
        }
    }
}

/// The result that a document gives before any icon is known.
pub open spec fn result_without_icon(document: DocumentView) -> FetchResultView {
    FetchResultView { title: document.title, items: items_of(document.entries), icon: None }
}

/// The step after a parsed document, given the icon address derived from it.
pub open spec fn step_for(document: DocumentView, icon_url: Option<Seq<char>>) -> StepView {
    match icon_url {
        Some(url) => StepView::FetchIcon { url, pending: result_without_icon(document) },
        None => StepView::Done(Ok(result_without_icon(document))),
    }
}

/// The step after the response to the request for the feed document: the
/// task ends with the error where there is no document, and else goes by the
/// icon address that the document's links give.
pub open spec fn step_after(response: Result<DocumentView, TaskError>) -> StepView {
    match response {
        Err(error) => StepView::Done(Err(error)),
        Ok(document) => step_for(document, derived_icon_url(document.links)),
    }
}

/// The result once the request for the icon has ended: the pending result,
/// with the icon where one came.
pub open spec fn result_with_icon(
    pending: FetchResultView,
    icon: Result<Seq<u8>, IconError>,
) -> FetchResultView {
    FetchResultView {
        icon: match icon {
            Ok(bytes) => Some(bytes),
            Err(_) => None,
        },
        ..pending
    }
}

/// Decides the step after a parsed document: its entries become items, and the
/// icon is asked for where an address could be derived.
pub fn plan_for_document(document: &Document, icon_url: Result<String, IconError>) -> (step: Step)
    ensures
        step@ == step_for(
            document@,
            match icon_url {
                Ok(url) => Some(url@),
                Err(_) => None,
            },
        ),
{
    let title = match &document.title {
        Some(title) => Some(title.clone()),
        None => None,
    };
    let pending = FetchResult { title, items: normalize_entries(&document.entries), icon: None };
    match icon_url {
        Ok(url) => Step::FetchIcon { url, pending },
        Err(_) => Step::Done(Ok(pending)),
    }
}

/// Decides the step after the response to the request for the feed document.
///
/// A failed request ends the task with `FetchError`, a body that is no feed
/// document ends it with `ParseError`. Otherwise the task goes on to the icon,
/// or ends successfully without one where no icon address can be derived.
pub fn on_document(response: Response) -> (step: Step)
    ensures
        step@ == step_after(response@),
{
    match response {
        Response::Failed => Step::Done(Err(TaskError::FetchError)),
        Response::Unreadable => Step::Done(Err(TaskError::ParseError)),
        Response::Document(document) => {
            let icon_url = derive_icon_url(&document.links);
            plan_for_document(&document, icon_url)
        },
    }
}

/// Ends the task after the request for the icon: `icon` holds the bytes of the
/// image, or says why there is none. The task succeeds either way.
pub fn on_icon(pending: FetchResult, icon: Result<Vec<u8>, IconError>) -> (result: FetchResult)
    ensures
        result@ == result_with_icon(
            pending@,
            match icon {
                Ok(bytes) => Ok(bytes@),
                Err(e) => Err(e),
            },
        ),
{
    let FetchResult { title, items, icon: _ } = pending;
    let icon = match icon {
        Ok(bytes) => Some(bytes),
        Err(_) => None,
    };
    FetchResult { title, items, icon }
}

} // verus!
