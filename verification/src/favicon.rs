//! Where a feed's icon is found: `scheme://host/favicon.ico`, with scheme and
//! host taken from the first link of the feed document.

use vstd::prelude::*;
use crate::error::IconError;

verus! {

/// The scheme and the host of an absolute URL.
#[derive(Debug, PartialEq, Eq)]
pub struct Origin {
    pub scheme: String,
    /// `None` for a URL without a host, such as `data:` or `mailto:`.
    pub host: Option<String>,
}

/// The mathematical value of an [`Origin`].
pub struct OriginView {
    pub scheme: Seq<char>,
    pub host: Option<Seq<char>>,
}

impl DeepView for Origin {
    type V = OriginView;

    open spec fn deep_view(&self) -> OriginView {
        OriginView { scheme: self.scheme@, host: self.host.deep_view() }
    }
}

impl View for Origin {
    type V = OriginView;

    open spec fn view(&self) -> OriginView {
        self.deep_view()
    }
}

#[verifier::external_type_specification]
#[verifier::external_body]
pub struct ExUrlParseError(url::ParseError);

/// What `url::Url::parse` finds in `href`: the scheme, and the host as the
/// `url` crate writes it, or `None` where `href` is not an absolute URL.
pub uninterp spec fn parsed_origin(href: Seq<char>) -> Option<OriginView>;

/// Calls `url::Url::parse` on `href` and keeps what `Url::scheme` and
/// `Url::host` return, the host in its `Display` form. The contract claims only
/// that the outcome is the one `parsed_origin` names.
#[verifier::external_body]
fn parse_origin(href: &str) -> (parsed: Result<Origin, url::ParseError>)
    ensures
        parsed matches Ok(origin) ==> parsed_origin(href@) == Some(origin@),
        parsed is Err ==> parsed_origin(href@) is None,
{
    let url = url::Url::parse(href)?;
    Ok(Origin { scheme: url.scheme().to_string(), host: url.host().map(|h| h.to_string()) })
}

/// What follows the scheme in an icon address.
pub const SCHEME_SEPARATOR: &'static str = "://";

/// The path of the icon on its host.
pub const ICON_PATH: &'static str = "/favicon.ico";

/// The icon address of an origin: `None` for an origin without a host.
pub open spec fn icon_url_of(origin: OriginView) -> Option<Seq<char>> {
    match origin.host {
        Some(host) => Some(origin.scheme + SCHEME_SEPARATOR@ + host + ICON_PATH@),
        None => None,
    }
}

/// The icon address for a document with the given links: made from the first
/// link, `None` where there is no link or the first one has no scheme and host.
pub open spec fn derived_icon_url(links: Seq<Seq<char>>) -> Option<Seq<char>> {
    if links.len() == 0 {
        None
    } else {
        match parsed_origin(links[0]) {
            Some(origin) => icon_url_of(origin),
            None => None,
        }
    }
}

/// Makes the icon address `scheme://host/favicon.ico` of an origin.
///
/// Fails with `IconDerivationError` exactly where the origin has no host.
pub fn icon_url_for(origin: &Origin) -> (made: Result<String, IconError>)
    ensures
        made matches Ok(url) ==> icon_url_of(origin@) == Some(url@),
        made matches Err(e) ==> e == IconError::IconDerivationError && icon_url_of(origin@) is None,
{
    match &origin.host {
        Some(host) => {
            let mut url = origin.scheme.clone();
            url.append(SCHEME_SEPARATOR);
            url.append(host.as_str());
            url.append(ICON_PATH);
            Ok(url)
        },
        None => Err(IconError::IconDerivationError),
    }
}

/// Derives the icon address from the links of a feed document.
///
/// Fails with `IconDerivationError` exactly where the document has no link or
/// its first link cannot be split into scheme and host.
pub fn derive_icon_url(links: &Vec<String>) -> (made: Result<String, IconError>)
    ensures
        made matches Ok(url) ==> derived_icon_url(links.deep_view()) == Some(url@),
        made matches Err(e) ==> e == IconError::IconDerivationError && derived_icon_url(
            links.deep_view(),
        ) is None,
{
    if links.len() == 0 {
        return Err(IconError::IconDerivationError);
    }
    match parse_origin(links[0].as_str()) {
        Ok(origin) => icon_url_for(&origin),
        Err(_) => Err(IconError::IconDerivationError),
    }
}

} // verus!
