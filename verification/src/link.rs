//! The link a story card offers.

use crate::api::{discussion_url, spec_discussion_url};
use vstd::prelude::*;

verus! {

/// A hyperlink: the text shown and the address it leads to.
#[derive(Clone, Debug, PartialEq, Eq)]
pub struct Link {
    pub label: String,
    pub target: String,
}

/// A hyperlink as a mathematical value.
pub ghost struct LinkView {
    pub label: Seq<char>,
    pub target: Seq<char>,
}

impl View for Link {
    type V = LinkView;

    open spec fn view(&self) -> LinkView {
        LinkView { label: self.label@, target: self.target@ }
    }
}

/// What a card reads of a parsed address: the address as the parser writes
/// it back, and the host where the host is a domain name.
#[derive(Clone, Debug, PartialEq, Eq)]
pub struct UrlParts {
    pub href: String,
    pub domain: Option<String>,
}

/// The serialization of the URL that `url::Url::parse` reads from `text`:
/// what `Url::as_str` returns for it. `None` where the parser rejects `text`.
pub uninterp spec fn url_href(text: Seq<char>) -> Option<Seq<char>>;

/// What `Url::domain` returns for the URL that `url::Url::parse` reads from
/// `text`: the host, where there is one and it is a domain name.
pub uninterp spec fn url_domain(text: Seq<char>) -> Option<Seq<char>>;

/// Calls `url::Url::parse` and reads the result through `Url::as_str` and
/// `Url::domain`. Nothing is proved of the parser: the contract only names
/// what it returns, as a function of the text.
#[verifier::external_body]
fn parse_url(text: &str) -> (parts: Option<UrlParts>)
    ensures
        match parts {
            Some(p) => url_href(text@) == Some(p.href@) && url_domain(text@)
                == p.domain.deep_view(),
            None => url_href(text@).is_none(),
        },
{
    match url::Url::parse(text) {
        Ok(url) => Some(
            UrlParts { href: url.as_str().to_owned(), domain: url.domain().map(str::to_owned) },
        ),
        Err(_) => None,
    }
}

/// The link for a parsed address: it leads to the address as the parser
/// wrote it and shows the domain, or the whole address where there is none.
pub open spec fn spec_link_from_parts(href: Seq<char>, domain: Option<Seq<char>>) -> LinkView {
    LinkView {
        label: match domain {
            Some(d) => d,
            None => href,
        },
        target: href,
    }
}

/// The link for the address `source`, if the parser accepts it.
pub open spec fn spec_link_to(source: Seq<char>) -> Option<LinkView> {
    match url_href(source) {
        Some(href) => Some(spec_link_from_parts(href, url_domain(source))),
        None => None,
    }
}

/// The address a story's card links to: the story's own, or the page on
/// which the story is discussed where it has none.
pub open spec fn spec_link_source(url: Option<Seq<char>>, id: u32) -> Seq<char> {
    match url {
        Some(u) => u,
        None => spec_discussion_url(id),
    }
}

impl Link {
    /// The link for a parsed address.
    pub fn from_parts(parts: UrlParts) -> (link: Link)
        ensures
            link@ == spec_link_from_parts(parts.href@, parts.domain.deep_view()),
    {
        let UrlParts { href, domain } = parts;
        match domain {
            Some(d) => Link { label: d, target: href },
            None => Link { label: href.clone(), target: href },
        }
    }

    /// The link for the address `source`, if the parser accepts it.
    pub fn to(source: &str) -> (link: Option<Link>)
        ensures
            link.is_some() == spec_link_to(source@).is_some(),
            link matches Some(l) ==> Some(l@) == spec_link_to(source@),
    {
        match parse_url(source) {
            Some(parts) => Some(Link::from_parts(parts)),
            None => None,
        }
    }

    /// The link of the story that was fetched as item `id` and points to
    /// `url`.
    pub fn for_story(url: &Option<String>, id: u32) -> (link: Option<Link>)
        ensures
            link.is_some() == spec_link_to(spec_link_source(url.deep_view(), id)).is_some(),
            link matches Some(l) ==> Some(l@) == spec_link_to(
                spec_link_source(url.deep_view(), id),
            ),
    {
        match url {
            Some(u) => Link::to(u.as_str()),
            None => {
                let page = discussion_url(id);
                Link::to(page.as_str())
            },
        }
    }
}

} // verus!
