//! The remote service: its listings and the address of every resource.

use crate::story::{FetchError, FetchErrorView};
use crate::text::{ascii_lowercase, decimal, push_decimal};
use vstd::prelude::*;

verus! {

/// A listing the service keeps.
#[derive(Clone, Copy, PartialEq, Eq, Structural, Debug)]
pub enum Category {
    Top,
    New,
    Best,
}

impl Category {
    /// The categories in the order in which they are offered.
    pub fn all() -> (all: [Category; 3])
        ensures
            all@ == seq![Category::Top, Category::New, Category::Best],
    {
        [Category::Top, Category::New, Category::Best]
    }

    /// The category's name as it is displayed.
    pub open spec fn spec_name(self) -> Seq<char> {
        match self {
            Category::Top => "Top"@,
            Category::New => "New"@,
            Category::Best => "Best"@,
        }
    }

    /// The category's name as it is displayed.
    pub fn name(self) -> (name: &'static str)
        ensures
            name@ == self.spec_name(),
    {
        match self {
            Category::Top => "Top",
            Category::New => "New",
            Category::Best => "Best",
        }
    }

    /// The category's name as an owned string.
    pub fn to_string(&self) -> (name: String)
        ensures
            name@ == self.spec_name(),
    {
        self.name().to_owned()
    }

    /// The resource that holds the category's listing: the name in lower
    /// case, followed by "stories.json".
    pub open spec fn spec_endpoint(self) -> Seq<char> {
        ascii_lowercase(self.spec_name()) + "stories.json"@
    }

    /// The resource that holds the category's listing.
    pub fn endpoint(self) -> (endpoint: &'static str)
        ensures
            endpoint@ == self.spec_endpoint(),
    {
        proof {
            reveal_strlit("Top");
            reveal_strlit("New");
            reveal_strlit("Best");
            reveal_strlit("stories.json");
            reveal_strlit("topstories.json");
            reveal_strlit("newstories.json");
            reveal_strlit("beststories.json");
        }
        match self {
            Category::Top => "topstories.json",
            Category::New => "newstories.json",
            Category::Best => "beststories.json",
        }
    }

    /// The caption of the category: its name followed by " Stories".
    pub open spec fn spec_caption(self) -> Seq<char> {
        self.spec_name() + " Stories"@
    }

    /// The caption of the category.
    pub fn caption(self) -> (caption: String)
        ensures
            caption@ == self.spec_caption(),
    {
        let mut caption = self.to_string();
        caption.append(" Stories");
        caption
    }
}

/// The address of a category's listing.
pub open spec fn spec_list_url(category: Category) -> Seq<char> {
    "https://hacker-news.firebaseio.com/v0/"@ + category.spec_endpoint()
}

/// The address of a category's listing.
pub fn list_url(category: Category) -> (url: String)
    ensures
        url@ == spec_list_url(category),
{
    let mut url = "https://hacker-news.firebaseio.com/v0/".to_owned();
    url.append(category.endpoint());
    url
}

/// The listing of each category lives at the category's name in lower case
/// followed by "stories.json", below the root of the service: the top
/// stories at "topstories.json", the new ones at "newstories.json" and the
/// best at "beststories.json".
pub proof fn lemma_listing_endpoints(category: Category)
    ensures
        category.spec_endpoint() == match category {
            Category::Top => "topstories.json"@,
            Category::New => "newstories.json"@,
            Category::Best => "beststories.json"@,
        },
        spec_list_url(category) == "https://hacker-news.firebaseio.com/v0/"@ + ascii_lowercase(
            category.spec_name(),
        ) + "stories.json"@,
{
    reveal_strlit("Top");
    reveal_strlit("New");
    reveal_strlit("Best");
    reveal_strlit("stories.json");
    reveal_strlit("topstories.json");
    reveal_strlit("newstories.json");
    reveal_strlit("beststories.json");
    let root = "https://hacker-news.firebaseio.com/v0/"@;
    let name = ascii_lowercase(category.spec_name());
    assert(root + (name + "stories.json"@) == root + name + "stories.json"@);
}

/// The address of the record of item `id`.
pub open spec fn spec_item_url(id: u32) -> Seq<char> {
    "https://hacker-news.firebaseio.com/v0/item/"@ + decimal(id as nat) + ".json"@
}

/// The address of the record of item `id`.
pub fn item_url(id: u32) -> (url: String)
    ensures
        url@ == spec_item_url(id),
{
    let mut url = "https://hacker-news.firebaseio.com/v0/item/".to_owned();
    push_decimal(&mut url, id as u64);
    url.append(".json");
    url
}

/// The address of the page on which item `id` is discussed.
pub open spec fn spec_discussion_url(id: u32) -> Seq<char> {
    "https://news.ycombinator.com/item?id="@ + decimal(id as nat)
}

/// The address of the page on which item `id` is discussed.
pub fn discussion_url(id: u32) -> (url: String)
    ensures
        url@ == spec_discussion_url(id),
{
    let mut url = "https://news.ycombinator.com/item?id=".to_owned();
    push_decimal(&mut url, id as u64);
    url
}

/// The error of `serde_json`. It is carried from the parser to the place
/// that turns it into a decode failure, and never looked into.
#[verifier::external_type_specification]
#[verifier::external_body]
pub struct ExJsonError(serde_json::Error);

/// The list that `serde_json::from_str` reads from `text` at the type
/// `Vec<u32>`. `None` where it reports an error.
pub uninterp spec fn json_id_list(text: Seq<char>) -> Option<Seq<u32>>;

/// Calls `serde_json::from_str` at the type `Vec<u32>`. Nothing is proved of
/// the parser: the contract only names what it returns, as a function of
/// the text.
#[verifier::external_body]
fn parse_id_list(text: &str) -> (parsed: Result<Vec<u32>, serde_json::Error>)
    ensures
        match parsed {
            Ok(ids) => json_id_list(text@) == Some(ids@),
            Err(_) => json_id_list(text@).is_none(),
        },
{
    serde_json::from_str::<Vec<u32>>(text)
}

/// The IDs that the body of a listing holds. A body that is no text, or
/// that the parser rejects, is a decode failure.
pub open spec fn spec_decode_ids(body: Option<Seq<char>>) -> Result<Seq<u32>, FetchErrorView> {
    match body {
        Some(text) => match json_id_list(text) {
            Some(ids) => Ok(ids),
            None => Err(FetchErrorView::Decode),
        },
        None => Err(FetchErrorView::Decode),
    }
}

/// The IDs that the body of a listing holds. `body` is the response body
/// where it was text.
pub fn decode_ids(body: Option<&str>) -> (ids: Result<Vec<u32>, FetchError>)
    ensures
        match ids {
            Ok(v) => spec_decode_ids(body.deep_view()) == Ok::<Seq<u32>, FetchErrorView>(v@),
            Err(e) => spec_decode_ids(body.deep_view()) == Err::<Seq<u32>, FetchErrorView>(e@),
        },
{
    match body {
        Some(text) => match parse_id_list(text) {
            Ok(ids) => Ok(ids),
            Err(_) => Err(FetchError::Decode),
        },
        None => Err(FetchError::Decode),
    }
}

} // verus!
