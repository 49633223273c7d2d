//! The story record and the ways a fetch can fail.

use vstd::prelude::*;

verus! {

/// One story as the remote service describes it. A story is never edited
/// after it was fetched; a later fetch replaces it as a whole.
#[derive(Clone, Debug, PartialEq, Eq)]
pub struct Story {
    /// The ID under which the story was requested.
    pub id: u32,
    /// The author's handle.
    pub by: String,
    /// The number of comments below the story, where the service gives it.
    pub descendants: Option<u32>,
    /// The IDs of the story's direct comments, where the service gives them.
    pub kids: Option<Vec<u32>>,
    /// The story's points.
    pub score: u32,
    /// When the story was created, in seconds since the Unix epoch.
    pub time: u64,
    /// The headline.
    pub title: String,
    /// The story's own text, where it has one.
    pub text: Option<String>,
    /// The service's tag for the kind of item.
    pub item_type: String,
    /// The page the story points to, where it points anywhere.
    pub url: Option<String>,
}

/// A story as a mathematical value.
pub ghost struct StoryView {
    pub id: u32,
    pub by: Seq<char>,
    pub descendants: Option<u32>,
    pub kids: Option<Seq<u32>>,
    pub score: u32,
    pub time: u64,
    pub title: Seq<char>,
    pub text: Option<Seq<char>>,
    pub item_type: Seq<char>,
    pub url: Option<Seq<char>>,
}

impl View for Story {
    type V = StoryView;

    open spec fn view(&self) -> StoryView {
        StoryView {
            id: self.id,
            by: self.by@,
            descendants: self.descendants,
            kids: match self.kids {
                Some(kids) => Some(kids@),
                None => None,
            },
            score: self.score,
            time: self.time,
            title: self.title@,
            text: self.text.deep_view(),
            item_type: self.item_type@,
            url: self.url.deep_view(),
        }
    }
}

impl DeepView for Story {
    type V = StoryView;

    open spec fn deep_view(&self) -> StoryView {
        self@
    }
}

/// Why a fetch gave no value.
#[derive(Clone, Debug, PartialEq, Eq)]
pub enum FetchError {
    /// The request could not be completed. The message is the transport's
    /// own and may be empty.
    Transport(String),
    /// A response came back, but its body did not have the expected shape.
    Decode,
}

/// A fetch error as a mathematical value.
pub ghost enum FetchErrorView {
    Transport(Seq<char>),
    Decode,
}

impl View for FetchError {
    type V = FetchErrorView;

    open spec fn view(&self) -> FetchErrorView {
        match self {
            FetchError::Transport(message) => FetchErrorView::Transport(message@),
            FetchError::Decode => FetchErrorView::Decode,
        }
    }
}

/// What a fetch of a story brought, as a mathematical value.
pub open spec fn result_view(result: Result<Story, FetchError>) -> Result<
    StoryView,
    FetchErrorView,
> {
    match result {
        Ok(story) => Ok(story@),
        Err(error) => Err(error@),
    }
}

/// The line shown for an error message: the message itself, or "Error" where
/// the message is empty.
pub open spec fn spec_error_label(message: Seq<char>) -> Seq<char> {
    if message.len() == 0 {
        "Error"@
    } else {
        message
    }
}

/// The line shown for an error message.
pub fn error_label(message: &str) -> (label: String)
    ensures
        label@ == spec_error_label(message@),
{
    if message.is_empty() {
        "Error".to_owned()
    } else {
        message.to_owned()
    }
}

impl FetchErrorView {
    /// The message an error carries; a decode failure carries none.
    pub open spec fn message(self) -> Seq<char> {
        match self {
            FetchErrorView::Transport(message) => message,
            FetchErrorView::Decode => Seq::empty(),
        }
    }
}

impl FetchError {
    /// The message the error carries; a decode failure carries none.
    pub fn message(&self) -> (message: String)
        ensures
            message@ == self@.message(),
    {
        match self {
            FetchError::Transport(message) => message.clone(),
            FetchError::Decode => String::new(),
        }
    }
}

} // verus!
