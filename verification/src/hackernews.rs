//! The paged reader: a window of fixed size over the top stories.

use crate::api::{discussion_url, spec_discussion_url};
use crate::link::spec_link_source;
use crate::story::{
    error_label, result_view, spec_error_label, FetchError, FetchErrorView, Story, StoryView,
};
use crate::text::{decimal, decimal_string};
use crate::views::views_are;
use vstd::prelude::*;

verus! {

/// The number of stories on a page.
pub const N_STORIES: usize = 32;

/// The number of stories that paging reaches: no page starts at or after
/// this position of the listing.
pub const N_MAX: usize = 500;

/// What the user has configured.
#[derive(Clone, Copy, Debug, PartialEq, Eq)]
pub struct AppConfig {
    pub dark_mode: bool,
}

impl Default for AppConfig {
    fn default() -> (config: AppConfig)
        ensures
            !config.dark_mode,
    {
        AppConfig { dark_mode: false }
    }
}

/// The paged reader's state.
#[derive(Clone, Debug, PartialEq, Eq)]
pub struct Hackernews {
    /// The position in the listing at which the page on display starts.
    pub start: usize,
    /// The stories of the page on display, in the listing's order.
    pub stories: Vec<Story>,
    /// The user's configuration.
    pub config: AppConfig,
}

/// The page of the listing `ids` that starts at `start`: the IDs from
/// `start` on, up to `N_STORIES` of them, in the listing's order. Where the
/// listing ends before the page does, the page ends with the listing; where
/// it ends at or before `start`, the page is empty.
pub open spec fn spec_page_ids(ids: Seq<u32>, start: usize) -> Seq<u32> {
    let from = if start <= ids.len() {
        start as int
    } else {
        ids.len() as int
    };
    let to = if start + N_STORIES <= ids.len() {
        start + N_STORIES
    } else {
        ids.len() as int
    };
    ids.subrange(from, to)
}

/// The page of the listing `ids` that starts at `start`.
pub fn page_ids(ids: &Vec<u32>, start: usize) -> (page: Vec<u32>)
    ensures
        page@ == spec_page_ids(ids@, start),
{
    let len: usize = ids.len();
    let from: usize = if start <= len {
        start
    } else {
        len
    };
    let to: usize = if len - from >= N_STORIES {
        from + N_STORIES
    } else {
        len
    };
    let mut page: Vec<u32> = Vec::new();
    let mut i: usize = from;
    while i < to
        invariant
            from <= i <= to <= ids.len(),
            page.len() == i - from,
            forall|j: int| 0 <= j < page.len() ==> page[j] == ids[from + j],
        decreases to - i,
    {
        page.push(ids[i]);
        i += 1;
    }
    assert(page@ == ids@.subrange(from as int, to as int));
    page
}

/// A page is a window of the listing: it holds the IDs from the page's
/// start on, in the listing's order, `N_STORIES` of them where the listing
/// reaches that far and all that are left where it does not. So a listing
/// of no more than `N_STORIES` IDs is its own first page, an empty listing
/// has empty pages only, and a page that starts inside the listing is never
/// empty.
pub proof fn lemma_page_is_window(ids: Seq<u32>, start: usize)
    ensures
        start + N_STORIES <= ids.len() ==> spec_page_ids(ids, start).len() == N_STORIES,
        start <= ids.len() < start + N_STORIES ==> spec_page_ids(ids, start).len() == ids.len()
            - start,
        ids.len() <= start ==> spec_page_ids(ids, start).len() == 0,
        start < ids.len() ==> spec_page_ids(ids, start).len() >= 1,
        forall|i: int|
            0 <= i < spec_page_ids(ids, start).len() ==> #[trigger] spec_page_ids(ids, start)[i]
                == ids[start + i],
        ids.len() <= N_STORIES ==> spec_page_ids(ids, 0) == ids,
{
    if ids.len() <= N_STORIES {
        assert(spec_page_ids(ids, 0) =~= ids);
    }
}

/// Paging never leaves the pages it can lead to: from a page that starts at
/// a multiple of the page size before `N_MAX`, every button leads to such a
/// page again.
pub proof fn lemma_paging_stays_in_range(start: usize, clicked: Option<PagerButton>)
    requires
        start % N_STORIES == 0,
        start < N_MAX,
    ensures
        spec_paged(start, clicked) % N_STORIES == 0,
        spec_paged(start, clicked) < N_MAX,
{
}

/// What is kept of one fetch: the story, if there is one.
pub open spec fn fetched(result: Result<StoryView, FetchErrorView>) -> Option<StoryView> {
    match result {
        Ok(story) => Some(story),
        Err(_) => None,
    }
}

/// The stories among the results of a page's fetches, in the order of the
/// results. A fetch that failed leaves no entry.
pub open spec fn spec_fetched_stories(
    results: Seq<Result<StoryView, FetchErrorView>>,
) -> Seq<StoryView> {
    results.filter_map(|result: Result<StoryView, FetchErrorView>| fetched(result))
}

/// The views of the results of a page's fetches.
pub open spec fn results_view(results: Seq<Result<Story, FetchError>>) -> Seq<
    Result<StoryView, FetchErrorView>,
> {
    Seq::new(results.len(), |i: int| result_view(results[i]))
}

/// The stories among the results of a page's fetches, in the order of the
/// results.
pub fn fetched_stories(results: Vec<Result<Story, FetchError>>) -> (stories: Vec<Story>)
    ensures
        views_are(stories@, spec_fetched_stories(results_view(results@))),
{
    let ghost all = results_view(results@);
    let mut stories: Vec<Story> = Vec::new();
    assert(spec_fetched_stories(all.take(0)) == Seq::<StoryView>::empty());
    for result in iter: results
        invariant
            all == results_view(iter.seq()),
            stories.deep_view() == spec_fetched_stories(all.take(iter.index() as int)),
    {
        let ghost kept = stories.deep_view();
        proof {
            all.lemma_filter_map_take_succ(
                |result: Result<StoryView, FetchErrorView>| fetched(result),
                iter.index() as int,
            );
            assert(all[iter.index() as int] == result_view(result));
        }
        match result {
            Ok(story) => {
                let ghost view = story@;
                stories.push(story);
                assert(stories.deep_view() == kept + seq![view]);
            },
            Err(_) => {
                assert(stories.deep_view() == kept + Seq::<StoryView>::empty());
            },
        }
    }
    assert(all.take(all.len() as int) == all);
    stories
}

/// A button of the bar below the stories.
#[derive(Clone, Copy, PartialEq, Eq, Structural, Debug)]
pub enum PagerButton {
    /// Back to the first page.
    Home,
    /// One page on.
    Next,
    /// One page back.
    Prev,
}

/// A button of the bar above the stories.
#[derive(Clone, Copy, PartialEq, Eq, Structural, Debug)]
pub enum TopButton {
    /// Close the window.
    Close,
    /// Fetch the page again.
    Refresh,
    /// Switch between the dark and the light theme.
    Theme,
}

/// What the shell does after a button of the top bar was handled.
#[derive(Clone, Copy, PartialEq, Eq, Structural, Debug)]
pub enum TopAction {
    /// Nothing.
    Stay,
    /// Close the window.
    Quit,
    /// Fetch the page on display and hand the results to
    /// `refresh_stories`, or the failure of its listing to
    /// `refresh_failed`.
    Refresh,
}

/// Where the page on display starts after `clicked`, for a page that
/// started at `start`. Home leads to the first page. Next moves one page on
/// while the new page starts before `N_MAX`, and Prev one page back while
/// there is a page before. Otherwise the page stays. Paging goes by
/// `N_MAX` alone, not by the listing: the page it leads to holds what the
/// listing has from there on, which may be less than a full page, or
/// nothing.
pub open spec fn spec_paged(start: usize, clicked: Option<PagerButton>) -> usize {
    match clicked {
        Some(PagerButton::Home) => 0,
        Some(PagerButton::Next) => if start + N_STORIES < N_MAX {
            (start + N_STORIES) as usize
        } else {
            start
        },
        Some(PagerButton::Prev) => if start >= N_STORIES {
            (start - N_STORIES) as usize
        } else {
            start
        },
        None => start,
    }
}

/// What the card of one story of the page shows.
#[derive(Clone, Debug, PartialEq, Eq)]
pub struct NewsCard {
    /// The story's position in the listing, counted from one, and its
    /// title.
    pub title: String,
    /// The story's points and its author.
    pub byline: String,
    /// The address behind "read more": the story's own, or the page on
    /// which it is discussed where it has none.
    pub url: String,
    /// The number of comments, as "N Comments"; none given counts as zero.
    pub comments: String,
    /// The address of the page on which the story is discussed.
    pub discussion: String,
}

/// The card of a story of the page as a mathematical value.
pub ghost struct NewsCardView {
    pub title: Seq<char>,
    pub byline: Seq<char>,
    pub url: Seq<char>,
    pub comments: Seq<char>,
    pub discussion: Seq<char>,
}

impl View for NewsCard {
    type V = NewsCardView;

    open spec fn view(&self) -> NewsCardView {
        NewsCardView {
            title: self.title@,
            byline: self.byline@,
            url: self.url@,
            comments: self.comments@,
            discussion: self.discussion@,
        }
    }
}

impl DeepView for NewsCard {
    type V = NewsCardView;

    open spec fn deep_view(&self) -> NewsCardView {
        self@
    }
}

/// The card of `story`, the story at position `index` of the listing,
/// counted from one.
pub open spec fn spec_news_card(index: nat, story: StoryView) -> NewsCardView {
    NewsCardView {
        title: decimal(index) + ". \u{25b6} "@ + story.title,
        byline: decimal(story.score as nat) + " points by "@ + story.by,
        url: spec_link_source(story.url, story.id),
        comments: decimal(
            match story.descendants {
                Some(n) => n as nat,
                None => 0,
            },
        ) + " Comments"@,
        discussion: spec_discussion_url(story.id),
    }
}

/// The cards of a page that starts at position `start` of the listing and
/// holds `stories`: the first story carries the number `start + 1`, and each
/// further one the next number.
pub open spec fn spec_news_cards(start: nat, stories: Seq<StoryView>) -> Seq<NewsCardView> {
    Seq::new(stories.len(), |i: int| spec_news_card((start + i + 1) as nat, stories[i]))
}

/// The card of `story`, the story at position `index` of the listing,
/// counted from one.
pub fn news_card(index: usize, story: &Story) -> (card: NewsCard)
    ensures
        card@ == spec_news_card(index as nat, story@),
{
    let mut title = decimal_string(index as u64);
    title.append(". \u{25b6} ");
    title.append(story.title.as_str());
    let mut byline = decimal_string(story.score as u64);
    byline.append(" points by ");
    byline.append(story.by.as_str());
    let url = match &story.url {
        Some(u) => u.clone(),
        None => discussion_url(story.id),
    };
    let count: u32 = match story.descendants {
        Some(n) => n,
        None => 0,
    };
    let mut comments = decimal_string(count as u64);
    comments.append(" Comments");
    NewsCard { title, byline, url, comments, discussion: discussion_url(story.id) }
}

impl Hackernews {
    /// Whether the page on display is one that paging leads to: it starts
    /// at a multiple of the page size, before `N_MAX`.
    pub open spec fn wf(&self) -> bool {
        self.start % N_STORIES == 0 && self.start < N_MAX
    }

    /// The reader at start: the first page, no stories yet, the light
    /// theme.
    pub fn new() -> (reader: Hackernews)
        ensures
            reader.wf(),
            reader.start == 0,
            reader.stories@.len() == 0,
            !reader.config.dark_mode,
    {
        Hackernews { start: 0usize, stories: Vec::new(), config: AppConfig::default() }
    }

    /// Replaces the stories on display by those among the results of the
    /// page's fetches, in the order of the results. The page stays.
    pub fn refresh_stories(&mut self, results: Vec<Result<Story, FetchError>>)
        ensures
            views_are(final(self).stories@, spec_fetched_stories(results_view(results@))),
            final(self).start == old(self).start,
            final(self).config == old(self).config,
            final(self).wf() == old(self).wf(),
    {
        self.stories = fetched_stories(results);
    }

    /// Takes the failure of the page's listing: nothing on display
    /// changes, and nothing is fetched again until the user asks for it.
    /// Returns the line to show for the failure.
    pub fn refresh_failed(&mut self, error: FetchError) -> (line: String)
        ensures
            final(self).start == old(self).start,
            final(self).stories == old(self).stories,
            final(self).config == old(self).config,
            final(self).wf() == old(self).wf(),
            line@ == spec_error_label(error@.message()),
    {
        let message = error.message();
        error_label(message.as_str())
    }

    /// The cards of the page on display, in order. The first card carries
    /// the number `start + 1`.
    pub fn render_news_cards(&self) -> (cards: Vec<NewsCard>)
        requires
            self.start + self.stories.len() <= usize::MAX,
        ensures
            views_are(cards@, spec_news_cards(self.start as nat, self.stories.deep_view())),
    {
        let mut cards: Vec<NewsCard> = Vec::new();
        let mut i: usize = 0;
        while i < self.stories.len()
            invariant
                i <= self.stories.len(),
                self.start + self.stories.len() <= usize::MAX,
                cards.len() == i,
                forall|j: int|
                    0 <= j < i ==> (#[trigger] cards[j])@ == spec_news_card(
                        (self.start + j + 1) as nat,
                        self.stories[j]@,
                    ),
            decreases self.stories.len() - i,
        {
            cards.push(news_card(self.start + i + 1, &self.stories[i]));
            i += 1;
        }
        cards
    }

    /// Handles a click in the top bar. Theme switches the theme; Close and
    /// Refresh change nothing here and tell the shell what to do.
    pub fn render_top_panel(&mut self, clicked: Option<TopButton>) -> (action: TopAction)
        ensures
            final(self).start == old(self).start,
            final(self).stories == old(self).stories,
            final(self).wf() == old(self).wf(),
            final(self).config.dark_mode == (old(self).config.dark_mode != (clicked == Some(
                TopButton::Theme,
            ))),
            action == match clicked {
                Some(TopButton::Close) => TopAction::Quit,
                Some(TopButton::Refresh) => TopAction::Refresh,
                _ => TopAction::Stay,
            },
    {
        match clicked {
            Some(TopButton::Close) => TopAction::Quit,
            Some(TopButton::Refresh) => TopAction::Refresh,
            Some(TopButton::Theme) => {
                self.config.dark_mode = !self.config.dark_mode;
                TopAction::Stay
            },
            None => TopAction::Stay,
        }
    }

    /// Handles a click in the bottom bar: moves to the page the button
    /// leads to. Returns whether the page changed; the shell then fetches
    /// the new page and hands the results to `refresh_stories`, or the
    /// failure of its listing to `refresh_failed`.
    pub fn render_btm_panel(&mut self, clicked: Option<PagerButton>) -> (moved: bool)
        ensures
            final(self).start == spec_paged(old(self).start, clicked),
            moved == (final(self).start != old(self).start),
            final(self).stories == old(self).stories,
            final(self).config == old(self).config,
            old(self).wf() ==> final(self).wf(),
    {
        match clicked {
            Some(PagerButton::Home) => {
                if self.start > 0 {
                    self.start = 0;
                    true
                } else {
                    false
                }
            },
            Some(PagerButton::Next) => {
                if self.start < N_MAX - N_STORIES {
                    self.start = self.start + N_STORIES;
                    true
                } else {
                    false
                }
            },
            Some(PagerButton::Prev) => {
                if self.start >= N_STORIES {
                    self.start = self.start - N_STORIES;
                    true
                } else {
                    false
                }
            },
            None => false,
        }
    }
}

} // verus!
