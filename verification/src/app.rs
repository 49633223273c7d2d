//! The reader: a category, the deck fetched for it, and every decision the
//! reader takes between two frames.
//!
//! Requests leave the reader tagged with a generation. Every refresh starts
//! a new generation, and what comes back for an older one is dropped: a
//! listing or a story that was asked for before the last refresh never
//! reaches the deck that replaced its own.

use crate::api::{json_id_list, lemma_listing_endpoints, list_url, spec_list_url, Category};
use crate::card::{
    spec_cards_from_response, spec_deck, spec_story_request, Card, CardView, Drawn, DrawnView,
    StoryRequest, StoryRequestView,
};
use crate::story::{
    error_label, result_view, spec_error_label, FetchError, FetchErrorView, Story, StoryView,
};
use crate::text::ascii_lowercase;
use crate::views::views_are;
use vstd::prelude::*;

verus! {

/// The listing the reader holds.
#[derive(Clone, Debug, PartialEq, Eq)]
pub enum Stories {
    /// Nothing was asked for yet.
    Idle,
    /// The listing is in flight.
    Loading,
    /// The listing arrived: one card per story, in the listing's order.
    Ready(Vec<Card>),
    /// The listing could not be fetched.
    Failed(FetchError),
}

/// A listing as a mathematical value.
pub ghost enum StoriesView {
    Idle,
    Loading,
    Ready(Seq<CardView>),
    Failed(FetchErrorView),
}

impl View for Stories {
    type V = StoriesView;

    open spec fn view(&self) -> StoriesView {
        match self {
            Stories::Idle => StoriesView::Idle,
            Stories::Loading => StoriesView::Loading,
            Stories::Ready(deck) => StoriesView::Ready(deck.deep_view()),
            Stories::Failed(error) => StoriesView::Failed(error@),
        }
    }
}

/// The request for a listing.
#[derive(Clone, Debug, PartialEq, Eq)]
pub struct ListRequest {
    /// The generation the request belongs to; the reply is handed back
    /// with it.
    pub generation: u64,
    /// The address to fetch.
    pub url: String,
}

/// A request for a listing as a mathematical value.
pub ghost struct ListRequestView {
    pub generation: u64,
    pub url: Seq<char>,
}

impl View for ListRequest {
    type V = ListRequestView;

    open spec fn view(&self) -> ListRequestView {
        ListRequestView { generation: self.generation, url: self.url@ }
    }
}

impl DeepView for ListRequest {
    type V = ListRequestView;

    open spec fn deep_view(&self) -> ListRequestView {
        self@
    }
}

/// What the user did in a frame.
#[derive(Clone, Copy, PartialEq, Eq, Structural, Debug)]
pub enum Event {
    /// Pressed the refresh button.
    Refresh,
    /// Picked a category from the list of categories.
    Pick(Category),
}

/// What the body of the window shows.
#[derive(Clone, Debug, PartialEq, Eq)]
pub enum Body {
    /// Nothing was asked for yet: a hint to refresh.
    Idle,
    /// The listing is in flight: a loading indicator.
    Loading,
    /// The cards of the deck, in the deck's order.
    Deck(Vec<Drawn>),
    /// The listing could not be fetched: a hint to refresh, and this line.
    Failed(String),
}

/// The body of the window as a mathematical value.
pub ghost enum BodyView {
    Idle,
    Loading,
    Deck(Seq<DrawnView>),
    Failed(Seq<char>),
}

impl View for Body {
    type V = BodyView;

    open spec fn view(&self) -> BodyView {
        match self {
            Body::Idle => BodyView::Idle,
            Body::Loading => BodyView::Loading,
            Body::Deck(cards) => BodyView::Deck(cards.deep_view()),
            Body::Failed(line) => BodyView::Failed(line@),
        }
    }
}

/// The reader's state.
#[derive(Clone, Debug, PartialEq, Eq)]
pub struct MainApp {
    /// The category on display.
    pub category: Category,
    /// The generation of the last refresh.
    pub generation: u64,
    /// The listing of that generation.
    pub stories: Stories,
}

/// The reader's state as a mathematical value.
pub ghost struct MainAppView {
    pub category: Category,
    pub generation: u64,
    pub stories: StoriesView,
}

impl View for MainApp {
    type V = MainAppView;

    open spec fn view(&self) -> MainAppView {
        MainAppView {
            category: self.category,
            generation: self.generation,
            stories: self.stories@,
        }
    }
}

/// The generation after `generation`; the count starts over after the
/// largest number.
pub open spec fn next_generation(generation: u64) -> u64 {
    if generation == u64::MAX {
        0
    } else {
        (generation + 1) as u64
    }
}

/// What a transport hands over for one request: the response body where it
/// was text, or the transport's message where the request failed.
pub open spec fn reply_view(reply: Result<Option<String>, String>) -> Result<
    Option<Seq<char>>,
    Seq<char>,
> {
    match reply {
        Ok(body) => Ok(body.deep_view()),
        Err(message) => Err(message@),
    }
}

/// The deck that a reply to a listing request gives.
pub open spec fn spec_list_outcome(reply: Result<Option<Seq<char>>, Seq<char>>) -> Result<
    Seq<CardView>,
    FetchErrorView,
> {
    match reply {
        Ok(body) => spec_cards_from_response(body),
        Err(message) => Err(FetchErrorView::Transport(message)),
    }
}

/// The requests for the stories of a deck, card by card.
pub open spec fn deck_requests(deck: Seq<CardView>) -> Seq<StoryRequestView> {
    Seq::new(deck.len(), |i: int| deck[i].request())
}

/// The IDs of a deck, card by card.
pub open spec fn deck_ids(deck: Seq<CardView>) -> Seq<u32> {
    Seq::new(deck.len(), |i: int| deck[i].id)
}

impl StoriesView {
    /// The IDs of the listing's cards; a listing without a deck has none.
    pub open spec fn ids(self) -> Seq<u32> {
        match self {
            StoriesView::Ready(deck) => deck_ids(deck),
            _ => Seq::empty(),
        }
    }
}

impl MainAppView {
    /// The reader at start: the top stories, and nothing asked for yet.
    pub open spec fn initial() -> MainAppView {
        MainAppView { category: Category::Top, generation: 0, stories: StoriesView::Idle }
    }

    /// The window's title.
    pub open spec fn title(self) -> Seq<char> {
        "HN::"@ + self.category.spec_caption()
    }

    /// The reader after a refresh: a new generation, its listing in flight.
    pub open spec fn refreshed(self) -> MainAppView {
        MainAppView {
            category: self.category,
            generation: next_generation(self.generation),
            stories: StoriesView::Loading,
        }
    }

    /// The request for the listing of the current generation.
    pub open spec fn list_request(self) -> ListRequestView {
        ListRequestView { generation: self.generation, url: spec_list_url(self.category) }
    }

    /// Whether a frame with `event` starts with a refresh: the button was
    /// pressed, or nothing was ever asked for.
    pub open spec fn refreshes_first(self, event: Option<Event>) -> bool {
        event == Some(Event::Refresh) || self.stories is Idle
    }

    /// The category that a frame with `event` changes to, if it changes.
    pub open spec fn picked(self, event: Option<Event>) -> Option<Category> {
        match event {
            Some(Event::Pick(category)) => if category != self.category {
                Some(category)
            } else {
                None
            },
            _ => None,
        }
    }

    /// The reader after the first half of a frame with `event`.
    pub open spec fn before_pick(self, event: Option<Event>) -> MainAppView {
        if self.refreshes_first(event) {
            self.refreshed()
        } else {
            self
        }
    }

    /// The reader with `category` on display.
    pub open spec fn showing(self, category: Category) -> MainAppView {
        MainAppView { category, generation: self.generation, stories: self.stories }
    }

    /// The reader after a frame with `event`.
    pub open spec fn updated(self, event: Option<Event>) -> MainAppView {
        match self.picked(event) {
            Some(category) => self.before_pick(event).showing(category).refreshed(),
            None => self.before_pick(event),
        }
    }

    /// The listing requests that a frame with `event` issues, in order.
    pub open spec fn update_requests(self, event: Option<Event>) -> Seq<ListRequestView> {
        let first = if self.refreshes_first(event) {
            seq![self.refreshed().list_request()]
        } else {
            Seq::empty()
        };
        match self.picked(event) {
            Some(_) => first.push(self.updated(event).list_request()),
            None => first,
        }
    }

    /// Whether the reader waits for the listing of `generation`.
    pub open spec fn awaits_listing(self, generation: u64) -> bool {
        generation == self.generation && self.stories is Loading
    }

    /// The reader after `reply` arrived for the listing request of
    /// `generation`.
    pub open spec fn listed(
        self,
        generation: u64,
        reply: Result<Option<Seq<char>>, Seq<char>>,
    ) -> MainAppView {
        if self.awaits_listing(generation) {
            MainAppView {
                category: self.category,
                generation: self.generation,
                stories: match spec_list_outcome(reply) {
                    Ok(deck) => StoriesView::Ready(deck),
                    Err(error) => StoriesView::Failed(error),
                },
            }
        } else {
            self
        }
    }

    /// The story requests that the arrival of `reply` for the listing
    /// request of `generation` sets off: one per card of the new deck, in
    /// the deck's order.
    pub open spec fn listed_requests(
        self,
        generation: u64,
        reply: Result<Option<Seq<char>>, Seq<char>>,
    ) -> Seq<StoryRequestView> {
        match self.listed(generation, reply).stories {
            StoriesView::Ready(deck) if self.awaits_listing(generation) => deck_requests(deck),
            _ => Seq::empty(),
        }
    }

    /// Whether the reader waits for the story in `slot` of the deck of
    /// `generation`.
    pub open spec fn awaits_story(self, generation: u64, slot: usize) -> bool {
        &&& generation == self.generation
        &&& self.stories matches StoriesView::Ready(deck)
        &&& slot < deck.len()
        &&& deck[slot as int].outcome.is_none()
    }

    /// The reader after `result` arrived for the story in `slot` of the
    /// deck of `generation`.
    pub open spec fn storied(
        self,
        generation: u64,
        slot: usize,
        result: Result<StoryView, FetchErrorView>,
    ) -> MainAppView {
        if self.awaits_story(generation, slot) {
            MainAppView {
                category: self.category,
                generation: self.generation,
                stories: StoriesView::Ready(
                    self.stories->Ready_0.update(
                        slot as int,
                        self.stories->Ready_0[slot as int].resolved(result),
                    ),
                ),
            }
        } else {
            self
        }
    }

    /// What the body of the window shows at the time `now`.
    pub open spec fn body(self, now: u64) -> BodyView {
        match self.stories {
            StoriesView::Idle => BodyView::Idle,
            StoriesView::Loading => BodyView::Loading,
            StoriesView::Ready(deck) => BodyView::Deck(
                Seq::new(deck.len(), |i: int| deck[i].drawn(now)),
            ),
            StoriesView::Failed(error) => BodyView::Failed(spec_error_label(error.message())),
        }
    }

    /// The reader after its body was drawn: every failed card is in flight
    /// again.
    pub open spec fn after_body(self) -> MainAppView {
        match self.stories {
            StoriesView::Ready(deck) => MainAppView {
                category: self.category,
                generation: self.generation,
                stories: StoriesView::Ready(Seq::new(deck.len(), |i: int| deck[i].after_draw())),
            },
            _ => self,
        }
    }
}

/// Every refresh asks for the listing of the category on display, at the
/// category's name in lower case followed by "stories.json", and tags the
/// request with the generation it starts.
pub proof fn lemma_refresh_asks_for_category(app: MainAppView)
    ensures
        app.refreshed().list_request().url == "https://hacker-news.firebaseio.com/v0/"@
            + ascii_lowercase(app.category.spec_name()) + "stories.json"@,
        app.refreshed().list_request().generation == app.refreshed().generation,
        app.refreshed().category == app.category,
{
    lemma_listing_endpoints(app.category);
}

/// A frame issues at most two listing requests, and none unless it
/// refreshes. Where it issues any, the last is the request for the
/// listing the reader waits for afterwards.
pub proof fn lemma_update_requests(app: MainAppView, event: Option<Event>)
    ensures
        app.update_requests(event).len() <= 2,
        app.update_requests(event).len() == 0 ==> app.updated(event) == app,
        app.update_requests(event).len() > 0 ==> {
            &&& app.updated(event).stories is Loading
            &&& app.update_requests(event).last() == app.updated(event).list_request()
        },
{
}

/// A listing of K IDs gives a deck of exactly K cards, one per ID and in
/// the listing's order, and sets off exactly K story requests, the i-th for
/// the record of the i-th ID. An empty listing gives an empty deck and no
/// request.
pub proof fn lemma_listing_gives_one_card_per_id(
    app: MainAppView,
    generation: u64,
    text: Seq<char>,
    ids: Seq<u32>,
)
    ensures
        app.awaits_listing(generation) && json_id_list(text) == Some(ids) ==> {
            let reply = Ok::<Option<Seq<char>>, Seq<char>>(Some(text));
            &&& app.listed(generation, reply).stories == StoriesView::Ready(spec_deck(ids))
            &&& app.listed(generation, reply).stories.ids() == ids
            &&& app.listed_requests(generation, reply).len() == ids.len()
            &&& forall|i: int|
                0 <= i < ids.len() ==> #[trigger] app.listed_requests(generation, reply)[i]
                    == spec_story_request(ids[i])
        },
{
    if app.awaits_listing(generation) && json_id_list(text) == Some(ids) {
        assert(deck_ids(spec_deck(ids)) == ids);
    }
}

/// What comes back for a request of an earlier generation is dropped: after
/// a refresh, neither the listing nor any story that was asked for before
/// it changes the reader.
pub proof fn lemma_superseded_replies_are_dropped(
    app: MainAppView,
    reply: Result<Option<Seq<char>>, Seq<char>>,
    slot: usize,
    result: Result<StoryView, FetchErrorView>,
)
    ensures
        app.refreshed().generation != app.generation,
        app.refreshed().listed(app.generation, reply) == app.refreshed(),
        app.refreshed().listed_requests(app.generation, reply).len() == 0,
        app.refreshed().storied(app.generation, slot, result) == app.refreshed(),
{
}

/// Each request is answered once: after the reply to a listing request was
/// handed over, a second reply under the same generation changes nothing,
/// and the same holds of the result for a slot of the deck.
pub proof fn lemma_replies_are_taken_once(
    app: MainAppView,
    generation: u64,
    first: Result<Option<Seq<char>>, Seq<char>>,
    second: Result<Option<Seq<char>>, Seq<char>>,
    slot: usize,
    result: Result<StoryView, FetchErrorView>,
    late: Result<StoryView, FetchErrorView>,
)
    ensures
        app.listed(generation, first).listed(generation, second) == app.listed(
            generation,
            first,
        ),
        app.listed(generation, first).listed_requests(generation, second).len() == 0,
        app.storied(generation, slot, result).storied(generation, slot, late) == app.storied(
            generation,
            slot,
            result,
        ),
{
}

/// The order of a deck is fixed when its listing arrives: neither the
/// arrival of a story nor drawing the body changes the IDs of the cards or
/// their order.
pub proof fn lemma_deck_order_is_fixed(
    app: MainAppView,
    generation: u64,
    slot: usize,
    result: Result<StoryView, FetchErrorView>,
)
    ensures
        app.storied(generation, slot, result).stories.ids() == app.stories.ids(),
        app.after_body().stories.ids() == app.stories.ids(),
{
    assert(app.storied(generation, slot, result).stories.ids() =~= app.stories.ids());
    assert(app.after_body().stories.ids() =~= app.stories.ids());
}

impl Default for MainApp {
    fn default() -> (app: MainApp)
        ensures
            app@ == MainAppView::initial(),
    {
        MainApp { category: Category::Top, generation: 0, stories: Stories::Idle }
    }
}

impl MainApp {
    /// The window's title: "HN::", then the category's caption.
    pub fn title(&self) -> (title: String)
        ensures
            title@ == self@.title(),
    {
        let mut title = "HN::".to_owned();
        let caption = self.category.caption();
        title.append(caption.as_str());
        title
    }

    /// Starts over: a new generation begins, whatever the reader held is
    /// dropped, and the listing of the category on display is in flight.
    /// Returns the one request to issue.
    pub fn refresh_stories(&mut self) -> (request: ListRequest)
        ensures
            final(self)@ == old(self)@.refreshed(),
            request@ == final(self)@.list_request(),
    {
        self.generation = if self.generation == u64::MAX {
            0
        } else {
            self.generation + 1
        };
        self.stories = Stories::Loading;
        ListRequest { generation: self.generation, url: list_url(self.category) }
    }

    /// One frame of the controls. The reader refreshes if the refresh
    /// button was pressed or nothing was ever asked for; after that, if a
    /// category other than the one on display was picked, it changes to
    /// that category and refreshes. Returns the requests to issue, in
    /// order.
    pub fn update(&mut self, event: Option<Event>) -> (requests: Vec<ListRequest>)
        ensures
            final(self)@ == old(self)@.updated(event),
            views_are(requests@, old(self)@.update_requests(event)),
    {
        let mut requests: Vec<ListRequest> = Vec::new();
        let idle = match &self.stories {
            Stories::Idle => true,
            _ => false,
        };
        let pressed = match event {
            Some(Event::Refresh) => true,
            _ => false,
        };
        if pressed || idle {
            let request = self.refresh_stories();
            requests.push(request);
        }
        match event {
            Some(Event::Pick(category)) => {
                if category != self.category {
                    self.category = category;
                    let request = self.refresh_stories();
                    requests.push(request);
                }
            },
            _ => {},
        }
        requests
    }

    /// Takes the reply to the listing request of `generation`. Unless the
    /// reader waits for exactly that listing, the reply is dropped. A reply
    /// that holds a list of IDs becomes the deck, and the requests for its
    /// stories are returned, one per card and in the deck's order; any
    /// other reply leaves the listing failed, with no request.
    pub fn stories_arrived(
        &mut self,
        generation: u64,
        reply: Result<Option<String>, String>,
    ) -> (requests: Vec<StoryRequest>)
        ensures
            final(self)@ == old(self)@.listed(generation, reply_view(reply)),
            views_are(requests@, old(self)@.listed_requests(generation, reply_view(reply))),
    {
        let waiting = match &self.stories {
            Stories::Loading => true,
            _ => false,
        };
        if generation != self.generation || !waiting {
            return Vec::new();
        }
        let ghost expected = spec_list_outcome(reply_view(reply));
        let outcome = match reply {
            Ok(body) => match &body {
                Some(text) => Card::cards_from_response(Some(text.as_str())),
                None => Card::cards_from_response(None),
            },
            Err(message) => Err(FetchError::Transport(message)),
        };
        match outcome {
            Ok(deck) => {
                assert(deck.deep_view() == expected->Ok_0);
                let mut requests: Vec<StoryRequest> = Vec::new();
                let mut i: usize = 0;
                while i < deck.len()
                    invariant
                        i <= deck.len(),
                        requests.len() == i,
                        forall|j: int|
                            0 <= j < i ==> (#[trigger] requests[j])@ == deck[j]@.request(),
                    decreases deck.len() - i,
                {
                    requests.push(deck[i].request());
                    i += 1;
                }
                self.stories = Stories::Ready(deck);
                requests
            },
            Err(error) => {
                self.stories = Stories::Failed(error);
                Vec::new()
            },
        }
    }

    /// Takes what the request for the story in `slot` of the deck of
    /// `generation` brought. The result is dropped unless the reader still
    /// holds that deck and the card in that slot is in flight. Returns
    /// whether the result was taken.
    pub fn story_arrived(
        &mut self,
        generation: u64,
        slot: usize,
        result: Result<Story, FetchError>,
    ) -> (taken: bool)
        ensures
            taken == old(self)@.awaits_story(generation, slot),
            final(self)@ == old(self)@.storied(generation, slot, result_view(result)),
    {
        if generation != self.generation {
            return false;
        }
        match &mut self.stories {
            Stories::Ready(deck) => {
                if slot < deck.len() {
                    let ghost before = deck.deep_view();
                    let taken = deck[slot].resolve(result);
                    assert(deck.deep_view() == before.update(
                        slot as int,
                        before[slot as int].resolved(result_view(result)),
                    ));
                    assert(!taken ==> deck.deep_view() == before);
                    taken
                } else {
                    false
                }
            },
            _ => false,
        }
    }

    /// Draws the body of the window at the time `now`: a hint before
    /// anything was asked for, a loading indicator while the listing is in
    /// flight, the error's line where it failed, and otherwise every card
    /// of the deck in order. Drawing sends each failed card back in flight;
    /// the shell issues the request that such a card's entry names.
    pub fn body_ui(&mut self, now: u64) -> (body: Body)
        ensures
            body@ == old(self)@.body(now),
            final(self)@ == old(self)@.after_body(),
    {
        match &mut self.stories {
            Stories::Idle => Body::Idle,
            Stories::Loading => Body::Loading,
            Stories::Failed(error) => {
                let message = error.message();
                Body::Failed(error_label(message.as_str()))
            },
            Stories::Ready(deck) => {
                let ghost before = deck.deep_view();
                let mut shown: Vec<Drawn> = Vec::new();
                let mut i: usize = 0;
                while i < deck.len()
                    invariant
                        i <= deck.len(),
                        deck.len() == before.len(),
                        shown.len() == i,
                        forall|j: int| 0 <= j < i ==> (#[trigger] shown[j])@ == before[j].drawn(now),
                        forall|j: int|
                            0 <= j < i ==> (#[trigger] deck[j])@ == before[j].after_draw(),
                        forall|j: int| i <= j < deck.len() ==> (#[trigger] deck[j])@ == before[j],
                    decreases deck.len() - i,
                {
                    shown.push(deck[i].draw(now));
                    i += 1;
                }
                assert(shown.deep_view() == Seq::new(before.len(), |i: int| before[i].drawn(now)));
                assert(deck.deep_view() == Seq::new(
                    before.len(),
                    |i: int| before[i].after_draw(),
                ));
                Body::Deck(shown)
            },
        }
    }
}

} // verus!
