//! A card: one story ID and whatever its fetch has brought so far.

use crate::age::{relative_age, spec_relative_age};
use crate::api::{
    decode_ids, discussion_url, item_url, spec_decode_ids, spec_discussion_url, spec_item_url,
};
use crate::link::{spec_link_source, spec_link_to, Link, LinkView};
use crate::story::{result_view, FetchError, FetchErrorView, Story, StoryView};
use crate::text::{decimal, decimal_string};
use crate::views::views_are;
use vstd::prelude::*;

verus! {

/// What the card of a fetched story shows.
#[derive(Clone, Debug, PartialEq, Eq)]
pub struct Headline {
    /// The story's title.
    pub title: String,
    /// The story's points, as "N points".
    pub points: String,
    /// The link to the story, where its address can be parsed.
    pub link: Option<Link>,
    /// The story's age in words, where it was not created in the future.
    pub age: Option<String>,
    /// The number of comments, as "N comments"; none given counts as zero.
    pub comments: String,
    /// The address of the page on which the story is discussed.
    pub discussion: String,
}

/// A headline as a mathematical value.
pub ghost struct HeadlineView {
    pub title: Seq<char>,
    pub points: Seq<char>,
    pub link: Option<LinkView>,
    pub age: Option<Seq<char>>,
    pub comments: Seq<char>,
    pub discussion: Seq<char>,
}

impl View for Headline {
    type V = HeadlineView;

    open spec fn view(&self) -> HeadlineView {
        HeadlineView {
            title: self.title@,
            points: self.points@,
            link: match self.link {
                Some(link) => Some(link@),
                None => None,
            },
            age: self.age.deep_view(),
            comments: self.comments@,
            discussion: self.discussion@,
        }
    }
}

/// The headline, at the time `now`, of the story fetched as item `id`.
pub open spec fn spec_headline(id: u32, story: StoryView, now: u64) -> HeadlineView {
    HeadlineView {
        title: story.title,
        points: decimal(story.score as nat) + " points"@,
        link: spec_link_to(spec_link_source(story.url, id)),
        age: spec_relative_age(story.time, now),
        comments: decimal(
            match story.descendants {
                Some(n) => n as nat,
                None => 0,
            },
        ) + " comments"@,
        discussion: spec_discussion_url(id),
    }
}

/// The headline, at the time `now`, of the story fetched as item `id`.
pub fn headline(id: u32, story: &Story, now: u64) -> (line: Headline)
    ensures
        line@ == spec_headline(id, story@, now),
{
    let mut points = decimal_string(story.score as u64);
    points.append(" points");
    let count: u32 = match story.descendants {
        Some(n) => n,
        None => 0,
    };
    let mut comments = decimal_string(count as u64);
    comments.append(" comments");
    Headline {
        title: story.title.clone(),
        points,
        link: Link::for_story(&story.url, id),
        age: relative_age(story.time, now),
        comments,
        discussion: discussion_url(id),
    }
}

/// The request for the record of one story.
#[derive(Clone, Debug, PartialEq, Eq)]
pub struct StoryRequest {
    /// The ID of the story.
    pub id: u32,
    /// The address to fetch.
    pub url: String,
}

/// A request for a story as a mathematical value.
pub ghost struct StoryRequestView {
    pub id: u32,
    pub url: Seq<char>,
}

impl View for StoryRequest {
    type V = StoryRequestView;

    open spec fn view(&self) -> StoryRequestView {
        StoryRequestView { id: self.id, url: self.url@ }
    }
}

/// The request for the record of story `id`: it depends on the ID alone.
pub open spec fn spec_story_request(id: u32) -> StoryRequestView {
    StoryRequestView { id, url: spec_item_url(id) }
}

/// What drawing a card puts on the screen, and what it asks of the network.
#[derive(Clone, Debug, PartialEq, Eq)]
pub enum Drawn {
    /// The story is in flight: a loading indicator.
    Loading,
    /// The story has arrived.
    Story(Headline),
    /// The fetch had failed. The card is in flight again, and this request
    /// is to be issued.
    Retry(StoryRequest),
}

/// The result of drawing a card as a mathematical value.
pub ghost enum DrawnView {
    Loading,
    Story(HeadlineView),
    Retry(StoryRequestView),
}

impl View for Drawn {
    type V = DrawnView;

    open spec fn view(&self) -> DrawnView {
        match self {
            Drawn::Loading => DrawnView::Loading,
            Drawn::Story(line) => DrawnView::Story(line@),
            Drawn::Retry(request) => DrawnView::Retry(request@),
        }
    }
}

impl DeepView for Drawn {
    type V = DrawnView;

    open spec fn deep_view(&self) -> DrawnView {
        self@
    }
}

/// A story ID together with the outcome of fetching it. While `outcome` is
/// `None` exactly one request for the story is in flight.
#[derive(Clone, Debug, PartialEq, Eq)]
pub struct Card {
    pub id: u32,
    pub outcome: Option<Result<Story, FetchError>>,
}

/// A card as a mathematical value.
pub ghost struct CardView {
    pub id: u32,
    pub outcome: Option<Result<StoryView, FetchErrorView>>,
}

impl View for Card {
    type V = CardView;

    open spec fn view(&self) -> CardView {
        CardView {
            id: self.id,
            outcome: match self.outcome {
                None => None,
                Some(Ok(story)) => Some(Ok(story@)),
                Some(Err(error)) => Some(Err(error@)),
            },
        }
    }
}

impl DeepView for Card {
    type V = CardView;

    open spec fn deep_view(&self) -> CardView {
        self@
    }
}

impl CardView {
    /// The card for `id` whose story is in flight.
    pub open spec fn pending(id: u32) -> CardView {
        CardView { id, outcome: None }
    }

    /// The request for the card's story.
    pub open spec fn request(self) -> StoryRequestView {
        spec_story_request(self.id)
    }

    /// The card after `result` arrived for it. Only a card in flight takes
    /// a result.
    pub open spec fn resolved(self, result: Result<StoryView, FetchErrorView>) -> CardView {
        if self.outcome.is_none() {
            CardView { id: self.id, outcome: Some(result) }
        } else {
            self
        }
    }

    /// What drawing the card at the time `now` gives.
    pub open spec fn drawn(self, now: u64) -> DrawnView {
        match self.outcome {
            None => DrawnView::Loading,
            Some(Ok(story)) => DrawnView::Story(spec_headline(self.id, story, now)),
            Some(Err(_)) => DrawnView::Retry(self.request()),
        }
    }

    /// The card after it was drawn: a failed card is in flight again.
    pub open spec fn after_draw(self) -> CardView {
        match self.outcome {
            Some(Err(_)) => CardView::pending(self.id),
            _ => self,
        }
    }
}

/// The deck for a list of IDs: one card per ID, in the order of the list,
/// each in flight.
pub open spec fn spec_deck(ids: Seq<u32>) -> Seq<CardView> {
    Seq::new(ids.len(), |i: int| CardView::pending(ids[i]))
}

/// The deck for the body of a listing.
pub open spec fn spec_cards_from_response(body: Option<Seq<char>>) -> Result<
    Seq<CardView>,
    FetchErrorView,
> {
    match spec_decode_ids(body) {
        Ok(ids) => Ok(spec_deck(ids)),
        Err(error) => Err(error),
    }
}

/// A list of IDs gives exactly one card per ID, in the order of the list,
/// and every card is in flight for the record of its own ID. The empty list
/// gives the empty deck.
pub proof fn lemma_deck_one_card_per_id(ids: Seq<u32>)
    ensures
        spec_deck(ids).len() == ids.len(),
        forall|i: int|
            0 <= i < ids.len() ==> {
                &&& (#[trigger] spec_deck(ids)[i]).id == ids[i]
                &&& spec_deck(ids)[i].outcome.is_none()
                &&& spec_deck(ids)[i].request() == spec_story_request(ids[i])
            },
        ids.len() == 0 ==> spec_deck(ids) == Seq::<CardView>::empty(),
{
}

/// A card whose fetch failed goes back in flight when it is drawn, and the
/// request it asks for is the one it was created with: the record of the
/// same ID. While it is in flight, drawing it asks for nothing more.
pub proof fn lemma_failed_card_refetches(
    id: u32,
    error: FetchErrorView,
    now: u64,
    later: u64,
)
    ensures
        ({
            let failed = CardView::pending(id).resolved(Err(error));
            &&& failed.after_draw() == CardView::pending(id)
            &&& failed.drawn(now) == DrawnView::Retry(CardView::pending(id).request())
            &&& failed.after_draw().drawn(later) == DrawnView::Loading
            &&& failed.after_draw().after_draw() == failed.after_draw()
        }),
{
}

/// A card takes the result of its own request and no other: once it holds
/// an outcome, a further result changes nothing; and neither a result nor
/// drawing ever changes a card's ID.
pub proof fn lemma_card_keeps_identity(
    card: CardView,
    result: Result<StoryView, FetchErrorView>,
)
    ensures
        card.outcome.is_some() ==> card.resolved(result) == card,
        card.resolved(result).id == card.id,
        card.after_draw().id == card.id,
{
}

impl Card {
    /// A card for `id` whose story is in flight. The caller issues the
    /// request for `request()`.
    pub fn new(id: u32) -> (card: Card)
        ensures
            card@ == CardView::pending(id),
    {
        Card { id, outcome: None }
    }

    /// The request for the card's story. It depends on the ID alone.
    pub fn request(&self) -> (request: StoryRequest)
        ensures
            request@ == self@.request(),
    {
        StoryRequest { id: self.id, url: item_url(self.id) }
    }

    /// Whether the card's story is in flight.
    pub fn is_pending(&self) -> (pending: bool)
        ensures
            pending == self@.outcome.is_none(),
    {
        self.outcome.is_none()
    }

    /// The card's story, where it has arrived.
    pub fn story(&self) -> (story: Option<&Story>)
        ensures
            match story {
                Some(s) => self@.outcome == Some(Ok::<StoryView, FetchErrorView>(s@)),
                None => !(self@.outcome matches Some(Ok(_))),
            },
    {
        match &self.outcome {
            Some(Ok(story)) => Some(story),
            _ => None,
        }
    }

    /// Hands the card what its request brought. A card that is not in
    /// flight has no request of its own outstanding, so it keeps what it
    /// holds and the result is dropped. Returns whether the result was
    /// taken.
    pub fn resolve(&mut self, result: Result<Story, FetchError>) -> (taken: bool)
        ensures
            taken == old(self)@.outcome.is_none(),
            final(self)@ == old(self)@.resolved(result_view(result)),
    {
        if self.outcome.is_none() {
            self.outcome = Some(result);
            true
        } else {
            false
        }
    }

    /// Draws the card at the time `now`. A card in flight shows a loading
    /// indicator and a fetched one its headline; neither changes. A failed
    /// card goes back in flight and asks for its request to be issued
    /// again, for the same story as before.
    pub fn draw(&mut self, now: u64) -> (drawn: Drawn)
        ensures
            drawn@ == old(self)@.drawn(now),
            final(self)@ == old(self)@.after_draw(),
    {
        match &self.outcome {
            None => Drawn::Loading,
            Some(Ok(story)) => Drawn::Story(headline(self.id, story, now)),
            Some(Err(_)) => {
                self.outcome = None;
                Drawn::Retry(self.request())
            },
        }
    }

    /// One card per ID, in the order of the list, each in flight.
    pub fn deck(ids: &Vec<u32>) -> (cards: Vec<Card>)
        ensures
            views_are(cards@, spec_deck(ids@)),
    {
        let mut cards: Vec<Card> = Vec::new();
        let mut i: usize = 0;
        while i < ids.len()
            invariant
                i <= ids.len(),
                cards.len() == i,
                forall|j: int| 0 <= j < i ==> (#[trigger] cards[j])@ == CardView::pending(ids[j]),
            decreases ids.len() - i,
        {
            cards.push(Card::new(ids[i]));
            i += 1;
        }
        cards
    }

    /// The deck for the body of a listing; `body` is the response body
    /// where it was text. A body that does not hold a list of IDs is a
    /// decode failure.
    pub fn cards_from_response(body: Option<&str>) -> (deck: Result<Vec<Card>, FetchError>)
        ensures
            match deck {
                Ok(cards) => spec_cards_from_response(body.deep_view()) matches Ok(views)
                    && views_are(cards@, views),
                Err(error) => spec_cards_from_response(body.deep_view()) == Err::<
                    Seq<CardView>,
                    FetchErrorView,
                >(error@),
            },
    {
        match decode_ids(body) {
            Ok(ids) => Ok(Card::deck(&ids)),
            Err(error) => Err(error),
        }
    }
}

} // verus!
