use hackernews_rs::card::{headline, Drawn, Headline, StoryRequest};
use hackernews_rs::link::Link;
use hackernews_rs::{Card, FetchError, Story};

fn request_for(id: u32) -> StoryRequest {
    StoryRequest { id, url: format!("https://hacker-news.firebaseio.com/v0/item/{}.json", id) }
}

fn sample_story(id: u32, title: &str) -> Story {
    Story {
        id,
        by: "pg".to_string(),
        descendants: Some(71),
        kids: Some(vec![8952, 9224]),
        score: 111,
        time: 1_175_714_200,
        title: title.to_string(),
        text: None,
        item_type: "story".to_string(),
        url: Some("http://www.getdropbox.com/u/2/screencast.html".to_string()),
    }
}

#[test]
fn new_card_is_in_flight() {
    let card = Card::new(8863);
    assert_eq!(card.id, 8863);
    assert_eq!(card.outcome, None);
    assert!(card.is_pending());
    assert!(card.story().is_none());
}

#[test]
fn card_requests_the_record_of_its_id() {
    assert_eq!(
        Card::new(8863).request(),
        StoryRequest {
            id: 8863,
            url: "https://hacker-news.firebaseio.com/v0/item/8863.json".to_string(),
        }
    );
    assert_eq!(Card::new(1).request().url, "https://hacker-news.firebaseio.com/v0/item/1.json");
    assert_eq!(Card::new(1).request().id, 1);
}

#[test]
fn card_takes_the_result_of_its_request() {
    let mut card = Card::new(8863);
    assert!(card.resolve(Ok(sample_story(8863, "My YC app: Dropbox"))));
    assert!(!card.is_pending());
    assert_eq!(card.id, 8863);
    assert_eq!(card.story().unwrap().title, "My YC app: Dropbox");
}

#[test]
fn card_that_is_not_in_flight_drops_a_result() {
    let mut card = Card::new(8863);
    assert!(card.resolve(Ok(sample_story(8863, "first"))));
    assert!(!card.resolve(Ok(sample_story(8863, "second"))));
    assert_eq!(card.story().unwrap().title, "first");
    assert!(!card.resolve(Err(FetchError::Decode)));
    assert_eq!(card.story().unwrap().title, "first");

    let mut failed = Card::new(1);
    assert!(failed.resolve(Err(FetchError::Transport("timeout".to_string()))));
    assert!(!failed.resolve(Ok(sample_story(1, "late"))));
    assert_eq!(failed.outcome, Some(Err(FetchError::Transport("timeout".to_string()))));
}

#[test]
fn drawing_a_card_in_flight_shows_loading() {
    let mut card = Card::new(8863);
    assert_eq!(card.draw(1_700_000_000), Drawn::Loading);
    assert_eq!(card, Card::new(8863));
    assert_eq!(card.draw(1_700_000_001), Drawn::Loading);
}

#[test]
fn drawing_a_fetched_card_shows_its_headline() {
    let mut card = Card::new(8863);
    card.resolve(Ok(sample_story(8863, "My YC app: Dropbox")));
    let before = card.clone();
    let drawn = card.draw(1_175_714_200 + 3 * 3600);
    assert_eq!(
        drawn,
        Drawn::Story(Headline {
            title: "My YC app: Dropbox".to_string(),
            points: "111 points".to_string(),
            link: Some(Link {
                label: "www.getdropbox.com".to_string(),
                target: "http://www.getdropbox.com/u/2/screencast.html".to_string(),
            }),
            age: Some("3 hrs".to_string()),
            comments: "71 comments".to_string(),
            discussion: "https://news.ycombinator.com/item?id=8863".to_string(),
        })
    );
    assert_eq!(card, before);
}

#[test]
fn failed_card_goes_back_in_flight_with_the_same_request() {
    let mut card = Card::new(8863);
    let first_request = card.request();
    assert!(card.resolve(Err(FetchError::Transport("connection reset".to_string()))));
    assert!(!card.is_pending());
    let drawn = card.draw(1_700_000_000);
    assert_eq!(drawn, Drawn::Retry(first_request.clone()));
    assert_eq!(drawn, Drawn::Retry(request_for(8863)));
    assert!(card.is_pending());
    assert_eq!(card, Card::new(8863));
    // in flight again: nothing more is asked for until a result arrives
    assert_eq!(card.draw(1_700_000_000), Drawn::Loading);
}

#[test]
fn a_card_that_fails_to_decode_is_retried_too() {
    let mut card = Card::new(7);
    card.resolve(Err(FetchError::Decode));
    assert_eq!(card.draw(0), Drawn::Retry(request_for(7)));
    assert!(card.is_pending());
}

#[test]
fn a_card_that_keeps_failing_keeps_retrying() {
    let mut card = Card::new(7);
    for _ in 0..100 {
        assert!(card.resolve(Err(FetchError::Transport(String::new()))));
        assert_eq!(card.draw(0), Drawn::Retry(request_for(7)));
        assert_eq!(card.draw(0), Drawn::Loading);
    }
    assert!(card.resolve(Ok(sample_story(7, "at last"))));
    assert!(matches!(card.draw(2_000_000_000), Drawn::Story(_)));
}

#[test]
fn headline_of_a_story_without_address_and_comment_count() {
    let mut story = sample_story(121003, "Ask HN: The Arc Effect");
    story.url = None;
    story.descendants = None;
    story.score = 25;
    story.time = 1_203_647_620;
    let line = headline(121003, &story, 1_203_647_620 + 172_800);
    assert_eq!(line.title, "Ask HN: The Arc Effect");
    assert_eq!(line.points, "25 points");
    assert_eq!(
        line.link,
        Some(Link {
            label: "news.ycombinator.com".to_string(),
            target: "https://news.ycombinator.com/item?id=121003".to_string(),
        })
    );
    assert_eq!(line.age, Some("2 days".to_string()));
    assert_eq!(line.comments, "0 comments");
    assert_eq!(line.discussion, "https://news.ycombinator.com/item?id=121003");
}

#[test]
fn headline_of_a_story_with_a_broken_address_or_from_the_future() {
    let mut story = sample_story(5, "t");
    story.url = Some("::".to_string());
    let line = headline(5, &story, story.time - 1);
    assert_eq!(line.link, None);
    assert_eq!(line.age, None);
    assert_eq!(line.points, "111 points");
}

#[test]
fn headline_links_under_the_id_of_the_card() {
    let mut story = sample_story(5, "t");
    story.url = None;
    let line = headline(9, &story, story.time);
    assert_eq!(line.discussion, "https://news.ycombinator.com/item?id=9");
    assert_eq!(line.link.unwrap().target, "https://news.ycombinator.com/item?id=9");
    assert_eq!(line.age, Some("just now".to_string()));
}

#[test]
fn deck_of_the_empty_list_is_empty() {
    assert_eq!(Card::deck(&vec![]), vec![]);
    assert_eq!(Card::cards_from_response(Some("[]")), Ok(vec![]));
}

#[test]
fn deck_has_one_card_per_id_in_order() {
    let ids = vec![3, 1, 2, 1, 4294967295];
    let deck = Card::deck(&ids);
    assert_eq!(deck.len(), ids.len());
    for (card, id) in deck.iter().zip(ids.iter()) {
        assert_eq!(card.id, *id);
        assert!(card.is_pending());
    }
}

#[test]
fn cards_from_response_reads_the_listing() {
    let deck = Card::cards_from_response(Some("[1,2,3]")).unwrap();
    assert_eq!(deck, vec![Card::new(1), Card::new(2), Card::new(3)]);
}

#[test]
fn cards_from_response_of_a_long_listing() {
    let ids: Vec<u32> = (1000..1500).collect();
    let body = format!("{:?}", ids);
    let deck = Card::cards_from_response(Some(&body)).unwrap();
    assert_eq!(deck.len(), 500);
    for (i, card) in deck.iter().enumerate() {
        assert_eq!(card.id, 1000 + i as u32);
        assert!(card.is_pending());
    }
}

#[test]
fn cards_from_response_reports_a_decode_failure() {
    assert_eq!(Card::cards_from_response(Some("{\"error\":\"denied\"}")), Err(FetchError::Decode));
    assert_eq!(Card::cards_from_response(Some("[1,")), Err(FetchError::Decode));
    assert_eq!(Card::cards_from_response(None), Err(FetchError::Decode));
}
