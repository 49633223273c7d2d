use hackernews_rs::api::{decode_ids, item_url};
use hackernews_rs::hackernews::{
    fetched_stories, news_card, page_ids, NewsCard, PagerButton, TopAction, TopButton, N_MAX,
    N_STORIES,
};
use hackernews_rs::{AppConfig, FetchError, Hackernews, Story};

fn page_story(id: u32, title: &str) -> Story {
    Story {
        id,
        by: "dhouston".to_string(),
        descendants: Some(71),
        kids: None,
        score: 104,
        time: 1_175_714_200,
        title: title.to_string(),
        text: None,
        item_type: "story".to_string(),
        url: Some("http://www.getdropbox.com/u/2/screencast.html".to_string()),
    }
}

#[test]
fn new_reader_is_on_the_first_page() {
    let reader = Hackernews::new();
    assert_eq!(reader.start, 0);
    assert!(reader.stories.is_empty());
    assert!(!reader.config.dark_mode);
}

#[test]
fn default_config_is_light() {
    assert_eq!(AppConfig::default(), AppConfig { dark_mode: false });
}

#[test]
fn page_size_and_reach() {
    assert_eq!(N_STORIES, 32);
    assert_eq!(N_MAX, 500);
}

#[test]
fn page_ids_is_the_window() {
    let ids: Vec<u32> = (0..500).map(|i| 10_000 + i).collect();
    assert_eq!(page_ids(&ids, 0), ids[0..32].to_vec());
    assert_eq!(page_ids(&ids, 32), ids[32..64].to_vec());
    assert_eq!(page_ids(&ids, 5), ids[5..37].to_vec());
    assert_eq!(page_ids(&ids, 468), ids[468..500].to_vec());
}

#[test]
fn page_ids_ends_with_the_listing() {
    let ids: Vec<u32> = (0..500).collect();
    assert_eq!(page_ids(&ids, 469), ids[469..500].to_vec());
    assert_eq!(page_ids(&ids, 480), (480..500).collect::<Vec<u32>>());
    assert_eq!(page_ids(&ids, 480).len(), 20);
    assert_eq!(page_ids(&ids, 499), vec![499u32]);
}

#[test]
fn page_ids_beyond_the_listing_is_empty() {
    let ids: Vec<u32> = (0..500).collect();
    assert_eq!(page_ids(&ids, 500), Vec::<u32>::new());
    assert_eq!(page_ids(&ids, 501), Vec::<u32>::new());
    assert_eq!(page_ids(&ids, usize::MAX), Vec::<u32>::new());
    assert_eq!(page_ids(&ids, usize::MAX - 31), Vec::<u32>::new());
}

#[test]
fn page_ids_of_a_short_listing_is_the_listing() {
    assert_eq!(page_ids(&vec![], 0), Vec::<u32>::new());
    assert_eq!(page_ids(&vec![1, 2, 3], 0), vec![1u32, 2, 3]);
    assert_eq!(page_ids(&vec![1, 2, 3], 1), vec![2u32, 3]);
    assert_eq!(page_ids(&(0..31).collect(), 0), (0..31).collect::<Vec<u32>>());
    assert_eq!(page_ids(&(0..32).collect(), 0), (0..32).collect::<Vec<u32>>());
    assert_eq!(page_ids(&(0..33).collect(), 0), (0..32).collect::<Vec<u32>>());
    assert_eq!(page_ids(&(0..33).collect(), 1), (1..33).collect::<Vec<u32>>());
}

#[test]
fn every_page_that_paging_reaches_is_a_window_of_a_full_listing() {
    let ids: Vec<u32> = (0..500).collect();
    let mut reader = Hackernews::new();
    let mut seen: Vec<u32> = page_ids(&ids, reader.start);
    while reader.render_btm_panel(Some(PagerButton::Next)) {
        seen.extend(page_ids(&ids, reader.start));
    }
    assert_eq!(reader.start, 480);
    assert_eq!(seen, ids);
}

#[test]
fn paged_fetch_of_an_empty_listing() {
    let ids = decode_ids(Some("[]")).unwrap();
    let page = page_ids(&ids, 0);
    assert_eq!(page, Vec::<u32>::new());
    let mut reader = Hackernews::new();
    reader.refresh_stories(vec![]);
    assert_eq!(reader.stories, vec![]);
    assert_eq!(reader.render_news_cards(), vec![]);
}

#[test]
fn paged_fetch_of_three_stories() {
    let ids = decode_ids(Some("[1,2,3]")).unwrap();
    let page = page_ids(&ids, 0);
    assert_eq!(page, vec![1u32, 2, 3]);
    let urls: Vec<String> = page.iter().map(|id| item_url(*id)).collect();
    assert_eq!(
        urls,
        vec![
            "https://hacker-news.firebaseio.com/v0/item/1.json".to_string(),
            "https://hacker-news.firebaseio.com/v0/item/2.json".to_string(),
            "https://hacker-news.firebaseio.com/v0/item/3.json".to_string(),
        ]
    );
    let mut reader = Hackernews::new();
    reader.refresh_stories(vec![
        Ok(page_story(1, "T1")),
        Ok(page_story(2, "T2")),
        Ok(page_story(3, "T3")),
    ]);
    let shown: Vec<(u32, &str)> =
        reader.stories.iter().map(|story| (story.id, story.title.as_str())).collect();
    assert_eq!(shown, vec![(1, "T1"), (2, "T2"), (3, "T3")]);
    let cards = reader.render_news_cards();
    assert_eq!(cards.len(), 3);
    assert_eq!(cards[0].title, "1. \u{25b6} T1");
    assert_eq!(cards[2].title, "3. \u{25b6} T3");
}

#[test]
fn failed_listing_is_reported_and_changes_nothing() {
    let mut reader = Hackernews::new();
    reader.render_btm_panel(Some(PagerButton::Next));
    reader.config.dark_mode = true;
    reader.refresh_stories(vec![Ok(page_story(1, "one"))]);
    let before = reader.clone();
    let line = reader.refresh_failed(FetchError::Transport("connection refused".to_string()));
    assert_eq!(line, "connection refused");
    assert_eq!(reader, before);
}

#[test]
fn failed_listing_without_a_message_is_reported_as_error() {
    let mut reader = Hackernews::new();
    assert_eq!(reader.refresh_failed(FetchError::Transport(String::new())), "Error");
    assert_eq!(reader.refresh_failed(FetchError::Decode), "Error");
    assert_eq!(reader, Hackernews::new());
}

#[test]
fn listing_that_does_not_decode_is_a_failure_to_report() {
    let error = decode_ids(Some("<html>")).unwrap_err();
    let mut reader = Hackernews::new();
    assert_eq!(reader.refresh_failed(error), "Error");
    assert_eq!(reader.start, 0);
    assert!(reader.stories.is_empty());
}

#[test]
fn fetched_stories_keeps_the_successes_in_order() {
    let results = vec![
        Ok(page_story(1, "one")),
        Err(FetchError::Decode),
        Ok(page_story(3, "three")),
        Err(FetchError::Transport("timeout".to_string())),
        Ok(page_story(5, "five")),
    ];
    let stories = fetched_stories(results);
    assert_eq!(stories, vec![page_story(1, "one"), page_story(3, "three"), page_story(5, "five")]);
}

#[test]
fn fetched_stories_of_nothing_or_of_failures_is_empty() {
    assert_eq!(fetched_stories(vec![]), vec![]);
    assert_eq!(fetched_stories(vec![Err(FetchError::Decode), Err(FetchError::Decode)]), vec![]);
}

#[test]
fn refresh_replaces_the_stories() {
    let mut reader = Hackernews::new();
    reader.start = 64;
    reader.config.dark_mode = true;
    reader.refresh_stories(vec![Ok(page_story(1, "one")), Ok(page_story(2, "two"))]);
    assert_eq!(reader.stories, vec![page_story(1, "one"), page_story(2, "two")]);
    reader.refresh_stories(vec![Err(FetchError::Decode), Ok(page_story(9, "nine"))]);
    assert_eq!(reader.stories, vec![page_story(9, "nine")]);
    assert_eq!(reader.start, 64);
    assert!(reader.config.dark_mode);
}

#[test]
fn next_moves_one_page_on() {
    let mut reader = Hackernews::new();
    assert!(reader.render_btm_panel(Some(PagerButton::Next)));
    assert_eq!(reader.start, 32);
    assert!(reader.render_btm_panel(Some(PagerButton::Next)));
    assert_eq!(reader.start, 64);
}

#[test]
fn next_stops_before_the_reach() {
    let mut reader = Hackernews::new();
    let mut moves = 0;
    while reader.render_btm_panel(Some(PagerButton::Next)) {
        moves += 1;
        assert_eq!(reader.start, 32 * moves);
        assert!(reader.start < N_MAX);
    }
    assert_eq!(moves, 15);
    assert_eq!(reader.start, 480);
    assert!(!reader.render_btm_panel(Some(PagerButton::Next)));
    assert_eq!(reader.start, 480);
}

#[test]
fn next_at_the_edge() {
    let mut reader = Hackernews::new();
    reader.start = 467;
    assert!(reader.render_btm_panel(Some(PagerButton::Next)));
    assert_eq!(reader.start, 499);
    reader.start = 468;
    assert!(!reader.render_btm_panel(Some(PagerButton::Next)));
    assert_eq!(reader.start, 468);
    reader.start = usize::MAX;
    assert!(!reader.render_btm_panel(Some(PagerButton::Next)));
    assert_eq!(reader.start, usize::MAX);
}

#[test]
fn prev_moves_one_page_back() {
    let mut reader = Hackernews::new();
    reader.start = 64;
    assert!(reader.render_btm_panel(Some(PagerButton::Prev)));
    assert_eq!(reader.start, 32);
    assert!(reader.render_btm_panel(Some(PagerButton::Prev)));
    assert_eq!(reader.start, 0);
    assert!(!reader.render_btm_panel(Some(PagerButton::Prev)));
    assert_eq!(reader.start, 0);
    reader.start = 31;
    assert!(!reader.render_btm_panel(Some(PagerButton::Prev)));
    assert_eq!(reader.start, 31);
}

#[test]
fn home_leads_to_the_first_page() {
    let mut reader = Hackernews::new();
    assert!(!reader.render_btm_panel(Some(PagerButton::Home)));
    reader.start = 96;
    assert!(reader.render_btm_panel(Some(PagerButton::Home)));
    assert_eq!(reader.start, 0);
}

#[test]
fn no_click_moves_nowhere() {
    let mut reader = Hackernews::new();
    reader.start = 96;
    assert!(!reader.render_btm_panel(None));
    assert_eq!(reader.start, 96);
}

#[test]
fn paging_keeps_stories_and_config() {
    let mut reader = Hackernews::new();
    reader.config.dark_mode = true;
    reader.refresh_stories(vec![Ok(page_story(1, "one"))]);
    reader.render_btm_panel(Some(PagerButton::Next));
    assert_eq!(reader.stories, vec![page_story(1, "one")]);
    assert!(reader.config.dark_mode);
}

#[test]
fn theme_button_toggles_dark_mode() {
    let mut reader = Hackernews::new();
    assert_eq!(reader.render_top_panel(Some(TopButton::Theme)), TopAction::Stay);
    assert!(reader.config.dark_mode);
    assert_eq!(reader.render_top_panel(Some(TopButton::Theme)), TopAction::Stay);
    assert!(!reader.config.dark_mode);
}

#[test]
fn close_and_refresh_buttons_tell_the_shell() {
    let mut reader = Hackernews::new();
    reader.start = 32;
    assert_eq!(reader.render_top_panel(Some(TopButton::Close)), TopAction::Quit);
    assert_eq!(reader.render_top_panel(Some(TopButton::Refresh)), TopAction::Refresh);
    assert_eq!(reader.render_top_panel(None), TopAction::Stay);
    assert_eq!(reader.start, 32);
    assert!(!reader.config.dark_mode);
}

#[test]
fn news_card_of_a_story() {
    let card = news_card(33, &page_story(8863, "My YC app: Dropbox"));
    assert_eq!(
        card,
        NewsCard {
            title: "33. \u{25b6} My YC app: Dropbox".to_string(),
            byline: "104 points by dhouston".to_string(),
            url: "http://www.getdropbox.com/u/2/screencast.html".to_string(),
            comments: "71 Comments".to_string(),
            discussion: "https://news.ycombinator.com/item?id=8863".to_string(),
        }
    );
}

#[test]
fn news_card_of_a_story_without_address_and_comment_count() {
    let mut story = page_story(121003, "Ask HN: The Arc Effect");
    story.url = None;
    story.descendants = None;
    let card = news_card(1, &story);
    assert_eq!(card.title, "1. \u{25b6} Ask HN: The Arc Effect");
    assert_eq!(card.url, "https://news.ycombinator.com/item?id=121003");
    assert_eq!(card.comments, "0 Comments");
    assert_eq!(card.discussion, "https://news.ycombinator.com/item?id=121003");
}

#[test]
fn news_cards_are_numbered_from_the_start_of_the_page() {
    let mut reader = Hackernews::new();
    reader.render_btm_panel(Some(PagerButton::Next));
    reader.refresh_stories(vec![
        Ok(page_story(1, "one")),
        Err(FetchError::Decode),
        Ok(page_story(3, "three")),
    ]);
    let cards = reader.render_news_cards();
    assert_eq!(cards.len(), 2);
    assert_eq!(cards[0].title, "33. \u{25b6} one");
    assert_eq!(cards[1].title, "34. \u{25b6} three");
    assert_eq!(cards[1].discussion, "https://news.ycombinator.com/item?id=3");
}

#[test]
fn news_cards_of_an_empty_page() {
    assert_eq!(Hackernews::new().render_news_cards(), vec![]);
}
