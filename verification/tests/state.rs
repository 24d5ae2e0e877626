use headlines::headlines::{
    forward_fetch_result, FetchChannel, FetchRequest, Headlines, HeadlinesConfig, NewsCardData,
    Screen,
};
use headlines::newsapi::{Article, Articles, Country, NewsApiError};

fn card(s: &str) -> NewsCardData {
    NewsCardData {
        title: format!("{s} title"),
        desc: format!("{s} desc"),
        url: format!("https://example.com/{s}"),
    }
}

fn fresh() -> Headlines {
    Headlines::new(HeadlinesConfig::default())
}

#[test]
fn default_config_is_light_with_no_key() {
    let c = HeadlinesConfig::default();
    assert!(!c.dark_mode);
    assert_eq!(c.api_key, "");
    assert_eq!(c.selected_country, Country::Us);
}

#[test]
fn new_state_starts_with_twenty_numbered_placeholders() {
    let h = fresh();
    assert_eq!(h.articles.len(), 20);
    assert_eq!(h.articles[0].title, "title0");
    assert_eq!(h.articles[0].desc, "desc0");
    assert_eq!(h.articles[0].url, "https://example.com/0");
    assert_eq!(h.articles[19].title, "title19");
    assert_eq!(h.articles[19].url, "https://example.com/19");
}

#[test]
fn gate_is_open_exactly_when_a_key_was_persisted() {
    let h = fresh();
    assert!(!h.api_key_initialized);
    assert_eq!(h.current_screen(), Screen::KeyEntry);

    let h = Headlines::new(HeadlinesConfig {
        dark_mode: true,
        api_key: "stored".to_string(),
        selected_country: Country::Jp,
    });
    assert!(h.api_key_initialized);
    assert_eq!(h.current_screen(), Screen::MainView);
}

#[test]
fn committing_a_key_stores_it_and_opens_the_main_view() {
    let mut h = fresh();
    assert_eq!(h.current_screen(), Screen::KeyEntry);
    h.commit_api_key("abc123".to_string());
    assert_eq!(h.config.api_key, "abc123");
    assert!(h.api_key_initialized);
    assert_eq!(h.current_screen(), Screen::MainView);
}

#[test]
fn committing_an_empty_key_keeps_the_entry_screen() {
    let mut h = fresh();
    h.commit_api_key(String::new());
    assert_eq!(h.config.api_key, "");
    assert!(!h.api_key_initialized);
    assert_eq!(h.current_screen(), Screen::KeyEntry);
}

#[test]
fn toggling_dark_mode_twice_restores_the_theme() {
    let mut h = fresh();
    let before = h.config.dark_mode;
    h.toggle_dark_mode();
    assert_eq!(h.config.dark_mode, !before);
    h.toggle_dark_mode();
    assert_eq!(h.config.dark_mode, before);
}

#[test]
fn draining_yields_sent_cards_in_order_one_per_call() {
    let mut h = fresh();
    h.clear_articles();
    assert_eq!(h.articles.len(), 0);

    let mut ch = FetchChannel::new();
    ch.send(card("a"));
    ch.send(card("b"));
    ch.send(card("c"));
    assert_eq!(ch.len(), 3);

    h.preload_articles(&mut ch);
    assert_eq!(h.articles.len(), 1);
    assert_eq!(h.articles[0].title, "a title");

    h.preload_articles(&mut ch);
    h.preload_articles(&mut ch);
    assert_eq!(h.articles.len(), 3);
    assert_eq!(h.articles[0].title, "a title");
    assert_eq!(h.articles[1].title, "b title");
    assert_eq!(h.articles[2].title, "c title");
    assert_eq!(ch.len(), 0);

    // nothing pending: a drain is a no-op, not an error
    h.preload_articles(&mut ch);
    assert_eq!(h.articles.len(), 3);
}

#[test]
fn successful_fetch_forwards_every_article_in_order() {
    let arts = Articles {
        articles: vec![
            Article {
                title: "A".to_string(),
                description: "da".to_string(),
                url: "ua".to_string(),
            },
            Article {
                title: "B".to_string(),
                description: "db".to_string(),
                url: "ub".to_string(),
            },
        ],
    };
    let mut ch = FetchChannel::new();
    forward_fetch_result(&Ok(arts), &mut ch);
    assert_eq!(ch.len(), 2);
    let first = ch.try_recv().unwrap();
    assert_eq!(first.title, "A");
    assert_eq!(first.desc, "da");
    assert_eq!(first.url, "ua");
    let second = ch.try_recv().unwrap();
    assert_eq!(second.title, "B");
    assert!(ch.try_recv().is_none());
}

#[test]
fn failed_fetch_forwards_nothing() {
    let mut ch = FetchChannel::new();
    forward_fetch_result(&Err(NewsApiError::RequestFailed), &mut ch);
    assert_eq!(ch.len(), 0);
    assert!(ch.try_recv().is_none());
}

#[test]
fn clearing_keeps_configuration() {
    let mut h = Headlines::new(HeadlinesConfig {
        dark_mode: true,
        api_key: "k".to_string(),
        selected_country: Country::Gr,
    });
    h.clear_articles();
    assert_eq!(h.articles.len(), 0);
    assert!(h.config.dark_mode);
    assert_eq!(h.config.api_key, "k");
    assert!(h.api_key_initialized);
}

#[test]
fn selecting_a_country_touches_nothing_else() {
    let mut h = fresh();
    let key_before = h.config.api_key.clone();
    let dark_before = h.config.dark_mode;
    let shown_before = h.articles.len();
    h.select_country(Country::De);
    assert_eq!(h.config.selected_country, Country::De);
    assert_eq!(h.config.api_key, key_before);
    assert_eq!(h.config.dark_mode, dark_before);
    assert_eq!(h.articles.len(), shown_before);
}

#[test]
fn a_fetch_request_carries_its_country() {
    assert_eq!(FetchRequest::CountryChanged(Country::Jp).country(), Country::Jp);
    assert_eq!(FetchRequest::Refresh(Country::Gr).country(), Country::Gr);
}

#[test]
fn decimal_rendering_matches_standard_formatting() {
    assert_eq!(headlines::decimal::u32_to_string(0), "0");
    assert_eq!(headlines::decimal::u32_to_string(7), "7");
    assert_eq!(headlines::decimal::u32_to_string(10), "10");
    assert_eq!(headlines::decimal::u32_to_string(305), "305");
    assert_eq!(headlines::decimal::u32_to_string(u32::MAX), "4294967295");
}
