use mirror_bot::db::{insert_managram, insert_mirror, MirrorStore, StoreError};
use mirror_bot::manifold::{CreateMarketArgs, FullMarket, LiteMarket, Managram, MarketHandle, TokenType};
use mirror_bot::managrams::{
    after_market_lookup, begin_managram, conclude_with_error, LookupError, ManagramProcessingError, Progress, ResponseAmount,
};
use mirror_bot::mirror::{record_mirror, record_third_party_mirror, MirrorError};
use mirror_bot::settings::{
    Database, Kalshi, KalshiQuestionRequirements, Managrams, Manifold, MarketTemplate, Metaculus,
    MetaculusQuestionRequirements, Settings,
};
use mirror_bot::types::{Question, QuestionSource};

const NOW: i64 = 1_700_000_000_000;
const DAY: i64 = 86_400_000;

fn requirements() -> MetaculusQuestionRequirements {
    MetaculusQuestionRequirements {
        require_visible_community_prediction: false,
        require_open: false,
        exclude_resolved: false,
        exclude_grouped: false,
        min_forecasters: 0,
        min_votes: 0,
        min_days_to_resolution: 0,
        max_days_to_resolution: 10_000,
        max_last_active_days: 10_000,
        max_age_days: 10_000,
        max_confidence: 1_000_000,
        exclude_ids: vec![],
    }
}

fn settings(client_url: &str) -> Settings {
    Settings {
        database: Database { path: "mirrors.db".to_string() },
        kalshi: Kalshi {
            auto_filter: KalshiQuestionRequirements {
                require_open: false,
                page_size: 200,
                single_event_per_series: false,
                exclude_resolved: false,
                exclude_series: false,
                min_days_to_resolution: 0,
                max_days_to_resolution: 10_000,
                min_volume: 0,
                min_recent_volume: 0,
                min_open_interest: 0,
                min_dollar_volume: 0,
                min_dollar_recent_volume: 0,
                min_dollar_open_interest: 0,
                min_liquidity: 0,
                max_age_days: 10_000,
                max_confidence: 1_000_000,
                exclude_ids: vec![],
            },
            add_group_ids: vec![],
            max_clones_per_day: 5,
        },
        manifold: Manifold {
            client_url: client_url.to_string(),
            api_url: "https://api.manifold.markets/v0/".to_string(),
            api_key: "key".to_string(),
            user_id: "bot".to_string(),
            template: MarketTemplate {
                description_footer: String::new(),
                title_retain_end_characters: 4,
                max_question_length: 120,
                max_description_length: 10_000,
            },
            managrams: Managrams { min_amount: 10_000_000, mirror_cost: 25_000_000, resolve_cost: 5_000_000 },
        },
        metaculus: Metaculus {
            url: "https://www.metaculus.com".to_string(),
            api_key: "key".to_string(),
            max_clones_per_day: 5,
            fetch_criteria: false,
            auto_filter: requirements(),
            request_filter: requirements(),
            add_group_ids: vec![],
        },
    }
}

fn question(id: &str) -> Question {
    Question {
        source: QuestionSource::Metaculus,
        source_url: "https://www.metaculus.com/questions/1/".to_string(),
        source_id: id.to_string(),
        question: "Q?".to_string(),
        criteria: None,
        end_date: i64::MAX - 1,
    }
}

fn lite(id: &str) -> LiteMarket {
    LiteMarket {
        id: id.to_string(),
        question: "Q".to_string(),
        slug: "q".to_string(),
        created_time: NOW,
        close_time: NOW,
        last_updated_time: NOW,
        is_resolved: false,
    }
}

fn payment(id: &str) -> Managram {
    Managram {
        id: id.to_string(),
        group_id: "g".to_string(),
        from_id: "alice".to_string(),
        to_id: "bot".to_string(),
        created_time: NOW,
        token: TokenType::Mana,
        amount: 40_000_000,
        message: "resolve https://manifold.markets/a/q".to_string(),
    }
}

#[test]
fn close_time_caps_at_the_largest_time() {
    let config = settings("https://manifold.markets/");
    let args = CreateMarketArgs::from_question_at(&config, &question("1"), NOW);
    assert_eq!(args.close_time, i64::MAX);
    let mut soon = question("2");
    soon.end_date = 0;
    let args = CreateMarketArgs::from_question_at(&config, &soon, NOW);
    assert_eq!(args.close_time, NOW + 7 * DAY);
}

#[test]
fn recording_a_conflicting_mirror_is_a_store_error() {
    let config = settings("https://manifold.markets/");
    let mut db = MirrorStore::new();
    insert_mirror(&mut db, &MarketHandle { id: "m1".to_string(), url: "u".to_string() }, &question("1"), NOW)
        .ok()
        .unwrap();
    let r = record_mirror(&mut db, &question("2"), Ok(lite("m1")), &config, NOW);
    assert!(matches!(r, Err(MirrorError::StoreError(StoreError::Conflict))));
    assert_eq!(db.mirrors.len(), 1);
}

#[test]
fn recording_under_an_unusable_client_url_fails() {
    let config = settings("not a url");
    let mut db = MirrorStore::new();
    let r = record_mirror(&mut db, &question("1"), Ok(lite("m1")), &config, NOW);
    assert!(matches!(r, Err(MirrorError::PlatformError(_))));
    assert!(db.mirrors.is_empty());
}

#[test]
fn market_lookup_failures() {
    let config = settings("https://manifold.markets/");
    let mut db = MirrorStore::new();
    let p = payment("t");
    insert_managram(&mut db, &p).ok().unwrap();
    match after_market_lookup(&mut db, &config, &p, Err(LookupError::NotFound)) {
        Progress::Respond { amount, message, .. } => {
            assert_eq!(amount, ResponseAmount::Refund);
            assert_eq!(message, "Market not found");
        }
        other => panic!("unexpected {:?}", other),
    }
    let q = payment("u");
    insert_managram(&mut db, &q).ok().unwrap();
    let r = after_market_lookup(&mut db, &config, &q, Err(LookupError::Other("timeout".to_string())));
    assert!(matches!(r, Progress::Failed { .. }));
}

#[test]
fn user_facing_errors_are_refunded() {
    let mut db = MirrorStore::new();
    let p = payment("t");
    insert_managram(&mut db, &p).ok().unwrap();
    match conclude_with_error(&mut db, &p, ManagramProcessingError::UserFacing("nope".to_string())) {
        Progress::Respond { to_id, amount, message } => {
            assert_eq!(to_id, "alice");
            assert_eq!(amount, ResponseAmount::Refund);
            assert_eq!(message, "nope");
        }
        other => panic!("unexpected {:?}", other),
    }
    assert!(db.managrams[0].processed);
}

#[test]
fn third_party_market_is_recorded_once() {
    let config = settings("https://manifold.markets/");
    let mut db = MirrorStore::new();
    let market = FullMarket {
        id: "x1".to_string(),
        creator_id: "someone".to_string(),
        question: "Q".to_string(),
        slug: "q".to_string(),
        created_time: NOW,
        close_time: NOW,
        last_updated_time: NOW,
        is_resolved: false,
        description: "see metaculus.com/questions/5/".to_string(),
        text_description: String::new(),
    };
    assert!(matches!(record_third_party_mirror(&mut db, &market, &config), Ok(Some(_))));
    assert!(matches!(
        record_third_party_mirror(&mut db, &market, &config),
        Err(MirrorError::StoreError(StoreError::Conflict))
    ));
    let bad = settings("not a url");
    let mut other = MirrorStore::new();
    assert!(matches!(record_third_party_mirror(&mut other, &market, &bad), Err(MirrorError::PlatformError(_))));
    assert!(other.third_party.is_empty());
}

#[test]
fn fractional_price_in_the_refusal() {
    let mut config = settings("https://manifold.markets/");
    config.manifold.managrams.mirror_cost = 25_500_000;
    let mut db = MirrorStore::new();
    let mut p = payment("f");
    p.message = "mirror https://www.metaculus.com/questions/9/".to_string();
    p.amount = 20_000_000;
    insert_managram(&mut db, &p).ok().unwrap();
    match begin_managram(&mut db, &config, &p) {
        Progress::Respond { message, .. } => assert_eq!(message, "Mirror requests should include at least 35.5 mana."),
        other => panic!("unexpected {:?}", other),
    }
}
