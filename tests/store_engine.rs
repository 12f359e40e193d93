use mirror_bot::db::{
    get_any_mirror, get_mirror_by_contract_id, get_mirrors, get_resolved_mirrors, get_third_party_mirror_by_source_id,
    get_unprocessed_managrams, get_unresolved_mirrors, insert_managram, insert_mirror, insert_third_party_mirror,
    last_managram_timestamp, set_managram_processed, set_mirror_resolved, sync_managrams, AnyMirror, MirrorStore,
    StoreError,
};
use mirror_bot::manifold::{
    market_url, next_page_before, project_market_args, CreateMarketArgs, FullMarket, LiteMarket, Managram,
    ManifoldOutcome, ManifoldResolution, MarketHandle, TokenType,
};
use mirror_bot::managrams::{
    after_market_created, after_market_resolved, after_question_fetched, begin_managram, conclude_with_error,
    ManagramProcessingError, Progress, ResponseAmount,
};
use mirror_bot::mirror::{
    clones_today, is_third_party_candidate, metaculus_link_id, record_third_party_mirror, remaining_budget,
    resolution_to_apply, resolve_mirror, select_candidates, sync_manifold_mirror_to_db, sync_targets, MirrorError,
    ReconcileOutcome,
};
use mirror_bot::settings::{
    Database, Kalshi, KalshiQuestionRequirements, Managrams, Manifold, MarketTemplate, Metaculus,
    MetaculusQuestionRequirements, Settings,
};
use mirror_bot::types::{BinaryResolution, Question, QuestionSource};

const NOW: i64 = 1_700_000_000_000;
const DAY: i64 = 86_400_000;

fn requirements() -> MetaculusQuestionRequirements {
    MetaculusQuestionRequirements {
        require_visible_community_prediction: false,
        require_open: false,
        exclude_resolved: false,
        exclude_grouped: false,
        min_forecasters: 0,
        min_votes: 0,
        min_days_to_resolution: 0,
        max_days_to_resolution: 10_000,
        max_last_active_days: 10_000,
        max_age_days: 10_000,
        max_confidence: 1_000_000,
        exclude_ids: vec![],
    }
}

fn settings(max_title: usize) -> Settings {
    Settings {
        database: Database { path: "mirrors.db".to_string() },
        kalshi: Kalshi {
            auto_filter: KalshiQuestionRequirements {
                require_open: false,
                page_size: 200,
                single_event_per_series: false,
                exclude_resolved: false,
                exclude_series: false,
                min_days_to_resolution: 0,
                max_days_to_resolution: 10_000,
                min_volume: 0,
                min_recent_volume: 0,
                min_open_interest: 0,
                min_dollar_volume: 0,
                min_dollar_recent_volume: 0,
                min_dollar_open_interest: 0,
                min_liquidity: 0,
                max_age_days: 10_000,
                max_confidence: 1_000_000,
                exclude_ids: vec![],
            },
            add_group_ids: vec!["kg".to_string()],
            max_clones_per_day: 5,
        },
        manifold: Manifold {
            client_url: "https://manifold.markets/".to_string(),
            api_url: "https://api.manifold.markets/v0/".to_string(),
            api_key: "key".to_string(),
            user_id: "bot".to_string(),
            template: MarketTemplate {
                description_footer: "FOOT".to_string(),
                title_retain_end_characters: 4,
                max_question_length: max_title,
                max_description_length: 10_000,
            },
            managrams: Managrams { min_amount: 10_000_000, mirror_cost: 25_000_000, resolve_cost: 5_000_000 },
        },
        metaculus: Metaculus {
            url: "https://www.metaculus.com".to_string(),
            api_key: "key".to_string(),
            max_clones_per_day: 5,
            fetch_criteria: false,
            auto_filter: requirements(),
            request_filter: requirements(),
            add_group_ids: vec!["mg".to_string()],
        },
    }
}

fn question(source: QuestionSource, id: &str) -> Question {
    Question {
        source,
        source_url: format!("https://example.com/{}", id),
        source_id: id.to_string(),
        question: "Q?".to_string(),
        criteria: Some("Rules.".to_string()),
        end_date: NOW + 10 * DAY,
    }
}

fn handle(id: &str) -> MarketHandle {
    MarketHandle { id: id.to_string(), url: format!("https://manifold.markets/market/{}", id) }
}

fn payment(id: &str, t: i64, message: &str) -> Managram {
    Managram {
        id: id.to_string(),
        group_id: "g".to_string(),
        from_id: "alice".to_string(),
        to_id: "bot".to_string(),
        created_time: t,
        token: TokenType::Mana,
        amount: 100_000_000,
        message: message.to_string(),
    }
}

#[test]
fn insert_mirror_rejects_duplicates() {
    let mut db = MirrorStore::new();
    let row = insert_mirror(&mut db, &handle("m1"), &question(QuestionSource::Metaculus, "1"), NOW).ok().unwrap();
    assert_eq!(row.id, 1);
    assert!(matches!(
        insert_mirror(&mut db, &handle("m2"), &question(QuestionSource::Metaculus, "1"), NOW),
        Err(StoreError::Conflict)
    ));
    assert!(matches!(
        insert_mirror(&mut db, &handle("m1"), &question(QuestionSource::Metaculus, "2"), NOW),
        Err(StoreError::Conflict)
    ));
    let other = insert_mirror(&mut db, &handle("m2"), &question(QuestionSource::Kalshi, "1"), NOW).ok().unwrap();
    assert_eq!(other.id, 2);
    assert_eq!(get_mirrors(&db).len(), 2);
}

#[test]
fn lookups_and_resolution_flags() {
    let mut db = MirrorStore::new();
    insert_mirror(&mut db, &handle("m1"), &question(QuestionSource::Metaculus, "1"), NOW).ok().unwrap();
    insert_mirror(&mut db, &handle("m2"), &question(QuestionSource::Kalshi, "K"), NOW).ok().unwrap();
    assert_eq!(get_mirror_by_contract_id(&db, "m2").unwrap().source_id, "K");
    assert!(get_mirror_by_contract_id(&db, "m3").is_none());
    assert!(set_mirror_resolved(&mut db, 1, true).is_ok());
    assert!(matches!(set_mirror_resolved(&mut db, 3, true), Err(StoreError::NotFound)));
    assert!(matches!(set_mirror_resolved(&mut db, 0, true), Err(StoreError::NotFound)));
    assert_eq!(get_resolved_mirrors(&db, None).len(), 1);
    assert_eq!(get_unresolved_mirrors(&db, None).len(), 1);
    assert_eq!(get_unresolved_mirrors(&db, Some(QuestionSource::Metaculus)).len(), 0);
    assert_eq!(get_unresolved_mirrors(&db, Some(QuestionSource::Kalshi))[0].manifold_contract_id, "m2");
}

#[test]
fn any_mirror_prefers_the_owned_one() {
    let mut db = MirrorStore::new();
    insert_third_party_mirror(&mut db, &handle("t1"), NOW, QuestionSource::Metaculus, "9").ok().unwrap();
    assert!(matches!(get_any_mirror(&db, QuestionSource::Metaculus, "9"), Some(AnyMirror::ThirdPartyMirror(_))));
    insert_mirror(&mut db, &handle("m1"), &question(QuestionSource::Metaculus, "9"), NOW).ok().unwrap();
    match get_any_mirror(&db, QuestionSource::Metaculus, "9") {
        Some(AnyMirror::Mirror(m)) => assert_eq!(m.manifold_contract_id, "m1"),
        other => panic!("unexpected {:?}", other),
    }
    assert!(get_any_mirror(&db, QuestionSource::Kalshi, "9").is_none());
    assert!(matches!(
        insert_third_party_mirror(&mut db, &handle("t1"), NOW, QuestionSource::Metaculus, "10"),
        Err(StoreError::Conflict)
    ));
    assert_eq!(get_third_party_mirror_by_source_id(&db, QuestionSource::Metaculus, "9").unwrap().id, 1);
}

#[test]
fn payments_are_stored_once_and_processed_once() {
    let mut db = MirrorStore::new();
    assert_eq!(last_managram_timestamp(&db), None);
    insert_managram(&mut db, &payment("a", NOW - 5, "x")).ok().unwrap();
    insert_managram(&mut db, &payment("b", NOW - 9, "y")).ok().unwrap();
    assert!(matches!(insert_managram(&mut db, &payment("a", NOW, "z")), Err(StoreError::Conflict)));
    assert_eq!(last_managram_timestamp(&db), Some(NOW - 5));
    assert!(set_managram_processed(&mut db, "a", true).is_ok());
    assert!(matches!(set_managram_processed(&mut db, "zz", true), Err(StoreError::NotFound)));
    let left: Vec<String> = get_unprocessed_managrams(&db).into_iter().map(|m| m.id).collect();
    assert_eq!(left, vec!["b".to_string()]);
}

#[test]
fn syncing_payments_stops_at_a_known_one() {
    let mut db = MirrorStore::new();
    insert_managram(&mut db, &payment("b", NOW, "y")).ok().unwrap();
    let fetched = vec![payment("a", NOW, "x"), payment("b", NOW, "y"), payment("c", NOW, "z")];
    assert!(matches!(sync_managrams(&mut db, &fetched), Err(StoreError::Conflict)));
    assert_eq!(db.managrams.len(), 2);
    assert!(sync_managrams(&mut db, &vec![payment("c", NOW, "z")]).is_ok());
    assert_eq!(db.managrams.len(), 3);
}

#[test]
fn pagination_stops_on_a_short_page() {
    let page = vec![payment("a", NOW, "x"), payment("b", NOW - 7, "y")];
    assert_eq!(next_page_before(2, Some(2), &page), Some(NOW - 7));
    assert_eq!(next_page_before(1, Some(2), &page), None);
    assert_eq!(next_page_before(99, None, &page), None);
    assert_eq!(next_page_before(0, Some(0), &vec![]), None);
}

#[test]
fn resolution_mapping_rounds_to_nearest_percent() {
    let pct = |p: u32| resolution_to_apply(Some(BinaryResolution::Percent(p))).unwrap();
    assert_eq!(pct(555_000), ManifoldResolution { outcome: ManifoldOutcome::Mkt, probability_int: Some(56) });
    assert_eq!(pct(554_999).probability_int, Some(55));
    assert_eq!(pct(1_000_000).probability_int, Some(100));
    assert_eq!(pct(0).probability_int, Some(0));
    assert_eq!(
        resolution_to_apply(Some(BinaryResolution::Yes)),
        Some(ManifoldResolution { outcome: ManifoldOutcome::Yes, probability_int: None })
    );
    assert_eq!(resolution_to_apply(Some(BinaryResolution::Cancel)).unwrap().outcome, ManifoldOutcome::Cancel);
    assert_eq!(resolution_to_apply(None), None);
}

#[test]
fn resolving_marks_the_mirror_resolved() {
    let mut db = MirrorStore::new();
    let row = insert_mirror(&mut db, &handle("m1"), &question(QuestionSource::Metaculus, "1"), NOW).ok().unwrap();
    assert!(matches!(resolve_mirror(&mut db, &row, Err("boom".to_string())), Err(MirrorError::PlatformError(_))));
    assert!(!db.mirrors[0].resolved);
    assert!(resolve_mirror(&mut db, &row, Ok(())).is_ok());
    assert!(db.mirrors[0].resolved);
    assert!(sync_targets(&db, None).is_empty());
}

#[test]
fn reconciliation_never_unresolves() {
    let mut db = MirrorStore::new();
    let row = insert_mirror(&mut db, &handle("m1"), &question(QuestionSource::Metaculus, "1"), NOW).ok().unwrap();
    assert!(matches!(sync_manifold_mirror_to_db(&mut db, &row, false), Ok(ReconcileOutcome::Unchanged)));
    assert!(matches!(sync_manifold_mirror_to_db(&mut db, &row, true), Ok(ReconcileOutcome::MarkedResolved)));
    assert!(db.mirrors[0].resolved);
    let resolved = db.mirrors[0].clone();
    assert!(matches!(sync_manifold_mirror_to_db(&mut db, &resolved, false), Ok(ReconcileOutcome::ReversalRefused)));
    assert!(db.mirrors[0].resolved);
}

#[test]
fn budget_arithmetic() {
    assert_eq!(remaining_budget(5, 3), 2);
    assert_eq!(remaining_budget(5, 5), 0);
    assert_eq!(remaining_budget(5, 9), 0);
    assert_eq!(remaining_budget(0, 0), 0);
}

#[test]
fn selection_skips_mirrored_and_old_clones_do_not_count() {
    let mut db = MirrorStore::new();
    insert_mirror(&mut db, &handle("m1"), &question(QuestionSource::Metaculus, "1"), NOW - 2 * DAY).ok().unwrap();
    insert_mirror(&mut db, &handle("m2"), &question(QuestionSource::Metaculus, "2"), NOW - 1000).ok().unwrap();
    insert_third_party_mirror(&mut db, &handle("t1"), NOW, QuestionSource::Metaculus, "3").ok().unwrap();
    assert_eq!(clones_today(&db, QuestionSource::Metaculus, NOW), 1);
    assert_eq!(clones_today(&db, QuestionSource::Kalshi, NOW), 0);
    let ids: Vec<String> = ["1", "2", "3", "4", "5", "6"].iter().map(|s| s.to_string()).collect();
    assert_eq!(select_candidates(&db, QuestionSource::Metaculus, &ids, 3, NOW), vec![3, 4]);
    assert_eq!(select_candidates(&db, QuestionSource::Metaculus, &ids, 1, NOW), Vec::<usize>::new());
    assert_eq!(select_candidates(&db, QuestionSource::Metaculus, &ids, 100, NOW), vec![3, 4, 5]);
}

#[test]
fn market_args_from_a_question() {
    let config = settings(12);
    let q = question(QuestionSource::Kalshi, "K1");
    let args = CreateMarketArgs::from_question_at(&config, &q, NOW);
    assert_eq!(args.question, "[Kalshi] Q?");
    assert_eq!(
        args.description_markdown,
        "### Q?\n\nResolves the same as [the original on Kalshi](https://example.com/K1).\n\n---\n\n\
         **Resolution criteria**\n\nRules.\n\n---\n\nFOOT"
    );
    assert_eq!(args.group_ids, vec!["kg".to_string()]);
    let mut long = question(QuestionSource::Metaculus, "77");
    long.question = "Will the answer be yes or no?".to_string();
    long.end_date = NOW - DAY;
    let args = CreateMarketArgs::from_question_at(&config, &long, NOW);
    assert_eq!(args.question, "[Meta... no?");
    assert_eq!(args.close_time, NOW + 7 * DAY);
    assert!(args.description_markdown.contains("question_embed/77/?theme=dark"));
}

#[test]
fn project_args_retag_the_title() {
    let config = settings(120);
    let args = CreateMarketArgs::from_question_at(&config, &question(QuestionSource::Metaculus, "5"), NOW);
    let args = project_market_args(args, "ACX 2024", "proj");
    assert_eq!(args.question, "[ACX 2024] Q?");
    assert_eq!(args.group_ids, vec!["mg".to_string(), "proj".to_string()]);
}

#[test]
fn market_url_joins_under_the_client_url() {
    let config = settings(120);
    assert_eq!(market_url(&config, "some-slug").unwrap(), "https://manifold.markets/market/some-slug");
}

#[test]
fn third_party_links_are_found_in_descriptions() {
    assert_eq!(metaculus_link_id("see https://www.metaculus.com/questions/4567/title").unwrap(), "4567");
    assert!(metaculus_link_id("no link here").is_none());
    let config = settings(120);
    let mut db = MirrorStore::new();
    let market = FullMarket {
        id: "x1".to_string(),
        creator_id: "someone".to_string(),
        question: "Q".to_string(),
        slug: "q-slug".to_string(),
        created_time: NOW,
        close_time: NOW,
        last_updated_time: NOW,
        is_resolved: false,
        description: "mirrors metaculus.com/questions/88/ exactly".to_string(),
        text_description: String::new(),
    };
    assert!(is_third_party_candidate(&db, &market.lite()));
    let row = record_third_party_mirror(&mut db, &market, &config).ok().unwrap().unwrap();
    assert_eq!(row.source_id, "88");
    assert_eq!(row.manifold_url, "https://manifold.markets/market/q-slug");
    assert!(!is_third_party_candidate(&db, &market.lite()));
    let lite = LiteMarket { is_resolved: true, id: "y".to_string(), ..market.lite() };
    assert!(!is_third_party_candidate(&db, &lite));
}

#[test]
fn ping_and_internal_failures() {
    let config = settings(120);
    let mut db = MirrorStore::new();
    let p = payment("ping-1", NOW, "ping");
    insert_managram(&mut db, &p).ok().unwrap();
    match begin_managram(&mut db, &config, &p) {
        Progress::Respond { amount, message, .. } => {
            assert_eq!(amount, ResponseAmount::Refund);
            assert_eq!(message, "Pong!");
        }
        other => panic!("unexpected {:?}", other),
    }
    let q = payment("other-1", NOW, "anything");
    insert_managram(&mut db, &q).ok().unwrap();
    let r = conclude_with_error(&mut db, &q, ManagramProcessingError::Internal("boom".to_string()));
    assert!(matches!(r, Progress::Failed { .. }));
    assert!(db.managrams[1].processed);
    let stray = payment("never-stored", NOW, "ping");
    assert!(matches!(begin_managram(&mut db, &config, &stray), Progress::Failed { .. }));
}

#[test]
fn mirror_request_paths() {
    let config = settings(120);
    let mut db = MirrorStore::new();
    insert_mirror(&mut db, &handle("m1"), &question(QuestionSource::Metaculus, "1"), NOW).ok().unwrap();
    insert_third_party_mirror(&mut db, &handle("t1"), NOW, QuestionSource::Metaculus, "2").ok().unwrap();
    let owned = payment("a", NOW, "mirror https://www.metaculus.com/questions/1/");
    let third = payment("b", NOW, "mirror https://www.metaculus.com/questions/2/");
    let forced = payment("c", NOW, "mirror https://www.metaculus.com/questions/2/ --force");
    for p in [&owned, &third, &forced] {
        insert_managram(&mut db, p).ok().unwrap();
    }
    match begin_managram(&mut db, &config, &owned) {
        Progress::Respond { message, .. } => {
            assert_eq!(message, "Mirror already exists: https://manifold.markets/market/m1")
        }
        other => panic!("unexpected {:?}", other),
    }
    match begin_managram(&mut db, &config, &third) {
        Progress::Respond { message, .. } => assert!(message.starts_with(
            "Found an existing mirror from a different user at https://manifold.markets/market/t1."
        )),
        other => panic!("unexpected {:?}", other),
    }
    let id = match begin_managram(&mut db, &config, &forced) {
        Progress::FetchQuestion { source_id } => source_id,
        other => panic!("unexpected {:?}", other),
    };
    assert_eq!(id, "2");
    match after_question_fetched(&mut db, &config, &forced, &id, Err("404".to_string()), NOW) {
        Progress::Respond { message, .. } => assert_eq!(message, "Failed to fetch question with id 2 from Metaculus."),
        other => panic!("unexpected {:?}", other),
    }
}

#[test]
fn created_market_is_recorded_and_answered_with_the_minimum() {
    let config = settings(120);
    let mut db = MirrorStore::new();
    let p = payment("a", NOW, "mirror https://www.metaculus.com/questions/3/");
    insert_managram(&mut db, &p).ok().unwrap();
    let q = question(QuestionSource::Metaculus, "3");
    let lite = LiteMarket {
        id: "new".to_string(),
        question: "Q".to_string(),
        slug: "q-3".to_string(),
        created_time: NOW,
        close_time: NOW,
        last_updated_time: NOW,
        is_resolved: false,
    };
    match after_market_created(&mut db, &config, &p, &q, Ok(lite), NOW) {
        Progress::Respond { amount, message, .. } => {
            assert_eq!(amount, ResponseAmount::Minimum);
            assert_eq!(message, "Created mirror at https://manifold.markets/market/q-3");
        }
        other => panic!("unexpected {:?}", other),
    }
    assert_eq!(db.mirrors.len(), 1);
    let row = db.mirrors[0].clone();
    let r = after_market_resolved(&mut db, &payment("a", NOW, ""), &row, Ok(()));
    assert!(matches!(r, Progress::Respond { .. }));
    assert!(db.mirrors[0].resolved);
}

#[test]
fn loaded_stores_are_checked() {
    let mut db = MirrorStore::new();
    insert_mirror(&mut db, &handle("m1"), &question(QuestionSource::Metaculus, "1"), NOW).ok().unwrap();
    insert_managram(&mut db, &payment("a", NOW, "x")).ok().unwrap();
    assert!(db.check_wf());
    let mut dup = db.mirrors[0].clone();
    dup.id = 2;
    dup.manifold_contract_id = "m2".to_string();
    db.mirrors.push(dup);
    assert!(!db.check_wf());
    db.mirrors.pop();
    db.mirrors[0].id = 5;
    assert!(!db.check_wf());
    db.mirrors[0].id = 1;
    let again = db.managrams[0].managram.clone();
    db.managrams.push(mirror_bot::db::ManagramRow { managram: again, processed: false });
    assert!(!db.check_wf());
}
