use mirror_bot::kalshi::{
    check_market_requirements, normalize_ticker, Event, KalshiCheckFailure, KalshiError, KalshiMarket, KalshiResult,
    RulebookVariable, SettlementSource, Status,
};
use mirror_bot::metaculus::{
    check_question_requirements, days_between, ActiveState, CommunityPredictionStub, CpsFull, ForecastType,
    MetaculusCheckFailure, MetaculusQuestion, PossibilitiesStub, QuestionStatus, QuestionType,
};
use mirror_bot::settings::{KalshiQuestionRequirements, MetaculusQuestionRequirements};
use mirror_bot::types::{BinaryResolution, QuestionSource};

const NOW: i64 = 1_700_000_000_000;
const DAY: i64 = 86_400_000;

fn requirements() -> MetaculusQuestionRequirements {
    MetaculusQuestionRequirements {
        require_visible_community_prediction: true,
        require_open: true,
        exclude_resolved: true,
        exclude_grouped: true,
        min_forecasters: 10,
        min_votes: 5,
        min_days_to_resolution: 7,
        max_days_to_resolution: 365,
        max_last_active_days: 3,
        max_age_days: 30,
        max_confidence: 950_000,
        exclude_ids: vec![666],
    }
}

fn question() -> MetaculusQuestion {
    MetaculusQuestion {
        active_state: ActiveState::Open,
        url: "https://www.metaculus.com/api2/questions/42/".to_string(),
        page_url: "/questions/42/some-title/".to_string(),
        id: 42,
        author: 1,
        author_name: "a".to_string(),
        title: "Will it happen?".to_string(),
        title_short: "happen".to_string(),
        status: QuestionStatus::Active,
        resolution: None,
        publish_time: NOW - 10 * DAY,
        resolve_time: NOW + 30 * DAY,
        possibilities: PossibilitiesStub { forecast_type: ForecastType::Binary },
        question_type: QuestionType::Forecast,
        edited_time: None,
        last_activity_time: Some(NOW - DAY),
        votes: 50,
        community_prediction: Some(CommunityPredictionStub { full: Some(CpsFull { q2: Some(400_000) }) }),
        number_of_forecasters: Some(100),
        prediction_count: 200,
        group: None,
        conditional: false,
        resolution_criteria: Some("Criteria.".to_string()),
    }
}

#[test]
fn eligible_question_passes() {
    assert!(check_question_requirements(&question(), &requirements(), NOW).is_ok());
}

#[test]
fn question_failures_in_order() {
    let req = requirements();
    let fail = |q: MetaculusQuestion| check_question_requirements(&q, &req, NOW).err().unwrap();
    let mut q = question();
    q.possibilities.forecast_type = ForecastType::Continuous;
    q.conditional = true;
    assert_eq!(fail(q), MetaculusCheckFailure::NotBinary);
    let mut q = question();
    q.community_prediction = None;
    assert_eq!(fail(q), MetaculusCheckFailure::NoCommunityPrediction);
    let mut q = question();
    q.number_of_forecasters = None;
    assert_eq!(fail(q), MetaculusCheckFailure::NotEnoughForecasters { forecasters: -1, threshold: 10 });
    let mut q = question();
    q.resolve_time = NOW + 2 * DAY + 5;
    assert_eq!(fail(q), MetaculusCheckFailure::ResolvesTooSoon { days_remaining: 2, threshold: 7 });
    let mut q = question();
    q.last_activity_time = Some(NOW - 5 * DAY);
    assert_eq!(fail(q), MetaculusCheckFailure::NoRecentActivity { days_since_active: 5, threshold: 3 });
    let mut q = question();
    q.publish_time = NOW - 40 * DAY;
    assert_eq!(fail(q), MetaculusCheckFailure::TooOld { age_days: 40, threshold: 30 });
    let mut q = question();
    q.community_prediction = Some(CommunityPredictionStub { full: Some(CpsFull { q2: Some(30_000) }) });
    assert_eq!(fail(q), MetaculusCheckFailure::TooExtreme { probability: 30_000, threshold: 950_000 });
    let mut q = question();
    q.id = 666;
    assert_eq!(fail(q), MetaculusCheckFailure::Banned);
}

#[test]
fn failure_messages() {
    assert_eq!(
        MetaculusCheckFailure::NotEnoughVotes { votes: 3, threshold: 5 }.message(),
        "question has 3 votes, and the minimum is 5"
    );
    assert_eq!(MetaculusCheckFailure::Banned.message(), "question is banned in config");
    assert_eq!(
        MetaculusCheckFailure::ResolvesTooLate { days_remaining: -2, threshold: 365 }.message(),
        "question resolves in -2 days, and the maximum is 365"
    );
}

#[test]
fn days_round_toward_zero() {
    assert_eq!(days_between(NOW + DAY + DAY / 2, NOW), 1);
    assert_eq!(days_between(NOW - DAY - DAY / 2, NOW), -1);
    assert_eq!(days_between(i64::MAX, i64::MIN), (((i64::MAX as i128) - (i64::MIN as i128)) / DAY as i128) as i64);
}

#[test]
fn metaculus_resolutions() {
    let resolved = |r: Option<i64>| {
        let mut q = question();
        q.active_state = ActiveState::Resolved;
        q.resolution = r;
        q.get_binary_resolution()
    };
    assert_eq!(question().get_binary_resolution().unwrap(), None);
    assert_eq!(resolved(Some(-2_000_000)).unwrap(), Some(BinaryResolution::Cancel));
    assert_eq!(resolved(Some(-1_000_000)).unwrap(), Some(BinaryResolution::Cancel));
    assert_eq!(resolved(Some(0)).unwrap(), Some(BinaryResolution::No));
    assert_eq!(resolved(Some(1_000_000)).unwrap(), Some(BinaryResolution::Yes));
    assert_eq!(resolved(Some(250_000)).unwrap(), Some(BinaryResolution::Percent(250_000)));
    assert!(resolved(Some(1_500_000)).is_err());
    assert_eq!(resolved(None).unwrap(), None);
}

#[test]
fn metaculus_question_conversion() {
    let q = question().to_question().ok().unwrap();
    assert_eq!(q.source, QuestionSource::Metaculus);
    assert_eq!(q.source_id, "42");
    assert_eq!(q.source_url, "https://www.metaculus.com/questions/42/some-title/");
    assert_eq!(q.end_date, NOW + 30 * DAY);
    assert_eq!(q.embed_html().unwrap(),
        "<iframe src=\"https://www.metaculus.com/questions/question_embed/42/?theme=dark\" \
         style=\"height:430px; width:100%; max-width:550px\"></iframe>");
    let mut c = question();
    c.conditional = true;
    assert!(c.to_question().is_err());
}

fn kalshi_requirements() -> KalshiQuestionRequirements {
    KalshiQuestionRequirements {
        require_open: true,
        page_size: 200,
        single_event_per_series: false,
        exclude_resolved: true,
        exclude_series: false,
        min_days_to_resolution: 1,
        max_days_to_resolution: 100,
        min_volume: 10,
        min_recent_volume: 0,
        min_open_interest: 0,
        min_dollar_volume: 0,
        min_dollar_recent_volume: 0,
        min_dollar_open_interest: 0,
        min_liquidity: 0,
        max_age_days: 60,
        max_confidence: 900_000,
        exclude_ids: vec!["BANNED-1".to_string()],
    }
}

fn market() -> KalshiMarket {
    KalshiMarket {
        title: "Rate cut?".to_string(),
        ticker_name: "RATECUT-23DEC31".to_string(),
        status: Status::Active,
        open_date: NOW - 5 * DAY,
        result: None,
        yes_bid: 40,
        yes_ask: 45,
        expiration_date: NOW + 20 * DAY,
        volume: 1000,
        recent_volume: 10,
        open_interest: 10,
        dollar_volume: 10,
        dollar_recent_volume: 10,
        dollar_open_interest: 10,
        liquidity: 10,
        rulebook_variables: vec![RulebookVariable { key: "Date".to_string(), value_json: "\"Dec 31\"".to_string() }],
        series_ticker: "RATECUT".to_string(),
        underlying: "Cut by ||Date|| or || Date ||.".to_string(),
        settlement_sources: vec![
            SettlementSource { name: "Fed".to_string(), url: "https://fed.gov".to_string() },
            SettlementSource { name: "BLS".to_string(), url: "https://bls.gov".to_string() },
        ],
    }
}

#[test]
fn kalshi_checks_in_order() {
    let req = kalshi_requirements();
    assert!(check_market_requirements(&market(), &req, NOW).is_ok());
    let mut m = market();
    m.status = Status::Closed;
    assert_eq!(check_market_requirements(&m, &req, NOW), Err(KalshiCheckFailure::NotActive));
    let mut m = market();
    m.volume = 3;
    assert_eq!(check_market_requirements(&m, &req, NOW), Err(KalshiCheckFailure::NotEnoughVolume { volume: 3, threshold: 10 }));
    let mut m = market();
    m.yes_ask = 5;
    assert_eq!(
        check_market_requirements(&m, &req, NOW),
        Err(KalshiCheckFailure::TooExtreme { yes_bid: 40, yes_ask: 5, threshold: 900_000 })
    );
    let mut m = market();
    m.yes_bid = 95;
    assert!(matches!(check_market_requirements(&m, &req, NOW), Err(KalshiCheckFailure::TooExtreme { .. })));
    let mut m = market();
    m.ticker_name = "BANNED-1".to_string();
    assert_eq!(check_market_requirements(&m, &req, NOW), Err(KalshiCheckFailure::Banned));
}

#[test]
fn kalshi_criteria_and_conversion() {
    let m = market();
    assert_eq!(m.format_underlying_rulebook_variables(), "Cut by Dec 31 or Dec 31.");
    assert_eq!(
        m.get_resolution_sources_markdown(),
        "\n\n\n**Resolution sources**\n\n<https://fed.gov>, <https://bls.gov>"
    );
    let q = m.to_question();
    assert_eq!(q.source_url, "https://kalshi.com/markets/RATECUT#RATECUT-23DEC31");
    assert_eq!(q.criteria.clone().unwrap(), "Cut by Dec 31 or Dec 31.\n\n\n**Resolution sources**\n\n<https://fed.gov>, <https://bls.gov>");
    assert!(q.embed_html().is_none());
}

#[test]
fn kalshi_resolutions() {
    let mut m = market();
    assert_eq!(m.get_binary_resolution().unwrap(), None);
    m.status = Status::Finalized;
    m.result = Some(KalshiResult::Yes);
    assert_eq!(m.get_binary_resolution().unwrap(), Some(BinaryResolution::Yes));
    m.result = Some(KalshiResult::StillOpen);
    assert!(m.get_binary_resolution().is_err());
}

#[test]
fn events_need_exactly_one_market() {
    let event = Event {
        series_ticker: "S".to_string(),
        ticker: "E".to_string(),
        markets: vec![market()],
        settlement_sources: vec![],
        underlying: "U".to_string(),
    };
    let m = event.into_market().ok().unwrap();
    assert_eq!(m.series_ticker, "S");
    assert_eq!(m.underlying, "U");
    assert!(m.settlement_sources.is_empty());
    let two = Event { series_ticker: "S".to_string(), ticker: "E".to_string(), markets: vec![market(), market()],
        settlement_sources: vec![], underlying: "U".to_string() };
    assert!(matches!(two.into_market(), Err(KalshiError::OnlySingleMarketsSupported(2))));
}

#[test]
fn tickers_are_checked_and_upper_cased() {
    assert_eq!(normalize_ticker("ratecut-23dec31").ok().unwrap(), "RATECUT-23DEC31");
    assert_eq!(normalize_ticker("a.b").ok().unwrap(), "A.B");
    assert!(matches!(normalize_ticker("bad ticker"), Err(KalshiError::IllegalTickerCharacters(t)) if t == "bad ticker"));
    assert!(matches!(normalize_ticker("x/y"), Err(KalshiError::IllegalTickerCharacters(_))));
}

#[test]
fn stored_source_text() {
    assert_eq!(QuestionSource::Metaculus.db_text(), "METACULUS");
    assert_eq!(QuestionSource::Kalshi.name(), "Kalshi");
    assert_eq!(QuestionSource::from_db_text("kalshi"), Some(QuestionSource::Kalshi));
    assert_eq!(QuestionSource::from_db_text("POLYMARKET"), Some(QuestionSource::Polymarket));
    assert_eq!(QuestionSource::from_db_text("MANUAL"), None);
}

#[test]
fn too_confident_message_reads_as_fractions() {
    assert_eq!(
        MetaculusCheckFailure::TooExtreme { probability: 970_000, threshold: 950_000 }.message(),
        "community forecast suggests a probability of 0.97, and the maximum confidence is 0.95"
    );
}

#[test]
fn stored_source_text_round_trips() {
    for s in [QuestionSource::Kalshi, QuestionSource::Metaculus, QuestionSource::Polymarket] {
        assert_eq!(QuestionSource::from_db_text(&s.db_text()), Some(s));
    }
}
