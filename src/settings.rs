//! The configuration that every engine and processor call receives.
//! Fractions are in millionths (1_000_000 is 1.0).
use vstd::prelude::*;

verus! {

#[derive(Debug)]
pub struct Database {
    pub path: String,
}

#[derive(Debug)]
pub struct KalshiQuestionRequirements {
    pub require_open: bool,
    pub page_size: i64,
    /// Ask the platform for one event per series.
    pub single_event_per_series: bool,
    pub exclude_resolved: bool,
    pub exclude_series: bool,
    pub min_days_to_resolution: i64,
    pub max_days_to_resolution: i64,
    pub min_volume: i64,
    pub min_recent_volume: i64,
    pub min_open_interest: i64,
    pub min_dollar_volume: i64,
    pub min_dollar_recent_volume: i64,
    pub min_dollar_open_interest: i64,
    pub min_liquidity: i64,
    pub max_age_days: i64,
    /// Exclude a market whose order book puts YES or NO above this
    /// probability, in millionths.
    pub max_confidence: i64,
    pub exclude_ids: Vec<String>,
}

#[derive(Debug)]
pub struct Kalshi {
    pub auto_filter: KalshiQuestionRequirements,
    pub add_group_ids: Vec<String>,
    pub max_clones_per_day: usize,
}

#[derive(Debug)]
pub struct MarketTemplate {
    pub description_footer: String,
    pub title_retain_end_characters: usize,
    pub max_question_length: usize,
    pub max_description_length: usize,
}

impl MarketTemplate {
    /// The limits leave room for the `...` marker and the kept title end.
    pub open spec fn is_valid(&self) -> bool {
        self.max_question_length >= self.title_retain_end_characters + 3 && self.max_description_length >= 3
    }
}

/// Prices of the payment commands, in millionths of mana.
#[derive(Debug)]
pub struct Managrams {
    /// minimum amount that can be sent
    pub min_amount: u64,
    /// amount charged for mirroring
    pub mirror_cost: u64,
    /// amount charged for a resolution request
    pub resolve_cost: u64,
}

#[derive(Debug)]
pub struct Manifold {
    pub client_url: String,
    pub api_url: String,
    pub api_key: String,
    pub user_id: String,
    pub template: MarketTemplate,
    pub managrams: Managrams,
}

#[derive(Debug)]
pub struct MetaculusQuestionRequirements {
    pub require_visible_community_prediction: bool,
    pub require_open: bool,
    pub exclude_resolved: bool,
    pub exclude_grouped: bool,
    pub min_forecasters: i64,
    pub min_votes: i64,
    pub min_days_to_resolution: i64,
    pub max_days_to_resolution: i64,
    /// require activity in the last n days
    pub max_last_active_days: i64,
    pub max_age_days: i64,
    /// Exclude a question whose community forecast puts YES or NO above this
    /// probability, in millionths.
    pub max_confidence: i64,
    pub exclude_ids: Vec<i64>,
}

#[derive(Debug)]
pub struct Metaculus {
    pub url: String,
    pub api_key: String,
    pub max_clones_per_day: usize,
    pub fetch_criteria: bool,
    pub auto_filter: MetaculusQuestionRequirements,
    pub request_filter: MetaculusQuestionRequirements,
    pub add_group_ids: Vec<String>,
}

#[derive(Debug)]
pub struct Settings {
    pub database: Database,
    pub kalshi: Kalshi,
    pub manifold: Manifold,
    pub metaculus: Metaculus,
}

impl Settings {
    /// The template leaves room for its markers, and each command's price
    /// plus the minimum amount fits in 64 bits.
    pub open spec fn is_valid(&self) -> bool {
        &&& self.manifold.template.is_valid()
        &&& self.manifold.managrams.mirror_cost + self.manifold.managrams.min_amount <= u64::MAX
        &&& self.manifold.managrams.resolve_cost + self.manifold.managrams.min_amount <= u64::MAX
    }
}

} // verus!
