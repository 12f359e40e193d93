//! Kalshi markets: eligibility checks, resolution reading, and conversion to
//! the common question form. Times are milliseconds since the Unix epoch;
//! prices are in cents; the confidence limit is in millionths.
use vstd::prelude::*;
use crate::bindings::{alphanumeric, is_alphanumeric, to_uppercase, uppercase_of};
use crate::manifold::DAY_MS;
use crate::metaculus::whole_days;
use crate::settings::KalshiQuestionRequirements;
use crate::text::{concat3, replace_all, replace_str, str_eq, views};
use crate::types::{BinaryResolution, Question, QuestionSource};

verus! {

#[derive(Debug)]
pub struct SettlementSource {
    pub name: String,
    pub url: String,
}

#[derive(Debug, Clone, Copy, PartialEq, Eq, Structural)]
pub enum Status {
    Active,
    Closed,
    Finalized,
}

#[derive(Debug, Clone, Copy, PartialEq, Eq, Structural)]
pub enum KalshiResult {
    Yes,
    No,
    StillOpen,
}

/// A rulebook variable: its name and the JSON text of its value.
#[derive(Debug)]
pub struct RulebookVariable {
    pub key: String,
    pub value_json: String,
}

/// A single-market Kalshi event, with the event's series, underlying text
/// and settlement sources.
#[derive(Debug)]
pub struct KalshiMarket {
    pub title: String,
    pub ticker_name: String,
    pub status: Status,
    pub open_date: i64,
    pub result: Option<KalshiResult>,
    pub yes_bid: i64,
    pub yes_ask: i64,
    pub expiration_date: i64,
    pub volume: i64,
    pub recent_volume: i64,
    pub open_interest: i64,
    pub dollar_volume: i64,
    pub dollar_recent_volume: i64,
    pub dollar_open_interest: i64,
    pub liquidity: i64,
    pub rulebook_variables: Vec<RulebookVariable>,
    pub series_ticker: String,
    pub underlying: String,
    pub settlement_sources: Vec<SettlementSource>,
}

/// A Kalshi event and its markets.
#[derive(Debug)]
pub struct Event {
    pub series_ticker: String,
    pub ticker: String,
    pub markets: Vec<KalshiMarket>,
    pub settlement_sources: Vec<SettlementSource>,
    pub underlying: String,
}

#[derive(Debug, Clone, Copy, PartialEq, Eq, Structural)]
pub enum KalshiErrorCode {
    NotFound,
    Unknown,
}

#[derive(Debug)]
pub struct KalshiErrorResponse {
    pub code: KalshiErrorCode,
    pub message: String,
    pub service: String,
}

#[derive(Debug)]
pub enum KalshiError {
    /// The platform answered with this HTTP status and a body that could not be read.
    UnexpectedErrorType(u16),
    UnexpectedResponseType,
    ErrorResponse(u16, KalshiErrorResponse),
    OnlySingleMarketsSupported(usize),
    /// The request itself failed.
    RequestFailed(String),
    IllegalTickerCharacters(String),
}

/// Why a market is not eligible for mirroring.
#[derive(Debug, Clone, Copy, PartialEq, Eq, Structural)]
pub enum KalshiCheckFailure {
    NotActive,
    NotEnoughVolume { volume: i64, threshold: i64 },
    NotEnoughRecentVolume { recent_volume: i64, threshold: i64 },
    NotEnoughOpenInterest { open_interest: i64, threshold: i64 },
    NotEnoughLiquidity { liquidity: i64, threshold: i64 },
    NotEnoughDollarVolume { dollar_volume: i64, threshold: i64 },
    NotEnoughDollarRecentVolume { dollar_recent_volume: i64, threshold: i64 },
    NotEnoughDollarOpenInterest { dollar_open_interest: i64, threshold: i64 },
    ResolvesTooSoon { days_remaining: i64, threshold: i64 },
    ResolvesTooLate { days_remaining: i64, threshold: i64 },
    TooOld { age_days: i64, threshold: i64 },
    TooExtreme { yes_bid: i64, yes_ask: i64, threshold: i64 },
    Resolved,
    Banned,
}

impl Event {
    /// The event's only market, carrying the event's series, underlying text
    /// and settlement sources; refuses events with another number of markets.
    pub fn into_market(self) -> (r: Result<KalshiMarket, KalshiError>)
        ensures
            (r is Ok) == (self.markets@.len() == 1),
            r matches Err(KalshiError::OnlySingleMarketsSupported(n)) ==> n == self.markets@.len(),
            r is Err ==> r->Err_0 is OnlySingleMarketsSupported,
            r matches Ok(m) ==> m.title == self.markets@[0].title && m.ticker_name == self.markets@[0].ticker_name
                && m.series_ticker == self.series_ticker && m.underlying == self.underlying
                && m.settlement_sources == self.settlement_sources && m.status == self.markets@[0].status
                && m.expiration_date == self.markets@[0].expiration_date,
    {
        let mut event = self;
        if event.markets.len() != 1 {
            return Err(KalshiError::OnlySingleMarketsSupported(event.markets.len()));
        }
        let mut market = event.markets.pop().unwrap();
        market.series_ticker = event.series_ticker;
        market.underlying = event.underlying;
        market.settlement_sources = event.settlement_sources;
        Ok(market)
    }
}

/// `t` without its first and last characters (the quotes of a JSON
/// string); empty when `t` has fewer than two.
pub open spec fn unquoted(t: Seq<char>) -> Seq<char> {
    if t.len() >= 2 {
        t.subrange(1, t.len() - 1)
    } else {
        Seq::empty()
    }
}

fn unquoted_exec(t: &str) -> (r: String)
    ensures
        r@ == unquoted(t@),
{
    let n = t.unicode_len();
    if n >= 2 {
        String::from_str(t.substring_char(1, n - 1))
    } else {
        String::new()
    }
}

/// `text` with the first `k` rulebook variables substituted, each written
/// `||name||` or `|| name ||`.
pub open spec fn substituted(text: Seq<char>, vars: Seq<RulebookVariable>, k: int) -> Seq<char>
    decreases k,
{
    if k <= 0 {
        text
    } else {
        let prev = substituted(text, vars, k - 1);
        let v = vars[k - 1];
        let value = unquoted(v.value_json@);
        replace_all(replace_all(prev, "||"@ + v.key@ + "||"@, value), "|| "@ + v.key@ + " ||"@, value)
    }
}

/// Settlement source links, `<url>` each, separated by `, `.
pub open spec fn joined_sources(s: Seq<SettlementSource>) -> Seq<char>
    decreases s.len(),
{
    if s.len() == 0 {
        Seq::empty()
    } else if s.len() == 1 {
        "<"@ + s[0].url@ + ">"@
    } else {
        joined_sources(s.drop_last()) + ", <"@ + s.last().url@ + ">"@
    }
}

pub open spec fn sources_markdown(s: Seq<SettlementSource>) -> Seq<char> {
    if s.len() == 0 {
        Seq::empty()
    } else {
        "\n\n\n**Resolution sources**\n\n"@ + joined_sources(s)
    }
}

impl KalshiMarket {
    pub fn id(&self) -> (r: &str)
        ensures
            r@ == self.ticker_name@,
    {
        self.ticker_name.as_str()
    }

    pub fn is_resolved(&self) -> (r: bool)
        ensures
            r == (self.status == Status::Finalized),
    {
        self.status == Status::Finalized
    }

    pub fn is_active(&self) -> (r: bool)
        ensures
            r == (self.status == Status::Active),
    {
        self.status == Status::Active
    }

    pub fn title(&self) -> (r: String)
        ensures
            r == self.title,
    {
        self.title.clone()
    }

    /// Time until expiration at `now`, in milliseconds.
    pub open spec fn time_to_resolution(&self, now: i64) -> int {
        self.expiration_date - now
    }

    /// Age at `now`, in milliseconds.
    pub open spec fn age(&self, now: i64) -> int {
        now - self.open_date
    }

    pub open spec fn full_url_spec(&self) -> Seq<char> {
        "https://kalshi.com/markets/"@ + self.series_ticker@ + "#"@ + self.ticker_name@
    }

    pub fn full_url(&self) -> (r: String)
        ensures
            r@ == self.full_url_spec(),
    {
        concat3("https://kalshi.com/markets/", self.series_ticker.as_str(), "#").concat(self.ticker_name.as_str())
    }

    /// The underlying text with its rulebook variables filled in.
    pub fn format_underlying_rulebook_variables(&self) -> (r: String)
        ensures
            r@ == substituted(self.underlying@, self.rulebook_variables@, self.rulebook_variables@.len() as int),
    {
        let mut text = self.underlying.clone();
        let mut k: usize = 0;
        while k < self.rulebook_variables.len()
            invariant
                k <= self.rulebook_variables@.len(),
                text@ == substituted(self.underlying@, self.rulebook_variables@, k as int),
            decreases self.rulebook_variables@.len() - k,
        {
            let v = &self.rulebook_variables[k];
            let value = unquoted_exec(v.value_json.as_str());
            let plain = concat3("||", v.key.as_str(), "||");
            let spaced = concat3("|| ", v.key.as_str(), " ||");
            proof {
                reveal_strlit("||");
                reveal_strlit("|| ");
                reveal_strlit(" ||");
            }
            let once = replace_str(text.as_str(), plain.as_str(), value.as_str());
            text = replace_str(once.as_str(), spaced.as_str(), value.as_str());
            k = k + 1;
        }
        text
    }

    /// Links to the settlement sources, under a heading; empty when there
    /// are none.
    pub fn get_resolution_sources_markdown(&self) -> (r: String)
        ensures
            r@ == sources_markdown(self.settlement_sources@),
    {
        let n = self.settlement_sources.len();
        if n == 0 {
            return String::new();
        }
        let mut joined = concat3("<", self.settlement_sources[0].url.as_str(), ">");
        let mut k: usize = 1;
        assert(self.settlement_sources@.subrange(0, 1).drop_last() =~= Seq::<SettlementSource>::empty());
        while k < n
            invariant
                n == self.settlement_sources@.len(),
                1 <= k <= n,
                joined@ == joined_sources(self.settlement_sources@.subrange(0, k as int)),
            decreases n - k,
        {
            assert(self.settlement_sources@.subrange(0, k + 1).drop_last() =~= self.settlement_sources@.subrange(0, k as int));
            joined.append(", <");
            joined.append(self.settlement_sources[k].url.as_str());
            joined.append(">");
            k = k + 1;
        }
        assert(self.settlement_sources@.subrange(0, n as int) =~= self.settlement_sources@);
        String::from_str("\n\n\n**Resolution sources**\n\n").concat(joined.as_str())
    }

    pub fn get_criteria_and_sources(&self) -> (r: String)
        ensures
            r@ == substituted(self.underlying@, self.rulebook_variables@, self.rulebook_variables@.len() as int)
                + sources_markdown(self.settlement_sources@),
    {
        self.format_underlying_rulebook_variables().concat(self.get_resolution_sources_markdown().as_str())
    }

    /// The binary resolution of a settled market; `Ok(None)` while it is not
    /// settled.
    pub open spec fn binary_resolution_spec(&self) -> Result<Option<BinaryResolution>, ()> {
        if self.status != Status::Finalized {
            Ok(None)
        } else {
            match self.result {
                Some(KalshiResult::Yes) => Ok(Some(BinaryResolution::Yes)),
                Some(KalshiResult::No) => Ok(Some(BinaryResolution::No)),
                _ => Err(()),
            }
        }
    }

    pub fn get_binary_resolution(&self) -> (r: Result<Option<BinaryResolution>, String>)
        ensures
            match r {
                Ok(res) => self.binary_resolution_spec() == Ok::<_, ()>(res),
                Err(_) => self.binary_resolution_spec() is Err,
            },
            r matches Ok(Some(res)) ==> res.is_valid(),
    {
        if !self.is_resolved() {
            return Ok(None);
        }
        match self.result {
            Some(KalshiResult::Yes) => Ok(Some(BinaryResolution::Yes)),
            Some(KalshiResult::No) => Ok(Some(BinaryResolution::No)),
            Some(KalshiResult::StillOpen) => Err(String::from_str("Kalshi market is resolved but has no result")),
            None => Err(String::from_str("Kalshi market is resolved but with an unexpected result")),
        }
    }

    /// The common question form of this market.
    pub fn to_question(&self) -> (r: Question)
        ensures
            r.source == QuestionSource::Kalshi,
            r.source_url@ == self.full_url_spec(),
            r.source_id@ == self.ticker_name@,
            r.question@ == self.title@,
            r.criteria matches Some(c) && c@ == substituted(self.underlying@, self.rulebook_variables@, self.rulebook_variables@.len() as int)
                + sources_markdown(self.settlement_sources@),
            r.end_date == self.expiration_date,
    {
        Question {
            source: QuestionSource::Kalshi,
            source_url: self.full_url(),
            source_id: self.ticker_name.clone(),
            question: self.title.clone(),
            criteria: Some(self.get_criteria_and_sources()),
            end_date: self.expiration_date,
        }
    }
}

pub open spec fn is_ticker_char(c: char) -> bool {
    alphanumeric(c) || c == '-' || c == '.'
}

/// Checks a ticker typed by a user (letters, digits, `-` and `.` only) and
/// gives the upper-case form the platform's API expects.
pub fn normalize_ticker(input_ticker: &str) -> (r: Result<String, KalshiError>)
    ensures
        (r is Ok) == (forall|k: int| 0 <= k < input_ticker@.len() ==> is_ticker_char(#[trigger] input_ticker@[k])),
        r matches Ok(t) ==> t@ == uppercase_of(input_ticker@),
        r matches Err(e) ==> (e matches KalshiError::IllegalTickerCharacters(t) && t@ == input_ticker@),
{
    let n = input_ticker.unicode_len();
    let mut i: usize = 0;
    while i < n
        invariant
            n == input_ticker@.len(),
            i <= n,
            forall|k: int| 0 <= k < i ==> is_ticker_char(#[trigger] input_ticker@[k]),
        decreases n - i,
    {
        let c = input_ticker.get_char(i);
        if !(is_alphanumeric(c) || c == '-' || c == '.') {
            assert(!is_ticker_char(input_ticker@[i as int]));
            return Err(KalshiError::IllegalTickerCharacters(input_ticker.to_owned()));
        }
        i = i + 1;
    }
    Ok(to_uppercase(input_ticker))
}

/// The first requirement, in the order checked, that `m` fails at `now`.
pub open spec fn kalshi_check_spec(m: KalshiMarket, req: KalshiQuestionRequirements, now: i64) -> Option<KalshiCheckFailure> {
    let ttr = m.time_to_resolution(now);
    if req.require_open && m.status != Status::Active {
        Some(KalshiCheckFailure::NotActive)
    } else if req.exclude_resolved && m.status == Status::Finalized {
        Some(KalshiCheckFailure::Resolved)
    } else if m.liquidity < req.min_liquidity {
        Some(KalshiCheckFailure::NotEnoughLiquidity { liquidity: m.liquidity, threshold: req.min_liquidity })
    } else if m.volume < req.min_volume {
        Some(KalshiCheckFailure::NotEnoughVolume { volume: m.volume, threshold: req.min_volume })
    } else if m.recent_volume < req.min_recent_volume {
        Some(KalshiCheckFailure::NotEnoughRecentVolume { recent_volume: m.recent_volume, threshold: req.min_recent_volume })
    } else if m.open_interest < req.min_open_interest {
        Some(KalshiCheckFailure::NotEnoughOpenInterest { open_interest: m.open_interest, threshold: req.min_open_interest })
    } else if m.dollar_volume < req.min_dollar_volume {
        Some(KalshiCheckFailure::NotEnoughDollarVolume { dollar_volume: m.dollar_volume, threshold: req.min_dollar_volume })
    } else if m.dollar_recent_volume < req.min_dollar_recent_volume {
        Some(
            KalshiCheckFailure::NotEnoughDollarRecentVolume {
                dollar_recent_volume: m.dollar_recent_volume,
                threshold: req.min_dollar_recent_volume,
            },
        )
    } else if m.dollar_open_interest < req.min_dollar_open_interest {
        Some(
            KalshiCheckFailure::NotEnoughDollarOpenInterest {
                dollar_open_interest: m.dollar_open_interest,
                threshold: req.min_dollar_open_interest,
            },
        )
    } else if ttr < req.min_days_to_resolution * DAY_MS {
        Some(KalshiCheckFailure::ResolvesTooSoon { days_remaining: whole_days(ttr) as i64, threshold: req.min_days_to_resolution })
    } else if ttr > req.max_days_to_resolution * DAY_MS {
        Some(KalshiCheckFailure::ResolvesTooLate { days_remaining: whole_days(ttr) as i64, threshold: req.max_days_to_resolution })
    } else if m.age(now) > req.max_age_days * DAY_MS {
        Some(KalshiCheckFailure::TooOld { age_days: whole_days(m.age(now)) as i64, threshold: req.max_age_days })
    } else if (100 - m.yes_ask) * 10000 > req.max_confidence || m.yes_bid * 10000 > req.max_confidence {
        Some(KalshiCheckFailure::TooExtreme { yes_bid: m.yes_bid, yes_ask: m.yes_ask, threshold: req.max_confidence })
    } else if views(req.exclude_ids@).contains(m.ticker_name@) {
        Some(KalshiCheckFailure::Banned)
    } else {
        None
    }
}

fn contains_str(ids: &Vec<String>, id: &str) -> (r: bool)
    ensures
        r == views(ids@).contains(id@),
{
    let mut i: usize = 0;
    while i < ids.len()
        invariant
            i <= ids@.len(),
            forall|k: int| 0 <= k < i ==> ids@[k]@ != id@,
        decreases ids@.len() - i,
    {
        if str_eq(ids[i].as_str(), id) {
            assert(views(ids@)[i as int] == id@);
            return true;
        }
        i = i + 1;
    }
    proof {
        if views(ids@).contains(id@) {
            let k = choose|k: int| 0 <= k < views(ids@).len() && views(ids@)[k] == id@;
            assert(ids@[k]@ == id@);
        }
    }
    false
}

/// Checks a market against the configured requirements at time `now`; the
/// error is the first requirement it fails.
pub fn check_market_requirements(market: &KalshiMarket, requirements: &KalshiQuestionRequirements, now: i64) -> (r: Result<(), KalshiCheckFailure>)
    ensures
        match r {
            Ok(()) => kalshi_check_spec(*market, *requirements, now) is None,
            Err(f) => kalshi_check_spec(*market, *requirements, now) == Some(f),
        },
{
    let day: i128 = DAY_MS as i128;
    let ttr: i128 = market.expiration_date as i128 - now as i128;
    if requirements.require_open && !market.is_active() {
        return Err(KalshiCheckFailure::NotActive);
    }
    if requirements.exclude_resolved && market.is_resolved() {
        return Err(KalshiCheckFailure::Resolved);
    }
    if market.liquidity < requirements.min_liquidity {
        return Err(KalshiCheckFailure::NotEnoughLiquidity { liquidity: market.liquidity, threshold: requirements.min_liquidity });
    }
    if market.volume < requirements.min_volume {
        return Err(KalshiCheckFailure::NotEnoughVolume { volume: market.volume, threshold: requirements.min_volume });
    }
    if market.recent_volume < requirements.min_recent_volume {
        return Err(KalshiCheckFailure::NotEnoughRecentVolume {
            recent_volume: market.recent_volume,
            threshold: requirements.min_recent_volume,
        });
    }
    if market.open_interest < requirements.min_open_interest {
        return Err(KalshiCheckFailure::NotEnoughOpenInterest {
            open_interest: market.open_interest,
            threshold: requirements.min_open_interest,
        });
    }
    if market.dollar_volume < requirements.min_dollar_volume {
        return Err(KalshiCheckFailure::NotEnoughDollarVolume {
            dollar_volume: market.dollar_volume,
            threshold: requirements.min_dollar_volume,
        });
    }
    if market.dollar_recent_volume < requirements.min_dollar_recent_volume {
        return Err(KalshiCheckFailure::NotEnoughDollarRecentVolume {
            dollar_recent_volume: market.dollar_recent_volume,
            threshold: requirements.min_dollar_recent_volume,
        });
    }
    if market.dollar_open_interest < requirements.min_dollar_open_interest {
        return Err(KalshiCheckFailure::NotEnoughDollarOpenInterest {
            dollar_open_interest: market.dollar_open_interest,
            threshold: requirements.min_dollar_open_interest,
        });
    }
    if ttr < requirements.min_days_to_resolution as i128 * day {
        return Err(KalshiCheckFailure::ResolvesTooSoon {
            days_remaining: crate::metaculus::days_between(market.expiration_date, now),
            threshold: requirements.min_days_to_resolution,
        });
    }
    if ttr > requirements.max_days_to_resolution as i128 * day {
        return Err(KalshiCheckFailure::ResolvesTooLate {
            days_remaining: crate::metaculus::days_between(market.expiration_date, now),
            threshold: requirements.max_days_to_resolution,
        });
    }
    if now as i128 - market.open_date as i128 > requirements.max_age_days as i128 * day {
        return Err(KalshiCheckFailure::TooOld {
            age_days: crate::metaculus::days_between(now, market.open_date),
            threshold: requirements.max_age_days,
        });
    }
    let limit: i128 = requirements.max_confidence as i128;
    if (100 - market.yes_ask as i128) * 10000 > limit || market.yes_bid as i128 * 10000 > limit {
        return Err(KalshiCheckFailure::TooExtreme {
            yes_bid: market.yes_bid,
            yes_ask: market.yes_ask,
            threshold: requirements.max_confidence,
        });
    }
    if contains_str(&requirements.exclude_ids, market.id()) {
        return Err(KalshiCheckFailure::Banned);
    }
    Ok(())
}

} // verus!
