//! Metaculus questions: eligibility checks, resolution reading, and
//! conversion to the common question form. Times are milliseconds since the
//! Unix epoch; probabilities and resolutions are in millionths.
use vstd::prelude::*;
use crate::manifold::DAY_MS;
use crate::settings::{MetaculusQuestionRequirements, Settings};
use crate::text::{concat3, fixed_decimal, fixed_to_decimal, i64_to_decimal, signed_decimal};
use crate::types::{BinaryResolution, Question, QuestionSource, PERCENT_SCALE};

verus! {

#[derive(Debug, Clone, Copy, PartialEq, Eq, Structural)]
pub enum QuestionStatus {
    Active,
    Draft,
    Inactive,
    Rejected,
    Deleted,
    Private,
}

#[derive(Debug, Clone, Copy, PartialEq, Eq, Structural)]
pub enum QuestionType {
    Forecast,
    Notebook,
    Discussion,
    Claim,
    Group,
    ConditionalGroup,
}

#[derive(Debug, Clone, Copy, PartialEq, Eq, Structural)]
pub enum ForecastType {
    Binary,
    Continuous,
    Unknown,
}

#[derive(Debug, Clone, Copy, PartialEq, Eq, Structural)]
pub enum ActiveState {
    Draft,
    Pending,
    Deferred,
    Unmoderated,
    Upcoming,
    Open,
    Closed,
    Resolved,
    PendingResolution,
}

#[derive(Debug, Clone, Copy, PartialEq, Eq, Structural)]
pub struct PossibilitiesStub {
    pub forecast_type: ForecastType,
}

/// Community prediction quartiles; `q2` is the median, in millionths.
#[derive(Debug, Clone, Copy, PartialEq, Eq, Structural)]
pub struct CpsFull {
    pub q2: Option<i64>,
}

#[derive(Debug, Clone, Copy, PartialEq, Eq, Structural)]
pub struct CommunityPredictionStub {
    pub full: Option<CpsFull>,
}

/// A Metaculus question. `resolution` is in millionths: -2_000_000 for
/// annulled, -1_000_000 for ambiguous, else the probability of YES.
#[derive(Debug)]
pub struct MetaculusQuestion {
    pub active_state: ActiveState,
    /// API question url
    pub url: String,
    /// Relative question url.
    pub page_url: String,
    pub id: i64,
    pub author: i64,
    pub author_name: String,
    pub title: String,
    pub title_short: String,
    pub status: QuestionStatus,
    pub resolution: Option<i64>,
    pub publish_time: i64,
    pub resolve_time: i64,
    pub possibilities: PossibilitiesStub,
    pub question_type: QuestionType,
    pub edited_time: Option<i64>,
    pub last_activity_time: Option<i64>,
    pub votes: i64,
    pub community_prediction: Option<CommunityPredictionStub>,
    pub number_of_forecasters: Option<i64>,
    pub prediction_count: i64,
    pub group: Option<i64>,
    /// Whether the question is conditional on another.
    pub conditional: bool,
    /// only present when fetched one by one
    pub resolution_criteria: Option<String>,
}

/// Why a question is not eligible for mirroring.
#[derive(Debug, Clone, Copy, PartialEq, Eq, Structural)]
pub enum MetaculusCheckFailure {
    NotBinary,
    Conditional,
    NotForecast,
    NoCommunityPrediction,
    NotOpen,
    Grouped,
    NotEnoughForecasters { forecasters: i64, threshold: i64 },
    NotEnoughVotes { votes: i64, threshold: i64 },
    ResolvesTooSoon { days_remaining: i64, threshold: i64 },
    ResolvesTooLate { days_remaining: i64, threshold: i64 },
    NoRecentActivity { days_since_active: i64, threshold: i64 },
    TooOld { age_days: i64, threshold: i64 },
    TooExtreme { probability: i64, threshold: i64 },
    Resolved,
    Banned,
}

/// `pre x mid y post`, the two numbers in decimal.
pub open spec fn two_numbers(pre: Seq<char>, x: i64, mid: Seq<char>, y: i64, post: Seq<char>) -> Seq<char> {
    pre + signed_decimal(x as int) + mid + signed_decimal(y as int) + post
}

pub fn two_numbers_exec(pre: &str, x: i64, mid: &str, y: i64, post: &str) -> (r: String)
    ensures
        r@ == two_numbers(pre@, x, mid@, y, post@),
{
    let mut r = String::from_str(pre);
    r.append(i64_to_decimal(x).as_str());
    r.append(mid);
    r.append(i64_to_decimal(y).as_str());
    r.append(post);
    r
}

/// Decimal notation of `i` millionths, with a leading `-` when negative.
pub open spec fn signed_fixed(i: int) -> Seq<char> {
    if i < 0 {
        seq!['-'] + fixed_decimal((-i) as nat)
    } else {
        fixed_decimal(i as nat)
    }
}

pub fn signed_fixed_exec(i: i64) -> (r: String)
    ensures
        r@ == signed_fixed(i as int),
{
    if i < 0 {
        let m: u64 = (-(i as i128)) as u64;
        let mut s = String::from_str("-");
        s.append(fixed_to_decimal(m).as_str());
        proof {
            reveal_strlit("-");
        }
        s
    } else {
        fixed_to_decimal(i as u64)
    }
}

/// The explanation given to a user for a failed requirement.
pub open spec fn check_failure_text(f: MetaculusCheckFailure) -> Seq<char> {
    match f {
        MetaculusCheckFailure::NotBinary => "not a binary question"@,
        MetaculusCheckFailure::Conditional => "conditional question"@,
        MetaculusCheckFailure::NotForecast => "question is not a forecast"@,
        MetaculusCheckFailure::NoCommunityPrediction => "community prediction still hidden"@,
        MetaculusCheckFailure::NotOpen => "question is not open"@,
        MetaculusCheckFailure::Grouped => "question is part of a group"@,
        MetaculusCheckFailure::NotEnoughForecasters { forecasters, threshold } =>
            two_numbers("question has "@, forecasters, " forecasters, and the minimum is "@, threshold, Seq::empty()),
        MetaculusCheckFailure::NotEnoughVotes { votes, threshold } =>
            two_numbers("question has "@, votes, " votes, and the minimum is "@, threshold, Seq::empty()),
        MetaculusCheckFailure::ResolvesTooSoon { days_remaining, threshold } =>
            two_numbers("question resolves in "@, days_remaining, " days, and the minimum is "@, threshold, Seq::empty()),
        MetaculusCheckFailure::ResolvesTooLate { days_remaining, threshold } =>
            two_numbers("question resolves in "@, days_remaining, " days, and the maximum is "@, threshold, Seq::empty()),
        MetaculusCheckFailure::NoRecentActivity { days_since_active, threshold } =>
            two_numbers("question was last active "@, days_since_active, " days ago, and the maximum is "@, threshold, Seq::empty()),
        MetaculusCheckFailure::TooOld { age_days, threshold } =>
            two_numbers("question published "@, age_days, " days ago, and the maximum is "@, threshold, Seq::empty()),
        MetaculusCheckFailure::TooExtreme { probability, threshold } => "community forecast suggests a probability of "@
            + signed_fixed(probability as int) + ", and the maximum confidence is "@ + signed_fixed(threshold as int),
        MetaculusCheckFailure::Resolved => "question has already resolved"@,
        MetaculusCheckFailure::Banned => "question is banned in config"@,
    }
}

impl MetaculusCheckFailure {
    pub fn message(&self) -> (r: String)
        ensures
            r@ == check_failure_text(*self),
    {
        proof {
            reveal_strlit("");
        }
        match *self {
            MetaculusCheckFailure::NotBinary => String::from_str("not a binary question"),
            MetaculusCheckFailure::Conditional => String::from_str("conditional question"),
            MetaculusCheckFailure::NotForecast => String::from_str("question is not a forecast"),
            MetaculusCheckFailure::NoCommunityPrediction => String::from_str("community prediction still hidden"),
            MetaculusCheckFailure::NotOpen => String::from_str("question is not open"),
            MetaculusCheckFailure::Grouped => String::from_str("question is part of a group"),
            MetaculusCheckFailure::NotEnoughForecasters { forecasters, threshold } =>
                two_numbers_exec("question has ", forecasters, " forecasters, and the minimum is ", threshold, ""),
            MetaculusCheckFailure::NotEnoughVotes { votes, threshold } =>
                two_numbers_exec("question has ", votes, " votes, and the minimum is ", threshold, ""),
            MetaculusCheckFailure::ResolvesTooSoon { days_remaining, threshold } =>
                two_numbers_exec("question resolves in ", days_remaining, " days, and the minimum is ", threshold, ""),
            MetaculusCheckFailure::ResolvesTooLate { days_remaining, threshold } =>
                two_numbers_exec("question resolves in ", days_remaining, " days, and the maximum is ", threshold, ""),
            MetaculusCheckFailure::NoRecentActivity { days_since_active, threshold } =>
                two_numbers_exec("question was last active ", days_since_active, " days ago, and the maximum is ", threshold, ""),
            MetaculusCheckFailure::TooOld { age_days, threshold } =>
                two_numbers_exec("question published ", age_days, " days ago, and the maximum is ", threshold, ""),
            MetaculusCheckFailure::TooExtreme { probability, threshold } => {
                let mut r = String::from_str("community forecast suggests a probability of ");
                r.append(signed_fixed_exec(probability).as_str());
                r.append(", and the maximum confidence is ");
                r.append(signed_fixed_exec(threshold).as_str());
                r
            },
            MetaculusCheckFailure::Resolved => String::from_str("question has already resolved"),
            MetaculusCheckFailure::Banned => String::from_str("question is banned in config"),
        }
    }
}

/// Whole days in `ms`, rounded toward zero.
pub open spec fn whole_days(ms: int) -> int {
    if ms >= 0 {
        ms / (DAY_MS as int)
    } else {
        -((-ms) / (DAY_MS as int))
    }
}

/// `whole_days` of a difference of two times, which always fits.
pub fn days_between(later: i64, earlier: i64) -> (r: i64)
    ensures
        r == whole_days(later - earlier),
{
    let d: i128 = later as i128 - earlier as i128;
    let r: i128 = if d >= 0 {
        d / (DAY_MS as i128)
    } else {
        -((-d) / (DAY_MS as i128))
    };
    r as i64
}

/// The confidence a probability `p` (millionths) expresses: the larger of
/// `p` and `1 - p`.
pub open spec fn confidence(p: int) -> int {
    if p >= PERCENT_SCALE - p {
        p
    } else {
        PERCENT_SCALE - p
    }
}

impl MetaculusQuestion {
    pub open spec fn prediction_spec(&self) -> Option<i64> {
        match self.community_prediction {
            Some(cp) => match cp.full {
                Some(f) => f.q2,
                None => None,
            },
            None => None,
        }
    }

    /// Community prediction (median), if available.
    pub fn community_prediction_prob(&self) -> (r: Option<i64>)
        ensures
            r == self.prediction_spec(),
    {
        match self.community_prediction {
            Some(cp) => match cp.full {
                Some(f) => f.q2,
                None => None,
            },
            None => None,
        }
    }

    pub fn community_prediction_visible(&self) -> (r: bool)
        ensures
            r == self.prediction_spec() is Some,
    {
        self.community_prediction_prob().is_some()
    }

    pub fn is_forecast(&self) -> (r: bool)
        ensures
            r == (self.question_type == QuestionType::Forecast),
    {
        self.question_type == QuestionType::Forecast
    }

    pub fn is_binary(&self) -> (r: bool)
        ensures
            r == (self.possibilities.forecast_type == ForecastType::Binary),
    {
        self.possibilities.forecast_type == ForecastType::Binary
    }

    pub fn is_grouped(&self) -> (r: bool)
        ensures
            r == self.group is Some,
    {
        self.group.is_some()
    }

    pub fn is_conditional(&self) -> (r: bool)
        ensures
            r == self.conditional,
    {
        self.conditional
    }

    pub fn is_resolved(&self) -> (r: bool)
        ensures
            r == (self.active_state == ActiveState::Resolved),
    {
        self.active_state == ActiveState::Resolved
    }

    pub fn full_url(&self) -> (r: String)
        ensures
            r@ == "https://www.metaculus.com"@ + self.page_url@,
    {
        String::from_str("https://www.metaculus.com").concat(self.page_url.as_str())
    }

    /// Whether the question must be fetched again, alone, to get its
    /// resolution criteria before it is mirrored (lists leave them out).
    pub fn needs_criteria_fetch(&self, config: &Settings) -> (r: bool)
        ensures
            r == (config.metaculus.fetch_criteria && self.resolution_criteria is None),
    {
        config.metaculus.fetch_criteria && self.resolution_criteria.is_none()
    }

    /// Time until resolution at `now`, in milliseconds.
    pub open spec fn time_to_resolution(&self, now: i64) -> int {
        self.resolve_time - now
    }

    /// Age at `now`, in milliseconds.
    pub open spec fn age(&self, now: i64) -> int {
        now - self.publish_time
    }

    /// The binary resolution this question reports; `Ok(None)` while it has
    /// not resolved.
    pub open spec fn binary_resolution_spec(&self) -> Result<Option<BinaryResolution>, ()> {
        if self.active_state != ActiveState::Resolved {
            Ok(None)
        } else if self.possibilities.forecast_type != ForecastType::Binary {
            Err(())
        } else {
            match self.resolution {
                None => Ok(None),
                Some(r) => if r == -2000000 || r == -1000000 {
                    Ok(Some(BinaryResolution::Cancel))
                } else if r == 0 {
                    Ok(Some(BinaryResolution::No))
                } else if r == 1000000 {
                    Ok(Some(BinaryResolution::Yes))
                } else if 0 <= r && r <= 1000000 {
                    Ok(Some(BinaryResolution::Percent(r as u32)))
                } else {
                    Err(())
                },
            }
        }
    }

    pub fn get_binary_resolution(&self) -> (r: Result<Option<BinaryResolution>, String>)
        ensures
            match r {
                Ok(res) => self.binary_resolution_spec() == Ok::<_, ()>(res),
                Err(_) => self.binary_resolution_spec() is Err,
            },
            r matches Ok(Some(res)) ==> res.is_valid(),
    {
        if self.active_state != ActiveState::Resolved {
            return Ok(None);
        }
        if self.possibilities.forecast_type != ForecastType::Binary {
            return Err(String::from_str("question type is not binary"));
        }
        match self.resolution {
            None => Ok(None),
            Some(r) => if r == -2000000 || r == -1000000 {
                Ok(Some(BinaryResolution::Cancel))
            } else if r == 0 {
                Ok(Some(BinaryResolution::No))
            } else if r == 1000000 {
                Ok(Some(BinaryResolution::Yes))
            } else if 0 <= r && r <= 1000000 {
                Ok(Some(BinaryResolution::Percent(r as u32)))
            } else {
                Err(concat3("unexpected resolution value `", i64_to_decimal(r).as_str(), "`"))
            },
        }
    }

    /// The common question form of this question; refuses conditional,
    /// non-binary and non-forecast questions.
    pub fn to_question(&self) -> (r: Result<Question, String>)
        ensures
            (r is Ok) == (!self.conditional && self.possibilities.forecast_type == ForecastType::Binary
                && self.question_type == QuestionType::Forecast),
            r matches Ok(q) ==> q.source == QuestionSource::Metaculus && q.source_url@ == "https://www.metaculus.com"@
                + self.page_url@ && q.source_id@ == signed_decimal(self.id as int) && q.question@ == self.title@
                && q.criteria == self.resolution_criteria && q.end_date == self.resolve_time,
    {
        if self.is_conditional() {
            return Err(String::from_str("conditional questions are not supported yet"));
        }
        if !self.is_binary() {
            return Err(String::from_str("non-binary questions are not supported yet"));
        }
        if !self.is_forecast() {
            return Err(String::from_str("non-forecast questions are not supported"));
        }
        let criteria = match &self.resolution_criteria {
            Some(c) => Some(c.clone()),
            None => None,
        };
        Ok(Question {
            source: QuestionSource::Metaculus,
            source_url: self.full_url(),
            source_id: i64_to_decimal(self.id),
            question: self.title.clone(),
            criteria,
            end_date: self.resolve_time,
        })
    }
}

/// The first requirement, in the order checked, that `q` fails at `now`.
pub open spec fn metaculus_check_spec(
    q: MetaculusQuestion,
    req: MetaculusQuestionRequirements,
    now: i64,
) -> Option<MetaculusCheckFailure> {
    let ttr = q.time_to_resolution(now);
    if q.possibilities.forecast_type != ForecastType::Binary {
        Some(MetaculusCheckFailure::NotBinary)
    } else if q.conditional {
        Some(MetaculusCheckFailure::Conditional)
    } else if q.question_type != QuestionType::Forecast {
        Some(MetaculusCheckFailure::NotForecast)
    } else if req.require_visible_community_prediction && q.prediction_spec() is None {
        Some(MetaculusCheckFailure::NoCommunityPrediction)
    } else if req.require_open && q.active_state != ActiveState::Open {
        Some(MetaculusCheckFailure::NotOpen)
    } else if req.exclude_resolved && q.active_state == ActiveState::Resolved {
        Some(MetaculusCheckFailure::Resolved)
    } else if req.exclude_grouped && q.group is Some {
        Some(MetaculusCheckFailure::Grouped)
    } else if q.number_of_forecasters is None {
        Some(MetaculusCheckFailure::NotEnoughForecasters { forecasters: -1i64, threshold: req.min_forecasters })
    } else if q.number_of_forecasters->0 < req.min_forecasters {
        Some(
            MetaculusCheckFailure::NotEnoughForecasters {
                forecasters: q.number_of_forecasters->0,
                threshold: req.min_forecasters,
            },
        )
    } else if q.votes < req.min_votes {
        Some(MetaculusCheckFailure::NotEnoughVotes { votes: q.votes, threshold: req.min_votes })
    } else if ttr < req.min_days_to_resolution * DAY_MS {
        Some(
            MetaculusCheckFailure::ResolvesTooSoon {
                days_remaining: whole_days(ttr) as i64,
                threshold: req.min_days_to_resolution,
            },
        )
    } else if ttr > req.max_days_to_resolution * DAY_MS {
        Some(
            MetaculusCheckFailure::ResolvesTooLate {
                days_remaining: whole_days(ttr) as i64,
                threshold: req.max_days_to_resolution,
            },
        )
    } else if q.last_activity_time is None {
        Some(MetaculusCheckFailure::NoRecentActivity { days_since_active: -1i64, threshold: req.max_last_active_days })
    } else if whole_days(now - q.last_activity_time->0) > req.max_last_active_days {
        Some(
            MetaculusCheckFailure::NoRecentActivity {
                days_since_active: whole_days(now - q.last_activity_time->0) as i64,
                threshold: req.max_last_active_days,
            },
        )
    } else if q.age(now) > req.max_age_days * DAY_MS {
        Some(MetaculusCheckFailure::TooOld { age_days: whole_days(q.age(now)) as i64, threshold: req.max_age_days })
    } else if q.prediction_spec() is Some && confidence(q.prediction_spec()->0 as int) > req.max_confidence {
        Some(
            MetaculusCheckFailure::TooExtreme {
                probability: q.prediction_spec()->0,
                threshold: req.max_confidence,
            },
        )
    } else if req.exclude_ids@.contains(q.id) {
        Some(MetaculusCheckFailure::Banned)
    } else {
        None
    }
}

fn contains_id(ids: &Vec<i64>, id: i64) -> (r: bool)
    ensures
        r == ids@.contains(id),
{
    let mut i: usize = 0;
    while i < ids.len()
        invariant
            i <= ids@.len(),
            forall|k: int| 0 <= k < i ==> ids@[k] != id,
        decreases ids@.len() - i,
    {
        if ids[i] == id {
            return true;
        }
        i = i + 1;
    }
    false
}

/// Checks a question against the configured requirements at time `now`;
/// the error is the first requirement it fails.
pub fn check_question_requirements(
    question: &MetaculusQuestion,
    requirements: &MetaculusQuestionRequirements,
    now: i64,
) -> (r: Result<(), MetaculusCheckFailure>)
    ensures
        match r {
            Ok(()) => metaculus_check_spec(*question, *requirements, now) is None,
            Err(f) => metaculus_check_spec(*question, *requirements, now) == Some(f),
        },
{
    let ttr: i128 = question.resolve_time as i128 - now as i128;
    let day: i128 = DAY_MS as i128;
    if !question.is_binary() {
        return Err(MetaculusCheckFailure::NotBinary);
    }
    if question.is_conditional() {
        return Err(MetaculusCheckFailure::Conditional);
    }
    if !question.is_forecast() {
        return Err(MetaculusCheckFailure::NotForecast);
    }
    if requirements.require_visible_community_prediction && !question.community_prediction_visible() {
        return Err(MetaculusCheckFailure::NoCommunityPrediction);
    }
    if requirements.require_open && question.active_state != ActiveState::Open {
        return Err(MetaculusCheckFailure::NotOpen);
    }
    if requirements.exclude_resolved && question.active_state == ActiveState::Resolved {
        return Err(MetaculusCheckFailure::Resolved);
    }
    if requirements.exclude_grouped && question.is_grouped() {
        return Err(MetaculusCheckFailure::Grouped);
    }
    match question.number_of_forecasters {
        None => {
            return Err(MetaculusCheckFailure::NotEnoughForecasters {
                forecasters: -1,
                threshold: requirements.min_forecasters,
            });
        },
        Some(forecasters) => {
            if forecasters < requirements.min_forecasters {
                return Err(MetaculusCheckFailure::NotEnoughForecasters {
                    forecasters,
                    threshold: requirements.min_forecasters,
                });
            }
        },
    }
    if question.votes < requirements.min_votes {
        return Err(MetaculusCheckFailure::NotEnoughVotes { votes: question.votes, threshold: requirements.min_votes });
    }
    if ttr < requirements.min_days_to_resolution as i128 * day {
        return Err(MetaculusCheckFailure::ResolvesTooSoon {
            days_remaining: days_between(question.resolve_time, now),
            threshold: requirements.min_days_to_resolution,
        });
    }
    if ttr > requirements.max_days_to_resolution as i128 * day {
        return Err(MetaculusCheckFailure::ResolvesTooLate {
            days_remaining: days_between(question.resolve_time, now),
            threshold: requirements.max_days_to_resolution,
        });
    }
    match question.last_activity_time {
        None => {
            return Err(MetaculusCheckFailure::NoRecentActivity {
                days_since_active: -1,
                threshold: requirements.max_last_active_days,
            });
        },
        Some(last_active) => {
            let days_since_active = days_between(now, last_active);
            if days_since_active > requirements.max_last_active_days {
                return Err(MetaculusCheckFailure::NoRecentActivity {
                    days_since_active,
                    threshold: requirements.max_last_active_days,
                });
            }
        },
    }
    if now as i128 - question.publish_time as i128 > requirements.max_age_days as i128 * day {
        return Err(MetaculusCheckFailure::TooOld {
            age_days: days_between(now, question.publish_time),
            threshold: requirements.max_age_days,
        });
    }
    if let Some(p) = question.community_prediction_prob() {
        let pc: i128 = p as i128;
        let conf: i128 = if pc >= 1000000 - pc {
            pc
        } else {
            1000000 - pc
        };
        if conf > requirements.max_confidence as i128 {
            return Err(MetaculusCheckFailure::TooExtreme { probability: p, threshold: requirements.max_confidence });
        }
    }
    if contains_id(&requirements.exclude_ids, question.id) {
        return Err(MetaculusCheckFailure::Banned);
    }
    Ok(())
}

} // verus!
