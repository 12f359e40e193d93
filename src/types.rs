use vstd::prelude::*;
use crate::bindings::{is_ascii_capitals, to_uppercase, uppercase_of};
use crate::text::str_eq;

verus! {

/// Platform a question originates from.
#[derive(Debug, Clone, Copy, PartialEq, Eq, Structural)]
pub enum QuestionSource {
    Kalshi,
    Metaculus,
    Polymarket,
    /// Question created manually, not managed by the bot
    Manual,
}

/// Display name of a source.
pub open spec fn source_name(s: QuestionSource) -> Seq<char> {
    match s {
        QuestionSource::Kalshi => "Kalshi"@,
        QuestionSource::Metaculus => "Metaculus"@,
        QuestionSource::Polymarket => "Polymarket"@,
        QuestionSource::Manual => "Manual"@,
    }
}

/// The stored form of a source: its name in upper case.
pub open spec fn db_text_spec(s: QuestionSource) -> Seq<char> {
    match s {
        QuestionSource::Kalshi => "KALSHI"@,
        QuestionSource::Metaculus => "METACULUS"@,
        QuestionSource::Polymarket => "POLYMARKET"@,
        QuestionSource::Manual => "MANUAL"@,
    }
}

/// The source a stored text names, read without regard to case; the manual
/// source is never stored.
pub open spec fn source_from_db_spec(upper: Seq<char>) -> Option<QuestionSource> {
    if upper == "KALSHI"@ {
        Some(QuestionSource::Kalshi)
    } else if upper == "METACULUS"@ {
        Some(QuestionSource::Metaculus)
    } else if upper == "POLYMARKET"@ {
        Some(QuestionSource::Polymarket)
    } else {
        None
    }
}

/// The stored text of a source is in capitals, and reading it back gives
/// the source again; the manual source is never stored.
pub proof fn lemma_stored_text_round_trip(s: QuestionSource)
    ensures
        is_ascii_capitals(db_text_spec(s)),
        s != QuestionSource::Manual ==> source_from_db_spec(db_text_spec(s)) == Some(s),
{
    reveal_strlit("KALSHI");
    reveal_strlit("METACULUS");
    reveal_strlit("POLYMARKET");
    reveal_strlit("MANUAL");
    assert(is_ascii_capitals(db_text_spec(s)));
    assert("KALSHI"@.len() == 6 && "METACULUS"@.len() == 9 && "POLYMARKET"@.len() == 10);
}

impl QuestionSource {
    pub fn db_text(&self) -> (r: String)
        ensures
            r@ == db_text_spec(*self),
            is_ascii_capitals(r@),
    {
        proof {
            lemma_stored_text_round_trip(*self);
        }
        match self {
            QuestionSource::Kalshi => String::from_str("KALSHI"),
            QuestionSource::Metaculus => String::from_str("METACULUS"),
            QuestionSource::Polymarket => String::from_str("POLYMARKET"),
            QuestionSource::Manual => String::from_str("MANUAL"),
        }
    }

    pub fn from_db_text(s: &str) -> (r: Option<QuestionSource>)
        ensures
            r == source_from_db_spec(uppercase_of(s@)),
            is_ascii_capitals(s@) ==> r == source_from_db_spec(s@),
    {
        let upper = to_uppercase(s);
        if str_eq(upper.as_str(), "KALSHI") {
            Some(QuestionSource::Kalshi)
        } else if str_eq(upper.as_str(), "METACULUS") {
            Some(QuestionSource::Metaculus)
        } else if str_eq(upper.as_str(), "POLYMARKET") {
            Some(QuestionSource::Polymarket)
        } else {
            None
        }
    }

    /// The display name of the source ("Kalshi", "Metaculus", ...).
    pub fn name(&self) -> (r: String)
        ensures
            r@ == source_name(*self),
    {
        match self {
            QuestionSource::Kalshi => String::from_str("Kalshi"),
            QuestionSource::Metaculus => String::from_str("Metaculus"),
            QuestionSource::Polymarket => String::from_str("Polymarket"),
            QuestionSource::Manual => String::from_str("Manual"),
        }
    }
}

/// Binary resolution of a question. `Percent` holds the probability of YES in
/// millionths (0 to 1_000_000).
#[derive(Debug, Clone, Copy, PartialEq, Eq, Structural)]
pub enum BinaryResolution {
    Yes,
    No,
    Percent(u32),
    Cancel,
}

/// Largest `Percent` value: a probability of 1.
pub const PERCENT_SCALE: u32 = 1000000;

impl BinaryResolution {
    pub open spec fn is_valid(self) -> bool {
        match self {
            BinaryResolution::Percent(p) => p <= PERCENT_SCALE,
            _ => true,
        }
    }
}

/// Normalized view of a question from any source. Times are milliseconds
/// since the Unix epoch.
#[derive(Debug)]
pub struct Question {
    pub source: QuestionSource,
    pub source_url: String,
    pub source_id: String,
    pub question: String,
    pub criteria: Option<String>,
    pub end_date: i64,
}

/// The embed markup for a question, for the sources that offer one.
pub open spec fn embed_html_spec(source: QuestionSource, source_id: Seq<char>) -> Option<Seq<char>> {
    match source {
        QuestionSource::Metaculus => Some(
            "<iframe src=\"https://www.metaculus.com/questions/question_embed/"@ + source_id
                + "/?theme=dark\" style=\"height:430px; width:100%; max-width:550px\"></iframe>"@,
        ),
        _ => None,
    }
}

impl Question {
    pub fn embed_html(&self) -> (r: Option<String>)
        ensures
            match r {
                Some(h) => embed_html_spec(self.source, self.source_id@) == Some(h@),
                None => embed_html_spec(self.source, self.source_id@) is None,
            },
    {
        match self.source {
            QuestionSource::Metaculus => {
                let mut h = String::from_str(
                    "<iframe src=\"https://www.metaculus.com/questions/question_embed/",
                );
                h.append(self.source_id.as_str());
                h.append(
                    "/?theme=dark\" style=\"height:430px; width:100%; max-width:550px\"></iframe>",
                );
                Some(h)
            },
            _ => None,
        }
    }
}

} // verus!
