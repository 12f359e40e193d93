//! The destination platform's data: markets, payments ("managrams"),
//! resolutions, and the arguments for creating a market.
use vstd::prelude::*;
use crate::bindings::{join_url, joined_url_of, opt_view};
use crate::settings::{MarketTemplate, Settings};
use crate::text::{concat3, truncate_end, truncate_end_string, truncate_middle, truncate_middle_string, views, lemma_views_push};
use crate::types::{embed_html_spec, source_name, BinaryResolution, Question, QuestionSource, PERCENT_SCALE};

verus! {

/// Currency of a payment.
#[derive(Debug, Clone, Copy, PartialEq, Eq, Structural)]
pub enum TokenType {
    Mana,
}

impl TokenType {
    pub fn name(&self) -> (r: String)
        ensures
            r@ == "Mana"@,
    {
        String::from_str("Mana")
    }
}

/// A payment observed on the destination platform. Times are milliseconds
/// since the Unix epoch; amounts are in millionths of mana.
#[derive(Debug)]
pub struct Managram {
    pub id: String,
    /// identifies the set of identical payments sent at once to several users
    pub group_id: String,
    pub from_id: String,
    pub to_id: String,
    pub created_time: i64,
    pub token: TokenType,
    pub amount: u64,
    pub message: String,
}

impl Clone for Managram {
    fn clone(&self) -> (r: Self)
        ensures
            r == *self,
    {
        Managram {
            id: self.id.clone(),
            group_id: self.group_id.clone(),
            from_id: self.from_id.clone(),
            to_id: self.to_id.clone(),
            created_time: self.created_time,
            token: self.token,
            amount: self.amount,
            message: self.message.clone(),
        }
    }
}

/// A market as listed by the destination platform.
#[derive(Debug)]
pub struct LiteMarket {
    pub id: String,
    pub question: String,
    pub slug: String,
    pub created_time: i64,
    pub close_time: i64,
    pub last_updated_time: i64,
    pub is_resolved: bool,
}

/// A market with its creator and description. `description` is the text of
/// the description document.
#[derive(Debug)]
pub struct FullMarket {
    pub id: String,
    pub creator_id: String,
    pub question: String,
    pub slug: String,
    pub created_time: i64,
    pub close_time: i64,
    pub last_updated_time: i64,
    pub is_resolved: bool,
    pub description: String,
    pub text_description: String,
}

impl FullMarket {
    /// The listing fields of this market.
    pub fn lite(&self) -> (r: LiteMarket)
        ensures
            r.id == self.id,
            r.question == self.question,
            r.slug == self.slug,
            r.created_time == self.created_time,
            r.close_time == self.close_time,
            r.last_updated_time == self.last_updated_time,
            r.is_resolved == self.is_resolved,
    {
        LiteMarket {
            id: self.id.clone(),
            question: self.question.clone(),
            slug: self.slug.clone(),
            created_time: self.created_time,
            close_time: self.close_time,
            last_updated_time: self.last_updated_time,
            is_resolved: self.is_resolved,
        }
    }
}

/// A created market: its id and its public URL.
#[derive(Debug)]
pub struct MarketHandle {
    pub id: String,
    pub url: String,
}

#[derive(Debug, Clone, Copy, PartialEq, Eq, Structural)]
pub enum ManifoldOutcome {
    Yes,
    No,
    Mkt,
    Cancel,
}

#[derive(Debug, Clone, Copy, PartialEq, Eq, Structural)]
pub enum ManifoldOutcomeType {
    Binary,
}

/// How a market is resolved. For `Mkt`, `probability_int` is the integer
/// percentage to resolve to.
#[derive(Debug, Clone, Copy, PartialEq, Eq, Structural)]
pub struct ManifoldResolution {
    pub outcome: ManifoldOutcome,
    pub probability_int: Option<u32>,
}

/// `p` millionths as an integer percentage, rounded to nearest (halves up).
pub open spec fn percent_int(p: u32) -> u32 {
    ((p as int + 5000) / 10000) as u32
}

/// The destination resolution for a source resolution.
pub open spec fn resolution_spec(r: BinaryResolution) -> ManifoldResolution {
    match r {
        BinaryResolution::Yes => ManifoldResolution { outcome: ManifoldOutcome::Yes, probability_int: None },
        BinaryResolution::No => ManifoldResolution { outcome: ManifoldOutcome::No, probability_int: None },
        BinaryResolution::Cancel => ManifoldResolution { outcome: ManifoldOutcome::Cancel, probability_int: None },
        BinaryResolution::Percent(p) => ManifoldResolution {
            outcome: ManifoldOutcome::Mkt,
            probability_int: Some(percent_int(p)),
        },
    }
}

impl ManifoldResolution {
    /// Maps a source resolution to the destination's; a percentage becomes
    /// an integer percentage, rounded to nearest.
    pub fn from_resolution(r: BinaryResolution) -> (m: ManifoldResolution)
        requires
            r.is_valid(),
        ensures
            m == resolution_spec(r),
            m.probability_int matches Some(p) ==> p <= 100,
    {
        match r {
            BinaryResolution::Yes => ManifoldResolution { outcome: ManifoldOutcome::Yes, probability_int: None },
            BinaryResolution::No => ManifoldResolution { outcome: ManifoldOutcome::No, probability_int: None },
            BinaryResolution::Cancel => ManifoldResolution { outcome: ManifoldOutcome::Cancel, probability_int: None },
            BinaryResolution::Percent(p) => {
                assert(p <= PERCENT_SCALE);
                ManifoldResolution { outcome: ManifoldOutcome::Mkt, probability_int: Some((p + 5000) / 10000) }
            },
        }
    }
}

/// One day, in milliseconds.
pub const DAY_MS: i64 = 86400000;

/// One week, in milliseconds.
pub const WEEK_MS: i64 = 604800000;

/// `t + d`, held at `i64::MAX`.
pub open spec fn add_capped(t: i64, d: i64) -> i64 {
    if t as int + d as int > i64::MAX as int {
        i64::MAX
    } else {
        (t + d) as i64
    }
}

fn add_capped_exec(t: i64, d: i64) -> (r: i64)
    requires
        d >= 0,
    ensures
        r == add_capped(t, d),
{
    if t > i64::MAX - d {
        i64::MAX
    } else {
        t + d
    }
}

/// The arguments for creating a mirror market.
#[derive(Debug)]
pub struct CreateMarketArgs {
    /// Currently only simple binary markets are created.
    pub outcome_type: ManifoldOutcomeType,
    pub question: String,
    pub description_markdown: String,
    /// Milliseconds since the Unix epoch.
    pub close_time: i64,
    /// Starting probability as an integer percentage.
    pub initial_prob: u32,
    /// Groups to add the market to on creation.
    pub group_ids: Vec<String>,
}

/// The mirror's title: `[Source] question`, cut to the configured length.
pub open spec fn title_spec(q: Question, t: MarketTemplate) -> Seq<char> {
    truncate_middle(
        "["@ + source_name(q.source) + "] "@ + q.question@,
        t.max_question_length as nat,
        t.title_retain_end_characters as nat,
    )
}

/// The mirror's description before truncation.
pub open spec fn full_description(q: Question, footer: Seq<char>) -> Seq<char> {
    let embed = match embed_html_spec(q.source, q.source_id@) {
        Some(h) => "\n\n"@ + h,
        None => Seq::empty(),
    };
    let criteria = match q.criteria {
        Some(c) => "**Resolution criteria**\n\n"@ + c@ + "\n\n---\n\n"@,
        None => Seq::empty(),
    };
    "### "@ + q.question@ + "\n\nResolves the same as [the original on "@ + source_name(q.source) + "]("@
        + q.source_url@ + ")."@ + embed + "\n\n---\n\n"@ + criteria + footer
}

pub open spec fn description_spec(q: Question, t: MarketTemplate) -> Seq<char> {
    truncate_end(full_description(q, t.description_footer@), t.max_description_length as nat)
}

/// Close time: a day after the source's end, or a week from now when the
/// source's end has passed.
pub open spec fn close_time_spec(end_date: i64, now: i64) -> i64 {
    if end_date > now {
        add_capped(end_date, DAY_MS)
    } else {
        add_capped(now, WEEK_MS)
    }
}

/// Groups configured for mirrors of a source.
pub open spec fn group_ids_spec(q: Question, config: Settings) -> Seq<Seq<char>> {
    match q.source {
        QuestionSource::Metaculus => views(config.metaculus.add_group_ids@),
        QuestionSource::Kalshi => views(config.kalshi.add_group_ids@),
        _ => Seq::empty(),
    }
}

fn clone_strings(v: &Vec<String>) -> (r: Vec<String>)
    ensures
        views(r@) == views(v@),
{
    let mut out: Vec<String> = Vec::new();
    let mut i: usize = 0;
    while i < v.len()
        invariant
            i <= v@.len(),
            views(out@) == views(v@.subrange(0, i as int)),
        decreases v@.len() - i,
    {
        let s = v[i].clone();
        proof {
            lemma_views_push(out@, s);
            assert(v@.subrange(0, i + 1) =~= v@.subrange(0, i as int).push(v@[i as int]));
            lemma_views_push(v@.subrange(0, i as int), v@[i as int]);
        }
        out.push(s);
        i = i + 1;
    }
    assert(v@.subrange(0, i as int) =~= v@);
    out
}

impl CreateMarketArgs {
    pub open spec fn matches_question(&self, q: Question, config: Settings, now: i64) -> bool {
        &&& self.outcome_type == ManifoldOutcomeType::Binary
        &&& self.question@ == title_spec(q, config.manifold.template)
        &&& self.description_markdown@ == description_spec(q, config.manifold.template)
        &&& self.close_time == close_time_spec(q.end_date, now)
        &&& self.initial_prob == 50
        &&& views(self.group_ids@) == group_ids_spec(q, config)
    }

    pub fn title_from_question(question: &Question, config: &Settings) -> (r: String)
        requires
            config.is_valid(),
        ensures
            r@ == title_spec(*question, config.manifold.template),
            r@.len() <= config.manifold.template.max_question_length,
    {
        let tmpl = &config.manifold.template;
        let name = question.source.name();
        let title = concat3("[", name.as_str(), "] ").concat(question.question.as_str());
        truncate_middle_string(title, tmpl.max_question_length, tmpl.title_retain_end_characters)
    }

    pub fn description_from_question(question: &Question, config: &Settings) -> (r: String)
        requires
            config.is_valid(),
        ensures
            r@ == description_spec(*question, config.manifold.template),
            r@.len() <= config.manifold.template.max_description_length,
    {
        let tmpl = &config.manifold.template;
        let name = question.source.name();
        let mut d = concat3("### ", question.question.as_str(), "\n\nResolves the same as [the original on ");
        d.append(name.as_str());
        d.append("](");
        d.append(question.source_url.as_str());
        d.append(").");
        match question.embed_html() {
            Some(h) => {
                d.append("\n\n");
                d.append(h.as_str());
            },
            None => {},
        }
        d.append("\n\n---\n\n");
        match &question.criteria {
            Some(c) => {
                d.append("**Resolution criteria**\n\n");
                d.append(c.as_str());
                d.append("\n\n---\n\n");
            },
            None => {},
        }
        d.append(tmpl.description_footer.as_str());
        assert(d@ =~= full_description(*question, tmpl.description_footer@));
        truncate_end_string(d, tmpl.max_description_length)
    }

    pub fn group_ids_from_question(question: &Question, config: &Settings) -> (r: Vec<String>)
        ensures
            views(r@) == group_ids_spec(*question, *config),
    {
        match question.source {
            QuestionSource::Metaculus => clone_strings(&config.metaculus.add_group_ids),
            QuestionSource::Kalshi => clone_strings(&config.kalshi.add_group_ids),
            _ => Vec::new(),
        }
    }

    /// The market arguments for mirroring `question` at time `now`.
    pub fn from_question_at(config: &Settings, question: &Question, now: i64) -> (r: Self)
        requires
            config.is_valid(),
        ensures
            r.matches_question(*question, *config, now),
    {
        let close_time = if question.end_date > now {
            add_capped_exec(question.end_date, DAY_MS)
        } else {
            add_capped_exec(now, WEEK_MS)
        };
        CreateMarketArgs {
            outcome_type: ManifoldOutcomeType::Binary,
            question: Self::title_from_question(question, config),
            description_markdown: Self::description_from_question(question, config),
            close_time,
            initial_prob: 50,
            group_ids: Self::group_ids_from_question(question, config),
        }
    }
}

/// The public URL of the market with this slug: `market/<slug>` under the
/// configured client URL.
pub open spec fn market_url_spec(client_url: Seq<char>, slug: Seq<char>) -> Option<Seq<char>> {
    match joined_url_of(client_url, "market/"@) {
        Some(base) => joined_url_of(base, slug),
        None => None,
    }
}

/// The public URL of a market; `None` when the configured client URL does
/// not make one.
pub fn market_url(config: &Settings, slug: &str) -> (r: Option<String>)
    ensures
        opt_view(r) == market_url_spec(config.manifold.client_url@, slug@),
{
    match join_url(config.manifold.client_url.as_str(), "market/") {
        Some(base) => join_url(base.as_str(), slug),
        None => None,
    }
}

impl LiteMarket {
    pub fn url(&self, config: &Settings) -> (r: Option<String>)
        ensures
            opt_view(r) == market_url_spec(config.manifold.client_url@, self.slug@),
    {
        market_url(config, self.slug.as_str())
    }
}

impl FullMarket {
    pub fn url(&self, config: &Settings) -> (r: Option<String>)
        ensures
            opt_view(r) == market_url_spec(config.manifold.client_url@, self.slug@),
    {
        market_url(config, self.slug.as_str())
    }
}

/// Page size the platform uses when none is asked for.
pub const DEFAULT_PAGE_LIMIT: usize = 100;

/// Where the next page of payments ends, or `None` when the last page was
/// short (or nothing was fetched at all): payments come newest first, so the
/// next page is the one before the oldest payment fetched so far.
pub open spec fn next_page_spec(batch_len: nat, limit: Option<usize>, fetched: Seq<Managram>) -> Option<i64> {
    let page = match limit {
        Some(l) => l as nat,
        None => DEFAULT_PAGE_LIMIT as nat,
    };
    if batch_len < page || fetched.len() == 0 {
        None
    } else {
        Some(fetched.last().created_time)
    }
}

pub fn next_page_before(batch_len: usize, limit: Option<usize>, fetched: &Vec<Managram>) -> (r: Option<i64>)
    ensures
        r == next_page_spec(batch_len as nat, limit, fetched@),
{
    let page = match limit {
        Some(l) => l,
        None => DEFAULT_PAGE_LIMIT,
    };
    if batch_len < page || fetched.len() == 0 {
        None
    } else {
        Some(fetched[fetched.len() - 1].created_time)
    }
}

/// The title and groups of a market mirrored as part of a project: the
/// `[Metaculus]` tag becomes `[header]` and the project's group is added.
pub fn project_market_args(args: CreateMarketArgs, header: &str, group_id: &str) -> (r: CreateMarketArgs)
    ensures
        r.question@ == crate::text::replace_all(args.question@, "[Metaculus]"@, "["@ + header@ + "]"@),
        views(r.group_ids@) == views(args.group_ids@).push(group_id@),
        r.description_markdown == args.description_markdown,
        r.close_time == args.close_time,
        r.initial_prob == args.initial_prob,
        r.outcome_type == args.outcome_type,
{
    proof {
        reveal_strlit("[Metaculus]");
    }
    let tag = concat3("[", header, "]");
    let mut out = args;
    out.question = crate::text::replace_str(out.question.as_str(), "[Metaculus]", tag.as_str());
    let g = group_id.to_owned();
    proof {
        lemma_views_push(out.group_ids@, g);
    }
    out.group_ids.push(g);
    out
}

/// An error reply of the destination platform.
#[derive(Debug)]
pub struct ManifoldErrorResponse {
    pub message: String,
}

} // verus!
