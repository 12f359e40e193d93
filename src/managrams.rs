//! The payment command processor. Each inbound payment goes through stages
//! that alternate with platform calls: a stage returns either the next call
//! to make (whose outcome the caller hands to the following stage) or a
//! terminal outcome. A terminal `Respond` is only ever returned after the
//! payment is marked processed in the store, so a response is sent at most
//! once; an unexpected failure marks the payment processed when it can and
//! sends nothing.
use vstd::prelude::*;
use crate::command::{command_spec, parse_managram_command, CommandView, ManagramCommands, MarketIdentifier};
use crate::db::{
    first_third_party, get_any_mirror, get_mirror_by_contract_id, owned_mirror, owned_mirror_on, processed_grows,
    set_managram_processed, with_resolved, AnyMirror, MirrorRow, MirrorStore,
};
use crate::manifold::{market_url_spec, resolution_spec, CreateMarketArgs, FullMarket, LiteMarket, Managram, ManifoldResolution};
use crate::metaculus::{check_failure_text, check_question_requirements, metaculus_check_spec, MetaculusQuestion};
use crate::mirror::{prepare_mirror, record_mirror, resolve_mirror, MirrorError};
use crate::settings::Settings;
use crate::text::{concat3, fixed_decimal, fixed_to_decimal, signed_decimal, words};
use crate::types::{BinaryResolution, Question, QuestionSource};

verus! {

/// How the amount of a response is chosen, when it is sent.
#[derive(Debug, Clone, Copy, PartialEq, Eq, Structural)]
pub enum ResponseAmount {
    /// Exactly the payment's amount.
    Refund,
    /// The configured minimum amount.
    Minimum,
    /// This amount.
    Amount(u64),
}

pub open spec fn response_amount_spec(a: ResponseAmount, m: Managram, config: Settings) -> u64 {
    match a {
        ResponseAmount::Refund => m.amount,
        ResponseAmount::Minimum => config.manifold.managrams.min_amount,
        ResponseAmount::Amount(x) => x,
    }
}

/// The amount to send for a response to `managram`.
pub fn response_amount(a: ResponseAmount, managram: &Managram, config: &Settings) -> (r: u64)
    ensures
        r == response_amount_spec(a, *managram, *config),
{
    match a {
        ResponseAmount::Refund => managram.amount,
        ResponseAmount::Minimum => config.manifold.managrams.min_amount,
        ResponseAmount::Amount(x) => x,
    }
}

/// How processing a payment failed.
#[derive(Debug)]
pub enum ManagramProcessingError {
    /// Expected in normal operation: the user gets the payment back with
    /// this explanation.
    UserFacing(String),
    /// Unexpected: nothing is sent; the text is for operators.
    Internal(String),
}

/// What a stage asks for next, or how processing ended.
#[derive(Debug)]
pub enum Progress {
    /// Fetch this Metaculus question and hand the outcome to `after_question_fetched`.
    FetchQuestion { source_id: String },
    /// Create this market and hand the outcome to `after_market_created`.
    CreateMarket { args: CreateMarketArgs, question: Question },
    /// Look up the market with this slug and hand the outcome to `after_market_lookup`.
    LookupSlug { slug: String },
    /// Ask the mirror's source for its resolution and hand the answer to `after_resolution_checked`.
    CheckResolution { mirror: MirrorRow },
    /// Resolve the mirror's market and hand the outcome to `after_market_resolved`.
    ResolveMarket { mirror: MirrorRow, resolution: ManifoldResolution },
    /// The payment is processed; send this response.
    Respond { to_id: String, amount: ResponseAmount, message: String },
    /// The payment is processed; nothing is sent.
    Done,
    /// Something unexpected failed; nothing is sent.
    Failed { error: String },
}

/// Whether `p` sends `msg` with `amount` back to the payment's sender.
pub open spec fn responds(p: Progress, m: Managram, amount: ResponseAmount, msg: Seq<char>) -> bool {
    match p {
        Progress::Respond { to_id, amount: a, message } => to_id@ == m.from_id@ && a == amount && message@ == msg,
        _ => false,
    }
}

/// A stage keeps the store well formed, only ever marks payments processed,
/// and returns `Respond` or `Done` only once the payment is marked processed.
pub open spec fn stage_is_safe(before: MirrorStore, after: MirrorStore, m: Managram, p: Progress) -> bool {
    &&& after.wf()
    &&& processed_grows(before, after)
    &&& (p is Respond ==> after.is_processed(m.id@))
    &&& (p is Done ==> after.is_processed(m.id@))
    &&& (p is Respond ==> responds(p, m, p->amount, p->message@))
}

/// The outcome owed when the payment is marked processed and `msg` is sent
/// with `amount`; when the payment is not in the store it cannot be marked,
/// and nothing is sent.
pub open spec fn concludes_with(before: MirrorStore, p: Progress, m: Managram, amount: ResponseAmount, msg: Seq<char>) -> bool {
    if before.has_managram(m.id@) {
        responds(p, m, amount, msg)
    } else {
        p is Failed
    }
}

/// What the first stage owes for a payment.
pub enum Expected {
    Respond(ResponseAmount, Seq<char>),
    Done,
    FetchQuestion(Seq<char>),
    LookupSlug(Seq<char>),
    CheckResolution(MirrorRow),
}

/// The refusal of an underpaid request; `required` is in millionths of mana.
pub open spec fn at_least(kind: Seq<char>, required: nat) -> Seq<char> {
    kind + " requests should include at least "@ + fixed_decimal(required) + " mana."@
}

pub open spec fn third_party_text(url: Seq<char>) -> Seq<char> {
    "Found an existing mirror from a different user at "@ + url
        + ". Append --force to your request to create a new mirror anyway."@
}

pub open spec fn begin_spec(db: MirrorStore, config: Settings, m: Managram) -> Expected {
    let prices = config.manifold.managrams;
    match command_spec(words(m.message@)) {
        Err(e) => Expected::Respond(ResponseAmount::Refund, e),
        Ok(CommandView::Unknown { .. }) => Expected::Done,
        Ok(CommandView::Ping) => Expected::Respond(ResponseAmount::Refund, "Pong!"@),
        Ok(CommandView::Mirror { source, source_id, force }) => {
            let required = prices.mirror_cost + prices.min_amount;
            if m.amount < required {
                Expected::Respond(ResponseAmount::Refund, at_least("Mirror"@, required as nat))
            } else if db.has_mirror(source, source_id) {
                Expected::Respond(
                    ResponseAmount::Refund,
                    "Mirror already exists: "@ + owned_mirror(db, source, source_id).manifold_url@,
                )
            } else if db.has_third_party(source, source_id) && !force {
                Expected::Respond(
                    ResponseAmount::Refund,
                    third_party_text(first_third_party(db, source, source_id).manifold_url@),
                )
            } else if source != QuestionSource::Metaculus {
                Expected::Respond(ResponseAmount::Refund, "Mirroring from this source is not supported"@)
            } else {
                Expected::FetchQuestion(source_id)
            }
        },
        Ok(CommandView::Resolve { slug }) => {
            let required = prices.resolve_cost + prices.min_amount;
            if m.amount < required {
                Expected::Respond(ResponseAmount::Refund, at_least("Resolve"@, required as nat))
            } else {
                Expected::LookupSlug(slug)
            }
        },
        Ok(CommandView::ResolveId { id }) => {
            let required = prices.resolve_cost + prices.min_amount;
            if m.amount < required {
                Expected::Respond(ResponseAmount::Refund, at_least("Resolve"@, required as nat))
            } else if db.has_mirror_contract(id) {
                Expected::CheckResolution(owned_mirror_on(db, id))
            } else {
                Expected::Respond(ResponseAmount::Refund, "Market not in bot database"@)
            }
        },
    }
}

/// A `mirror` request paying less than the mirror price plus the minimum
/// amount is owed a full refund, whatever the store holds, with a message
/// that says it should include at least the required amount.
pub proof fn lemma_underpaid_mirror_refunded(db: MirrorStore, config: Settings, m: Managram)
    requires
        command_spec(words(m.message@)) matches Ok(CommandView::Mirror { .. }),
        m.amount < config.manifold.managrams.mirror_cost + config.manifold.managrams.min_amount,
    ensures
        ({
            let required = (config.manifold.managrams.mirror_cost + config.manifold.managrams.min_amount) as nat;
            &&& begin_spec(db, config, m) == Expected::Respond(ResponseAmount::Refund, at_least("Mirror"@, required))
            &&& at_least("Mirror"@, required).subrange(16, 39) == "should include at least"@
            &&& at_least("Mirror"@, required).subrange(40, 40 + fixed_decimal(required).len() as int)
                == fixed_decimal(required)
        }),
{
    let required = (config.manifold.managrams.mirror_cost + config.manifold.managrams.min_amount) as nat;
    reveal_strlit("Mirror");
    reveal_strlit(" requests should include at least ");
    reveal_strlit("should include at least");
    let msg = at_least("Mirror"@, required);
    assert(msg.subrange(16, 39) =~= "should include at least"@);
    assert(msg.subrange(40, 40 + fixed_decimal(required).len() as int) =~= fixed_decimal(required));
}

/// Whether `p` (with the store going from `before` to `after`) is what `e` owes.
pub open spec fn realizes(before: MirrorStore, after: MirrorStore, m: Managram, p: Progress, e: Expected) -> bool {
    match e {
        Expected::Respond(amount, msg) => concludes_with(before, p, m, amount, msg),
        Expected::Done => if before.has_managram(m.id@) {
            p is Done
        } else {
            p is Failed
        },
        Expected::FetchQuestion(id) => after == before && match p {
            Progress::FetchQuestion { source_id } => source_id@ == id,
            _ => false,
        },
        Expected::LookupSlug(s) => after == before && match p {
            Progress::LookupSlug { slug } => slug@ == s,
            _ => false,
        },
        Expected::CheckResolution(row) => after == before && match p {
            Progress::CheckResolution { mirror } => mirror == row,
            _ => false,
        },
    }
}

/// Marks the payment processed, then asks for `message` to be sent with
/// `amount`. When the mark cannot be written nothing is sent.
fn conclude(db: &mut MirrorStore, managram: &Managram, amount: ResponseAmount, message: String) -> (r: Progress)
    requires
        old(db).wf(),
    ensures
        stage_is_safe(*old(db), *final(db), *managram, r),
        concludes_with(*old(db), r, *managram, amount, message@),
        final(db).mirrors == old(db).mirrors,
        final(db).third_party == old(db).third_party,
{
    match set_managram_processed(db, managram.id.as_str(), true) {
        Ok(()) => Progress::Respond { to_id: managram.from_id.clone(), amount, message },
        Err(_) => Progress::Failed { error: String::from_str("payment is not in the store") },
    }
}

/// Ends processing of a payment that held no command.
fn conclude_silently(db: &mut MirrorStore, managram: &Managram) -> (r: Progress)
    requires
        old(db).wf(),
    ensures
        stage_is_safe(*old(db), *final(db), *managram, r),
        old(db).has_managram(managram.id@) ==> r is Done,
        !old(db).has_managram(managram.id@) ==> r is Failed,
        final(db).mirrors == old(db).mirrors,
        final(db).third_party == old(db).third_party,
{
    match set_managram_processed(db, managram.id.as_str(), true) {
        Ok(()) => Progress::Done,
        Err(_) => Progress::Failed { error: String::from_str("payment is not in the store") },
    }
}

/// Ends processing after an error: a user-facing one marks the payment
/// processed and then refunds it with the explanation; an internal one marks
/// it processed if it can and sends nothing.
pub fn conclude_with_error(db: &mut MirrorStore, managram: &Managram, error: ManagramProcessingError) -> (r: Progress)
    requires
        old(db).wf(),
    ensures
        stage_is_safe(*old(db), *final(db), *managram, r),
        final(db).mirrors == old(db).mirrors,
        final(db).third_party == old(db).third_party,
        match error {
            ManagramProcessingError::UserFacing(msg) => concludes_with(*old(db), r, *managram, ResponseAmount::Refund, msg@),
            ManagramProcessingError::Internal(_) => r is Failed,
        },
{
    match error {
        ManagramProcessingError::UserFacing(msg) => conclude(db, managram, ResponseAmount::Refund, msg),
        ManagramProcessingError::Internal(e) => {
            let _ = set_managram_processed(db, managram.id.as_str(), true);
            Progress::Failed { error: e }
        },
    }
}

fn at_least_exec(kind: &str, required: u64) -> (r: String)
    ensures
        r@ == at_least(kind@, required as nat),
{
    concat3(kind, " requests should include at least ", fixed_to_decimal(required).as_str()).concat(" mana.")
}

/// First stage for a payment: reads its command, checks the amount paid and
/// what the store already knows, and says what comes next.
pub fn begin_managram(db: &mut MirrorStore, config: &Settings, managram: &Managram) -> (r: Progress)
    requires
        old(db).wf(),
        config.is_valid(),
    ensures
        stage_is_safe(*old(db), *final(db), *managram, r),
        final(db).mirrors == old(db).mirrors,
        final(db).third_party == old(db).third_party,
        realizes(*old(db), *final(db), *managram, r, begin_spec(*old(db), *config, *managram)),
{
    let prices = &config.manifold.managrams;
    let command = match parse_managram_command(managram.message.as_str()) {
        Ok(c) => c,
        Err(e) => return conclude(db, managram, ResponseAmount::Refund, e),
    };
    match command {
        ManagramCommands::Unknown(_) => conclude_silently(db, managram),
        ManagramCommands::Ping => conclude(db, managram, ResponseAmount::Refund, String::from_str("Pong!")),
        ManagramCommands::Mirror(args) => {
            let required = prices.mirror_cost + prices.min_amount;
            if managram.amount < required {
                return conclude(db, managram, ResponseAmount::Refund, at_least_exec("Mirror", required));
            }
            let source = args.target.source;
            match get_any_mirror(db, source, args.target.source_id.as_str()) {
                Some(AnyMirror::Mirror(m)) => {
                    let msg = String::from_str("Mirror already exists: ").concat(m.manifold_url.as_str());
                    return conclude(db, managram, ResponseAmount::Refund, msg);
                },
                Some(AnyMirror::ThirdPartyMirror(m)) => {
                    if !args.force {
                        let msg = concat3(
                            "Found an existing mirror from a different user at ",
                            m.manifold_url.as_str(),
                            ". Append --force to your request to create a new mirror anyway.",
                        );
                        return conclude(db, managram, ResponseAmount::Refund, msg);
                    }
                },
                None => {},
            }
            if source != QuestionSource::Metaculus {
                return conclude(
                    db,
                    managram,
                    ResponseAmount::Refund,
                    String::from_str("Mirroring from this source is not supported"),
                );
            }
            Progress::FetchQuestion { source_id: args.target.source_id }
        },
        ManagramCommands::Resolve(args) => {
            let required = prices.resolve_cost + prices.min_amount;
            if managram.amount < required {
                return conclude(db, managram, ResponseAmount::Refund, at_least_exec("Resolve", required));
            }
            match args.target {
                MarketIdentifier::Slug(slug) => Progress::LookupSlug { slug },
                MarketIdentifier::Id(id) => match get_mirror_by_contract_id(db, id.as_str()) {
                    Some(mirror) => Progress::CheckResolution { mirror },
                    None => conclude(db, managram, ResponseAmount::Refund, String::from_str("Market not in bot database")),
                },
            }
        },
    }
}

pub open spec fn fetch_failed_text(source_id: Seq<char>) -> Seq<char> {
    "Failed to fetch question with id "@ + source_id + " from Metaculus."@
}

/// Stage after fetching the Metaculus question of a `mirror` command: checks
/// the question against the request requirements at `now` and asks for the
/// market to create.
pub fn after_question_fetched(
    db: &mut MirrorStore,
    config: &Settings,
    managram: &Managram,
    source_id: &str,
    fetched: Result<MetaculusQuestion, String>,
    now: i64,
) -> (r: Progress)
    requires
        old(db).wf(),
        config.is_valid(),
    ensures
        stage_is_safe(*old(db), *final(db), *managram, r),
        final(db).mirrors == old(db).mirrors,
        final(db).third_party == old(db).third_party,
        fetched is Err ==> concludes_with(*old(db), r, *managram, ResponseAmount::Refund, fetch_failed_text(source_id@)),
        fetched is Ok ==> match metaculus_check_spec(fetched->Ok_0, config.metaculus.request_filter, now) {
            Some(f) => concludes_with(*old(db), r, *managram, ResponseAmount::Refund, check_failure_text(f)),
            None => {
                &&& (r is CreateMarket) == !old(db).has_mirror(
                    QuestionSource::Metaculus,
                    signed_decimal(fetched->Ok_0.id as int),
                )
                &&& (r is CreateMarket || r is Failed)
                &&& match r {
                    Progress::CreateMarket { args, question } => *final(db) == *old(db)
                        && question.source == QuestionSource::Metaculus
                        && question.end_date == fetched->Ok_0.resolve_time
                        && question.source_id@ == signed_decimal(fetched->Ok_0.id as int)
                        && question.question@ == fetched->Ok_0.title@
                        && question.criteria == fetched->Ok_0.resolution_criteria
                        && args.matches_question(question, *config, now),
                    _ => true,
                }
            },
        },
{
    let question = match fetched {
        Ok(q) => q,
        Err(_) => {
            let msg = concat3("Failed to fetch question with id ", source_id, " from Metaculus.");
            return conclude(db, managram, ResponseAmount::Refund, msg);
        },
    };
    if let Err(f) = check_question_requirements(&question, &config.metaculus.request_filter, now) {
        return conclude(db, managram, ResponseAmount::Refund, f.message());
    }
    let q = match question.to_question() {
        Ok(q) => q,
        Err(e) => return conclude_with_error(db, managram, ManagramProcessingError::Internal(e)),
    };
    match prepare_mirror(db, &q, config, now) {
        Ok(args) => Progress::CreateMarket { args, question: q },
        Err(_) => conclude_with_error(
            db,
            managram,
            ManagramProcessingError::Internal(String::from_str("question is already mirrored")),
        ),
    }
}

pub open spec fn created_text(url: Seq<char>) -> Seq<char> {
    "Created mirror at "@ + url
}

/// Stage after creating the market of a `mirror` command: records the
/// mirror, then marks the payment processed and answers with the minimum
/// amount and the mirror's URL.
pub fn after_market_created(
    db: &mut MirrorStore,
    config: &Settings,
    managram: &Managram,
    question: &Question,
    created: Result<LiteMarket, String>,
    now: i64,
) -> (r: Progress)
    requires
        old(db).wf(),
    ensures
        stage_is_safe(*old(db), *final(db), *managram, r),
        final(db).third_party == old(db).third_party,
        created is Err ==> r is Failed && final(db).mirrors == old(db).mirrors,
        r is Respond ==> final(db).mirrors@.len() == old(db).mirrors@.len() + 1
            && final(db).mirrors@.drop_last() == old(db).mirrors@
            && responds(r, *managram, ResponseAmount::Minimum, created_text(final(db).mirrors@.last().manifold_url@)),
        r is Respond || r is Failed,
        r is Failed ==> final(db).mirrors@.len() <= old(db).mirrors@.len() + 1,
        created is Ok && market_url_spec(config.manifold.client_url@, created->Ok_0.slug@) is Some
            && !old(db).has_mirror(question.source, question.source_id@)
            && !old(db).has_mirror_contract(created->Ok_0.id@) && old(db).mirrors@.len() < i64::MAX
            && old(db).has_managram(managram.id@) ==> r is Respond,
{
    let created_ok = created.is_ok();
    match record_mirror(db, question, created, config, now) {
        Ok(row) => {
            assert(db.mirrors@.drop_last() =~= old(db).mirrors@);
            conclude(db, managram, ResponseAmount::Minimum, String::from_str("Created mirror at ").concat(row.manifold_url.as_str()))
        },
        Err(e) => {
            let msg = match e {
                MirrorError::PlatformError(t) => t,
                _ => String::from_str("could not record the mirror"),
            };
            conclude_with_error(db, managram, ManagramProcessingError::Internal(msg))
        },
    }
}

/// How looking a market up by slug failed.
#[derive(Debug)]
pub enum LookupError {
    NotFound,
    Other(String),
}

/// What the market lookup of a `resolve` command leads to.
pub open spec fn lookup_spec(db: MirrorStore, config: Settings, looked: Result<FullMarket, LookupError>) -> Expected {
    match looked {
        Err(LookupError::NotFound) => Expected::Respond(ResponseAmount::Refund, "Market not found"@),
        Err(LookupError::Other(_)) => Expected::Done,
        Ok(market) => if market.creator_id@ != config.manifold.user_id@ {
            Expected::Respond(ResponseAmount::Refund, "Market was not created by this bot"@)
        } else if market.is_resolved {
            Expected::Respond(ResponseAmount::Refund, "Market is already resolved"@)
        } else if db.has_mirror_contract(market.id@) {
            Expected::CheckResolution(owned_mirror_on(db, market.id@))
        } else {
            Expected::Respond(ResponseAmount::Refund, "Market not in bot database"@)
        },
    }
}

/// Stage after looking up the market of a `resolve` command by slug: the
/// market must be one of the bot's unresolved mirrors.
pub fn after_market_lookup(
    db: &mut MirrorStore,
    config: &Settings,
    managram: &Managram,
    looked: Result<FullMarket, LookupError>,
) -> (r: Progress)
    requires
        old(db).wf(),
    ensures
        stage_is_safe(*old(db), *final(db), *managram, r),
        final(db).mirrors == old(db).mirrors,
        final(db).third_party == old(db).third_party,
        looked matches Err(LookupError::Other(_)) ==> r is Failed,
        !(looked matches Err(LookupError::Other(_))) ==> realizes(*old(db), *final(db), *managram, r, lookup_spec(*old(db), *config, looked)),
{
    let market = match looked {
        Ok(m) => m,
        Err(LookupError::NotFound) => {
            return conclude(db, managram, ResponseAmount::Refund, String::from_str("Market not found"));
        },
        Err(LookupError::Other(e)) => {
            return conclude_with_error(db, managram, ManagramProcessingError::Internal(e));
        },
    };
    if !crate::text::str_eq(market.creator_id.as_str(), config.manifold.user_id.as_str()) {
        return conclude(db, managram, ResponseAmount::Refund, String::from_str("Market was not created by this bot"));
    }
    if market.is_resolved {
        return conclude(db, managram, ResponseAmount::Refund, String::from_str("Market is already resolved"));
    }
    match get_mirror_by_contract_id(db, market.id.as_str()) {
        Some(mirror) => Progress::CheckResolution { mirror },
        None => conclude(db, managram, ResponseAmount::Refund, String::from_str("Market not in bot database")),
    }
}

/// Stage after asking the mirror's source for its resolution: answers at
/// once when it has not resolved, else asks for the destination market to
/// be resolved.
pub fn after_resolution_checked(
    db: &mut MirrorStore,
    managram: &Managram,
    mirror: MirrorRow,
    checked: Result<Option<BinaryResolution>, String>,
) -> (r: Progress)
    requires
        old(db).wf(),
        checked matches Ok(Some(res)) ==> res.is_valid(),
    ensures
        stage_is_safe(*old(db), *final(db), *managram, r),
        final(db).mirrors == old(db).mirrors,
        final(db).third_party == old(db).third_party,
        checked is Err ==> r is Failed,
        checked matches Ok(None) ==> concludes_with(
            *old(db),
            r,
            *managram,
            ResponseAmount::Refund,
            "Source question has not resolved yet"@,
        ),
        checked matches Ok(Some(res)) ==> *final(db) == *old(db) && match r {
            Progress::ResolveMarket { mirror: m, resolution } => m == mirror && resolution == resolution_spec(res),
            _ => false,
        },
{
    match checked {
        Err(e) => conclude_with_error(db, managram, ManagramProcessingError::Internal(e)),
        Ok(None) => conclude(db, managram, ResponseAmount::Refund, String::from_str("Source question has not resolved yet")),
        Ok(Some(res)) => Progress::ResolveMarket { mirror, resolution: ManifoldResolution::from_resolution(res) },
    }
}

/// Stage after resolving the destination market: marks the mirror resolved,
/// then the payment processed, and refunds it.
pub fn after_market_resolved(db: &mut MirrorStore, managram: &Managram, mirror: &MirrorRow, outcome: Result<(), String>) -> (r: Progress)
    requires
        old(db).wf(),
    ensures
        stage_is_safe(*old(db), *final(db), *managram, r),
        final(db).third_party == old(db).third_party,
        forall|i: int| 0 <= i < old(db).mirrors@.len() && (#[trigger] old(db).mirrors@[i]).resolved ==> final(db).mirrors@[i].resolved,
        outcome is Err ==> r is Failed && final(db).mirrors == old(db).mirrors,
        outcome is Ok && 1 <= mirror.id <= old(db).mirrors@.len() ==> final(db).mirrors@ == old(db).mirrors@.update(
            mirror.id - 1,
            with_resolved(old(db).mirrors@[mirror.id - 1], true),
        ) && concludes_with(*old(db), r, *managram, ResponseAmount::Refund, "Resolved market!"@),
        outcome is Ok && !(1 <= mirror.id <= old(db).mirrors@.len()) ==> r is Failed,
{
    match resolve_mirror(db, mirror, outcome) {
        Ok(()) => {
            conclude(db, managram, ResponseAmount::Refund, String::from_str("Resolved market!"))
        },
        Err(e) => {
            let msg = match e {
                MirrorError::PlatformError(t) => t,
                _ => String::from_str("mirror is not in the store"),
            };
            conclude_with_error(db, managram, ManagramProcessingError::Internal(msg))
        },
    }
}

} // verus!
