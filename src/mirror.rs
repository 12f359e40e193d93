//! The mirror lifecycle engine. Each operation that needs a platform call is
//! split at that call: a step before it says which call to make, and a step
//! after it takes the call's outcome and updates the store.
use vstd::prelude::*;
use crate::bindings::{capture, capture_of, opt_view};
use crate::db::{
    get_any_mirror, get_mirror_by_contract_id, get_mirror_by_source_id, get_third_party_mirror_by_contract_id,
    get_unresolved_mirrors, insert_mirror, insert_third_party_mirror, listed, mirror_has_key, new_mirror_row,
    set_mirror_resolved, with_resolved, MirrorRow, MirrorStore, StoreError, ThirdPartyMirrorRow,
};
use crate::manifold::{
    market_url_spec, resolution_spec, CreateMarketArgs, FullMarket, LiteMarket, ManifoldResolution,
    MarketHandle, DAY_MS,
};
use crate::settings::Settings;
use crate::text::views;
use crate::types::{BinaryResolution, Question, QuestionSource};

verus! {

broadcast use vstd::seq_lib::group_seq_properties;

#[derive(Debug)]
pub enum MirrorError {
    /// The question already has an owned mirror.
    AlreadyMirrored(MirrorRow),
    /// A platform call failed; the text says how.
    PlatformError(String),
    /// The store refused a write.
    StoreError(StoreError),
}

/// First step of mirroring a question: refuses a question that already has
/// an owned mirror, else gives the market to create.
pub fn prepare_mirror(db: &MirrorStore, question: &Question, config: &Settings, now: i64) -> (r: Result<CreateMarketArgs, MirrorError>)
    requires
        db.wf(),
        config.is_valid(),
    ensures
        (r is Ok) == !db.has_mirror(question.source, question.source_id@),
        r matches Ok(args) ==> args.matches_question(*question, *config, now),
        r matches Err(e) ==> (e matches MirrorError::AlreadyMirrored(m) && mirror_has_key(m, question.source, question.source_id@)
            && db.mirrors@.contains(m)),
{
    match get_mirror_by_source_id(db, question.source, question.source_id.as_str()) {
        Some(m) => Err(MirrorError::AlreadyMirrored(m)),
        None => Ok(CreateMarketArgs::from_question_at(config, question, now)),
    }
}

/// Second step of mirroring a question: takes the outcome of the market
/// creation and records the mirror.
pub fn record_mirror(
    db: &mut MirrorStore,
    question: &Question,
    created: Result<LiteMarket, String>,
    config: &Settings,
    now: i64,
) -> (r: Result<MirrorRow, MirrorError>)
    requires
        old(db).wf(),
    ensures
        final(db).wf(),
        final(db).third_party == old(db).third_party,
        final(db).managrams == old(db).managrams,
        r is Err ==> *final(db) == *old(db),
        created is Err ==> (r matches Err(MirrorError::PlatformError(e)) && e@ == created->Err_0@),
        created is Ok && market_url_spec(config.manifold.client_url@, created->Ok_0.slug@) is None ==> r is Err,
        created is Ok && market_url_spec(config.manifold.client_url@, created->Ok_0.slug@) is Some ==> {
            let m = created->Ok_0;
            let url = market_url_spec(config.manifold.client_url@, m.slug@)->0;
            &&& (r is Ok) == (!old(db).has_mirror(question.source, question.source_id@)
                && !old(db).has_mirror_contract(m.id@) && old(db).mirrors@.len() < i64::MAX)
            &&& (r is Err ==> r->Err_0 is StoreError)
            &&& (r is Ok ==> r->Ok_0.manifold_url@ == url && r->Ok_0 == new_mirror_row(
                (old(db).mirrors@.len() + 1) as i64,
                MarketHandle { id: m.id, url: r->Ok_0.manifold_url },
                *question,
                now,
            ) && final(db).mirrors@ == old(db).mirrors@.push(r->Ok_0))
        },
{
    let market = match created {
        Ok(m) => m,
        Err(e) => return Err(MirrorError::PlatformError(e)),
    };
    let url = match market.url(config) {
        Some(u) => u,
        None => return Err(MirrorError::PlatformError(String::from_str("market slug does not make a valid url"))),
    };
    let handle = MarketHandle { id: market.id.clone(), url };
    match insert_mirror(db, &handle, question, now) {
        Ok(row) => Ok(row),
        Err(e) => Err(MirrorError::StoreError(e)),
    }
}

/// Mirroring a question twice: when the first attempt finds no mirror (and
/// so asks for one market) and records the mirror, the second attempt finds
/// exactly that mirror, so no second market is asked for.
pub proof fn lemma_mirror_idempotent(before: MirrorStore, after: MirrorStore, question: Question, row: MirrorRow)
    requires
        before.wf(),
        after.wf(),
        !before.has_mirror(question.source, question.source_id@),
        mirror_has_key(row, question.source, question.source_id@),
        after.mirrors@ == before.mirrors@.push(row),
    ensures
        after.has_mirror(question.source, question.source_id@),
        forall|m: MirrorRow| after.mirrors@.contains(m) && mirror_has_key(m, question.source, question.source_id@) ==> m == row,
{
    let n = before.mirrors@.len() as int;
    assert(after.mirrors@[n] == row);
    assert forall|m: MirrorRow| after.mirrors@.contains(m) && mirror_has_key(m, question.source, question.source_id@) implies m == row by {
        let k = choose|k: int| 0 <= k < after.mirrors@.len() && after.mirrors@[k] == m;
        if k < n {
            assert(before.mirrors@[k] == m);
        }
    }
}

/// The destination resolution to apply for what the source reports; `None`
/// while the source has not resolved.
pub fn resolution_to_apply(resolution: Option<BinaryResolution>) -> (r: Option<ManifoldResolution>)
    requires
        resolution matches Some(res) ==> res.is_valid(),
    ensures
        r == match resolution {
            Some(res) => Some(resolution_spec(res)),
            None => None::<ManifoldResolution>,
        },
{
    match resolution {
        Some(res) => Some(ManifoldResolution::from_resolution(res)),
        None => None,
    }
}

/// Final step of syncing a resolution: takes the outcome of the destination
/// resolve call and marks the mirror resolved. Resolution only ever goes
/// from false to true.
pub fn resolve_mirror(db: &mut MirrorStore, mirror: &MirrorRow, resolved: Result<(), String>) -> (r: Result<(), MirrorError>)
    requires
        old(db).wf(),
    ensures
        final(db).wf(),
        forall|i: int| 0 <= i < old(db).mirrors@.len() && (#[trigger] old(db).mirrors@[i]).resolved ==> final(db).mirrors@[i].resolved,
        final(db).mirrors@.len() == old(db).mirrors@.len(),
        final(db).managrams == old(db).managrams,
        final(db).third_party == old(db).third_party,
        resolved is Err ==> (r matches Err(MirrorError::PlatformError(e)) && e@ == resolved->Err_0@ && *final(db) == *old(db)),
        resolved is Ok ==> ((r is Ok) == (1 <= mirror.id <= old(db).mirrors@.len())),
        r is Ok ==> final(db).mirrors@ == old(db).mirrors@.update(mirror.id - 1, with_resolved(old(db).mirrors@[mirror.id - 1], true)),
        resolved is Ok && r is Err ==> (r matches Err(MirrorError::StoreError(StoreError::NotFound)) && *final(db) == *old(db)),
{
    if let Err(e) = resolved {
        return Err(MirrorError::PlatformError(e));
    }
    match set_mirror_resolved(db, mirror.id, true) {
        Ok(()) => Ok(()),
        Err(e) => Err(MirrorError::StoreError(e)),
    }
}

/// The mirrors that a resolution sync pass visits: the unresolved ones,
/// optionally of one source.
pub fn sync_targets(db: &MirrorStore, source: Option<QuestionSource>) -> (r: Vec<MirrorRow>)
    ensures
        r@ == db.mirrors@.filter(|m: MirrorRow| listed(m, source, false)),
        forall|i: int| 0 <= i < r@.len() ==> !(#[trigger] r@[i]).resolved,
{
    let r = get_unresolved_mirrors(db, source);
    proof {
        assert forall|i: int| 0 <= i < r@.len() implies !(#[trigger] r@[i]).resolved by {
            db.mirrors@.lemma_filter_pred(|m: MirrorRow| listed(m, source, false), i);
        }
    }
    r
}

/// A sync pass never visits a resolved mirror.
pub proof fn lemma_sync_visits_only_unresolved(db: MirrorStore, source: Option<QuestionSource>, i: int)
    requires
        0 <= i < db.mirrors@.filter(|m: MirrorRow| listed(m, source, false)).len(),
    ensures
        !db.mirrors@.filter(|m: MirrorRow| listed(m, source, false))[i].resolved,
{
    db.mirrors@.lemma_filter_pred(|m: MirrorRow| listed(m, source, false), i);
}

/// What reconciling a mirror with its destination market did.
#[derive(Debug, Clone, Copy, PartialEq, Eq, Structural)]
pub enum ReconcileOutcome {
    /// The store already agreed with the destination.
    Unchanged,
    /// The destination was resolved out of band; the mirror is now resolved.
    MarkedResolved,
    /// The store says resolved but the destination does not. Resolution
    /// never goes back, so nothing was written: an anomaly to investigate.
    ReversalRefused,
}

/// Reconciles a stored mirror with the resolved flag its destination market
/// reports. Only a false-to-true change is applied.
pub fn sync_manifold_mirror_to_db(db: &mut MirrorStore, mirror: &MirrorRow, destination_resolved: bool) -> (r: Result<ReconcileOutcome, MirrorError>)
    requires
        old(db).wf(),
    ensures
        final(db).wf(),
        forall|i: int| 0 <= i < old(db).mirrors@.len() && (#[trigger] old(db).mirrors@[i]).resolved ==> final(db).mirrors@[i].resolved,
        final(db).mirrors@.len() == old(db).mirrors@.len(),
        final(db).managrams == old(db).managrams,
        mirror.resolved == destination_resolved ==> (r matches Ok(ReconcileOutcome::Unchanged) && *final(db) == *old(db)),
        mirror.resolved && !destination_resolved ==> (r matches Ok(ReconcileOutcome::ReversalRefused) && *final(db) == *old(db)),
        !mirror.resolved && destination_resolved ==> {
            &&& (r is Ok) == (1 <= mirror.id <= old(db).mirrors@.len())
            &&& r is Ok ==> (r matches Ok(ReconcileOutcome::MarkedResolved) && final(db).mirrors@ == old(db).mirrors@.update(
                mirror.id - 1,
                with_resolved(old(db).mirrors@[mirror.id - 1], true),
            ))
            &&& r is Err ==> *final(db) == *old(db)
        },
{
    if mirror.resolved == destination_resolved {
        return Ok(ReconcileOutcome::Unchanged);
    }
    if mirror.resolved {
        return Ok(ReconcileOutcome::ReversalRefused);
    }
    match set_mirror_resolved(db, mirror.id, true) {
        Ok(()) => Ok(ReconcileOutcome::MarkedResolved),
        Err(e) => Err(MirrorError::StoreError(e)),
    }
}

/// Whether a mirror was created in the 24 hours before `now`.
pub open spec fn created_recently(m: MirrorRow, now: i64) -> bool {
    m.clone_date > now - DAY_MS
}

/// Unresolved mirrors of a source created in the 24 hours before `now`.
pub open spec fn clones_today_spec(db: MirrorStore, source: QuestionSource, now: i64) -> nat {
    db.mirrors@.filter(|m: MirrorRow| listed(m, Some(source), false) && created_recently(m, now)).len()
}

/// Counts the unresolved mirrors of a source created in the last 24 hours.
pub fn clones_today(db: &MirrorStore, source: QuestionSource, now: i64) -> (r: usize)
    ensures
        r == clones_today_spec(*db, source, now),
{
    let ghost pred = |m: MirrorRow| listed(m, Some(source), false) && created_recently(m, now);
    let mut count: usize = 0;
    let mut i: usize = 0;
    while i < db.mirrors.len()
        invariant
            i <= db.mirrors@.len(),
            pred == |m: MirrorRow| listed(m, Some(source), false) && created_recently(m, now),
            count == db.mirrors@.subrange(0, i as int).filter(pred).len(),
        decreases db.mirrors@.len() - i,
    {
        proof {
            assert(db.mirrors@.subrange(0, i + 1) =~= db.mirrors@.subrange(0, i as int).push(db.mirrors@[i as int]));
            db.mirrors@.subrange(0, i as int).lemma_filter_push(db.mirrors@[i as int], pred);
            db.mirrors@.subrange(0, i as int).lemma_filter_len(pred);
        }
        let m = &db.mirrors[i];
        let recent = (m.clone_date as i128) > (now as i128) - (DAY_MS as i128);
        if !m.resolved && m.source == source && recent {
            count = count + 1;
        }
        i = i + 1;
    }
    assert(db.mirrors@.subrange(0, i as int) =~= db.mirrors@);
    count
}

/// Mirrors still allowed today: `budget - min(clones, budget)`.
pub open spec fn remaining_budget_spec(budget: nat, clones: nat) -> nat {
    if clones >= budget {
        0
    } else {
        (budget - clones) as nat
    }
}

pub fn remaining_budget(budget: usize, clones: usize) -> (r: usize)
    ensures
        r == remaining_budget_spec(budget as nat, clones as nat),
{
    if clones >= budget {
        0
    } else {
        budget - clones
    }
}

/// Whether a question of `source` with this id has a mirror, owned or not.
pub open spec fn is_mirrored(db: MirrorStore, source: QuestionSource, id: Seq<char>) -> bool {
    db.has_mirror(source, id) || db.has_third_party(source, id)
}

/// The positions of the candidates (by source id) that have no mirror yet,
/// in order.
pub open spec fn fresh_positions(db: MirrorStore, source: QuestionSource, ids: Seq<Seq<char>>) -> Seq<usize>
    decreases ids.len(),
{
    if ids.len() == 0 {
        Seq::empty()
    } else if is_mirrored(db, source, ids.last()) {
        fresh_positions(db, source, ids.drop_last())
    } else {
        fresh_positions(db, source, ids.drop_last()).push((ids.len() - 1) as usize)
    }
}

proof fn lemma_fresh_positions_bounded(db: MirrorStore, source: QuestionSource, ids: Seq<Seq<char>>)
    ensures
        fresh_positions(db, source, ids).len() <= ids.len(),
        forall|k: int| 0 <= k < fresh_positions(db, source, ids).len() ==> (#[trigger] fresh_positions(db, source, ids)[k]) < ids.len(),
    decreases ids.len(),
{
    if ids.len() > 0 {
        lemma_fresh_positions_bounded(db, source, ids.drop_last());
    }
}

/// Picks the candidates to mirror for the autonomous pass: those without a
/// mirror, in the order given, at most as many as today's remaining budget.
/// Returns their positions in `candidate_ids`.
pub fn select_candidates(
    db: &MirrorStore,
    source: QuestionSource,
    candidate_ids: &Vec<String>,
    daily_budget: usize,
    now: i64,
) -> (r: Vec<usize>)
    requires
        db.wf(),
    ensures
        ({
            let fresh = fresh_positions(*db, source, views(candidate_ids@));
            let budget = remaining_budget_spec(daily_budget as nat, clones_today_spec(*db, source, now));
            r@ == fresh.take(if budget < fresh.len() { budget as int } else { fresh.len() as int })
        }),
        r@.len() <= remaining_budget_spec(daily_budget as nat, clones_today_spec(*db, source, now)),
        clones_today_spec(*db, source, now) >= daily_budget ==> r@.len() == 0,
        forall|k: int| 0 <= k < r@.len() ==> (#[trigger] r@[k]) < candidate_ids@.len(),
{
    let ghost ids = views(candidate_ids@);
    let mut fresh: Vec<usize> = Vec::new();
    let mut i: usize = 0;
    while i < candidate_ids.len()
        invariant
            i <= candidate_ids@.len(),
            db.wf(),
            ids == views(candidate_ids@),
            fresh@ == fresh_positions(*db, source, ids.subrange(0, i as int)),
        decreases candidate_ids@.len() - i,
    {
        assert(ids.subrange(0, i + 1).drop_last() =~= ids.subrange(0, i as int));
        assert(ids.subrange(0, i + 1).last() == candidate_ids@[i as int]@);
        if get_any_mirror(db, source, candidate_ids[i].as_str()).is_none() {
            fresh.push(i);
        }
        i = i + 1;
    }
    assert(ids.subrange(0, i as int) =~= ids);
    proof {
        lemma_fresh_positions_bounded(*db, source, ids);
    }
    let clones = clones_today(db, source, now);
    let budget = remaining_budget(daily_budget, clones);
    let take = if budget < fresh.len() {
        budget
    } else {
        fresh.len()
    };
    let mut out: Vec<usize> = Vec::new();
    let mut j: usize = 0;
    while j < take
        invariant
            take <= fresh@.len(),
            j <= take,
            out@ == fresh@.take(j as int),
        decreases take - j,
    {
        out.push(fresh[j]);
        assert(out@ =~= fresh@.take(j + 1));
        j = j + 1;
    }
    out
}

/// Whether a listed destination market is worth inspecting for a
/// third-party mirror: unresolved and not yet known in either table.
pub open spec fn is_third_party_candidate_spec(db: MirrorStore, market: LiteMarket) -> bool {
    !market.is_resolved && !db.has_third_party_contract(market.id@) && !db.has_mirror_contract(market.id@)
}

pub fn is_third_party_candidate(db: &MirrorStore, market: &LiteMarket) -> (r: bool)
    requires
        db.wf(),
    ensures
        r == is_third_party_candidate_spec(*db, *market),
{
    !market.is_resolved && get_third_party_mirror_by_contract_id(db, market.id.as_str()).is_none()
        && get_mirror_by_contract_id(db, market.id.as_str()).is_none()
}

/// The pattern of a link to a Metaculus question in a market description;
/// group 1 is the question id.
pub open spec fn metaculus_link_pattern() -> Seq<char> {
    "metaculus\\.com\\/questions\\/(\\d+\\b)"@
}

/// The question id in the first Metaculus link of a description (group 1
/// of the link pattern).
pub open spec fn metaculus_link_of(description: Seq<char>) -> Option<Seq<char>> {
    capture_of(metaculus_link_pattern(), description, 1)
}

/// The id of the Metaculus question that a market description links to.
pub fn metaculus_link_id(description: &str) -> (r: Option<String>)
    ensures
        opt_view(r) == metaculus_link_of(description@),
{
    capture("metaculus\\.com\\/questions\\/(\\d+\\b)", description, 1)
}

/// Records a market created by someone else as a third-party mirror of the
/// Metaculus question its description links to. `Ok(None)` when it links to
/// none.
pub fn record_third_party_mirror(db: &mut MirrorStore, market: &FullMarket, config: &Settings) -> (r: Result<Option<ThirdPartyMirrorRow>, MirrorError>)
    requires
        old(db).wf(),
    ensures
        final(db).wf(),
        final(db).mirrors == old(db).mirrors,
        final(db).managrams == old(db).managrams,
        metaculus_link_of(market.description@) is None ==> (r matches Ok(None) && *final(db) == *old(db)),
        r matches Ok(Some(row)) ==> metaculus_link_of(market.description@) == Some(row.source_id@)
            && row.source == QuestionSource::Metaculus && row.manifold_contract_id == market.id
            && row.created_time == market.created_time
            && market_url_spec(config.manifold.client_url@, market.slug@) == Some(row.manifold_url@)
            && final(db).third_party@ == old(db).third_party@.push(row),
        r is Err ==> *final(db) == *old(db),
        metaculus_link_of(market.description@) is Some
            && market_url_spec(config.manifold.client_url@, market.slug@) is Some ==> ((r matches Ok(Some(_)))
            == (!old(db).has_third_party_contract(market.id@) && old(db).third_party@.len() < i64::MAX)),
        metaculus_link_of(market.description@) is Some
            && market_url_spec(config.manifold.client_url@, market.slug@) is None ==> r is Err,
{
    let id = match metaculus_link_id(market.description.as_str()) {
        Some(id) => id,
        None => return Ok(None),
    };
    let url = match market.url(config) {
        Some(u) => u,
        None => return Err(MirrorError::PlatformError(String::from_str("market slug does not make a valid url"))),
    };
    let handle = MarketHandle { id: market.id.clone(), url };
    match insert_third_party_mirror(db, &handle, market.created_time, QuestionSource::Metaculus, id.as_str()) {
        Ok(row) => Ok(Some(row)),
        Err(e) => Err(MirrorError::StoreError(e)),
    }
}

} // verus!
