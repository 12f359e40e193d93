//! The mirror store: mirrors owned by the bot, mirrors known to be owned by
//! others, and observed payments, with the uniqueness constraints that make
//! mirroring idempotent and payment processing at-most-once.
use vstd::prelude::*;
use crate::manifold::{Managram, MarketHandle};
use crate::text::str_eq;
use crate::types::{Question, QuestionSource};

verus! {

broadcast use vstd::seq_lib::group_seq_properties;

#[derive(Debug, Clone, Copy, PartialEq, Eq, Structural)]
pub enum StoreError {
    /// A row with the same unique key exists.
    Conflict,
    /// No row matched.
    NotFound,
    /// No row id is left.
    Full,
}

/// A mirror market created by the bot. `clone_date` is in milliseconds since
/// the Unix epoch.
#[derive(Debug)]
pub struct MirrorRow {
    pub id: i64,
    pub clone_date: i64,
    pub manifold_contract_id: String,
    pub manifold_url: String,
    pub source: QuestionSource,
    pub source_id: String,
    pub source_url: String,
    pub question: String,
    pub resolved: bool,
}

impl Clone for MirrorRow {
    fn clone(&self) -> (r: Self)
        ensures
            r == *self,
    {
        MirrorRow {
            id: self.id,
            clone_date: self.clone_date,
            manifold_contract_id: self.manifold_contract_id.clone(),
            manifold_url: self.manifold_url.clone(),
            source: self.source,
            source_id: self.source_id.clone(),
            source_url: self.source_url.clone(),
            question: self.question.clone(),
            resolved: self.resolved,
        }
    }
}

/// A market created by someone else that mirrors a source question.
#[derive(Debug)]
pub struct ThirdPartyMirrorRow {
    pub id: i64,
    pub manifold_contract_id: String,
    pub manifold_url: String,
    pub source: QuestionSource,
    pub source_id: String,
    pub created_time: i64,
}

impl Clone for ThirdPartyMirrorRow {
    fn clone(&self) -> (r: Self)
        ensures
            r == *self,
    {
        ThirdPartyMirrorRow {
            id: self.id,
            manifold_contract_id: self.manifold_contract_id.clone(),
            manifold_url: self.manifold_url.clone(),
            source: self.source,
            source_id: self.source_id.clone(),
            created_time: self.created_time,
        }
    }
}

/// A stored payment and whether it has been processed.
#[derive(Debug)]
pub struct ManagramRow {
    pub managram: Managram,
    pub processed: bool,
}

/// A mirror of a source question, whoever created it.
#[derive(Debug)]
pub enum AnyMirror {
    Mirror(MirrorRow),
    ThirdPartyMirror(ThirdPartyMirrorRow),
}

impl AnyMirror {
    pub fn manifold_url(&self) -> (r: &String)
        ensures
            r == match self {
                AnyMirror::Mirror(m) => &m.manifold_url,
                AnyMirror::ThirdPartyMirror(m) => &m.manifold_url,
            },
    {
        match self {
            AnyMirror::Mirror(m) => &m.manifold_url,
            AnyMirror::ThirdPartyMirror(m) => &m.manifold_url,
        }
    }
}

pub open spec fn mirror_has_key(m: MirrorRow, source: QuestionSource, source_id: Seq<char>) -> bool {
    m.source == source && m.source_id@ == source_id
}

pub open spec fn third_party_has_key(
    m: ThirdPartyMirrorRow,
    source: QuestionSource,
    source_id: Seq<char>,
) -> bool {
    m.source == source && m.source_id@ == source_id
}

/// The row the store adds for a new mirror.
pub open spec fn new_mirror_row(id: i64, market: MarketHandle, question: Question, date: i64) -> MirrorRow {
    MirrorRow {
        id,
        clone_date: date,
        manifold_contract_id: market.id,
        manifold_url: market.url,
        source: question.source,
        source_id: question.source_id,
        source_url: question.source_url,
        question: question.question,
        resolved: false,
    }
}

/// `m` with its resolved flag set to `resolved`.
pub open spec fn with_resolved(m: MirrorRow, resolved: bool) -> MirrorRow {
    MirrorRow { resolved, ..m }
}

/// Mirrors that `get_unresolved_mirrors` (`resolved == false`) or
/// `get_resolved_mirrors` lists, for an optional source filter.
pub open spec fn listed(m: MirrorRow, source: Option<QuestionSource>, resolved: bool) -> bool {
    m.resolved == resolved && match source {
        Some(s) => m.source == s,
        None => true,
    }
}

/// The payments of `rows` not yet processed, in order.
pub open spec fn unprocessed(rows: Seq<ManagramRow>) -> Seq<Managram>
    decreases rows.len(),
{
    if rows.len() == 0 {
        Seq::empty()
    } else if !rows.last().processed {
        unprocessed(rows.drop_last()).push(rows.last().managram)
    } else {
        unprocessed(rows.drop_last())
    }
}

/// The latest payment time among `rows`.
pub open spec fn latest_time(rows: Seq<ManagramRow>) -> Option<i64>
    decreases rows.len(),
{
    if rows.len() == 0 {
        None
    } else {
        match latest_time(rows.drop_last()) {
            Some(t) if t >= rows.last().managram.created_time => Some(t),
            _ => Some(rows.last().managram.created_time),
        }
    }
}

/// The owned mirror of a source question (unique in a well-formed store).
pub open spec fn owned_mirror(db: MirrorStore, source: QuestionSource, source_id: Seq<char>) -> MirrorRow {
    db.mirrors@[choose|i: int| 0 <= i < db.mirrors@.len() && mirror_has_key(db.mirrors@[i], source, source_id)]
}

/// The owned mirror on a destination market (unique in a well-formed store).
pub open spec fn owned_mirror_on(db: MirrorStore, contract_id: Seq<char>) -> MirrorRow {
    db.mirrors@[choose|i: int| 0 <= i < db.mirrors@.len() && db.mirrors@[i].manifold_contract_id@ == contract_id]
}

/// The earliest recorded third-party mirror of a source question.
pub open spec fn first_third_party(db: MirrorStore, source: QuestionSource, source_id: Seq<char>) -> ThirdPartyMirrorRow {
    db.third_party@[choose|i: int|
        0 <= i < db.third_party@.len() && third_party_has_key(db.third_party@[i], source, source_id) && forall|k: int|
            0 <= k < i ==> !third_party_has_key(#[trigger] db.third_party@[k], source, source_id)]
}

/// Payment flags only go from unprocessed to processed, and no payment is
/// added, removed or changed otherwise.
pub open spec fn processed_grows(before: MirrorStore, after: MirrorStore) -> bool {
    &&& after.managrams@.len() == before.managrams@.len()
    &&& forall|i: int|
        0 <= i < before.managrams@.len() ==> (#[trigger] after.managrams@[i]).managram == before.managrams@[i].managram
            && (before.managrams@[i].processed ==> after.managrams@[i].processed)
}

/// The store's three tables. Row ids count up from 1 in insertion order.
pub struct MirrorStore {
    pub mirrors: Vec<MirrorRow>,
    pub third_party: Vec<ThirdPartyMirrorRow>,
    pub managrams: Vec<ManagramRow>,
}

impl MirrorStore {
    /// The uniqueness constraints: one owned mirror per source question and
    /// per destination market, one third-party row per destination market,
    /// one payment row per transaction id.
    pub open spec fn wf(&self) -> bool {
        &&& forall|i: int| 0 <= i < self.mirrors@.len() ==> #[trigger] self.mirrors@[i].id == i + 1
        &&& forall|i: int, j: int|
            0 <= i < j < self.mirrors@.len() ==> !mirror_has_key(
                #[trigger] self.mirrors@[i],
                #[trigger] self.mirrors@[j].source,
                self.mirrors@[j].source_id@,
            ) && self.mirrors@[i].manifold_contract_id@ != self.mirrors@[j].manifold_contract_id@
        &&& forall|i: int| 0 <= i < self.third_party@.len() ==> #[trigger] self.third_party@[i].id == i + 1
        &&& forall|i: int, j: int|
            0 <= i < j < self.third_party@.len() ==> (#[trigger] self.third_party@[i]).manifold_contract_id@
                != (#[trigger] self.third_party@[j]).manifold_contract_id@
        &&& forall|i: int, j: int|
            0 <= i < j < self.managrams@.len() ==> (#[trigger] self.managrams@[i]).managram.id@
                != (#[trigger] self.managrams@[j]).managram.id@
    }

    pub open spec fn has_mirror(&self, source: QuestionSource, source_id: Seq<char>) -> bool {
        exists|i: int| 0 <= i < self.mirrors@.len() && mirror_has_key(#[trigger] self.mirrors@[i], source, source_id)
    }

    pub open spec fn has_mirror_contract(&self, contract_id: Seq<char>) -> bool {
        exists|i: int| 0 <= i < self.mirrors@.len() && (#[trigger] self.mirrors@[i]).manifold_contract_id@ == contract_id
    }

    pub open spec fn has_third_party(&self, source: QuestionSource, source_id: Seq<char>) -> bool {
        exists|i: int|
            0 <= i < self.third_party@.len() && third_party_has_key(#[trigger] self.third_party@[i], source, source_id)
    }

    pub open spec fn has_third_party_contract(&self, contract_id: Seq<char>) -> bool {
        exists|i: int|
            0 <= i < self.third_party@.len() && (#[trigger] self.third_party@[i]).manifold_contract_id@ == contract_id
    }

    pub open spec fn has_managram(&self, txn_id: Seq<char>) -> bool {
        exists|i: int| 0 <= i < self.managrams@.len() && (#[trigger] self.managrams@[i]).managram.id@ == txn_id
    }

    /// Whether the payment with this transaction id is stored and processed.
    pub open spec fn is_processed(&self, txn_id: Seq<char>) -> bool {
        exists|i: int|
            0 <= i < self.managrams@.len() && (#[trigger] self.managrams@[i]).managram.id@ == txn_id
                && self.managrams@[i].processed
    }

    /// An empty store.
    pub fn new() -> (r: MirrorStore)
        ensures
            r.wf(),
            r.mirrors@.len() == 0,
            r.third_party@.len() == 0,
            r.managrams@.len() == 0,
    {
        MirrorStore { mirrors: Vec::new(), third_party: Vec::new(), managrams: Vec::new() }
    }

    fn mirrors_ok(&self) -> (r: bool)
        ensures
            r == ((forall|i: int| 0 <= i < self.mirrors@.len() ==> #[trigger] self.mirrors@[i].id == i + 1)
                && (forall|i: int, j: int|
                0 <= i < j < self.mirrors@.len() ==> !mirror_has_key(
                    #[trigger] self.mirrors@[i],
                    #[trigger] self.mirrors@[j].source,
                    self.mirrors@[j].source_id@,
                ) && self.mirrors@[i].manifold_contract_id@ != self.mirrors@[j].manifold_contract_id@)),
    {
        let n = self.mirrors.len();
        let mut i: usize = 0;
        while i < n
            invariant
                n == self.mirrors@.len(),
                i <= n,
                forall|a: int| 0 <= a < i ==> #[trigger] self.mirrors@[a].id == a + 1,
                forall|a: int, b: int|
                    0 <= a < b < i ==> !mirror_has_key(
                        #[trigger] self.mirrors@[a],
                        #[trigger] self.mirrors@[b].source,
                        self.mirrors@[b].source_id@,
                    ) && self.mirrors@[a].manifold_contract_id@ != self.mirrors@[b].manifold_contract_id@,
            decreases n - i,
        {
            if self.mirrors[i].id as i128 != i as i128 + 1 {
                assert(self.mirrors@[i as int].id != i + 1);
                return false;
            }
            let mut j: usize = 0;
            while j < i
                invariant
                    n == self.mirrors@.len(),
                    j <= i < n,
                    forall|a: int|
                        0 <= a < j ==> !mirror_has_key(
                            #[trigger] self.mirrors@[a],
                            self.mirrors@[i as int].source,
                            self.mirrors@[i as int].source_id@,
                        ) && self.mirrors@[a].manifold_contract_id@ != self.mirrors@[i as int].manifold_contract_id@,
                decreases i - j,
            {
                let a = &self.mirrors[j];
                let b = &self.mirrors[i];
                if (a.source == b.source && str_eq(a.source_id.as_str(), b.source_id.as_str()))
                    || str_eq(a.manifold_contract_id.as_str(), b.manifold_contract_id.as_str()) {
                    assert(!(!mirror_has_key(self.mirrors@[j as int], self.mirrors@[i as int].source, self.mirrors@[i as int].source_id@)
                        && self.mirrors@[j as int].manifold_contract_id@ != self.mirrors@[i as int].manifold_contract_id@));
                    return false;
                }
                j = j + 1;
            }
            i = i + 1;
        }
        true
    }

    fn third_party_ok(&self) -> (r: bool)
        ensures
            r == ((forall|i: int| 0 <= i < self.third_party@.len() ==> #[trigger] self.third_party@[i].id == i + 1)
                && (forall|i: int, j: int|
                0 <= i < j < self.third_party@.len() ==> (#[trigger] self.third_party@[i]).manifold_contract_id@
                    != (#[trigger] self.third_party@[j]).manifold_contract_id@)),
    {
        let n = self.third_party.len();
        let mut i: usize = 0;
        while i < n
            invariant
                n == self.third_party@.len(),
                i <= n,
                forall|a: int| 0 <= a < i ==> #[trigger] self.third_party@[a].id == a + 1,
                forall|a: int, b: int|
                    0 <= a < b < i ==> (#[trigger] self.third_party@[a]).manifold_contract_id@
                        != (#[trigger] self.third_party@[b]).manifold_contract_id@,
            decreases n - i,
        {
            if self.third_party[i].id as i128 != i as i128 + 1 {
                assert(self.third_party@[i as int].id != i + 1);
                return false;
            }
            let mut j: usize = 0;
            while j < i
                invariant
                    n == self.third_party@.len(),
                    j <= i < n,
                    forall|a: int|
                        0 <= a < j ==> (#[trigger] self.third_party@[a]).manifold_contract_id@
                            != self.third_party@[i as int].manifold_contract_id@,
                decreases i - j,
            {
                if str_eq(self.third_party[j].manifold_contract_id.as_str(), self.third_party[i].manifold_contract_id.as_str()) {
                    return false;
                }
                j = j + 1;
            }
            i = i + 1;
        }
        true
    }

    fn managrams_ok(&self) -> (r: bool)
        ensures
            r == (forall|i: int, j: int|
                0 <= i < j < self.managrams@.len() ==> (#[trigger] self.managrams@[i]).managram.id@
                    != (#[trigger] self.managrams@[j]).managram.id@),
    {
        let n = self.managrams.len();
        let mut i: usize = 0;
        while i < n
            invariant
                n == self.managrams@.len(),
                i <= n,
                forall|a: int, b: int|
                    0 <= a < b < i ==> (#[trigger] self.managrams@[a]).managram.id@
                        != (#[trigger] self.managrams@[b]).managram.id@,
            decreases n - i,
        {
            let mut j: usize = 0;
            while j < i
                invariant
                    n == self.managrams@.len(),
                    j <= i < n,
                    forall|a: int|
                        0 <= a < j ==> (#[trigger] self.managrams@[a]).managram.id@
                            != self.managrams@[i as int].managram.id@,
                decreases i - j,
            {
                if str_eq(self.managrams[j].managram.id.as_str(), self.managrams[i].managram.id.as_str()) {
                    return false;
                }
                j = j + 1;
            }
            i = i + 1;
        }
        true
    }

    /// Whether the tables meet the store's uniqueness constraints and row
    /// ids count up from 1; a store read from elsewhere is checked with this
    /// before it is used.
    pub fn check_wf(&self) -> (r: bool)
        ensures
            r == self.wf(),
    {
        self.mirrors_ok() && self.third_party_ok() && self.managrams_ok()
    }

    fn find_mirror(&self, source: QuestionSource, source_id: &str) -> (r: Option<usize>)
        ensures
            match r {
                Some(i) => i < self.mirrors@.len() && mirror_has_key(self.mirrors@[i as int], source, source_id@),
                None => !self.has_mirror(source, source_id@),
            },
    {
        let mut i: usize = 0;
        while i < self.mirrors.len()
            invariant
                i <= self.mirrors@.len(),
                forall|k: int| 0 <= k < i ==> !mirror_has_key(#[trigger] self.mirrors@[k], source, source_id@),
            decreases self.mirrors@.len() - i,
        {
            if self.mirrors[i].source == source && str_eq(self.mirrors[i].source_id.as_str(), source_id) {
                return Some(i);
            }
            i = i + 1;
        }
        None
    }

    fn find_mirror_contract(&self, contract_id: &str) -> (r: Option<usize>)
        ensures
            match r {
                Some(i) => i < self.mirrors@.len() && self.mirrors@[i as int].manifold_contract_id@ == contract_id@,
                None => !self.has_mirror_contract(contract_id@),
            },
    {
        let mut i: usize = 0;
        while i < self.mirrors.len()
            invariant
                i <= self.mirrors@.len(),
                forall|k: int| 0 <= k < i ==> (#[trigger] self.mirrors@[k]).manifold_contract_id@ != contract_id@,
            decreases self.mirrors@.len() - i,
        {
            if str_eq(self.mirrors[i].manifold_contract_id.as_str(), contract_id) {
                return Some(i);
            }
            i = i + 1;
        }
        None
    }

    fn find_third_party(&self, source: QuestionSource, source_id: &str) -> (r: Option<usize>)
        ensures
            match r {
                Some(i) => i < self.third_party@.len() && third_party_has_key(self.third_party@[i as int], source, source_id@)
                    && forall|k: int| 0 <= k < i ==> !third_party_has_key(#[trigger] self.third_party@[k], source, source_id@),
                None => !self.has_third_party(source, source_id@),
            },
    {
        let mut i: usize = 0;
        while i < self.third_party.len()
            invariant
                i <= self.third_party@.len(),
                forall|k: int| 0 <= k < i ==> !third_party_has_key(#[trigger] self.third_party@[k], source, source_id@),
            decreases self.third_party@.len() - i,
        {
            if self.third_party[i].source == source && str_eq(self.third_party[i].source_id.as_str(), source_id) {
                return Some(i);
            }
            i = i + 1;
        }
        None
    }

    fn find_third_party_contract(&self, contract_id: &str) -> (r: Option<usize>)
        ensures
            match r {
                Some(i) => i < self.third_party@.len() && self.third_party@[i as int].manifold_contract_id@ == contract_id@,
                None => !self.has_third_party_contract(contract_id@),
            },
    {
        let mut i: usize = 0;
        while i < self.third_party.len()
            invariant
                i <= self.third_party@.len(),
                forall|k: int| 0 <= k < i ==> (#[trigger] self.third_party@[k]).manifold_contract_id@ != contract_id@,
            decreases self.third_party@.len() - i,
        {
            if str_eq(self.third_party[i].manifold_contract_id.as_str(), contract_id) {
                return Some(i);
            }
            i = i + 1;
        }
        None
    }

    fn find_managram(&self, txn_id: &str) -> (r: Option<usize>)
        ensures
            match r {
                Some(i) => i < self.managrams@.len() && self.managrams@[i as int].managram.id@ == txn_id@,
                None => !self.has_managram(txn_id@),
            },
    {
        let mut i: usize = 0;
        while i < self.managrams.len()
            invariant
                i <= self.managrams@.len(),
                forall|k: int| 0 <= k < i ==> (#[trigger] self.managrams@[k]).managram.id@ != txn_id@,
            decreases self.managrams@.len() - i,
        {
            if str_eq(self.managrams[i].managram.id.as_str(), txn_id) {
                return Some(i);
            }
            i = i + 1;
        }
        None
    }
}

/// Records a new mirror. Fails with `Conflict` when the source question or
/// the destination market already has an owned mirror.
pub fn insert_mirror(db: &mut MirrorStore, market: &MarketHandle, question: &Question, clone_date: i64) -> (r: Result<MirrorRow, StoreError>)
    requires
        old(db).wf(),
    ensures
        final(db).wf(),
        (r == Err::<MirrorRow, _>(StoreError::Conflict)) == (old(db).has_mirror(question.source, question.source_id@)
            || old(db).has_mirror_contract(market.id@)),
        (r == Err::<MirrorRow, _>(StoreError::Full)) == (!old(db).has_mirror(question.source, question.source_id@)
            && !old(db).has_mirror_contract(market.id@) && old(db).mirrors@.len() >= i64::MAX),
        (r is Ok) == (!old(db).has_mirror(question.source, question.source_id@)
            && !old(db).has_mirror_contract(market.id@) && old(db).mirrors@.len() < i64::MAX),
        r is Err ==> *final(db) == *old(db),
        r matches Ok(m) ==> m == new_mirror_row((old(db).mirrors@.len() + 1) as i64, *market, *question, clone_date)
            && final(db).mirrors@ == old(db).mirrors@.push(m)
            && final(db).third_party == old(db).third_party
            && final(db).managrams == old(db).managrams,
{
    if db.find_mirror(question.source, question.source_id.as_str()).is_some()
        || db.find_mirror_contract(market.id.as_str()).is_some() {
        return Err(StoreError::Conflict);
    }
    if db.mirrors.len() as u64 >= i64::MAX as u64 {
        return Err(StoreError::Full);
    }
    let row = MirrorRow {
        id: (db.mirrors.len() as u64 + 1) as i64,
        clone_date,
        manifold_contract_id: market.id.clone(),
        manifold_url: market.url.clone(),
        source: question.source,
        source_id: question.source_id.clone(),
        source_url: question.source_url.clone(),
        question: question.question.clone(),
        resolved: false,
    };
    let out = row.clone();
    db.mirrors.push(row);
    Ok(out)
}

/// Records a market created by someone else. Fails with `Conflict` when the
/// destination market is already recorded as third-party.
pub fn insert_third_party_mirror(
    db: &mut MirrorStore,
    market: &MarketHandle,
    created_time: i64,
    source: QuestionSource,
    source_id: &str,
) -> (r: Result<ThirdPartyMirrorRow, StoreError>)
    requires
        old(db).wf(),
    ensures
        final(db).wf(),
        (r == Err::<ThirdPartyMirrorRow, _>(StoreError::Conflict)) == old(db).has_third_party_contract(market.id@),
        (r == Err::<ThirdPartyMirrorRow, _>(StoreError::Full)) == (!old(db).has_third_party_contract(market.id@)
            && old(db).third_party@.len() >= i64::MAX),
        (r is Ok) == (!old(db).has_third_party_contract(market.id@) && old(db).third_party@.len() < i64::MAX),
        r is Err ==> *final(db) == *old(db),
        r matches Ok(m) ==> m.id == old(db).third_party@.len() + 1 && m.manifold_contract_id == market.id
            && m.manifold_url == market.url && m.source == source && m.source_id@ == source_id@
            && m.created_time == created_time
            && final(db).third_party@ == old(db).third_party@.push(m)
            && final(db).mirrors == old(db).mirrors
            && final(db).managrams == old(db).managrams,
{
    if db.find_third_party_contract(market.id.as_str()).is_some() {
        return Err(StoreError::Conflict);
    }
    if db.third_party.len() as u64 >= i64::MAX as u64 {
        return Err(StoreError::Full);
    }
    let row = ThirdPartyMirrorRow {
        id: (db.third_party.len() as u64 + 1) as i64,
        manifold_contract_id: market.id.clone(),
        manifold_url: market.url.clone(),
        source,
        source_id: source_id.to_owned(),
        created_time,
    };
    let out = row.clone();
    db.third_party.push(row);
    Ok(out)
}

/// The owned mirror of a source question, if any.
pub fn get_mirror_by_source_id(db: &MirrorStore, source: QuestionSource, source_id: &str) -> (r: Option<MirrorRow>)
    requires
        db.wf(),
    ensures
        match r {
            Some(m) => db.has_mirror(source, source_id@) && m == owned_mirror(*db, source, source_id@)
                && mirror_has_key(m, source, source_id@) && db.mirrors@.contains(m),
            None => !db.has_mirror(source, source_id@),
        },
{
    match db.find_mirror(source, source_id) {
        Some(i) => {
            proof {
                let j = choose|j: int| 0 <= j < db.mirrors@.len() && mirror_has_key(db.mirrors@[j], source, source_id@);
                if (i as int) < j {
                    assert(!mirror_has_key(db.mirrors@[i as int], db.mirrors@[j].source, db.mirrors@[j].source_id@));
                } else if j < i {
                    assert(!mirror_has_key(db.mirrors@[j], db.mirrors@[i as int].source, db.mirrors@[i as int].source_id@));
                }
                assert(db.mirrors@.contains(db.mirrors@[i as int]));
            }
            Some(db.mirrors[i].clone())
        },
        None => None,
    }
}

/// The owned mirror on a destination market, if any.
pub fn get_mirror_by_contract_id(db: &MirrorStore, contract_id: &str) -> (r: Option<MirrorRow>)
    requires
        db.wf(),
    ensures
        match r {
            Some(m) => db.has_mirror_contract(contract_id@) && m == owned_mirror_on(*db, contract_id@)
                && m.manifold_contract_id@ == contract_id@ && db.mirrors@.contains(m),
            None => !db.has_mirror_contract(contract_id@),
        },
{
    match db.find_mirror_contract(contract_id) {
        Some(i) => {
            proof {
                let j = choose|j: int| 0 <= j < db.mirrors@.len() && db.mirrors@[j].manifold_contract_id@ == contract_id@;
                if (i as int) < j {
                    assert(!mirror_has_key(db.mirrors@[i as int], db.mirrors@[j].source, db.mirrors@[j].source_id@));
                    assert(db.mirrors@[i as int].manifold_contract_id@ != db.mirrors@[j].manifold_contract_id@);
                } else if j < i {
                    assert(!mirror_has_key(db.mirrors@[j], db.mirrors@[i as int].source, db.mirrors@[i as int].source_id@));
                    assert(db.mirrors@[j].manifold_contract_id@ != db.mirrors@[i as int].manifold_contract_id@);
                }
                assert(db.mirrors@.contains(db.mirrors@[i as int]));
            }
            Some(db.mirrors[i].clone())
        },
        None => None,
    }
}

/// The first recorded third-party mirror of a source question, if any.
pub fn get_third_party_mirror_by_source_id(db: &MirrorStore, source: QuestionSource, source_id: &str) -> (r: Option<ThirdPartyMirrorRow>)
    ensures
        match r {
            Some(m) => db.has_third_party(source, source_id@) && m == first_third_party(*db, source, source_id@)
                && third_party_has_key(m, source, source_id@) && db.third_party@.contains(m),
            None => !db.has_third_party(source, source_id@),
        },
{
    match db.find_third_party(source, source_id) {
        Some(i) => {
            proof {
                let j = choose|j: int|
                    0 <= j < db.third_party@.len() && third_party_has_key(db.third_party@[j], source, source_id@)
                        && forall|k: int| 0 <= k < j ==> !third_party_has_key(#[trigger] db.third_party@[k], source, source_id@);
                if (i as int) < j {
                    assert(!third_party_has_key(db.third_party@[i as int], source, source_id@));
                } else if j < i {
                    assert(!third_party_has_key(db.third_party@[j], source, source_id@));
                }
                assert(db.third_party@.contains(db.third_party@[i as int]));
            }
            Some(db.third_party[i].clone())
        },
        None => None,
    }
}

/// The third-party mirror on a destination market, if any.
pub fn get_third_party_mirror_by_contract_id(db: &MirrorStore, contract_id: &str) -> (r: Option<ThirdPartyMirrorRow>)
    ensures
        match r {
            Some(m) => m.manifold_contract_id@ == contract_id@ && db.third_party@.contains(m),
            None => !db.has_third_party_contract(contract_id@),
        },
{
    match db.find_third_party_contract(contract_id) {
        Some(i) => Some(db.third_party[i].clone()),
        None => None,
    }
}

/// Any mirror of a source question: the owned one first, else a third-party one.
pub fn get_any_mirror(db: &MirrorStore, source: QuestionSource, source_id: &str) -> (r: Option<AnyMirror>)
    requires
        db.wf(),
    ensures
        match r {
            Some(AnyMirror::Mirror(m)) => db.has_mirror(source, source_id@) && m == owned_mirror(*db, source, source_id@),
            Some(AnyMirror::ThirdPartyMirror(m)) => !db.has_mirror(source, source_id@) && db.has_third_party(source, source_id@)
                && m == first_third_party(*db, source, source_id@),
            None => !db.has_mirror(source, source_id@) && !db.has_third_party(source, source_id@),
        },
{
    if let Some(m) = get_mirror_by_source_id(db, source, source_id) {
        return Some(AnyMirror::Mirror(m));
    }
    if let Some(m) = get_third_party_mirror_by_source_id(db, source, source_id) {
        return Some(AnyMirror::ThirdPartyMirror(m));
    }
    None
}

fn list_mirrors(db: &MirrorStore, source: Option<QuestionSource>, resolved: bool) -> (r: Vec<MirrorRow>)
    ensures
        r@ == db.mirrors@.filter(|m: MirrorRow| listed(m, source, resolved)),
{
    let ghost pred = |m: MirrorRow| listed(m, source, resolved);
    let mut out: Vec<MirrorRow> = Vec::new();
    let mut i: usize = 0;
    while i < db.mirrors.len()
        invariant
            i <= db.mirrors@.len(),
            pred == |m: MirrorRow| listed(m, source, resolved),
            out@ == db.mirrors@.subrange(0, i as int).filter(pred),
        decreases db.mirrors@.len() - i,
    {
        assert(db.mirrors@.subrange(0, i + 1) =~= db.mirrors@.subrange(0, i as int).push(db.mirrors@[i as int]));
        proof {
            db.mirrors@.subrange(0, i as int).lemma_filter_push(db.mirrors@[i as int], pred);
        }
        let m = &db.mirrors[i];
        let keep = m.resolved == resolved && match source {
            Some(s) => m.source == s,
            None => true,
        };
        if keep {
            out.push(m.clone());
        }
        i = i + 1;
    }
    assert(db.mirrors@.subrange(0, i as int) =~= db.mirrors@);
    out
}

/// Owned mirrors not yet resolved, optionally of one source, in id order.
pub fn get_unresolved_mirrors(db: &MirrorStore, source: Option<QuestionSource>) -> (r: Vec<MirrorRow>)
    ensures
        r@ == db.mirrors@.filter(|m: MirrorRow| listed(m, source, false)),
{
    list_mirrors(db, source, false)
}

/// Owned mirrors already resolved, optionally of one source, in id order.
pub fn get_resolved_mirrors(db: &MirrorStore, source: Option<QuestionSource>) -> (r: Vec<MirrorRow>)
    ensures
        r@ == db.mirrors@.filter(|m: MirrorRow| listed(m, source, true)),
{
    list_mirrors(db, source, true)
}

/// All owned mirrors, in id order.
pub fn get_mirrors(db: &MirrorStore) -> (r: Vec<MirrorRow>)
    ensures
        r@ == db.mirrors@,
{
    let mut out: Vec<MirrorRow> = Vec::new();
    let mut i: usize = 0;
    while i < db.mirrors.len()
        invariant
            i <= db.mirrors@.len(),
            out@ == db.mirrors@.subrange(0, i as int),
        decreases db.mirrors@.len() - i,
    {
        out.push(db.mirrors[i].clone());
        assert(out@ =~= db.mirrors@.subrange(0, i + 1));
        i = i + 1;
    }
    assert(out@ =~= db.mirrors@);
    out
}

/// All third-party mirrors, in id order.
pub fn get_third_party_mirrors(db: &MirrorStore) -> (r: Vec<ThirdPartyMirrorRow>)
    ensures
        r@ == db.third_party@,
{
    let mut out: Vec<ThirdPartyMirrorRow> = Vec::new();
    let mut i: usize = 0;
    while i < db.third_party.len()
        invariant
            i <= db.third_party@.len(),
            out@ == db.third_party@.subrange(0, i as int),
        decreases db.third_party@.len() - i,
    {
        out.push(db.third_party[i].clone());
        assert(out@ =~= db.third_party@.subrange(0, i + 1));
        i = i + 1;
    }
    assert(out@ =~= db.third_party@);
    out
}

/// Sets the resolved flag of the mirror with row id `id`; `NotFound` when
/// there is none.
pub fn set_mirror_resolved(db: &mut MirrorStore, id: i64, resolved: bool) -> (r: Result<(), StoreError>)
    requires
        old(db).wf(),
    ensures
        final(db).wf(),
        (r is Ok) == (1 <= id <= old(db).mirrors@.len()),
        r is Err ==> r == Err::<(), _>(StoreError::NotFound) && *final(db) == *old(db),
        r is Ok ==> final(db).mirrors@ == old(db).mirrors@.update(id - 1, with_resolved(old(db).mirrors@[id - 1], resolved))
            && final(db).third_party == old(db).third_party
            && final(db).managrams == old(db).managrams,
{
    if id < 1 || id as u64 > db.mirrors.len() as u64 {
        return Err(StoreError::NotFound);
    }
    let k = (id - 1) as usize;
    let mut row = db.mirrors[k].clone();
    row.resolved = resolved;
    db.mirrors.set(k, row);
    assert(forall|i: int| 0 <= i < db.mirrors@.len() && i != k ==> db.mirrors@[i] == old(db).mirrors@[i]);
    Ok(())
}

/// Records an observed payment, not yet processed. Fails with `Conflict`
/// when its transaction id is already stored.
pub fn insert_managram(db: &mut MirrorStore, managram: &Managram) -> (r: Result<Managram, StoreError>)
    requires
        old(db).wf(),
    ensures
        final(db).wf(),
        (r is Err) == old(db).has_managram(managram.id@),
        r is Err ==> r == Err::<Managram, _>(StoreError::Conflict) && *final(db) == *old(db),
        r matches Ok(m) ==> m == *managram
            && final(db).managrams@ == old(db).managrams@.push(ManagramRow { managram: m, processed: false })
            && final(db).mirrors == old(db).mirrors
            && final(db).third_party == old(db).third_party,
{
    if db.find_managram(managram.id.as_str()).is_some() {
        return Err(StoreError::Conflict);
    }
    db.managrams.push(ManagramRow { managram: managram.clone(), processed: false });
    Ok(managram.clone())
}

/// The time of the latest stored payment; `None` when none is stored.
pub fn last_managram_timestamp(db: &MirrorStore) -> (r: Option<i64>)
    ensures
        r == latest_time(db.managrams@),
        r is None <==> db.managrams@.len() == 0,
{
    let mut best: Option<i64> = None;
    let mut i: usize = 0;
    while i < db.managrams.len()
        invariant
            i <= db.managrams@.len(),
            best == latest_time(db.managrams@.subrange(0, i as int)),
            best is None <==> i == 0,
        decreases db.managrams@.len() - i,
    {
        assert(db.managrams@.subrange(0, i + 1).drop_last() =~= db.managrams@.subrange(0, i as int));
        let t = db.managrams[i].managram.created_time;
        best = match best {
            Some(b) if b >= t => Some(b),
            _ => Some(t),
        };
        i = i + 1;
    }
    assert(db.managrams@.subrange(0, i as int) =~= db.managrams@);
    best
}

/// Stored payments not yet processed, in the order they were stored.
pub fn get_unprocessed_managrams(db: &MirrorStore) -> (r: Vec<Managram>)
    ensures
        r@ == unprocessed(db.managrams@),
{
    let mut out: Vec<Managram> = Vec::new();
    let mut i: usize = 0;
    while i < db.managrams.len()
        invariant
            i <= db.managrams@.len(),
            out@ == unprocessed(db.managrams@.subrange(0, i as int)),
        decreases db.managrams@.len() - i,
    {
        assert(db.managrams@.subrange(0, i + 1).drop_last() =~= db.managrams@.subrange(0, i as int));
        if !db.managrams[i].processed {
            out.push(db.managrams[i].managram.clone());
        }
        i = i + 1;
    }
    assert(db.managrams@.subrange(0, i as int) =~= db.managrams@);
    out
}

/// Chained stages keep the processed flags growing: a payment marked
/// processed is never unmarked.
pub proof fn lemma_processed_grows_chain(a: MirrorStore, b: MirrorStore, c: MirrorStore)
    requires
        processed_grows(a, b),
        processed_grows(b, c),
    ensures
        processed_grows(a, c),
        forall|t: Seq<char>| a.is_processed(t) ==> c.is_processed(t),
{
    assert forall|t: Seq<char>| a.is_processed(t) implies c.is_processed(t) by {
        let k = choose|k: int| 0 <= k < a.managrams@.len() && (#[trigger] a.managrams@[k]).managram.id@ == t
            && a.managrams@[k].processed;
        assert(b.managrams@[k].processed && c.managrams@[k].processed);
    }
}

/// The rows the store adds for newly observed payments.
pub open spec fn new_rows(ms: Seq<Managram>) -> Seq<ManagramRow> {
    ms.map_values(|m: Managram| ManagramRow { managram: m, processed: false })
}

/// Stores payments fetched from the platform, in order, stopping at the
/// first whose transaction id is already stored.
pub fn sync_managrams(db: &mut MirrorStore, fetched: &Vec<Managram>) -> (r: Result<(), StoreError>)
    requires
        old(db).wf(),
    ensures
        final(db).wf(),
        final(db).mirrors == old(db).mirrors,
        final(db).third_party == old(db).third_party,
        r is Ok ==> final(db).managrams@ == old(db).managrams@ + new_rows(fetched@),
        r is Err ==> r == Err::<(), _>(StoreError::Conflict) && exists|i: int|
            0 <= i < fetched@.len() && final(db).managrams@ == old(db).managrams@ + new_rows(fetched@.subrange(0, i))
                && #[trigger] final(db).has_managram(fetched@[i].id@),
{
    let mut i: usize = 0;
    while i < fetched.len()
        invariant
            i <= fetched@.len(),
            db.wf(),
            db.mirrors == old(db).mirrors,
            db.third_party == old(db).third_party,
            db.managrams@ == old(db).managrams@ + new_rows(fetched@.subrange(0, i as int)),
        decreases fetched@.len() - i,
    {
        let ghost before = db.managrams@;
        match insert_managram(db, &fetched[i]) {
            Ok(_) => {
                assert(new_rows(fetched@.subrange(0, i + 1)) =~= new_rows(fetched@.subrange(0, i as int)).push(
                    ManagramRow { managram: fetched@[i as int], processed: false },
                ));
                assert(db.managrams@ =~= old(db).managrams@ + new_rows(fetched@.subrange(0, i + 1)));
            },
            Err(e) => {
                return Err(e);
            },
        }
        i = i + 1;
    }
    assert(fetched@.subrange(0, i as int) =~= fetched@);
    Ok(())
}

/// Sets the processed flag of the payment with transaction id `id`;
/// `NotFound` when there is none.
pub fn set_managram_processed(db: &mut MirrorStore, id: &str, processed: bool) -> (r: Result<(), StoreError>)
    requires
        old(db).wf(),
    ensures
        final(db).wf(),
        (r is Ok) == old(db).has_managram(id@),
        r is Err ==> r == Err::<(), _>(StoreError::NotFound) && *final(db) == *old(db),
        r is Ok ==> exists|k: int|
            0 <= k < old(db).managrams@.len() && (#[trigger] old(db).managrams@[k]).managram.id@ == id@
                && final(db).managrams@ == old(db).managrams@.update(
                k,
                ManagramRow { managram: old(db).managrams@[k].managram, processed },
            ),
        final(db).mirrors == old(db).mirrors,
        final(db).third_party == old(db).third_party,
        processed ==> processed_grows(*old(db), *final(db)),
        r is Ok ==> (final(db).is_processed(id@) == processed),
{
    match db.find_managram(id) {
        None => Err(StoreError::NotFound),
        Some(k) => {
            let m = db.managrams[k].managram.clone();
            db.managrams.set(k, ManagramRow { managram: m, processed });
            assert(forall|i: int| 0 <= i < db.managrams@.len() && i != k ==> db.managrams@[i] == old(db).managrams@[i]);
            assert(db.managrams@[k as int].managram.id@ == id@);
            proof {
                if db.is_processed(id@) {
                    let j = choose|j: int| 0 <= j < db.managrams@.len() && (#[trigger] db.managrams@[j]).managram.id@ == id@
                        && db.managrams@[j].processed;
                    if j != k {
                        if j < k {
                            assert(old(db).managrams@[j].managram.id@ != old(db).managrams@[k as int].managram.id@);
                        } else {
                            assert(old(db).managrams@[k as int].managram.id@ != old(db).managrams@[j].managram.id@);
                        }
                    }
                }
            }
            Ok(())
        },
    }
}

} // verus!
