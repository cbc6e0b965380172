//! Publisher reputation: a score between 0 and 1000 per publisher, moved
//! by advertisers' reviews, by the oracle's slashes (with a cooldown in
//! ledgers) and by an uptime bonus that is replaced, never accumulated.

use std::collections::HashMap;
use vstd::prelude::*;
use crate::admin::AdminSlots;
use crate::common::{follows, lookup, make_pair_key, pair_key, fits_u32, fits_u64, min_int, Address, CallContext, Error};

verus! {

#[derive(Clone, Copy, PartialEq, Eq, Debug, Structural)]
pub struct ReputationScore {
    pub publisher: Address,
    /// Between 0 and 1000.
    pub score: u32,
    pub total_reviews: u64,
    pub positive_reviews: u64,
    pub negative_reviews: u64,
    pub slashes: u32,
    /// Between 0 and 100.
    pub uptime_score: u32,
    /// Between 0 and 100.
    pub quality_score: u32,
    pub last_slash_ledger: u32,
    pub last_updated: u64,
    /// The part of the score that the current uptime bonus makes up.
    pub uptime_contribution: u32,
}

#[derive(Clone, Copy, PartialEq, Eq, Debug, Structural)]
pub struct ReviewEntry {
    pub reviewer: Address,
    pub campaign_id: u64,
    pub positive: bool,
    /// Between 1 and 5.
    pub rating: u32,
    pub timestamp: u64,
}

/// The highest reputation score.
pub const MAX_SCORE: u32 = 1000;

/// Ledgers that must pass after a slash before the next one.
pub const SLASH_COOLDOWN_LEDGERS: u32 = 100;

/// `a - b`, or zero when `b` exceeds `a`.
pub open spec fn sat_sub(a: int, b: int) -> int {
    if a >= b { a - b } else { 0 }
}

/// The uptime bonus: a fifth of the uptime percentage from 90% up, else nothing.
pub open spec fn uptime_bonus(uptime: u32) -> u32 {
    if uptime >= 90 { (uptime / 5) as u32 } else { 0 }
}

/// The contract's stored state.
pub struct ReputationState {
    pub admin: AdminSlots,
    pub oracle: Option<Address>,
    pub reputations: Map<u64, ReputationScore>,
    /// Reviews keyed by `pair_key(publisher, index)`.
    pub reviews: Map<u128, ReviewEntry>,
    pub review_counts: Map<u64, u64>,
}

impl ReputationState {
    pub open spec fn review_count(self, publisher: Address) -> u64 {
        if self.review_counts.contains_key(publisher.id) { self.review_counts[publisher.id] } else { 0 }
    }

    /// The check that `oracle` authorized the call and is the reputation oracle.
    pub open spec fn oracle_check(self, ctx: &CallContext, oracle: Address) -> Result<(), Error> {
        if !ctx.authorizes(oracle) {
            Err(Error::AuthRequired)
        } else if self.oracle is None {
            Err(Error::NotInitialized)
        } else if self.oracle != Some(oracle) {
            Err(Error::Unauthorized)
        } else {
            Ok(())
        }
    }

    pub open spec fn initialize(self, ctx: &CallContext, admin: Address, oracle: Address) -> Result<ReputationState, Error> {
        if self.admin.admin is Some {
            Err(Error::AlreadyInitialized)
        } else if !ctx.authorizes(admin) {
            Err(Error::AuthRequired)
        } else {
            Ok(ReputationState {
                admin: AdminSlots { admin: Some(admin), pending: self.admin.pending },
                oracle: Some(oracle),
                ..self
            })
        }
    }

    pub open spec fn init_publisher(self, ctx: &CallContext, publisher: Address) -> Result<ReputationState, Error> {
        if self.reputations.contains_key(publisher.id) {
            Err(Error::PublisherAlreadyInitialized)
        } else {
            Ok(ReputationState {
                reputations: self.reputations.insert(publisher.id, ReputationScore {
                    publisher,
                    score: 500,
                    total_reviews: 0,
                    positive_reviews: 0,
                    negative_reviews: 0,
                    slashes: 0,
                    uptime_score: 100,
                    quality_score: 100,
                    last_slash_ledger: 0,
                    last_updated: ctx.timestamp,
                    uptime_contribution: 0,
                }),
                ..self
            })
        }
    }

    pub open spec fn submit_review(
        self,
        ctx: &CallContext,
        advertiser: Address,
        publisher: Address,
        campaign_id: u64,
        positive: bool,
        rating: u32,
    ) -> Result<ReputationState, Error> {
        let rep = self.reputations[publisher.id];
        let count = self.review_count(publisher);
        if !ctx.authorizes(advertiser) {
            Err(Error::AuthRequired)
        } else if rating < 1 || rating > 5 {
            Err(Error::InvalidRating)
        } else if !self.reputations.contains_key(publisher.id) {
            Err(Error::PublisherNotRegistered)
        } else if !fits_u64(count + 1) || !fits_u64(rep.total_reviews + 1) {
            Err(Error::Overflow)
        } else if positive && (!fits_u64(rep.positive_reviews + 1) || !fits_u32(rep.score + rating * 2)) {
            Err(Error::Overflow)
        } else if !positive && !fits_u64(rep.negative_reviews + 1) {
            Err(Error::Overflow)
        } else {
            Ok(ReputationState {
                reviews: self.reviews.insert(pair_key(publisher.id, count), ReviewEntry {
                    reviewer: advertiser,
                    campaign_id,
                    positive,
                    rating,
                    timestamp: ctx.timestamp,
                }),
                review_counts: self.review_counts.insert(publisher.id, (count + 1) as u64),
                reputations: self.reputations.insert(publisher.id, if positive {
                    ReputationScore {
                        total_reviews: (rep.total_reviews + 1) as u64,
                        positive_reviews: (rep.positive_reviews + 1) as u64,
                        score: min_int(rep.score + rating * 2, MAX_SCORE as int) as u32,
                        last_updated: ctx.timestamp,
                        ..rep
                    }
                } else {
                    ReputationScore {
                        total_reviews: (rep.total_reviews + 1) as u64,
                        negative_reviews: (rep.negative_reviews + 1) as u64,
                        score: sat_sub(rep.score as int, rating * 3) as u32,
                        last_updated: ctx.timestamp,
                        ..rep
                    }
                }),
                ..self
            })
        }
    }

    pub open spec fn slash_publisher(self, ctx: &CallContext, oracle: Address, publisher: Address, penalty: u32) -> Result<ReputationState, Error> {
        let rep = self.reputations[publisher.id];
        let applied = min_int(penalty as int, 100);
        if self.oracle_check(ctx, oracle) is Err {
            Err(self.oracle_check(ctx, oracle)->Err_0)
        } else if !self.reputations.contains_key(publisher.id) {
            Err(Error::PublisherNotRegistered)
        } else if !fits_u32(rep.last_slash_ledger + SLASH_COOLDOWN_LEDGERS) {
            Err(Error::Overflow)
        } else if ctx.sequence <= rep.last_slash_ledger + SLASH_COOLDOWN_LEDGERS {
            Err(Error::SlashCooldownActive)
        } else if !fits_u32(rep.slashes + 1) {
            Err(Error::Overflow)
        } else {
            Ok(ReputationState {
                reputations: self.reputations.insert(publisher.id, ReputationScore {
                    slashes: (rep.slashes + 1) as u32,
                    score: sat_sub(rep.score as int, applied) as u32,
                    last_slash_ledger: ctx.sequence,
                    last_updated: ctx.timestamp,
                    ..rep
                }),
                ..self
            })
        }
    }

    pub open spec fn update_uptime(self, ctx: &CallContext, oracle: Address, publisher: Address, uptime: u32) -> Result<ReputationState, Error> {
        let rep = self.reputations[publisher.id];
        let base = sat_sub(rep.score as int, rep.uptime_contribution as int);
        let bonus = uptime_bonus(uptime);
        if self.oracle_check(ctx, oracle) is Err {
            Err(self.oracle_check(ctx, oracle)->Err_0)
        } else if uptime > 100 {
            Err(Error::InvalidUptime)
        } else if !self.reputations.contains_key(publisher.id) {
            Err(Error::PublisherNotRegistered)
        } else if !fits_u32(base + bonus) {
            Err(Error::Overflow)
        } else {
            Ok(ReputationState {
                reputations: self.reputations.insert(publisher.id, ReputationScore {
                    score: min_int(base + bonus, MAX_SCORE as int) as u32,
                    uptime_score: uptime,
                    uptime_contribution: bonus,
                    last_updated: ctx.timestamp,
                    ..rep
                }),
                ..self
            })
        }
    }

    pub open spec fn propose_admin(self, ctx: &CallContext, current_admin: Address, new_admin: Address) -> Result<ReputationState, Error> {
        match self.admin.after_propose(ctx, current_admin, new_admin) {
            Ok(a) => Ok(ReputationState { admin: a, ..self }),
            Err(e) => Err(e),
        }
    }

    pub open spec fn accept_admin(self, ctx: &CallContext, new_admin: Address) -> Result<ReputationState, Error> {
        match self.admin.after_accept(ctx, new_admin) {
            Ok(a) => Ok(ReputationState { admin: a, ..self }),
            Err(e) => Err(e),
        }
    }

    /// Every publisher's score is at most 1000 and its uptime bonus at most 20.
    pub open spec fn scores_bounded(self) -> bool {
        forall|p: u64| #[trigger] self.reputations.contains_key(p) ==> {
            &&& self.reputations[p].score <= MAX_SCORE
            &&& self.reputations[p].uptime_contribution <= 20
        }
    }
}

/// The publisher reputation contract.
pub struct PublisherReputationContract {
    admin: AdminSlots,
    oracle: Option<Address>,
    reputations: HashMap<u64, ReputationScore>,
    reviews: HashMap<u128, ReviewEntry>,
    review_counts: HashMap<u64, u64>,
}

impl View for PublisherReputationContract {
    type V = ReputationState;

    closed spec fn view(&self) -> ReputationState {
        ReputationState {
            admin: self.admin,
            oracle: self.oracle,
            reputations: self.reputations@,
            reviews: self.reviews@,
            review_counts: self.review_counts@,
        }
    }
}

impl PublisherReputationContract {
    /// An empty, uninitialized contract.
    pub fn new() -> (c: PublisherReputationContract)
        ensures
            c@.admin == AdminSlots::new_spec(),
            c@.oracle is None,
            c@.reputations == Map::<u64, ReputationScore>::empty(),
            c@.reviews == Map::<u128, ReviewEntry>::empty(),
            c@.review_counts == Map::<u64, u64>::empty(),
    {
        PublisherReputationContract {
            admin: AdminSlots::new(),
            oracle: None,
            reputations: HashMap::new(),
            reviews: HashMap::new(),
            review_counts: HashMap::new(),
        }
    }

    fn oracle_gate(&self, ctx: &CallContext, oracle: Address) -> (r: Result<(), Error>)
        ensures
            r == self@.oracle_check(ctx, oracle),
    {
        match ctx.require_auth(oracle) {
            Ok(()) => {},
            Err(e) => return Err(e),
        }
        match self.oracle {
            None => Err(Error::NotInitialized),
            Some(o) => if o == oracle { Ok(()) } else { Err(Error::Unauthorized) },
        }
    }

    pub fn initialize(&mut self, ctx: &CallContext, admin: Address, oracle: Address) -> (r: Result<(), Error>)
        ensures
            follows(old(self)@.initialize(ctx, admin, oracle), r, old(self)@, final(self)@),
    {
        if self.admin.admin.is_some() {
            return Err(Error::AlreadyInitialized);
        }
        match ctx.require_auth(admin) {
            Ok(()) => {},
            Err(e) => return Err(e),
        }
        self.admin.admin = Some(admin);
        self.oracle = Some(oracle);
        Ok(())
    }

    pub fn init_publisher(&mut self, ctx: &CallContext, publisher: Address) -> (r: Result<(), Error>)
        ensures
            follows(old(self)@.init_publisher(ctx, publisher), r, old(self)@, final(self)@),
    {
        if self.reputations.contains_key(&publisher.id) {
            return Err(Error::PublisherAlreadyInitialized);
        }
        self.reputations.insert(publisher.id, ReputationScore {
            publisher,
            score: 500,
            total_reviews: 0,
            positive_reviews: 0,
            negative_reviews: 0,
            slashes: 0,
            uptime_score: 100,
            quality_score: 100,
            last_slash_ledger: 0,
            last_updated: ctx.timestamp,
            uptime_contribution: 0,
        });
        Ok(())
    }

    pub fn submit_review(
        &mut self,
        ctx: &CallContext,
        advertiser: Address,
        publisher: Address,
        campaign_id: u64,
        positive: bool,
        rating: u32,
    ) -> (r: Result<(), Error>)
        ensures
            follows(old(self)@.submit_review(ctx, advertiser, publisher, campaign_id, positive, rating), r, old(self)@, final(self)@),
    {
        match ctx.require_auth(advertiser) {
            Ok(()) => {},
            Err(e) => return Err(e),
        }
        if rating < 1 || rating > 5 {
            return Err(Error::InvalidRating);
        }
        let mut rep = match self.reputations.get(&publisher.id) {
            Some(r) => *r,
            None => return Err(Error::PublisherNotRegistered),
        };
        let count: u64 = match self.review_counts.get(&publisher.id) {
            Some(c) => *c,
            None => 0,
        };
        let next = match count.checked_add(1) {
            Some(v) => v,
            None => return Err(Error::Overflow),
        };
        rep.total_reviews = match rep.total_reviews.checked_add(1) {
            Some(v) => v,
            None => return Err(Error::Overflow),
        };
        if positive {
            rep.positive_reviews = match rep.positive_reviews.checked_add(1) {
                Some(v) => v,
                None => return Err(Error::Overflow),
            };
            let raised = match rep.score.checked_add(rating * 2) {
                Some(v) => v,
                None => return Err(Error::Overflow),
            };
            rep.score = if raised < MAX_SCORE { raised } else { MAX_SCORE };
        } else {
            rep.negative_reviews = match rep.negative_reviews.checked_add(1) {
                Some(v) => v,
                None => return Err(Error::Overflow),
            };
            rep.score = rep.score.saturating_sub(rating * 3);
        }
        rep.last_updated = ctx.timestamp;
        self.reviews.insert(make_pair_key(publisher.id, count), ReviewEntry {
            reviewer: advertiser,
            campaign_id,
            positive,
            rating,
            timestamp: ctx.timestamp,
        });
        self.review_counts.insert(publisher.id, next);
        self.reputations.insert(publisher.id, rep);
        Ok(())
    }

    pub fn slash_publisher(&mut self, ctx: &CallContext, oracle: Address, publisher: Address, penalty: u32) -> (r: Result<(), Error>)
        ensures
            follows(old(self)@.slash_publisher(ctx, oracle, publisher, penalty), r, old(self)@, final(self)@),
    {
        match self.oracle_gate(ctx, oracle) {
            Ok(()) => {},
            Err(e) => return Err(e),
        }
        let mut rep = match self.reputations.get(&publisher.id) {
            Some(r) => *r,
            None => return Err(Error::PublisherNotRegistered),
        };
        let cooldown_end = match rep.last_slash_ledger.checked_add(SLASH_COOLDOWN_LEDGERS) {
            Some(v) => v,
            None => return Err(Error::Overflow),
        };
        if ctx.sequence <= cooldown_end {
            return Err(Error::SlashCooldownActive);
        }
        let applied = if penalty < 100 { penalty } else { 100 };
        rep.slashes = match rep.slashes.checked_add(1) {
            Some(v) => v,
            None => return Err(Error::Overflow),
        };
        rep.score = rep.score.saturating_sub(applied);
        rep.last_slash_ledger = ctx.sequence;
        rep.last_updated = ctx.timestamp;
        self.reputations.insert(publisher.id, rep);
        Ok(())
    }

    pub fn update_uptime(&mut self, ctx: &CallContext, oracle: Address, publisher: Address, uptime: u32) -> (r: Result<(), Error>)
        ensures
            follows(old(self)@.update_uptime(ctx, oracle, publisher, uptime), r, old(self)@, final(self)@),
    {
        match self.oracle_gate(ctx, oracle) {
            Ok(()) => {},
            Err(e) => return Err(e),
        }
        if uptime > 100 {
            return Err(Error::InvalidUptime);
        }
        let mut rep = match self.reputations.get(&publisher.id) {
            Some(r) => *r,
            None => return Err(Error::PublisherNotRegistered),
        };
        let base = rep.score.saturating_sub(rep.uptime_contribution);
        let bonus = if uptime >= 90 { uptime / 5 } else { 0 };
        let raised = match base.checked_add(bonus) {
            Some(v) => v,
            None => return Err(Error::Overflow),
        };
        rep.score = if raised < MAX_SCORE { raised } else { MAX_SCORE };
        rep.uptime_score = uptime;
        rep.uptime_contribution = bonus;
        rep.last_updated = ctx.timestamp;
        self.reputations.insert(publisher.id, rep);
        Ok(())
    }

    pub fn get_reputation(&self, publisher: Address) -> (r: Option<ReputationScore>)
        ensures
            r == lookup(self@.reputations, publisher.id),
    {
        match self.reputations.get(&publisher.id) {
            Some(r) => Some(*r),
            None => None,
        }
    }

    pub fn get_review(&self, publisher: Address, index: u64) -> (r: Option<ReviewEntry>)
        ensures
            r == lookup(self@.reviews, pair_key(publisher.id, index)),
    {
        match self.reviews.get(&make_pair_key(publisher.id, index)) {
            Some(r) => Some(*r),
            None => None,
        }
    }

    pub fn get_review_count(&self, publisher: Address) -> (r: u64)
        ensures
            r == self@.review_count(publisher),
    {
        match self.review_counts.get(&publisher.id) {
            Some(c) => *c,
            None => 0,
        }
    }

    pub fn propose_admin(&mut self, ctx: &CallContext, current_admin: Address, new_admin: Address) -> (r: Result<(), Error>)
        ensures
            follows(old(self)@.propose_admin(ctx, current_admin, new_admin), r, old(self)@, final(self)@),
    {
        self.admin.propose(ctx, current_admin, new_admin)
    }

    pub fn accept_admin(&mut self, ctx: &CallContext, new_admin: Address) -> (r: Result<(), Error>)
        ensures
            follows(old(self)@.accept_admin(ctx, new_admin), r, old(self)@, final(self)@),
    {
        self.admin.accept(ctx, new_admin)
    }
}

/// Every operation keeps every score within 0..=1000 and every uptime
/// bonus within 0..=20.
pub proof fn lemma_scores_bounded_preserved(
    s: ReputationState,
    ctx: &CallContext,
    who: Address,
    publisher: Address,
    campaign_id: u64,
    positive: bool,
    n: u32,
)
    requires
        s.scores_bounded(),
    ensures
        s.initialize(ctx, who, publisher) matches Ok(t) ==> t.scores_bounded(),
        s.init_publisher(ctx, publisher) matches Ok(t) ==> t.scores_bounded(),
        s.submit_review(ctx, who, publisher, campaign_id, positive, n) matches Ok(t) ==> t.scores_bounded(),
        s.slash_publisher(ctx, who, publisher, n) matches Ok(t) ==> t.scores_bounded(),
        s.update_uptime(ctx, who, publisher, n) matches Ok(t) ==> t.scores_bounded(),
        s.propose_admin(ctx, who, publisher) matches Ok(t) ==> t.scores_bounded(),
        s.accept_admin(ctx, who) matches Ok(t) ==> t.scores_bounded(),
{
}

/// Reporting the same uptime again does not change the score: the uptime
/// bonus replaces the previous one instead of adding to it.
pub proof fn lemma_uptime_idempotent(s: ReputationState, c1: &CallContext, c2: &CallContext, oracle: Address, publisher: Address, uptime: u32)
    requires
        s.scores_bounded(),
        s.update_uptime(c1, oracle, publisher, uptime) is Ok,
        c2.authorizes(oracle),
    ensures
        ({
            let t1 = s.update_uptime(c1, oracle, publisher, uptime).unwrap();
            &&& t1.update_uptime(c2, oracle, publisher, uptime) is Ok
            &&& t1.update_uptime(c2, oracle, publisher, uptime).unwrap().reputations[publisher.id].score
                == t1.reputations[publisher.id].score
        }),
{
}

/// The uptime bonus is the only trace an uptime report leaves on the score:
/// from a publisher whose score is not clamped, reporting uptime `u` gives
/// the score without any bonus plus the bonus for `u`.
pub proof fn lemma_uptime_replaces_bonus(s: ReputationState, ctx: &CallContext, oracle: Address, publisher: Address, uptime: u32)
    requires
        s.update_uptime(ctx, oracle, publisher, uptime) is Ok,
        s.reputations[publisher.id].uptime_contribution <= s.reputations[publisher.id].score,
        s.reputations[publisher.id].score - s.reputations[publisher.id].uptime_contribution + uptime_bonus(uptime) <= MAX_SCORE,
    ensures
        s.update_uptime(ctx, oracle, publisher, uptime).unwrap().reputations[publisher.id].score
            == s.reputations[publisher.id].score - s.reputations[publisher.id].uptime_contribution + uptime_bonus(uptime),
{
}

/// A slash is followed by a cooldown: a second slash within 100 ledgers of
/// the first is refused.
pub proof fn lemma_slash_cooldown(s: ReputationState, c1: &CallContext, c2: &CallContext, oracle: Address, publisher: Address, p1: u32, p2: u32)
    requires
        s.slash_publisher(c1, oracle, publisher, p1) is Ok,
        c2.authorizes(oracle),
        c2.sequence <= c1.sequence + SLASH_COOLDOWN_LEDGERS,
        c1.sequence + SLASH_COOLDOWN_LEDGERS <= u32::MAX,
    ensures
        s.slash_publisher(c1, oracle, publisher, p1).unwrap().slash_publisher(c2, oracle, publisher, p2)
            == Err::<ReputationState, Error>(Error::SlashCooldownActive),
{
}

/// A review moves the score by its rating: a positive review with rating `r`
/// raises the score by `2 * r`, capped at 1000, and a negative one lowers it
/// by `3 * r`, not below zero; either counts one more review of its kind
/// and is filed as the publisher's next review.
pub proof fn lemma_review_moves_score_by_rating(
    s: ReputationState,
    ctx: &CallContext,
    advertiser: Address,
    publisher: Address,
    campaign_id: u64,
    positive: bool,
    rating: u32,
)
    requires
        s.submit_review(ctx, advertiser, publisher, campaign_id, positive, rating) is Ok,
    ensures
        ({
            let t = s.submit_review(ctx, advertiser, publisher, campaign_id, positive, rating).unwrap();
            let before = s.reputations[publisher.id];
            let after = t.reputations[publisher.id];
            &&& 1 <= rating <= 5
            &&& positive ==> after.score == (if before.score + 2 * rating <= 1000 { before.score + 2 * rating } else { 1000 })
            &&& !positive ==> after.score == (if before.score >= 3 * rating { before.score - 3 * rating } else { 0 })
            &&& after.total_reviews == before.total_reviews + 1
            &&& positive ==> after.positive_reviews == before.positive_reviews + 1
            &&& !positive ==> after.negative_reviews == before.negative_reviews + 1
            &&& t.review_count(publisher) == s.review_count(publisher) + 1
            &&& t.reviews[pair_key(publisher.id, s.review_count(publisher))].rating == rating
            &&& t.reviews[pair_key(publisher.id, s.review_count(publisher))].positive == positive
        }),
{
}

/// A slash lowers the score by the penalty, at most 100, not below zero,
/// counts one more slash and starts the cooldown at the current ledger.
pub proof fn lemma_slash_lowers_score(s: ReputationState, ctx: &CallContext, oracle: Address, publisher: Address, penalty: u32)
    requires
        s.slash_publisher(ctx, oracle, publisher, penalty) is Ok,
    ensures
        ({
            let t = s.slash_publisher(ctx, oracle, publisher, penalty).unwrap();
            let before = s.reputations[publisher.id];
            let after = t.reputations[publisher.id];
            let applied = if penalty <= 100 { penalty as int } else { 100 };
            &&& after.score == (if before.score >= applied { before.score - applied } else { 0 })
            &&& after.slashes == before.slashes + 1
            &&& after.last_slash_ledger == ctx.sequence
            &&& ctx.sequence > before.last_slash_ledger + 100
        }),
{
}

} // verus!
