//! The market record and its state machine.

use vstd::prelude::*;
use crate::errors::ErrorCode;
use crate::sums::sum;

verus! {

/// An opaque identity: markets, users and authorities are told apart by key
/// equality alone.
pub type AccountId = u64;

/// The most outcomes one market may carry.
pub const MAX_OUTCOMES: usize = 10;

/// One question with a fixed set of mutually exclusive outcomes, the escrowed
/// pools riding on them, and the resolution state.
pub struct Market {
    /// The identity permitted to resolve this market.
    pub authority: AccountId,
    /// The question being predicted; opaque text.
    pub question: String,
    /// A longer description; opaque text.
    pub description: String,
    /// The outcome labels, fixed at creation.
    pub outcomes: Vec<String>,
    /// Per-outcome escrowed totals; `outcome_pools[i]` is everything staked
    /// on outcome `i`.
    pub outcome_pools: Vec<u64>,
    /// The sum of all outcome pools.
    pub total_pool: u64,
    /// The betting deadline, exclusive: bets must come strictly before it.
    pub end_time: i64,
    /// The minimum per-transaction contribution.
    pub min_bet: u64,
    /// Whether the winning outcome has been declared.
    pub resolved: bool,
    /// The declared winning outcome, absent until resolution.
    pub winning_outcome: Option<u8>,
    /// When the market was created.
    pub created_at: i64,
    /// When the market was resolved, set exactly once.
    pub resolved_at: Option<i64>,
}

impl Market {
    /// Well-formedness: the pool bookkeeping is consistent and the
    /// resolution fields agree with each other.
    pub open spec fn wf(self) -> bool {
        &&& 2 <= self.outcomes@.len() <= MAX_OUTCOMES
        &&& self.outcome_pools@.len() == self.outcomes@.len()
        &&& self.total_pool == sum(self.outcome_pools@)
        &&& (self.resolved <==> self.winning_outcome is Some)
        &&& (self.winning_outcome matches Some(w) ==> (w as int) < self.outcomes@.len())
        &&& (self.resolved <==> self.resolved_at is Some)
    }
}

/// The lifecycle phase of a market at a given time.
#[derive(Clone, Copy, Debug, PartialEq, Eq, Structural)]
pub enum MarketState {
    /// Not resolved and before the deadline: bets are accepted.
    Open,
    /// Past the deadline but not resolved: only resolution may occur.
    AwaitingResolution,
    /// Resolved: terminal; only claims may occur.
    Resolved,
}

/// The state a market is in when observed at time `now`.
pub open spec fn market_state(m: Market, now: i64) -> MarketState {
    if m.resolved {
        MarketState::Resolved
    } else if now >= m.end_time {
        MarketState::AwaitingResolution
    } else {
        MarketState::Open
    }
}

/// Reports the lifecycle phase of `m` as observed at time `now`.
pub fn current_state(m: &Market, now: i64) -> (s: MarketState)
    ensures
        s == market_state(*m, now),
{
    if m.resolved {
        MarketState::Resolved
    } else if now >= m.end_time {
        MarketState::AwaitingResolution
    } else {
        MarketState::Open
    }
}

/// Whether a bet of `amount` on outcome `outcome_index` at time `now` is
/// accepted, and with which error it is refused otherwise.
///
/// `prior_total_bet` is the bettor's cumulative stake in this market before
/// the bet; it only matters for the overflow check.
pub open spec fn bet_check(
    m: Market,
    prior_total_bet: u64,
    outcome_index: u8,
    amount: u64,
    now: i64,
) -> Result<(), ErrorCode> {
    if m.resolved {
        Err(ErrorCode::MarketResolved)
    } else if now >= m.end_time {
        Err(ErrorCode::MarketEnded)
    } else if amount < m.min_bet {
        Err(ErrorCode::BetTooSmall)
    } else if outcome_index as int >= m.outcomes@.len() {
        Err(ErrorCode::InvalidOutcome)
    } else if m.total_pool + amount > u64::MAX || prior_total_bet + amount > u64::MAX {
        Err(ErrorCode::ArithmeticOverflow)
    } else {
        Ok(())
    }
}

/// How an accepted bet changes the market record: the chosen pool and the
/// total grow by `amount`; every other field keeps its value.
pub open spec fn market_after_bet(pre: Market, post: Market, outcome_index: u8, amount: u64) -> bool {
    &&& post.outcome_pools@ == pre.outcome_pools@.update(
        outcome_index as int,
        (pre.outcome_pools@[outcome_index as int] + amount) as u64,
    )
    &&& post.total_pool == pre.total_pool + amount
    &&& post.authority == pre.authority
    &&& post.question@ == pre.question@
    &&& post.description@ == pre.description@
    &&& post.outcomes@ == pre.outcomes@
    &&& post.end_time == pre.end_time
    &&& post.min_bet == pre.min_bet
    &&& post.resolved == pre.resolved
    &&& post.winning_outcome == pre.winning_outcome
    &&& post.created_at == pre.created_at
    &&& post.resolved_at == pre.resolved_at
}

/// Whether `caller` may resolve `m` to `winning_outcome` at time `now`, and
/// with which error resolution is refused otherwise.
pub open spec fn resolve_check(
    m: Market,
    caller: AccountId,
    winning_outcome: u8,
    now: i64,
) -> Result<(), ErrorCode> {
    if m.authority != caller {
        Err(ErrorCode::Unauthorized)
    } else if m.resolved {
        Err(ErrorCode::MarketAlreadyResolved)
    } else if now < m.end_time {
        Err(ErrorCode::MarketNotEnded)
    } else if winning_outcome as int >= m.outcomes@.len() {
        Err(ErrorCode::InvalidOutcome)
    } else {
        Ok(())
    }
}

/// The market record after a successful resolution at time `now`: the
/// winning outcome is recorded and everything else keeps its value.
pub open spec fn resolved_market(m: Market, winning_outcome: u8, now: i64) -> Market {
    Market {
        resolved: true,
        winning_outcome: Some(winning_outcome),
        resolved_at: Some(now),
        ..m
    }
}

/// Conservation inside one market record: at every observation point of a
/// well-formed market, the total pool is exactly the sum of the per-outcome
/// pools.
pub proof fn lemma_total_pool_conservation(m: Market)
    requires
        m.wf(),
    ensures
        m.total_pool == sum(m.outcome_pools@),
{
}

/// No bet is accepted at or after the deadline: acceptance implies the
/// market was still open.
pub proof fn lemma_no_late_bet(
    m: Market,
    prior_total_bet: u64,
    outcome_index: u8,
    amount: u64,
    now: i64,
)
    requires
        bet_check(m, prior_total_bet, outcome_index, amount, now) is Ok,
    ensures
        now < m.end_time,
        market_state(m, now) == MarketState::Open,
{
}

/// No resolution is accepted before the deadline: acceptance implies the
/// deadline had passed and the market was awaiting resolution.
pub proof fn lemma_no_early_resolve(m: Market, caller: AccountId, winning_outcome: u8, now: i64)
    requires
        resolve_check(m, caller, winning_outcome, now) is Ok,
    ensures
        now >= m.end_time,
        market_state(m, now) == MarketState::AwaitingResolution,
{
}

/// A market resolves at most once: after a successful resolution, every
/// further resolution attempt is refused, whoever makes it and whenever.
pub proof fn lemma_resolve_at_most_once(
    m: Market,
    caller1: AccountId,
    w1: u8,
    t1: i64,
    caller2: AccountId,
    w2: u8,
    t2: i64,
)
    requires
        resolve_check(m, caller1, w1, t1) is Ok,
    ensures
        resolve_check(resolved_market(m, w1, t1), caller2, w2, t2) is Err,
{
}

} // verus!
