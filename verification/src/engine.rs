//! The settlement operations: create, bet, resolve, claim.
//!
//! Each operation is a single all-or-nothing unit: every validation failure
//! is detected before any mutation, and an operation that returns an error
//! has changed nothing. Value movement itself is the business of the
//! external custody collaborator; callers move `amount` into escrow before
//! recording a bet and move the returned payout out of escrow after a claim.

use vstd::prelude::*;
use vstd::arithmetic::div_mod::{lemma_div_is_ordered, lemma_div_multiples_vanish, lemma_div_pos_is_pos};
use vstd::arithmetic::mul::{lemma_mul_inequality, lemma_mul_nonnegative, lemma_mul_upper_bound};
use crate::errors::ErrorCode;
use crate::market::{
    bet_check, market_after_bet, resolve_check, resolved_market, AccountId, Market, MAX_OUTCOMES,
};
use crate::position::{
    claim_check, claimed_position, position_after_bet, UserPosition,
};
use crate::sums::{lemma_elem_le_sum, lemma_sum_update, zero_amounts};

verus! {

/// Creates a new market with all pools zeroed and resolution pending.
///
/// The outcome count must be at least two and at most `MAX_OUTCOMES`;
/// otherwise the configuration is refused and nothing is created.
pub fn initialize_market(
    authority: AccountId,
    question: String,
    description: String,
    outcomes: Vec<String>,
    end_time: i64,
    min_bet: u64,
    now: i64,
) -> (r: Result<Market, ErrorCode>)
    ensures
        r is Ok <==> 2 <= outcomes@.len() <= MAX_OUTCOMES,
        r is Err ==> r == Err::<Market, ErrorCode>(ErrorCode::InvalidConfiguration),
        r matches Ok(m) ==> {
            &&& m.wf()
            &&& m.authority == authority
            &&& m.question@ == question@
            &&& m.description@ == description@
            &&& m.outcomes@ == outcomes@
            &&& m.outcome_pools@.len() == outcomes@.len()
            &&& (forall|i: int| 0 <= i < outcomes@.len() ==> m.outcome_pools@[i] == 0)
            &&& m.total_pool == 0
            &&& m.end_time == end_time
            &&& m.min_bet == min_bet
            &&& !m.resolved
            &&& m.winning_outcome is None
            &&& m.created_at == now
            &&& m.resolved_at is None
        },
{
    let n = outcomes.len();
    if n < 2 || n > MAX_OUTCOMES {
        return Err(ErrorCode::InvalidConfiguration);
    }
    let pools = zero_amounts(n);
    Ok(Market {
        authority,
        question,
        description,
        outcomes,
        outcome_pools: pools,
        total_pool: 0,
        end_time,
        min_bet,
        resolved: false,
        winning_outcome: None,
        created_at: now,
        resolved_at: None,
    })
}

/// Records a bet of `amount` on outcome `outcome_index`, observed at time
/// `now`, against the market and the bettor's position.
///
/// Callers must have escrowed `amount` with the custody collaborator before
/// the bookkeeping is recorded, and must roll the whole operation back if
/// escrow fails; this function itself refuses the bet — with the exact error
/// `bet_check` names — or applies it atomically to both records.
pub fn place_bet(
    market: &mut Market,
    position: &mut UserPosition,
    outcome_index: u8,
    amount: u64,
    now: i64,
) -> (r: Result<(), ErrorCode>)
    requires
        old(market).wf(),
        old(position).wf(),
        old(position).bets@.len() == old(market).outcomes@.len(),
    ensures
        r == bet_check(*old(market), old(position).total_bet, outcome_index, amount, now),
        r is Err ==> *final(market) == *old(market) && *final(position) == *old(position),
        r is Ok ==> market_after_bet(*old(market), *final(market), outcome_index, amount),
        r is Ok ==> position_after_bet(*old(position), *final(position), outcome_index, amount),
        final(market).wf(),
        final(position).wf(),
        final(position).bets@.len() == final(market).outcomes@.len(),
        r is Ok ==> !old(market).resolved && now < old(market).end_time,
{
    if market.resolved {
        return Err(ErrorCode::MarketResolved);
    }
    if now >= market.end_time {
        return Err(ErrorCode::MarketEnded);
    }
    if amount < market.min_bet {
        return Err(ErrorCode::BetTooSmall);
    }
    if (outcome_index as usize) >= market.outcomes.len() {
        return Err(ErrorCode::InvalidOutcome);
    }
    if amount > u64::MAX - market.total_pool || amount > u64::MAX - position.total_bet {
        return Err(ErrorCode::ArithmeticOverflow);
    }
    let oi = outcome_index as usize;
    proof {
        lemma_elem_le_sum(market.outcome_pools@, oi as int);
        lemma_elem_le_sum(position.bets@, oi as int);
    }
    let old_pool = market.outcome_pools[oi];
    market.outcome_pools.set(oi, old_pool + amount);
    market.total_pool = market.total_pool + amount;
    let old_stake = position.bets[oi];
    position.bets.set(oi, old_stake + amount);
    position.total_bet = position.total_bet + amount;
    proof {
        lemma_sum_update(old(market).outcome_pools@, oi as int, (old_pool + amount) as u64);
        lemma_sum_update(old(position).bets@, oi as int, (old_stake + amount) as u64);
    }
    Ok(())
}

/// Declares `winning_outcome` the result of the market, observed at time
/// `now`, on behalf of `caller`.
///
/// Succeeds exactly when `resolve_check` allows it: the caller is the
/// market's authority, the deadline has passed, the market is not yet
/// resolved and the outcome index is in range. The transition is
/// irreversible; a second resolution fails.
pub fn resolve_market(
    market: &mut Market,
    caller: AccountId,
    winning_outcome: u8,
    now: i64,
) -> (r: Result<(), ErrorCode>)
    requires
        old(market).wf(),
    ensures
        r == resolve_check(*old(market), caller, winning_outcome, now),
        r is Ok ==> *final(market) == resolved_market(*old(market), winning_outcome, now),
        r is Err ==> *final(market) == *old(market),
        final(market).wf(),
        r is Ok ==> now >= old(market).end_time && !old(market).resolved,
{
    if market.authority != caller {
        return Err(ErrorCode::Unauthorized);
    }
    if market.resolved {
        return Err(ErrorCode::MarketAlreadyResolved);
    }
    if now < market.end_time {
        return Err(ErrorCode::MarketNotEnded);
    }
    if (winning_outcome as usize) >= market.outcomes.len() {
        return Err(ErrorCode::InvalidOutcome);
    }
    market.resolved = true;
    market.winning_outcome = Some(winning_outcome);
    market.resolved_at = Some(now);
    Ok(())
}

/// The payout owed to position `p` by resolved market `m`: a zero stake on
/// the winning outcome earns nothing, and a positive stake earns the
/// floor-divided pro-rata share of the whole pool.
pub open spec fn spec_payout(m: Market, p: UserPosition) -> int
    recommends
        m.resolved,
        m.winning_outcome is Some,
{
    let w = m.winning_outcome.unwrap() as int;
    let stake = p.bets@[w] as int;
    if stake == 0 {
        0
    } else {
        stake * (m.total_pool as int) / (m.outcome_pools@[w] as int)
    }
}

/// A pro-rata share never exceeds the pool it is paid from: with a stake
/// inside the winning pool, `floor(stake * total / pool)` lies in
/// `[0, total]`.
pub proof fn lemma_payout_bounded(stake: int, total: int, wpool: int)
    requires
        0 < stake <= wpool,
        0 <= total,
    ensures
        0 <= stake * total / wpool <= total,
{
    lemma_mul_nonnegative(stake, total);
    lemma_div_pos_is_pos(stake * total, wpool);
    lemma_mul_inequality(stake, wpool, total);
    lemma_div_is_ordered(stake * total, wpool * total, wpool);
    lemma_div_multiples_vanish(total, wpool);
}

/// Settles position `p` against resolved market `m` and marks it claimed.
///
/// Succeeds exactly when `claim_check` allows it, returning the payout the
/// custody collaborator owes the user; the claim right is consumed even when
/// the payout is zero. The recorded bets are never altered, so the market's
/// bookkeeping is untouched by claims.
pub fn claim_winnings(market: &Market, position: &mut UserPosition) -> (r: Result<
    u64,
    ErrorCode,
>)
    requires
        market.wf(),
        old(position).wf(),
        old(position).bets@.len() == market.outcomes@.len(),
        forall|i: int|
            0 <= i < old(position).bets@.len() ==> old(position).bets@[i]
                <= market.outcome_pools@[i],
    ensures
        claim_check(*market, *old(position)) matches Err(e) ==> r == Err::<u64, ErrorCode>(e)
            && *final(position) == *old(position),
        claim_check(*market, *old(position)) is Ok ==> {
            &&& r == Ok::<u64, ErrorCode>(spec_payout(*market, *old(position)) as u64)
            &&& 0 <= spec_payout(*market, *old(position)) <= market.total_pool
            &&& *final(position) == claimed_position(*old(position))
        },
        final(position).wf(),
        final(position).bets@ == old(position).bets@,
        final(position).bets@.len() == market.outcomes@.len(),
        old(position).claimed ==> r == Err::<u64, ErrorCode>(ErrorCode::AlreadyClaimed)
            || r == Err::<u64, ErrorCode>(ErrorCode::MarketNotResolved),
{
    if !market.resolved {
        return Err(ErrorCode::MarketNotResolved);
    }
    if position.claimed {
        return Err(ErrorCode::AlreadyClaimed);
    }
    let w = market.winning_outcome.unwrap() as usize;
    let stake = position.bets[w];
    let payout: u64;
    if stake == 0 {
        payout = 0;
    } else {
        let wpool = market.outcome_pools[w];
        proof {
            lemma_mul_upper_bound(
                stake as int,
                u64::MAX as int,
                market.total_pool as int,
                u64::MAX as int,
            );
            lemma_payout_bounded(stake as int, market.total_pool as int, wpool as int);
        }
        let wide: u128 = (stake as u128) * (market.total_pool as u128);
        let q: u128 = wide / (wpool as u128);
        payout = q as u64;
    }
    position.claimed = true;
    Ok(payout)
}

} // verus!
