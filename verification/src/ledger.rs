//! One market's records held together: the market and every position in it.
//!
//! The ledger owns the cross-record invariant of the system: each outcome
//! pool equals the sum, over all positions, of the stakes recorded on that
//! outcome. Every operation preserves it.

use vstd::prelude::*;
use crate::errors::ErrorCode;
use crate::engine::{claim_winnings, initialize_market, place_bet, spec_payout};
use crate::market::{
    bet_check, market_after_bet, resolve_check, resolved_market, AccountId, Market, MAX_OUTCOMES,
};
use crate::position::{
    claim_check, copy_position, position_after_bet, UserPosition,
};
use crate::sums::{lemma_elem_le_sum, lemma_sum_push, lemma_sum_update, sum};

verus! {

/// The stakes every position holds on outcome `i`, in position order.
pub open spec fn outcome_bets(ps: Seq<UserPosition>, i: int) -> Seq<u64> {
    ps.map(|k: int, p: UserPosition| p.bets@[i])
}

/// The total staked on outcome `i` over all positions.
pub open spec fn col_sum(ps: Seq<UserPosition>, i: int) -> int {
    sum(outcome_bets(ps, i))
}

/// Appending a position adds its stake to every per-outcome total.
pub proof fn lemma_col_sum_push(ps: Seq<UserPosition>, p: UserPosition, i: int)
    ensures
        col_sum(ps.push(p), i) == col_sum(ps, i) + p.bets@[i],
{
    assert(outcome_bets(ps.push(p), i) =~= outcome_bets(ps, i).push(p.bets@[i]));
    lemma_sum_push(outcome_bets(ps, i), p.bets@[i]);
}

/// Replacing one position shifts every per-outcome total by the difference
/// of that position's stake.
pub proof fn lemma_col_sum_update(ps: Seq<UserPosition>, k: int, p: UserPosition, i: int)
    requires
        0 <= k < ps.len(),
    ensures
        col_sum(ps.update(k, p), i) == col_sum(ps, i) + p.bets@[i] - ps[k].bets@[i],
{
    assert(outcome_bets(ps.update(k, p), i) =~= outcome_bets(ps, i).update(k, p.bets@[i]));
    lemma_sum_update(outcome_bets(ps, i), k, p.bets@[i]);
}

/// No single position stakes more on an outcome than all positions together.
pub proof fn lemma_stake_le_col_sum(ps: Seq<UserPosition>, k: int, i: int)
    requires
        0 <= k < ps.len(),
    ensures
        ps[k].bets@[i] <= col_sum(ps, i),
{
    lemma_elem_le_sum(outcome_bets(ps, i), k);
}

/// Whether some position belongs to `user`.
pub open spec fn has_user(ps: Seq<UserPosition>, user: AccountId) -> bool {
    exists|k: int| 0 <= k < ps.len() && (#[trigger] ps[k]).user == user
}

/// The index of `user`'s position; meaningful only when `has_user` holds.
pub open spec fn user_index(ps: Seq<UserPosition>, user: AccountId) -> int {
    choose|k: int| 0 <= k < ps.len() && (#[trigger] ps[k]).user == user
}

/// The cumulative stake `user` already holds, zero if no position exists
/// yet; this is what the overflow check of a bet is measured against.
pub open spec fn prior_total_bet(ps: Seq<UserPosition>, user: AccountId) -> u64 {
    if has_user(ps, user) {
        ps[user_index(ps, user)].total_bet
    } else {
        0
    }
}

/// One market together with every position staked in it.
pub struct MarketLedger {
    /// The key under which the market record is addressed.
    pub market_id: AccountId,
    /// The market record.
    pub market: Market,
    /// All positions of this market, at most one per user.
    pub positions: Vec<UserPosition>,
}

/// Everything a recorded bet does to one market's ledger: the exact
/// acceptance decision, the growth of the chosen pool, and the update or
/// first-touch creation of the bettor's position; a refused bet changes
/// nothing.
pub open spec fn bet_outcome(
    pre: MarketLedger,
    post: MarketLedger,
    user: AccountId,
    outcome_index: u8,
    amount: u64,
    now: i64,
    r: Result<(), ErrorCode>,
) -> bool {
    &&& post.market_id == pre.market_id
    &&& r == bet_check(
        pre.market,
        prior_total_bet(pre.positions@, user),
        outcome_index,
        amount,
        now,
    )
    &&& (r is Err ==> post.market == pre.market && post.positions@ == pre.positions@)
    &&& (r is Ok ==> market_after_bet(pre.market, post.market, outcome_index, amount))
    &&& (r is Ok && has_user(pre.positions@, user) ==> ({
        let k = user_index(pre.positions@, user);
        &&& post.positions@.len() == pre.positions@.len()
        &&& (forall|j: int|
            0 <= j < pre.positions@.len() && j != k ==> post.positions@[j] == pre.positions@[j])
        &&& position_after_bet(pre.positions@[k], post.positions@[k], outcome_index, amount)
    }))
    &&& (r is Ok && !has_user(pre.positions@, user) ==> ({
        let p = post.positions@.last();
        &&& post.positions@.len() == pre.positions@.len() + 1
        &&& (forall|j: int|
            0 <= j < pre.positions@.len() ==> post.positions@[j] == pre.positions@[j])
        &&& p.user == user
        &&& p.market == pre.market_id
        &&& !p.claimed
        &&& p.total_bet == amount
        &&& p.bets@.len() == pre.market.outcomes@.len()
        &&& p.bets@[outcome_index as int] == amount
        &&& (forall|i: int|
            0 <= i < p.bets@.len() && i != outcome_index as int ==> p.bets@[i] == 0)
    }))
}

/// Everything a resolution does to one market's ledger: the exact
/// acceptance decision and the recording of the winning outcome; the
/// positions are never touched.
pub open spec fn resolve_outcome(
    pre: MarketLedger,
    post: MarketLedger,
    caller: AccountId,
    winning_outcome: u8,
    now: i64,
    r: Result<(), ErrorCode>,
) -> bool {
    &&& post.market_id == pre.market_id
    &&& post.positions@ == pre.positions@
    &&& r == resolve_check(pre.market, caller, winning_outcome, now)
    &&& (r is Ok ==> post.market == resolved_market(pre.market, winning_outcome, now))
    &&& (r is Err ==> post.market == pre.market)
}

/// Everything a claim does to one market's ledger: the exact acceptance
/// decision, the payout owed, and the claim flag set on the one position;
/// the market record and all recorded bets keep their values.
pub open spec fn claim_outcome(
    pre: MarketLedger,
    post: MarketLedger,
    user: AccountId,
    r: Result<u64, ErrorCode>,
) -> bool {
    let k = user_index(pre.positions@, user);
    let p0 = pre.positions@[k];
    &&& post.market_id == pre.market_id
    &&& post.market == pre.market
    &&& post.positions@.len() == pre.positions@.len()
    &&& (claim_check(pre.market, p0) matches Err(e) ==> r == Err::<u64, ErrorCode>(e)
        && post.positions@ == pre.positions@)
    &&& (claim_check(pre.market, p0) is Ok ==> ({
        &&& r == Ok::<u64, ErrorCode>(spec_payout(pre.market, p0) as u64)
        &&& 0 <= spec_payout(pre.market, p0) <= pre.market.total_pool
        &&& post.positions@[k].claimed
        &&& post.positions@[k].bets@ == p0.bets@
        &&& post.positions@[k].user == p0.user
        &&& post.positions@[k].market == p0.market
        &&& post.positions@[k].total_bet == p0.total_bet
        &&& (forall|j: int|
            0 <= j < pre.positions@.len() && j != k ==> post.positions@[j] == pre.positions@[j])
    }))
}

impl MarketLedger {
    /// The number of outcomes of the underlying market.
    pub open spec fn n_outcomes(self) -> int {
        self.market.outcomes@.len() as int
    }

    /// The ledger invariant: the market and every position are well formed,
    /// positions are keyed uniquely by user and sized to the market, and
    /// each outcome pool equals the sum of the stakes recorded on it.
    pub open spec fn inv(self) -> bool {
        &&& self.market.wf()
        &&& (forall|k: int|
            #![trigger self.positions@[k]]
            0 <= k < self.positions@.len() ==> {
                &&& self.positions@[k].wf()
                &&& self.positions@[k].bets@.len() == self.n_outcomes()
                &&& self.positions@[k].market == self.market_id
            })
        &&& (forall|j: int, k: int|
            #![trigger self.positions@[j].user, self.positions@[k].user]
            0 <= j < k < self.positions@.len() ==> self.positions@[j].user
                != self.positions@[k].user)
        &&& (forall|i: int|
            0 <= i < self.n_outcomes() ==> self.market.outcome_pools@[i] == #[trigger] col_sum(
                self.positions@,
                i,
            ))
    }

    /// Finds the index of `user`'s position, if one exists.
    pub fn find_position(&self, user: AccountId) -> (r: Option<usize>)
        ensures
            r matches Some(k) ==> 0 <= k < self.positions@.len() && self.positions@[k as int].user
                == user,
            r is Some <==> has_user(self.positions@, user),
    {
        let mut k: usize = 0;
        while k < self.positions.len()
            invariant
                k <= self.positions@.len(),
                forall|j: int| 0 <= j < k ==> (#[trigger] self.positions@[j]).user != user,
            decreases self.positions@.len() - k,
        {
            if self.positions[k].user == user {
                return Some(k);
            }
            k = k + 1;
        }
        None
    }

    /// Creates the ledger of a fresh market: the market record with all
    /// pools zeroed, and no positions.
    pub fn create(
        market_id: AccountId,
        authority: AccountId,
        question: String,
        description: String,
        outcomes: Vec<String>,
        end_time: i64,
        min_bet: u64,
        now: i64,
    ) -> (r: Result<MarketLedger, ErrorCode>)
        ensures
            r is Ok <==> 2 <= outcomes@.len() <= MAX_OUTCOMES,
            r is Err ==> r == Err::<MarketLedger, ErrorCode>(ErrorCode::InvalidConfiguration),
            r matches Ok(l) ==> {
                &&& l.inv()
                &&& l.market_id == market_id
                &&& l.positions@.len() == 0
                &&& l.market.authority == authority
                &&& l.market.question@ == question@
                &&& l.market.description@ == description@
                &&& l.market.outcomes@ == outcomes@
                &&& l.market.total_pool == 0
                &&& l.market.end_time == end_time
                &&& l.market.min_bet == min_bet
                &&& !l.market.resolved
                &&& l.market.created_at == now
            },
    {
        let market = match initialize_market(
            authority,
            question,
            description,
            outcomes,
            end_time,
            min_bet,
            now,
        ) {
            Ok(m) => m,
            Err(e) => {
                return Err(e);
            },
        };
        let l = MarketLedger { market_id, market, positions: Vec::new() };
        proof {
            assert forall|i: int| 0 <= i < l.n_outcomes() implies l.market.outcome_pools@[i]
                == #[trigger] col_sum(l.positions@, i) by {
                assert(outcome_bets(l.positions@, i) =~= Seq::<u64>::empty());
            }
        }
        Ok(l)
    }

    /// Records a bet by `user` of `amount` on `outcome_index` at time `now`,
    /// creating the user's position on first touch.
    ///
    /// Refused bets leave the ledger exactly as it was; accepted bets grow
    /// the chosen pool, the total pool and the user's position together, so
    /// the ledger invariant is preserved.
    pub fn bet(&mut self, user: AccountId, outcome_index: u8, amount: u64, now: i64) -> (r:
        Result<(), ErrorCode>)
        requires
            old(self).inv(),
        ensures
            final(self).inv(),
            bet_outcome(*old(self), *final(self), user, outcome_index, amount, now, r),
    {
        let found = self.find_position(user);
        match found {
            Some(k) => {
                proof {
                    let ps = self.positions@;
                    let ki = user_index(ps, user);
                    assert(0 <= ki < ps.len() && ps[ki].user == user);
                    if ki != k as int {
                        assert(false);
                    }
                }
                let mut p = copy_position(&self.positions[k]);
                let rr = place_bet(&mut self.market, &mut p, outcome_index, amount, now);
                match rr {
                    Ok(_) => {
                        self.positions.set(k, p);
                        proof {
                            let ps0 = old(self).positions@;
                            let ps1 = self.positions@;
                            lemma_elem_le_sum(old(self).market.outcome_pools@, outcome_index as int);
                            lemma_elem_le_sum(ps0[k as int].bets@, outcome_index as int);
                            assert forall|i: int| 0 <= i < self.n_outcomes() implies
                                self.market.outcome_pools@[i] == #[trigger] col_sum(ps1, i) by {
                                lemma_col_sum_update(ps0, k as int, ps1[k as int], i);
                            }
                        }
                        Ok(())
                    },
                    Err(e) => Err(e),
                }
            },
            None => {
                let n = self.market.outcomes.len();
                let mut p = UserPosition::new(user, self.market_id, n);
                let rr = place_bet(&mut self.market, &mut p, outcome_index, amount, now);
                match rr {
                    Ok(_) => {
                        self.positions.push(p);
                        proof {
                            let ps0 = old(self).positions@;
                            let ps1 = self.positions@;
                            lemma_elem_le_sum(old(self).market.outcome_pools@, outcome_index as int);
                            assert forall|i: int| 0 <= i < self.n_outcomes() implies
                                self.market.outcome_pools@[i] == #[trigger] col_sum(ps1, i) by {
                                lemma_col_sum_push(ps0, ps1.last(), i);
                            }
                        }
                        Ok(())
                    },
                    Err(e) => Err(e),
                }
            },
        }
    }

    /// Resolves the market; the positions are untouched, so the bookkeeping
    /// invariant survives resolution unchanged.
    pub fn resolve(&mut self, caller: AccountId, winning_outcome: u8, now: i64) -> (r: Result<
        (),
        ErrorCode,
    >)
        requires
            old(self).inv(),
        ensures
            final(self).inv(),
            resolve_outcome(*old(self), *final(self), caller, winning_outcome, now, r),
    {
        crate::engine::resolve_market(&mut self.market, caller, winning_outcome, now)
    }

    /// Settles `user`'s position and marks it claimed, returning the payout
    /// owed by the escrow; claims never alter recorded bets, so every pool
    /// keeps its value.
    pub fn claim(&mut self, user: AccountId) -> (r: Result<u64, ErrorCode>)
        requires
            old(self).inv(),
            has_user(old(self).positions@, user),
        ensures
            final(self).inv(),
            claim_outcome(*old(self), *final(self), user, r),
    {
        let found = self.find_position(user);
        let k = found.unwrap();
        proof {
            let ps = self.positions@;
            let ki = user_index(ps, user);
            assert(0 <= ki < ps.len() && ps[ki].user == user);
            if ki != k as int {
                assert(false);
            }
            assert forall|i: int| 0 <= i < self.positions@[k as int].bets@.len() implies
                self.positions@[k as int].bets@[i] <= self.market.outcome_pools@[i] by {
                lemma_stake_le_col_sum(ps, k as int, i);
            }
        }
        let mut p = copy_position(&self.positions[k]);
        let rr = claim_winnings(&self.market, &mut p);
        match rr {
            Ok(payout) => {
                self.positions.set(k, p);
                proof {
                    let ps0 = old(self).positions@;
                    let ps1 = self.positions@;
                    assert forall|i: int| 0 <= i < self.n_outcomes() implies
                        self.market.outcome_pools@[i] == #[trigger] col_sum(ps1, i) by {
                        lemma_col_sum_update(ps0, k as int, ps1[k as int], i);
                    }
                }
                Ok(payout)
            },
            Err(e) => Err(e),
        }
    }
}

/// The cross-record conservation law: under the ledger invariant, every
/// outcome pool is exactly the sum of the stakes all positions record on
/// that outcome, and the total pool is the sum of the outcome pools.
pub proof fn lemma_pools_match_positions(l: MarketLedger)
    requires
        l.inv(),
    ensures
        forall|i: int|
            0 <= i < l.market.outcomes@.len() ==> l.market.outcome_pools@[i] == #[trigger] col_sum(
                l.positions@,
                i,
            ),
        l.market.total_pool == sum(l.market.outcome_pools@),
{
}

} // verus!
