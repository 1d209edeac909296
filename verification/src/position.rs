//! One user's stake in one market, and the claim rules over it.

use vstd::prelude::*;
use crate::errors::ErrorCode;
use crate::market::{AccountId, Market};
use crate::sums::{copy_amounts, sum, zero_amounts};

verus! {

/// One user's per-market record: the amounts staked on each outcome and
/// whether the winnings have been claimed.
pub struct UserPosition {
    /// The staking user.
    pub user: AccountId,
    /// The market this position belongs to.
    pub market: AccountId,
    /// Per-outcome stakes, one entry per market outcome.
    pub bets: Vec<u64>,
    /// The sum of all entries of `bets`.
    pub total_bet: u64,
    /// Whether this position has claimed, set exactly once.
    pub claimed: bool,
}

impl UserPosition {
    /// Well-formedness: the cumulative total matches the per-outcome stakes.
    pub open spec fn wf(self) -> bool {
        self.total_bet == sum(self.bets@)
    }

    /// A fresh, zeroed position of `user` in `market`, sized to the market's
    /// `n_outcomes` outcomes, as created on a user's first bet.
    pub fn new(user: AccountId, market: AccountId, n_outcomes: usize) -> (r: UserPosition)
        ensures
            r.user == user,
            r.market == market,
            r.bets@.len() == n_outcomes,
            forall|i: int| 0 <= i < n_outcomes ==> r.bets@[i] == 0,
            r.total_bet == 0,
            !r.claimed,
            r.wf(),
    {
        UserPosition {
            user,
            market,
            bets: zero_amounts(n_outcomes),
            total_bet: 0,
            claimed: false,
        }
    }
}

/// A field-for-field copy of a position record.
pub fn copy_position(p: &UserPosition) -> (r: UserPosition)
    ensures
        r.user == p.user,
        r.market == p.market,
        r.bets@ == p.bets@,
        r.total_bet == p.total_bet,
        r.claimed == p.claimed,
{
    UserPosition {
        user: p.user,
        market: p.market,
        bets: copy_amounts(&p.bets),
        total_bet: p.total_bet,
        claimed: p.claimed,
    }
}

/// How an accepted bet changes a position record: the stake on the chosen
/// outcome and the cumulative total grow by `amount`; nothing else moves.
pub open spec fn position_after_bet(
    pre: UserPosition,
    post: UserPosition,
    outcome_index: u8,
    amount: u64,
) -> bool {
    &&& post.user == pre.user
    &&& post.market == pre.market
    &&& post.bets@ == pre.bets@.update(
        outcome_index as int,
        (pre.bets@[outcome_index as int] + amount) as u64,
    )
    &&& post.total_bet == pre.total_bet + amount
    &&& post.claimed == pre.claimed
}

/// Whether a claim on position `p` against market `m` is accepted, and with
/// which error it is refused otherwise.
pub open spec fn claim_check(m: Market, p: UserPosition) -> Result<(), ErrorCode> {
    if !m.resolved {
        Err(ErrorCode::MarketNotResolved)
    } else if p.claimed {
        Err(ErrorCode::AlreadyClaimed)
    } else {
        Ok(())
    }
}

/// The position after a successful claim: only the claim flag moves, the
/// recorded bets stay untouched.
pub open spec fn claimed_position(p: UserPosition) -> UserPosition {
    UserPosition { claimed: true, ..p }
}

/// Conservation inside one position record: at every observation point of a
/// well-formed position, the cumulative total is exactly the sum of the
/// per-outcome stakes.
pub proof fn lemma_total_bet_conservation(p: UserPosition)
    requires
        p.wf(),
    ensures
        p.total_bet == sum(p.bets@),
{
}

/// A position claims at most once: after a successful claim, a second claim
/// against any resolved market is refused as already claimed.
pub proof fn lemma_claim_at_most_once(m: Market, p: UserPosition, m2: Market)
    requires
        claim_check(m, p) is Ok,
    ensures
        claim_check(m2, claimed_position(p)) != Ok::<(), ErrorCode>(()),
        m2.resolved ==> claim_check(m2, claimed_position(p)) == Err::<(), ErrorCode>(
            ErrorCode::AlreadyClaimed,
        ),
{
}

} // verus!
