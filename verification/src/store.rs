//! The record store over all markets: keyed storage of every market's
//! ledger, and dispatch of the settlement operations to the market they
//! address. Markets are independent of one another: an operation touches
//! exactly the ledger it addresses.

use vstd::prelude::*;
use crate::errors::ErrorCode;
use crate::ledger::{
    bet_outcome, claim_outcome, has_user, resolve_outcome, MarketLedger,
};
use crate::market::{AccountId, MAX_OUTCOMES};

verus! {

/// Whether some ledger is stored under `id`.
pub open spec fn has_market(ls: Seq<MarketLedger>, id: AccountId) -> bool {
    exists|k: int| 0 <= k < ls.len() && (#[trigger] ls[k]).market_id == id
}

/// The index of the ledger stored under `id`; meaningful only when
/// `has_market` holds.
pub open spec fn market_index(ls: Seq<MarketLedger>, id: AccountId) -> int {
    choose|k: int| 0 <= k < ls.len() && (#[trigger] ls[k]).market_id == id
}

/// Keyed storage for every market's records.
pub struct LedgerStore {
    /// One ledger per market, keyed uniquely by `market_id`.
    pub markets: Vec<MarketLedger>,
}

impl LedgerStore {
    /// The store invariant: every held ledger satisfies its own invariant,
    /// and no key addresses two ledgers.
    pub open spec fn inv(self) -> bool {
        &&& (forall|k: int|
            #![trigger self.markets@[k]]
            0 <= k < self.markets@.len() ==> self.markets@[k].inv())
        &&& (forall|j: int, k: int|
            #![trigger self.markets@[j].market_id, self.markets@[k].market_id]
            0 <= j < k < self.markets@.len() ==> self.markets@[j].market_id
                != self.markets@[k].market_id)
    }

    /// An empty store.
    pub fn new() -> (r: LedgerStore)
        ensures
            r.inv(),
            r.markets@.len() == 0,
    {
        LedgerStore { markets: Vec::new() }
    }

    /// Finds the index of the ledger stored under `id`, if one exists.
    pub fn find_market(&self, id: AccountId) -> (r: Option<usize>)
        ensures
            r matches Some(k) ==> 0 <= k < self.markets@.len() && self.markets@[
                k as int
            ].market_id == id,
            r is Some <==> has_market(self.markets@, id),
    {
        let mut k: usize = 0;
        while k < self.markets.len()
            invariant
                k <= self.markets@.len(),
                forall|j: int| 0 <= j < k ==> (#[trigger] self.markets@[j]).market_id != id,
            decreases self.markets@.len() - k,
        {
            if self.markets[k].market_id == id {
                return Some(k);
            }
            k = k + 1;
        }
        None
    }

    /// Creates a market under the fresh key `market_id`.
    ///
    /// A key already in use, like a bad outcome count, is an invalid
    /// configuration and creates nothing.
    pub fn create_market(
        &mut self,
        market_id: AccountId,
        authority: AccountId,
        question: String,
        description: String,
        outcomes: Vec<String>,
        end_time: i64,
        min_bet: u64,
        now: i64,
    ) -> (r: Result<(), ErrorCode>)
        requires
            old(self).inv(),
        ensures
            final(self).inv(),
            r is Ok <==> !has_market(old(self).markets@, market_id) && 2 <= outcomes@.len()
                <= MAX_OUTCOMES,
            r is Err ==> r == Err::<(), ErrorCode>(ErrorCode::InvalidConfiguration)
                && final(self).markets@ == old(self).markets@,
            r is Ok ==> ({
                let l = final(self).markets@.last();
                &&& final(self).markets@.len() == old(self).markets@.len() + 1
                &&& (forall|j: int|
                    0 <= j < old(self).markets@.len() ==> final(self).markets@[j] == old(
                        self,
                    ).markets@[j])
                &&& l.market_id == market_id
                &&& l.positions@.len() == 0
                &&& l.market.authority == authority
                &&& l.market.question@ == question@
                &&& l.market.description@ == description@
                &&& l.market.outcomes@ == outcomes@
                &&& l.market.total_pool == 0
                &&& l.market.end_time == end_time
                &&& l.market.min_bet == min_bet
                &&& !l.market.resolved
                &&& l.market.created_at == now
            }),
    {
        if self.find_market(market_id).is_some() {
            return Err(ErrorCode::InvalidConfiguration);
        }
        match MarketLedger::create(
            market_id,
            authority,
            question,
            description,
            outcomes,
            end_time,
            min_bet,
            now,
        ) {
            Ok(l) => {
                self.markets.push(l);
                Ok(())
            },
            Err(e) => Err(e),
        }
    }

    /// Records a bet against the market stored under `market_id`; every
    /// other market's records keep their values.
    pub fn place_bet(
        &mut self,
        market_id: AccountId,
        user: AccountId,
        outcome_index: u8,
        amount: u64,
        now: i64,
    ) -> (r: Result<(), ErrorCode>)
        requires
            old(self).inv(),
            has_market(old(self).markets@, market_id),
        ensures
            final(self).inv(),
            final(self).markets@.len() == old(self).markets@.len(),
            forall|j: int|
                0 <= j < old(self).markets@.len() && j != market_index(
                    old(self).markets@,
                    market_id,
                ) ==> final(self).markets@[j] == old(self).markets@[j],
            bet_outcome(
                old(self).markets@[market_index(old(self).markets@, market_id)],
                final(self).markets@[market_index(old(self).markets@, market_id)],
                user,
                outcome_index,
                amount,
                now,
                r,
            ),
    {
        let found = self.find_market(market_id);
        let k = found.unwrap();
        proof {
            let ls = self.markets@;
            let ki = market_index(ls, market_id);
            assert(0 <= ki < ls.len() && ls[ki].market_id == market_id);
            if ki != k as int {
                assert(false);
            }
        }
        self.markets[k].bet(user, outcome_index, amount, now)
    }

    /// Resolves the market stored under `market_id`; every other market's
    /// records keep their values.
    pub fn resolve_market(
        &mut self,
        market_id: AccountId,
        caller: AccountId,
        winning_outcome: u8,
        now: i64,
    ) -> (r: Result<(), ErrorCode>)
        requires
            old(self).inv(),
            has_market(old(self).markets@, market_id),
        ensures
            final(self).inv(),
            final(self).markets@.len() == old(self).markets@.len(),
            forall|j: int|
                0 <= j < old(self).markets@.len() && j != market_index(
                    old(self).markets@,
                    market_id,
                ) ==> final(self).markets@[j] == old(self).markets@[j],
            resolve_outcome(
                old(self).markets@[market_index(old(self).markets@, market_id)],
                final(self).markets@[market_index(old(self).markets@, market_id)],
                caller,
                winning_outcome,
                now,
                r,
            ),
    {
        let found = self.find_market(market_id);
        let k = found.unwrap();
        proof {
            let ls = self.markets@;
            let ki = market_index(ls, market_id);
            assert(0 <= ki < ls.len() && ls[ki].market_id == market_id);
            if ki != k as int {
                assert(false);
            }
        }
        self.markets[k].resolve(caller, winning_outcome, now)
    }

    /// Settles `user`'s position in the market stored under `market_id`;
    /// every other market's records keep their values.
    pub fn claim_winnings(&mut self, market_id: AccountId, user: AccountId) -> (r: Result<
        u64,
        ErrorCode,
    >)
        requires
            old(self).inv(),
            has_market(old(self).markets@, market_id),
            has_user(
                old(self).markets@[market_index(old(self).markets@, market_id)].positions@,
                user,
            ),
        ensures
            final(self).inv(),
            final(self).markets@.len() == old(self).markets@.len(),
            forall|j: int|
                0 <= j < old(self).markets@.len() && j != market_index(
                    old(self).markets@,
                    market_id,
                ) ==> final(self).markets@[j] == old(self).markets@[j],
            claim_outcome(
                old(self).markets@[market_index(old(self).markets@, market_id)],
                final(self).markets@[market_index(old(self).markets@, market_id)],
                user,
                r,
            ),
    {
        let found = self.find_market(market_id);
        let k = found.unwrap();
        proof {
            let ls = self.markets@;
            let ki = market_index(ls, market_id);
            assert(0 <= ki < ls.len() && ls[ki].market_id == market_id);
            if ki != k as int {
                assert(false);
            }
        }
        self.markets[k].claim(user)
    }
}

} // verus!
