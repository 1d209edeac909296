use prediction_market::engine::{claim_winnings, initialize_market, place_bet, resolve_market};
use prediction_market::errors::ErrorCode;
use prediction_market::market::{current_state, Market, MarketState};
use prediction_market::position::UserPosition;

fn two_outcomes() -> Vec<String> {
    vec!["A".to_string(), "B".to_string()]
}

fn open_market(end_time: i64, min_bet: u64) -> Market {
    initialize_market(
        7,
        "Who wins?".to_string(),
        "A two-horse race".to_string(),
        two_outcomes(),
        end_time,
        min_bet,
        0,
    )
    .unwrap()
}

fn fresh_position(user: u64, n: usize) -> UserPosition {
    UserPosition::new(user, 1, n)
}

#[test]
fn create_market_zeroes_all_bookkeeping() {
    let m = open_market(100, 5);
    assert_eq!(m.authority, 7);
    assert_eq!(m.outcomes.len(), 2);
    assert_eq!(m.outcome_pools, vec![0, 0]);
    assert_eq!(m.total_pool, 0);
    assert_eq!(m.end_time, 100);
    assert_eq!(m.min_bet, 5);
    assert!(!m.resolved);
    assert_eq!(m.winning_outcome, None);
    assert_eq!(m.created_at, 0);
    assert_eq!(m.resolved_at, None);
}

#[test]
fn create_market_refuses_bad_outcome_counts() {
    let empty: Vec<String> = vec![];
    let r = initialize_market(7, "q".to_string(), "d".to_string(), empty, 10, 1, 0);
    assert_eq!(r.err(), Some(ErrorCode::InvalidConfiguration));

    let one = vec!["only".to_string()];
    let r = initialize_market(7, "q".to_string(), "d".to_string(), one, 10, 1, 0);
    assert_eq!(r.err(), Some(ErrorCode::InvalidConfiguration));

    let eleven: Vec<String> = (0..11).map(|i| format!("o{}", i)).collect();
    let r = initialize_market(7, "q".to_string(), "d".to_string(), eleven, 10, 1, 0);
    assert_eq!(r.err(), Some(ErrorCode::InvalidConfiguration));

    let ten: Vec<String> = (0..10).map(|i| format!("o{}", i)).collect();
    let r = initialize_market(7, "q".to_string(), "d".to_string(), ten, 10, 1, 0);
    assert!(r.is_ok());
    assert_eq!(r.unwrap().outcome_pools.len(), 10);
}

#[test]
fn bet_updates_pools_and_position_consistently() {
    let mut m = open_market(100, 1);
    let mut p = fresh_position(3, 2);
    assert_eq!(place_bet(&mut m, &mut p, 0, 40, 10), Ok(()));
    assert_eq!(place_bet(&mut m, &mut p, 1, 60, 20), Ok(()));
    assert_eq!(m.outcome_pools, vec![40, 60]);
    assert_eq!(m.total_pool, 100);
    // total_pool stays the sum of the outcome pools
    assert_eq!(m.total_pool, m.outcome_pools.iter().sum::<u64>());
    assert_eq!(p.bets, vec![40, 60]);
    assert_eq!(p.total_bet, 100);
    // total_bet stays the sum of the per-outcome stakes
    assert_eq!(p.total_bet, p.bets.iter().sum::<u64>());
    assert!(!p.claimed);
}

#[test]
fn bet_at_or_after_deadline_is_refused() {
    let mut m = open_market(100, 1);
    let mut p = fresh_position(3, 2);
    // the deadline is exclusive: now == end_time already refuses
    assert_eq!(place_bet(&mut m, &mut p, 0, 10, 100), Err(ErrorCode::MarketEnded));
    assert_eq!(place_bet(&mut m, &mut p, 0, 10, 101), Err(ErrorCode::MarketEnded));
    // one tick before the deadline is accepted
    assert_eq!(place_bet(&mut m, &mut p, 0, 10, 99), Ok(()));
    assert_eq!(m.total_pool, 10);
}

#[test]
fn bet_on_resolved_market_is_refused() {
    let mut m = open_market(100, 1);
    let mut p = fresh_position(3, 2);
    assert_eq!(resolve_market(&mut m, 7, 0, 100), Ok(()));
    assert_eq!(place_bet(&mut m, &mut p, 0, 10, 50), Err(ErrorCode::MarketResolved));
    assert_eq!(m.total_pool, 0);
    assert_eq!(p.total_bet, 0);
}

#[test]
fn bet_below_minimum_is_refused() {
    let mut m = open_market(100, 50);
    let mut p = fresh_position(3, 2);
    assert_eq!(place_bet(&mut m, &mut p, 0, 49, 10), Err(ErrorCode::BetTooSmall));
    // exactly the minimum is accepted
    assert_eq!(place_bet(&mut m, &mut p, 0, 50, 10), Ok(()));
}

#[test]
fn bet_on_unknown_outcome_is_refused() {
    let mut m = open_market(100, 1);
    let mut p = fresh_position(3, 2);
    assert_eq!(place_bet(&mut m, &mut p, 2, 10, 10), Err(ErrorCode::InvalidOutcome));
    assert_eq!(m.total_pool, 0);
}

#[test]
fn bet_that_would_overflow_is_refused() {
    let mut m = open_market(100, 1);
    m.outcome_pools = vec![u64::MAX - 5, 5];
    m.total_pool = u64::MAX;
    let mut p = fresh_position(3, 2);
    assert_eq!(place_bet(&mut m, &mut p, 1, 10, 10), Err(ErrorCode::ArithmeticOverflow));
    assert_eq!(m.outcome_pools, vec![u64::MAX - 5, 5]);
    assert_eq!(m.total_pool, u64::MAX);
    assert_eq!(p.total_bet, 0);
}

#[test]
fn resolve_by_unauthorized_caller_is_refused() {
    let mut m = open_market(100, 1);
    assert_eq!(resolve_market(&mut m, 8, 0, 100), Err(ErrorCode::Unauthorized));
    assert!(!m.resolved);
    assert_eq!(m.winning_outcome, None);
}

#[test]
fn resolve_before_deadline_is_refused() {
    let mut m = open_market(100, 1);
    assert_eq!(resolve_market(&mut m, 7, 0, 99), Err(ErrorCode::MarketNotEnded));
    assert!(!m.resolved);
    // exactly at the deadline resolution becomes possible
    assert_eq!(resolve_market(&mut m, 7, 0, 100), Ok(()));
    assert!(m.resolved);
    assert_eq!(m.winning_outcome, Some(0));
    assert_eq!(m.resolved_at, Some(100));
}

#[test]
fn resolve_twice_is_refused() {
    let mut m = open_market(100, 1);
    assert_eq!(resolve_market(&mut m, 7, 1, 150), Ok(()));
    assert_eq!(resolve_market(&mut m, 7, 0, 200), Err(ErrorCode::MarketAlreadyResolved));
    // the first resolution stands
    assert_eq!(m.winning_outcome, Some(1));
    assert_eq!(m.resolved_at, Some(150));
}

#[test]
fn resolve_to_unknown_outcome_is_refused() {
    let mut m = open_market(100, 1);
    assert_eq!(resolve_market(&mut m, 7, 2, 100), Err(ErrorCode::InvalidOutcome));
    assert!(!m.resolved);
}

#[test]
fn claim_on_unresolved_market_is_refused() {
    let m = open_market(100, 1);
    let mut p = fresh_position(3, 2);
    assert_eq!(claim_winnings(&m, &mut p), Err(ErrorCode::MarketNotResolved));
    assert!(!p.claimed);
}

#[test]
fn winning_claim_pays_pro_rata_share() {
    // pools [300, 700], total 1000, winner B
    let mut m = open_market(100, 1);
    let mut loser = fresh_position(3, 2);
    let mut big_winner = fresh_position(4, 2);
    let mut small_winner = fresh_position(5, 2);
    assert_eq!(place_bet(&mut m, &mut loser, 0, 300, 10), Ok(()));
    assert_eq!(place_bet(&mut m, &mut big_winner, 1, 630, 10), Ok(()));
    assert_eq!(place_bet(&mut m, &mut small_winner, 1, 70, 10), Ok(()));
    assert_eq!(m.outcome_pools, vec![300, 700]);
    assert_eq!(m.total_pool, 1000);
    assert_eq!(resolve_market(&mut m, 7, 1, 100), Ok(()));

    // floor(70 * 1000 / 700) == 100
    assert_eq!(claim_winnings(&m, &mut small_winner), Ok(100));
    assert!(small_winner.claimed);
    // floor(630 * 1000 / 700) == 900
    assert_eq!(claim_winnings(&m, &mut big_winner), Ok(900));
    // a losing claim pays nothing but still consumes the claim right
    assert_eq!(claim_winnings(&m, &mut loser), Ok(0));
    assert!(loser.claimed);
}

#[test]
fn rounding_residue_stays_in_escrow() {
    // three winners staking 1 each against a losing pool of 7: each gets
    // floor(1 * 10 / 3) == 3, and 1 unit stays behind in escrow
    let mut m = open_market(100, 1);
    let mut w1 = fresh_position(3, 2);
    let mut w2 = fresh_position(4, 2);
    let mut w3 = fresh_position(5, 2);
    let mut loser = fresh_position(6, 2);
    assert_eq!(place_bet(&mut m, &mut w1, 0, 1, 10), Ok(()));
    assert_eq!(place_bet(&mut m, &mut w2, 0, 1, 10), Ok(()));
    assert_eq!(place_bet(&mut m, &mut w3, 0, 1, 10), Ok(()));
    assert_eq!(place_bet(&mut m, &mut loser, 1, 7, 10), Ok(()));
    assert_eq!(m.total_pool, 10);
    assert_eq!(resolve_market(&mut m, 7, 0, 100), Ok(()));

    let mut escrow: u64 = m.total_pool;
    for p in [&mut w1, &mut w2, &mut w3, &mut loser] {
        let payout = claim_winnings(&m, p).unwrap();
        escrow -= payout;
    }
    // 3 + 3 + 3 paid out, 1 unit of rounding residue remains
    assert_eq!(escrow, 1);
}

#[test]
fn claim_twice_is_refused_and_moves_no_more_value() {
    let mut m = open_market(100, 1);
    let mut winner = fresh_position(3, 2);
    let mut other = fresh_position(4, 2);
    assert_eq!(place_bet(&mut m, &mut winner, 0, 60, 10), Ok(()));
    assert_eq!(place_bet(&mut m, &mut other, 1, 40, 10), Ok(()));
    assert_eq!(resolve_market(&mut m, 7, 0, 100), Ok(()));

    let mut escrow: u64 = m.total_pool;
    let payout = claim_winnings(&m, &mut winner).unwrap();
    assert_eq!(payout, 100);
    escrow -= payout;
    assert_eq!(escrow, 0);

    // the second claim fails and the escrow balance does not move
    assert_eq!(claim_winnings(&m, &mut winner), Err(ErrorCode::AlreadyClaimed));
    assert_eq!(escrow, 0);
    assert!(winner.claimed);
}

#[test]
fn zero_stake_claim_is_consumed_too() {
    let mut m = open_market(100, 1);
    let mut bystander = fresh_position(9, 2);
    let mut better = fresh_position(3, 2);
    assert_eq!(place_bet(&mut m, &mut better, 0, 10, 10), Ok(()));
    assert_eq!(resolve_market(&mut m, 7, 1, 100), Ok(()));
    // the winning pool is empty; a position with no stake there gets zero
    assert_eq!(claim_winnings(&m, &mut bystander), Ok(0));
    assert!(bystander.claimed);
    assert_eq!(claim_winnings(&m, &mut bystander), Err(ErrorCode::AlreadyClaimed));
}

#[test]
fn lifecycle_states_follow_time_and_resolution() {
    let mut m = open_market(100, 1);
    assert_eq!(current_state(&m, 50), MarketState::Open);
    assert_eq!(current_state(&m, 100), MarketState::AwaitingResolution);
    assert_eq!(current_state(&m, 500), MarketState::AwaitingResolution);
    assert_eq!(resolve_market(&mut m, 7, 0, 100), Ok(()));
    assert_eq!(current_state(&m, 100), MarketState::Resolved);
    assert_eq!(current_state(&m, 0), MarketState::Resolved);
}
