//! Behavioural tests of the prediction market: platform configuration,
//! event lifecycle, betting, payouts, refunds, and user statistics.

use doomsday_market::event::cancel_event;
use doomsday_market::event::create_event;
use doomsday_market::event::resolve_event;
use doomsday_market::market::claim_winnings;
use doomsday_market::market::place_bet;
use doomsday_market::market::refund_bet;
use doomsday_market::platform::initialize_platform;
use doomsday_market::platform::update_platform;
use doomsday_market::EventStatus;
use doomsday_market::Outcome;
use doomsday_market::PlatformConfig;
use doomsday_market::PredictionEvent;
use doomsday_market::PredictionError;
use doomsday_market::UserBet;
use doomsday_market::UserStats;

const ADMIN: u64 = 1;
const ORACLE: u64 = 2;
const ALICE: u64 = 10;
const BOB: u64 = 11;

fn config_with_fee(fee: u16) -> PlatformConfig {
    let mut config = initialize_platform(ADMIN, fee, 0).unwrap();
    update_platform(&mut config, ADMIN, None, Some(ORACLE), None).unwrap();
    config
}

fn sample_event(config: &PlatformConfig, stats: &mut UserStats) -> PredictionEvent {
    create_event(
        config,
        stats,
        ALICE,
        1,
        b"Will it happen by June?".to_vec(),
        b"The question everyone is asking.".to_vec(),
        1_000,
        2_000,
        100,
    )
    .unwrap()
}

#[test]
fn initialize_platform_sets_creator_as_oracle() {
    let config = initialize_platform(ADMIN, 200, 7).unwrap();
    assert_eq!(config.authority, ADMIN);
    assert_eq!(config.oracle, ADMIN);
    assert_eq!(config.fee_basis_points, 200);
    assert!(!config.paused);
    assert_eq!(config.total_events, 0);
    assert_eq!(config.total_bets, 0);
    assert_eq!(config.bump, 7);
}

#[test]
fn initialize_platform_rejects_fee_above_full() {
    let r = initialize_platform(ADMIN, 10_001, 0);
    assert_eq!(r.unwrap_err(), PredictionError::InvalidFeeBasisPoints);
    assert!(initialize_platform(ADMIN, 10_000, 0).is_ok());
}

#[test]
fn update_platform_is_admin_only_and_field_wise() {
    let mut config = initialize_platform(ADMIN, 200, 0).unwrap();
    assert_eq!(
        update_platform(&mut config, ORACLE, Some(100), None, None),
        Err(PredictionError::Unauthorized)
    );
    assert_eq!(
        update_platform(&mut config, ADMIN, Some(10_001), None, None),
        Err(PredictionError::InvalidFeeBasisPoints)
    );
    assert_eq!(config.fee_basis_points, 200);
    update_platform(&mut config, ADMIN, Some(50), Some(ORACLE), Some(true)).unwrap();
    assert_eq!(config.fee_basis_points, 50);
    assert_eq!(config.oracle, ORACLE);
    assert!(config.paused);
    update_platform(&mut config, ADMIN, None, None, Some(false)).unwrap();
    assert_eq!(config.fee_basis_points, 50);
    assert_eq!(config.oracle, ORACLE);
    assert!(!config.paused);
}

#[test]
fn calculate_fee_rounds_down() {
    let config = config_with_fee(200);
    assert_eq!(config.calculate_fee(10_000), Some(200));
    assert_eq!(config.calculate_fee(49), Some(0));
    assert_eq!(config.calculate_fee(0), Some(0));
}

#[test]
fn create_event_validates_everything_in_order() {
    let mut config = config_with_fee(200);
    let mut stats = UserStats::default();
    let title = b"t".to_vec();
    let desc = b"d".to_vec();

    config.paused = true;
    let r = create_event(&config, &mut stats, ALICE, 1, title.clone(), desc.clone(), 1000, 2000, 100);
    assert_eq!(r.unwrap_err(), PredictionError::PlatformPaused);
    config.paused = false;

    let r = create_event(&config, &mut stats, ALICE, 1, Vec::new(), desc.clone(), 1000, 2000, 100);
    assert_eq!(r.unwrap_err(), PredictionError::InvalidTitle);
    let r = create_event(&config, &mut stats, ALICE, 1, vec![b'x'; 129], desc.clone(), 1000, 2000, 100);
    assert_eq!(r.unwrap_err(), PredictionError::InvalidTitle);
    let r = create_event(&config, &mut stats, ALICE, 1, title.clone(), Vec::new(), 1000, 2000, 100);
    assert_eq!(r.unwrap_err(), PredictionError::InvalidDescription);
    let r = create_event(&config, &mut stats, ALICE, 1, title.clone(), vec![b'x'; 513], 1000, 2000, 100);
    assert_eq!(r.unwrap_err(), PredictionError::InvalidDescription);
    let r = create_event(&config, &mut stats, ALICE, 1, title.clone(), desc.clone(), 100, 2000, 100);
    assert_eq!(r.unwrap_err(), PredictionError::InvalidDeadline);
    let r = create_event(&config, &mut stats, ALICE, 1, title.clone(), desc.clone(), 1000, 1000, 100);
    assert_eq!(r.unwrap_err(), PredictionError::InvalidResolutionDeadline);
    assert_eq!(stats.events_created, 0);

    let event = create_event(&config, &mut stats, ALICE, 1, title, desc, 1000, 2000, 100).unwrap();
    assert_eq!(event.status, EventStatus::Active);
    assert_eq!(event.outcome, None);
    assert_eq!(event.doom_pool, 0);
    assert_eq!(event.life_pool, 0);
    assert_eq!(event.total_bettors, 0);
    assert_eq!(event.created_at, 100);
    assert_eq!(stats.events_created, 1);
    assert_eq!(stats.user, ALICE);
}

#[test]
fn betting_window_and_resolution_window() {
    let config = config_with_fee(200);
    let mut stats = UserStats::default();
    let event = sample_event(&config, &mut stats);
    assert!(event.is_betting_open(999));
    assert!(!event.is_betting_open(1_000));
    assert!(!event.can_resolve(999));
    assert!(event.can_resolve(1_000));
}

#[test]
fn place_bet_updates_all_entities() {
    let mut config = config_with_fee(200);
    let mut stats = UserStats::default();
    let mut event = sample_event(&config, &mut stats);
    let mut bob_stats = UserStats::default();

    let bet = place_bet(&mut event, &mut config, &mut bob_stats, BOB, Outcome::Doom, 700, 500, 3)
        .unwrap();
    assert_eq!(bet.user, BOB);
    assert_eq!(bet.outcome, Outcome::Doom);
    assert_eq!(bet.amount, 700);
    assert_eq!(bet.placed_at, 500);
    assert!(!bet.claimed && !bet.refunded);
    assert_eq!(event.doom_pool, 700);
    assert_eq!(event.life_pool, 0);
    assert_eq!(event.total_bettors, 1);
    assert_eq!(config.total_bets, 1);
    assert_eq!(bob_stats.user, BOB);
    assert_eq!(bob_stats.total_bets, 1);
    assert_eq!(bob_stats.total_wagered, 700);
    assert_eq!(bob_stats.first_bet_at, Some(500));
    assert_eq!(bob_stats.last_bet_at, Some(500));
}

#[test]
fn place_bet_validates_everything_in_order() {
    let mut config = config_with_fee(200);
    let mut stats = UserStats::default();
    let mut event = sample_event(&config, &mut stats);

    config.paused = true;
    let r = place_bet(&mut event, &mut config, &mut stats, BOB, Outcome::Doom, 5, 500, 0);
    assert_eq!(r.unwrap_err(), PredictionError::PlatformPaused);
    config.paused = false;

    let r = place_bet(&mut event, &mut config, &mut stats, BOB, Outcome::Doom, 0, 500, 0);
    assert_eq!(r.unwrap_err(), PredictionError::InvalidBetAmount);
    let r = place_bet(&mut event, &mut config, &mut stats, BOB, Outcome::Doom, 5, 1_000, 0);
    assert_eq!(r.unwrap_err(), PredictionError::EventEnded);

    event.doom_pool = u64::MAX;
    let r = place_bet(&mut event, &mut config, &mut stats, BOB, Outcome::Doom, 1, 500, 0);
    assert_eq!(r.unwrap_err(), PredictionError::Overflow);
    assert_eq!(event.total_bettors, 0);
    assert_eq!(config.total_bets, 0);
}

#[test]
fn resolve_event_needs_oracle_and_window() {
    let mut config = config_with_fee(200);
    let mut stats = UserStats::default();
    let mut event = sample_event(&config, &mut stats);

    let r = resolve_event(&mut event, &mut config, ADMIN, Outcome::Doom, 1_500);
    assert_eq!(r.unwrap_err(), PredictionError::UnauthorizedOracle);
    let r = resolve_event(&mut event, &mut config, ORACLE, Outcome::Doom, 999);
    assert_eq!(r.unwrap_err(), PredictionError::EventNotResolved);
    let r = resolve_event(&mut event, &mut config, ORACLE, Outcome::Doom, 2_001);
    assert_eq!(r.unwrap_err(), PredictionError::ResolutionDeadlinePassed);
    assert_eq!(event.status, EventStatus::Active);

    resolve_event(&mut event, &mut config, ORACLE, Outcome::Doom, 1_500).unwrap();
    assert_eq!(event.status, EventStatus::Resolved);
    assert_eq!(event.outcome, Some(Outcome::Doom));
    assert_eq!(event.resolved_at, Some(1_500));
    assert_eq!(config.total_events, 1);
}

#[test]
fn terminal_states_are_final() {
    let mut config = config_with_fee(200);
    let mut stats = UserStats::default();

    let mut resolved = sample_event(&config, &mut stats);
    resolve_event(&mut resolved, &mut config, ORACLE, Outcome::Doom, 1_500).unwrap();
    let r = resolve_event(&mut resolved, &mut config, ORACLE, Outcome::Life, 1_600);
    assert_eq!(r.unwrap_err(), PredictionError::EventAlreadyResolved);
    let r = cancel_event(&mut resolved, &config, ADMIN);
    assert_eq!(r.unwrap_err(), PredictionError::EventAlreadyResolved);
    let r = place_bet(&mut resolved, &mut config, &mut stats, BOB, Outcome::Doom, 5, 500, 0);
    assert_eq!(r.unwrap_err(), PredictionError::EventEnded);
    assert_eq!(resolved.status, EventStatus::Resolved);
    assert_eq!(resolved.outcome, Some(Outcome::Doom));

    let mut cancelled = sample_event(&config, &mut stats);
    cancel_event(&mut cancelled, &config, ADMIN).unwrap();
    let r = resolve_event(&mut cancelled, &mut config, ORACLE, Outcome::Doom, 1_500);
    assert_eq!(r.unwrap_err(), PredictionError::EventAlreadyResolved);
    let r = place_bet(&mut cancelled, &mut config, &mut stats, BOB, Outcome::Doom, 5, 500, 0);
    assert_eq!(r.unwrap_err(), PredictionError::EventEnded);
    assert_eq!(cancelled.status, EventStatus::Cancelled);
}

#[test]
fn cancel_event_is_admin_only() {
    let mut config = config_with_fee(200);
    let mut stats = UserStats::default();
    let mut event = sample_event(&config, &mut stats);
    assert_eq!(cancel_event(&mut event, &config, ORACLE), Err(PredictionError::Unauthorized));
    assert_eq!(event.status, EventStatus::Active);
    cancel_event(&mut event, &config, ADMIN).unwrap();
    assert_eq!(event.status, EventStatus::Cancelled);
}

#[test]
fn payout_scenario_doom_winner() {
    // doomPool = 700, lifePool = 300, fee 200 bps; a DOOM bettor wagered
    // 100 of the 700: share = floor(100*300/700) = 42, fee = floor(42*200/
    // 10000) = 0, payout = 142
    let mut config = config_with_fee(200);
    let mut stats = UserStats::default();
    let mut event = sample_event(&config, &mut stats);
    let mut alice_stats = UserStats::default();
    let mut bob_stats = UserStats::default();

    let mut alice_bet =
        place_bet(&mut event, &mut config, &mut alice_stats, ALICE, Outcome::Doom, 100, 500, 0)
            .unwrap();
    let mut bob_bet =
        place_bet(&mut event, &mut config, &mut bob_stats, BOB, Outcome::Doom, 600, 500, 0)
            .unwrap();
    let mut carol_stats = UserStats::default();
    place_bet(&mut event, &mut config, &mut carol_stats, 12, Outcome::Life, 300, 500, 0).unwrap();
    resolve_event(&mut event, &mut config, ORACLE, Outcome::Doom, 1_500).unwrap();

    let (payout, fee) =
        claim_winnings(&event, &mut alice_bet, &mut config, &mut alice_stats).unwrap();
    assert_eq!(payout, 142);
    assert_eq!(fee, 0);
    assert!(alice_bet.claimed);
    assert_eq!(alice_stats.wins, 1);
    assert_eq!(alice_stats.total_won, 142);
    assert_eq!(alice_stats.net_profit, 42);
    assert_eq!(alice_stats.current_streak, 1);

    // the other winner: share = floor(600*300/700) = 257,
    // fee = floor(257*200/10000) = 5, payout = 600 + 257 - 5 = 852
    let (payout2, fee2) =
        claim_winnings(&event, &mut bob_bet, &mut config, &mut bob_stats).unwrap();
    assert_eq!(payout2, 852);
    assert_eq!(fee2, 5);
    // fee on a DOOM win is paid in the losing (LIFE) token
    assert_eq!(config.total_life_fees, 5);
    assert_eq!(config.total_doom_fees, 0);

    // conservation: all payouts together never exceed the two pools
    assert!(payout as u128 + payout2 as u128 <= 700 + 300);
}

#[test]
fn feeless_payouts_drain_both_pools_exactly() {
    let mut config = config_with_fee(0);
    let mut stats = UserStats::default();
    let mut event = sample_event(&config, &mut stats);
    let mut a_stats = UserStats::default();
    let mut b_stats = UserStats::default();
    let mut c_stats = UserStats::default();

    let mut a_bet =
        place_bet(&mut event, &mut config, &mut a_stats, ALICE, Outcome::Life, 100, 500, 0)
            .unwrap();
    let mut b_bet =
        place_bet(&mut event, &mut config, &mut b_stats, BOB, Outcome::Life, 100, 500, 0).unwrap();
    place_bet(&mut event, &mut config, &mut c_stats, 12, Outcome::Doom, 300, 500, 0).unwrap();
    resolve_event(&mut event, &mut config, ORACLE, Outcome::Life, 1_500).unwrap();

    // each share is 100*300/200 = 150 exactly; payouts 250 + 250 = 500,
    // which is the whole of both pools
    let (p1, f1) = claim_winnings(&event, &mut a_bet, &mut config, &mut a_stats).unwrap();
    let (p2, f2) = claim_winnings(&event, &mut b_bet, &mut config, &mut b_stats).unwrap();
    assert_eq!((p1, f1), (250, 0));
    assert_eq!((p2, f2), (250, 0));
    assert_eq!(p1 + p2, 200 + 300);
}

#[test]
fn claim_winnings_twice_fails_with_already_claimed() {
    let mut config = config_with_fee(200);
    let mut stats = UserStats::default();
    let mut event = sample_event(&config, &mut stats);
    let mut a_stats = UserStats::default();
    let mut b_stats = UserStats::default();
    let mut bet =
        place_bet(&mut event, &mut config, &mut a_stats, ALICE, Outcome::Doom, 100, 500, 0)
            .unwrap();
    place_bet(&mut event, &mut config, &mut b_stats, BOB, Outcome::Life, 300, 500, 0).unwrap();
    resolve_event(&mut event, &mut config, ORACLE, Outcome::Doom, 1_500).unwrap();

    claim_winnings(&event, &mut bet, &mut config, &mut a_stats).unwrap();
    let fees_after_first = config.total_life_fees;
    let stats_after_first = a_stats.total_won;

    let r = claim_winnings(&event, &mut bet, &mut config, &mut a_stats);
    assert_eq!(r.unwrap_err(), PredictionError::AlreadyClaimed);
    // no double transfer: nothing moved the second time
    assert_eq!(config.total_life_fees, fees_after_first);
    assert_eq!(a_stats.total_won, stats_after_first);
    assert_eq!(a_stats.wins, 1);
}

#[test]
fn claim_winnings_checks_state_and_winner() {
    let mut config = config_with_fee(200);
    let mut stats = UserStats::default();
    let mut event = sample_event(&config, &mut stats);
    let mut a_stats = UserStats::default();
    let mut bet =
        place_bet(&mut event, &mut config, &mut a_stats, ALICE, Outcome::Life, 100, 500, 0)
            .unwrap();

    let r = claim_winnings(&event, &mut bet, &mut config, &mut a_stats);
    assert_eq!(r.unwrap_err(), PredictionError::EventNotResolved);

    resolve_event(&mut event, &mut config, ORACLE, Outcome::Doom, 1_500).unwrap();
    let r = claim_winnings(&event, &mut bet, &mut config, &mut a_stats);
    assert_eq!(r.unwrap_err(), PredictionError::NotAWinner);
    assert!(!bet.claimed);
}

#[test]
fn empty_winning_pool_pays_nobody() {
    // the event resolves to DOOM, but every wager sits on LIFE; a forged
    // DOOM bet record finds an unpayable pool
    let mut config = config_with_fee(200);
    let mut stats = UserStats::default();
    let mut event = sample_event(&config, &mut stats);
    let mut a_stats = UserStats::default();
    place_bet(&mut event, &mut config, &mut a_stats, ALICE, Outcome::Life, 100, 500, 0).unwrap();
    resolve_event(&mut event, &mut config, ORACLE, Outcome::Doom, 1_500).unwrap();

    let mut forged = UserBet {
        event: event.event_id,
        user: BOB,
        outcome: Outcome::Doom,
        amount: 50,
        placed_at: 500,
        claimed: false,
        refunded: false,
        bump: 0,
    };
    let r = claim_winnings(&event, &mut forged, &mut config, &mut a_stats);
    assert_eq!(r.unwrap_err(), PredictionError::NoWinnings);
}

#[test]
fn refund_returns_stake_once_after_cancellation() {
    let mut config = config_with_fee(200);
    let mut stats = UserStats::default();
    let mut event = sample_event(&config, &mut stats);
    let mut a_stats = UserStats::default();
    let mut bet =
        place_bet(&mut event, &mut config, &mut a_stats, ALICE, Outcome::Doom, 100, 500, 0)
            .unwrap();

    let r = refund_bet(&event, &mut bet);
    assert_eq!(r.unwrap_err(), PredictionError::EventNotCancelled);

    cancel_event(&mut event, &config, ADMIN).unwrap();
    assert_eq!(refund_bet(&event, &mut bet), Ok(100));
    assert!(bet.refunded);
    let r = refund_bet(&event, &mut bet);
    assert_eq!(r.unwrap_err(), PredictionError::RefundAlreadyClaimed);
}

#[test]
fn odds_follow_the_pools() {
    let mut config = config_with_fee(200);
    let mut stats = UserStats::default();
    let mut event = sample_event(&config, &mut stats);
    assert_eq!(event.doom_odds(), 5_000);
    assert_eq!(event.life_odds(), 5_000);
    let mut a_stats = UserStats::default();
    place_bet(&mut event, &mut config, &mut a_stats, ALICE, Outcome::Doom, 700, 500, 0).unwrap();
    place_bet(&mut event, &mut config, &mut a_stats, BOB, Outcome::Life, 300, 500, 0).unwrap();
    assert_eq!(event.total_pool(), 1_000);
    assert_eq!(event.doom_odds(), 7_000);
    assert_eq!(event.life_odds(), 3_000);
}

#[test]
fn is_winner_matches_outcome() {
    let bet = UserBet {
        event: 1,
        user: ALICE,
        outcome: Outcome::Life,
        amount: 5,
        placed_at: 0,
        claimed: false,
        refunded: false,
        bump: 0,
    };
    assert!(bet.is_winner(Some(Outcome::Life)));
    assert!(!bet.is_winner(Some(Outcome::Doom)));
    assert!(!bet.is_winner(None));
}

#[test]
fn stats_track_streaks_across_zero() {
    let mut stats = UserStats::default();
    stats.record_win(100, 150);
    stats.record_win(100, 150);
    assert_eq!(stats.current_streak, 2);
    assert_eq!(stats.best_streak, 2);
    assert_eq!(stats.net_profit, 100);

    stats.record_loss(40);
    assert_eq!(stats.current_streak, -1);
    assert_eq!(stats.worst_streak, 1);
    assert_eq!(stats.net_profit, 60);
    stats.record_loss(40);
    stats.record_loss(40);
    assert_eq!(stats.current_streak, -3);
    assert_eq!(stats.worst_streak, 3);
    assert_eq!(stats.losses, 3);
    assert_eq!(stats.total_lost, 120);

    stats.record_win(10, 30);
    assert_eq!(stats.current_streak, 1);
    assert_eq!(stats.best_streak, 2);
    assert_eq!(stats.wins, 3);
}

#[test]
fn win_rate_is_in_basis_points() {
    let mut stats = UserStats::default();
    assert_eq!(stats.win_rate(), 0);
    stats.record_bet(10, 1);
    stats.record_bet(10, 2);
    stats.record_bet(10, 3);
    stats.record_win(10, 20);
    assert_eq!(stats.win_rate(), 3_333);
    assert_eq!(stats.first_bet_at, Some(1));
    assert_eq!(stats.last_bet_at, Some(3));
    assert_eq!(stats.total_wagered, 30);
}
