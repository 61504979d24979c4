use wagr::assoc::AssocList;
use wagr::escrow::fee_manager::{withdraw_fees, FeeError, FeeLedger, FeeManager};
use wagr::escrow::fees::{calculate_fee, validate_fee_bps};
use wagr::escrow::multiplayer::{distribute_to_winners, MatchError, MultiplayerMatch};
use wagr::escrow::pause_control::{
    can_execute_payout, can_execute_result_submission, can_execute_staking, check_paused, get_pause_duration, get_pause_state,
    pause_contract, unpause_contract, PauseError, PauseState, PauseStore,
};
use wagr::escrow::storage::{get_admin, set_admin};
use wagr::escrow::timeout::{
    calculate_refund_amount, check_and_refund_timeout, execute_timeout_refund, TimeoutError, TimeoutStore,
};
use wagr::escrow::validation::{validate_address, validate_amount, validate_match_id};
use wagr::escrow::{EscrowContract, Error, LEDGER_TIMEOUT_SECS};

fn s(x: &str) -> String {
    x.to_string()
}

fn initialized() -> EscrowContract {
    let mut c = EscrowContract::new();
    c.initialize(s("admin"), s("fee_collector"), 50).unwrap();
    c
}

#[test]
fn test_fee_calculation() {
    let manager = FeeManager { fee_collector: s("collector"), fee_bps: 50, total_accumulated: 0 };
    let fee = manager.calculate_fee(1000);
    assert_eq!(fee, 5);
}

#[test]
fn test_fee_accrual() {
    let mut manager = FeeManager { fee_collector: s("collector"), fee_bps: 100, total_accumulated: 0 };
    manager.accrue_fee(1000);
    assert_eq!(manager.get_accumulated_fees(), 10);
    manager.accrue_fee(1000);
    assert_eq!(manager.get_accumulated_fees(), 20);
}

#[test]
fn test_initialize() {
    let mut c = EscrowContract::new();
    c.initialize(s("admin"), s("fee_collector"), 50).unwrap();
}

#[test]
fn test_initialize_invalid_fee() {
    let mut c = EscrowContract::new();
    let result = c.initialize(s("admin"), s("fee_collector"), 1001);
    assert!(result.is_err());
}

#[test]
fn test_stake_and_query() {
    let mut c = initialized();
    let match_id = s("match1");
    c.stake(match_id.clone(), s("player"), 100, 0).unwrap();
    assert_eq!(c.query_stake_balance(&match_id, &s("player")), Ok(100));
    assert_eq!(c.get_total_escrow(), 100);
}

#[test]
fn test_timeout_refund() {
    let mut c = initialized();
    let match_id = s("match1");
    let player = s("player");
    c.stake(match_id.clone(), player.clone(), 100, 0).unwrap();
    let now = LEDGER_TIMEOUT_SECS + 1;
    c.timeout_refund(&match_id, &player, &player, now).unwrap();
    assert_eq!(c.query_stake_balance(&match_id, &player), Ok(0));
}

#[test]
fn test_pause_blocks_stake() {
    let mut c = initialized();
    c.pause().unwrap();
    let result = c.stake(s("match1"), s("player"), 100, 0);
    assert!(result.is_err());
}

#[test]
fn test_equal_payout_split() {
    let m = MultiplayerMatch {
        match_id: s("m1"),
        players: Vec::new(),
        stakes: AssocList::new(),
        total_stake: 1000,
        created_at: 0,
        game_type: s("chess"),
        game_id: s("g1"),
    };
    let payout = m.calculate_equal_payout(4);
    assert_eq!(payout, 250);
}

#[test]
fn test_pause_state_structure() {
    let state = PauseState { is_paused: true, paused_at: 1000000, paused_by: s("admin"), reason: s("Emergency") };
    assert!(state.is_paused);
    assert_eq!(state.reason, "Emergency");
}

#[test]
fn test_pause_duration_calculation() {
    let paused_at = 1000000u64;
    let current_time = 1000000u64 + 3600u64;
    let duration = current_time.saturating_sub(paused_at);
    assert_eq!(duration, 3600);
}

#[test]
fn test_fee_calculation_zero() {
    assert_eq!(calculate_fee(100, 0), 0);
}

#[test]
fn test_fee_calculation_50bps() {
    assert_eq!(calculate_fee(200, 50), 1);
}

#[test]
fn test_fee_bps_valid() {
    assert!(validate_fee_bps(50));
}

#[test]
fn test_fee_bps_invalid() {
    assert!(!validate_fee_bps(1001));
}

#[test]
fn test_timeout_calculation() {
    let (refund, fee) = calculate_refund_amount(1000, 50);
    assert_eq!(fee, 5);
    assert_eq!(refund, 497);
}

#[test]
fn test_zero_fee_refund() {
    let (refund, fee) = calculate_refund_amount(1000, 0);
    assert_eq!(fee, 0);
    assert_eq!(refund, 500);
}

// Contract behaviour beyond the original tests.

#[test]
fn escrow_initialize_only_once() {
    let mut c = initialized();
    assert_eq!(c.initialize(s("other"), s("fee_collector"), 50), Err(Error::AlreadyInitialized));
    assert_eq!(c.require_admin(), Ok(s("admin")));
}

#[test]
fn escrow_stake_errors() {
    let mut c = initialized();
    assert_eq!(c.stake(s("m"), s("p"), 0, 0), Err(Error::ZeroAmount));
    c.stake(s("m"), s("p"), 10, 0).unwrap();
    assert_eq!(c.stake(s("m"), s("p"), 10, 0), Err(Error::AlreadyStaked));
    for i in 1..8 {
        c.stake(s("m"), format!("p{}", i), 10, 0).unwrap();
    }
    assert_eq!(c.get_match_players(&s("m")).unwrap().len(), 8);
    assert_eq!(c.stake(s("m"), s("p9"), 10, 0), Err(Error::TooManyPlayers));
    assert_eq!(c.get_total_escrow(), 80);
}

#[test]
fn escrow_players_listed_in_staking_order() {
    let mut c = initialized();
    c.stake(s("m"), s("alice"), 5, 0).unwrap();
    c.stake(s("m"), s("bob"), 7, 0).unwrap();
    assert_eq!(c.get_match_players(&s("m")), Ok(vec![s("alice"), s("bob")]));
    assert_eq!(c.get_match_players(&s("other")), Ok(vec![]));
}

#[test]
fn escrow_refund_errors() {
    let mut c = EscrowContract::new();
    assert_eq!(c.timeout_refund(&s("m"), &s("p"), &s("p"), 0), Err(Error::NotInitialized));
    let mut c = initialized();
    c.stake(s("m"), s("p"), 100, 1000).unwrap();
    assert_eq!(c.timeout_refund(&s("m"), &s("p"), &s("stranger"), 100000), Err(Error::Unauthorized));
    assert_eq!(c.timeout_refund(&s("m"), &s("q"), &s("q"), 100000), Err(Error::NoStake));
    assert_eq!(c.timeout_refund(&s("m"), &s("p"), &s("p"), 1000 + LEDGER_TIMEOUT_SECS - 1), Err(Error::NotTimedOut));
    assert_eq!(c.timeout_refund(&s("m"), &s("p"), &s("admin"), 1000 + LEDGER_TIMEOUT_SECS), Ok(100));
}

#[test]
fn escrow_refund_undoes_stake() {
    let mut c = initialized();
    c.stake(s("m"), s("alice"), 30, 0).unwrap();
    c.stake(s("m"), s("bob"), 70, 0).unwrap();
    assert_eq!(c.get_total_escrow(), 100);
    assert_eq!(c.timeout_refund(&s("m"), &s("bob"), &s("bob"), LEDGER_TIMEOUT_SECS), Ok(70));
    assert_eq!(c.get_total_escrow(), 30);
    assert_eq!(c.get_match_players(&s("m")), Ok(vec![s("alice")]));
    assert_eq!(c.query_stake_balance(&s("m"), &s("bob")), Ok(0));
    // The player may stake again once refunded.
    c.stake(s("m"), s("bob"), 1, 0).unwrap();
    assert_eq!(c.get_total_escrow(), 31);
}

#[test]
fn escrow_initialize_resets_total() {
    let mut c = EscrowContract::new();
    c.stake(s("m"), s("p"), 40, 0).unwrap();
    assert_eq!(c.get_total_escrow(), 40);
    c.initialize(s("admin"), s("fee_collector"), 50).unwrap();
    assert_eq!(c.get_total_escrow(), 0);
}

#[test]
fn escrow_overflow_checks() {
    let mut c = initialized();
    c.stake(s("m"), s("a"), u128::MAX - 5, 0).unwrap();
    assert!(c.stake_would_overflow(&s("m"), &s("b"), 10));
    assert!(!c.stake_would_overflow(&s("m"), &s("b"), 5));
    // A stake refused for another reason first does not reach the total.
    assert!(!c.stake_would_overflow(&s("m"), &s("a"), 10));
    assert!(!c.stake_would_overflow(&s("m"), &s("b"), 0));
    c.stake(s("late"), s("p"), 1, u64::MAX).unwrap();
    assert!(c.refund_would_overflow(&s("late"), &s("p"), &s("p")));
    assert!(!c.refund_would_overflow(&s("late"), &s("p"), &s("eve")));
    assert!(!c.refund_would_overflow(&s("m"), &s("a"), &s("a")));
    assert!(!c.refund_would_overflow(&s("m"), &s("nobody"), &s("admin")));
}

#[test]
fn escrow_admin_calls() {
    let mut c = EscrowContract::new();
    assert_eq!(c.set_fee_bps(10), Err(Error::NotInitialized));
    assert_eq!(c.pause(), Err(Error::NotInitialized));
    assert_eq!(c.upgrade(), Err(Error::NotInitialized));
    let mut c = initialized();
    assert_eq!(c.set_fee_bps(1001), Err(Error::InvalidFee));
    assert_eq!(c.set_fee_bps(1000), Ok(()));
    assert_eq!(c.set_fee_collector(s("new_collector")), Ok(()));
    assert!(!c.is_paused());
    c.pause().unwrap();
    assert!(c.is_paused());
    c.unpause().unwrap();
    assert!(!c.is_paused());
    c.set_admin(s("admin2")).unwrap();
    assert_eq!(c.require_admin(), Ok(s("admin2")));
    assert_eq!(c.upgrade(), Ok(()));
}

#[test]
fn escrow_storage_admin() {
    let mut c = EscrowContract::new();
    assert_eq!(get_admin(&c), None);
    set_admin(&mut c, s("root"));
    assert_eq!(get_admin(&c), Some(s("root")));
}

#[test]
fn escrow_validation() {
    assert!(validate_address(&s("GABC")));
    assert!(!validate_address(&s("")));
    assert!(validate_match_id(&s("m1")));
    assert!(!validate_match_id(&s("")));
    assert!(validate_amount(1));
    assert!(!validate_amount(0));
}

#[test]
fn fee_of_readme_example() {
    // 200 staked in all at 50 basis points: a fee of 1, the winner gets 199.
    assert_eq!(calculate_fee(200, 50), 1);
    assert_eq!(calculate_fee(1_000_000, 1000), 100_000);
}

#[test]
fn fee_manager_errors_and_updates() {
    assert!(matches!(FeeManager::new(s("c"), 1001), Err(FeeError::InvalidFee)));
    let mut m = FeeManager::new(s("c"), 100).unwrap();
    assert_eq!(m.update_fee_bps(1001), Err(FeeError::InvalidFee));
    assert_eq!(m.update_fee_bps(200), Ok(()));
    assert_eq!(m.accrue_fee(1000), 20);
    m.reset_accumulated();
    assert_eq!(m.get_accumulated_fees(), 0);
    m.update_fee_collector(s("d"));
    assert_eq!(m.fee_collector, "d");
    let mut big = FeeManager { fee_collector: s("c"), fee_bps: 1000, total_accumulated: u64::MAX - 1 };
    big.accrue_fee(1000);
    assert_eq!(big.get_accumulated_fees(), u64::MAX);
}

#[test]
fn fee_withdrawals() {
    let mut ledger = FeeLedger { fee_collector: None, accumulated_fees: Some(10) };
    assert_eq!(withdraw_fees(&mut ledger, 1), Err(FeeError::NoCollector));
    ledger.fee_collector = Some(s("c"));
    assert_eq!(withdraw_fees(&mut ledger, 11), Err(FeeError::InsufficientFees));
    assert_eq!(withdraw_fees(&mut ledger, 4), Ok(()));
    assert_eq!(ledger.accumulated_fees, Some(6));
}

fn invited_match() -> MultiplayerMatch {
    MultiplayerMatch::new(s("m1"), vec![s("a"), s("b"), s("c")], s("chess"), s("g1")).unwrap()
}

#[test]
fn multiplayer_new_bounds() {
    assert!(matches!(MultiplayerMatch::new(s("m"), vec![s("a")], s("t"), s("g")), Err(MatchError::Min2Players)));
    let nine: Vec<String> = (0..9).map(|i| format!("p{}", i)).collect();
    assert!(matches!(MultiplayerMatch::new(s("m"), nine, s("t"), s("g")), Err(MatchError::Max8Players)));
    assert_eq!(invited_match().get_player_count(), 3);
}

#[test]
fn multiplayer_stakes() {
    let mut m = invited_match();
    assert_eq!(m.add_stake(s("z"), 5), Err(MatchError::PlayerNotInvited));
    assert_eq!(m.validate_all_stakes_locked(), Ok(false));
    m.add_stake(s("a"), 100).unwrap();
    m.add_stake(s("b"), 200).unwrap();
    m.add_stake(s("c"), 300).unwrap();
    assert_eq!(m.validate_all_stakes_locked(), Ok(true));
    assert_eq!(m.total_stake, 600);
    // A replaced stake still adds to the total.
    m.add_stake(s("a"), 50).unwrap();
    assert_eq!(m.total_stake, 650);
    assert_eq!(m.calculate_equal_payout(0), 0);
    assert_eq!(m.calculate_equal_payout(2), 325);
}

#[test]
fn multiplayer_ranked_payout() {
    let mut m = invited_match();
    m.add_stake(s("a"), 1000).unwrap();
    let rank1 = m.calculate_ranked_payout(1).unwrap();
    let rank2 = m.calculate_ranked_payout(2).unwrap();
    let rank3 = m.calculate_ranked_payout(3).unwrap();
    assert_eq!((rank1, rank2, rank3), (1000, 900, 800));
    assert!(rank1 > rank2 && rank2 > rank3);
    // Ranks are not checked against the number of players.
    assert_eq!(m.calculate_ranked_payout(4), Ok(700));
    assert_eq!(m.calculate_ranked_payout(0), Ok(1000));
    assert_eq!(m.calculate_ranked_payout(11), Ok(0));
    assert_eq!(m.calculate_ranked_payout(u32::MAX), Ok(0));
}

#[test]
fn test_ranked_payout() {
    let m = MultiplayerMatch {
        match_id: s("m1"),
        players: Vec::new(),
        stakes: AssocList::new(),
        total_stake: 1000,
        created_at: 0,
        game_type: s("chess"),
        game_id: s("g1"),
    };
    let rank1_payout = m.calculate_ranked_payout(1).unwrap();
    let rank2_payout = m.calculate_ranked_payout(2).unwrap();
    assert!(rank1_payout > rank2_payout);
}

#[test]
fn multiplayer_distribution() {
    assert_eq!(distribute_to_winners(&s("m"), &vec![], 10), Err(MatchError::NoWinners));
    assert_eq!(distribute_to_winners(&s("m"), &vec![s("a")], 10), Ok(()));
}

#[test]
fn pause_control_flow() {
    let mut store = PauseStore { admin: None, pause_state: None, is_paused: None };
    assert_eq!(pause_contract(&mut store, &s("admin"), "Emergency", 1000), Err(PauseError::NoAdmin));
    store.admin = Some(s("admin"));
    assert_eq!(pause_contract(&mut store, &s("eve"), "Emergency", 1000), Err(PauseError::Unauthorized));
    assert!(matches!(get_pause_state(&store), Err(PauseError::NoPauseInfo)));
    assert_eq!(pause_contract(&mut store, &s("admin"), "Emergency", 1000), Ok(()));
    let state = get_pause_state(&store).unwrap();
    assert_eq!((state.is_paused, state.paused_at, state.paused_by.as_str(), state.reason.as_str()), (true, 1000, "admin", "Emergency"));
    assert_eq!(get_pause_duration(&store, 4600), Ok(3600));
    assert_eq!(get_pause_duration(&store, 10), Ok(0));
    assert_eq!(store.is_paused, Some(true));
    assert_eq!(check_paused(&store), Err(PauseError::Paused));
    assert_eq!(can_execute_staking(&store), Err(PauseError::Paused));
    assert_eq!(can_execute_result_submission(&store), Err(PauseError::Paused));
    assert_eq!(unpause_contract(&mut store, &s("admin")), Ok(()));
    assert_eq!(can_execute_payout(&store), Ok(true));
}

#[test]
fn timeout_checks() {
    let mut store = TimeoutStore { match_created: AssocList::new(), match_refunded: AssocList::new() };
    assert_eq!(check_and_refund_timeout(&store, &s("m"), 100, 1000), Err(TimeoutError::MatchNotFound));
    store.match_created.insert(s("m"), 500);
    assert_eq!(check_and_refund_timeout(&store, &s("m"), 100, 600), Ok(false));
    assert_eq!(check_and_refund_timeout(&store, &s("m"), 100, 601), Ok(true));
    assert_eq!(check_and_refund_timeout(&store, &s("m"), 100, 10), Ok(false));
    assert_eq!(execute_timeout_refund(&mut store, &s("m"), &s("a"), &s("b"), 497), Ok(()));
    assert_eq!(store.match_refunded.get(&s("m")), Some(&true));
}
