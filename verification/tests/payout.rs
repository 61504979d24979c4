use wagr::assoc::AssocList;
use wagr::payout::access_control::{
    check_admin_access, check_arbiter_access, check_fee_collector_access, get_access_level, set_arbiter,
    set_fee_collector, transfer_admin_role, AccessError, AccessLevel, RoleStore,
};
use wagr::payout::event_system::{log_event, EventLogStore, EventType};
use wagr::payout::upgradability::{
    approve_upgrade, execute_upgrade, get_current_wasm_version, propose_upgrade, UpgradeError, UpgradeStatus,
    UpgradeStore,
};
use wagr::payout::utils::{calculate_split_payout, calculate_winner_take_all};
use wagr::payout::validation::{validate_fee_bps, validate_payout_amounts, validate_split_bps};
use wagr::payout::{Error, PayoutContract};

fn s(x: &str) -> String {
    x.to_string()
}

fn initialized() -> PayoutContract {
    let mut c = PayoutContract::new();
    c.initialize(s("admin"), s("fee_collector"), 50).unwrap();
    c
}

#[test]
fn lib_test_initialize() {
    let mut c = PayoutContract::new();
    c.initialize(s("admin"), s("fee_collector"), 50).unwrap();
}

#[test]
fn test_winner_take_all_requires_arbiter_auth() {
    let mut c = initialized();
    let asset = s("asset");
    let total_pot = 200_000_000u128;
    let match_id = s("match1");
    assert_eq!(c.require_arbiter(), Ok(s("admin")));
    c.resolve_winner_take_all(&match_id, &s("admin"), s("winner"), total_pot, &asset).unwrap();
    let fee_bps = 50u32;
    let expected_fee = (total_pot * fee_bps as u128) / 10000;
    assert_eq!(c.get_fee_balance(&asset), expected_fee);
}

#[test]
fn test_double_settle_rejected() {
    let mut c = initialized();
    let asset = s("asset");
    let match_id = s("match1");
    c.resolve_winner_take_all(&match_id, &s("admin"), s("winner"), 200_000_000u128, &asset).unwrap();
    let result = c.resolve_winner_take_all(&match_id, &s("admin"), s("winner"), 200_000_000u128, &asset);
    assert!(result.is_err());
}

#[test]
fn test_access_level_enum() {
    let level = AccessLevel::Admin;
    match level {
        AccessLevel::Admin => assert!(true),
        _ => panic!("Expected Admin"),
    }
}

#[test]
fn test_event_type_naming() {
    let types = vec!["match_created", "result_submitted", "dispute_filed"];
    for t in types {
        assert!(!t.is_empty());
    }
}

#[test]
fn test_split_payout_70_30() {
    let (winner, loser, fee) = calculate_split_payout(200, 50, 7000);
    assert_eq!(fee, 1);
    assert_eq!(winner + loser + fee, 200);
}

#[test]
fn test_split_payout_50_50() {
    let (winner, loser, fee) = calculate_split_payout(200, 0, 5000);
    assert_eq!(winner, 100);
    assert_eq!(loser, 100);
    assert_eq!(fee, 0);
}

#[test]
fn test_winner_take_all_no_fee() {
    let (winner, fee) = calculate_winner_take_all(200, 0);
    assert_eq!(winner, 200);
    assert_eq!(fee, 0);
}

#[test]
fn test_winner_take_all_with_fee() {
    let (winner, fee) = calculate_winner_take_all(200, 50);
    assert_eq!(winner, 199);
    assert_eq!(fee, 1);
}

#[test]
fn test_upgrade_status_progression() {
    let initial = UpgradeStatus::Pending;
    assert_eq!(initial, UpgradeStatus::Pending);
    let approved = UpgradeStatus::Approved;
    assert_eq!(approved, UpgradeStatus::Approved);
    let executed = UpgradeStatus::Executed;
    assert_eq!(executed, UpgradeStatus::Executed);
}

// Contract behaviour beyond the original tests.

#[test]
fn payout_split_settlement_amounts() {
    let mut c = initialized();
    let (w, l, f) = c.resolve_split(&s("m"), &s("admin"), s("win"), s("lose"), 200, 7000, &s("xlm")).unwrap();
    assert_eq!((w, l, f), (139, 60, 1));
    assert_eq!(c.withdraw_winnings(&s("m"), &s("win")), Ok(139));
    assert_eq!(c.withdraw_winnings(&s("m"), &s("lose")), Ok(60));
    assert_eq!(c.withdraw_winnings(&s("m"), &s("lose")), Err(Error::AlreadyWithdrawn));
    assert_eq!(c.withdraw_winnings(&s("m"), &s("nobody")), Err(Error::NoWinnings));
    assert_eq!(c.get_fee_balance(&s("xlm")), 1);
}

#[test]
fn payout_split_same_player_keeps_loser_share() {
    let mut c = initialized();
    c.resolve_split(&s("m"), &s("admin"), s("p"), s("p"), 10000, 7000, &s("xlm")).unwrap();
    assert_eq!(c.withdraw_winnings(&s("m"), &s("p")), Ok(2985));
}

#[test]
fn payout_winner_take_all_then_withdraw() {
    let mut c = initialized();
    assert_eq!(c.resolve_winner_take_all(&s("m"), &s("admin"), s("w"), 200, &s("xlm")), Ok((199, 1)));
    assert_eq!(c.withdraw_winnings(&s("m"), &s("w")), Ok(199));
    assert_eq!(c.withdraw_winnings(&s("m"), &s("w")), Err(Error::AlreadyWithdrawn));
    assert_eq!(c.resolve_split(&s("m"), &s("admin"), s("w"), s("l"), 200, 5000, &s("xlm")), Err(Error::AlreadySettled));
}

#[test]
fn payout_fee_withdrawal_empties_balance() {
    let mut c = initialized();
    assert_eq!(c.withdraw_fees(&s("xlm")), Err(Error::NoFees));
    c.resolve_winner_take_all(&s("m1"), &s("admin"), s("w"), 10000, &s("xlm")).unwrap();
    c.resolve_winner_take_all(&s("m2"), &s("admin"), s("w"), 20000, &s("xlm")).unwrap();
    assert_eq!(c.get_fee_balance(&s("xlm")), 150);
    assert_eq!(c.require_fee_collector(), Ok(s("fee_collector")));
    assert_eq!(c.withdraw_fees(&s("xlm")), Ok(150));
    assert_eq!(c.get_fee_balance(&s("xlm")), 0);
    assert_eq!(c.withdraw_fees(&s("xlm")), Err(Error::NoFees));
}

#[test]
fn payout_refusals() {
    let mut c = PayoutContract::new();
    assert_eq!(c.resolve_winner_take_all(&s("m"), &s("admin"), s("w"), 100, &s("a")), Err(Error::NotInitialized));
    assert_eq!(c.withdraw_fees(&s("a")), Err(Error::NotInitialized));
    assert_eq!(c.set_arbiter(s("x")), Err(Error::NotInitialized));
    let mut c = initialized();
    assert_eq!(c.initialize(s("a"), s("b"), 0), Err(Error::AlreadyInitialized));
    assert_eq!(c.resolve_split(&s("m"), &s("admin"), s("w"), s("l"), 100, 10001, &s("a")), Err(Error::InvalidSplit));
    c.pause().unwrap();
    assert!(c.is_paused());
    assert_eq!(c.resolve_winner_take_all(&s("m"), &s("admin"), s("w"), 100, &s("a")), Err(Error::Paused));
    c.unpause().unwrap();
    assert_eq!(c.resolve_winner_take_all(&s("m"), &s("admin"), s("w"), 100, &s("a")), Ok((100, 0)));
}

#[test]
fn payout_admin_calls() {
    let mut c = initialized();
    assert_eq!(c.set_fee_bps(1001), Err(Error::InvalidFee));
    c.set_fee_bps(1000).unwrap();
    assert_eq!(c.resolve_winner_take_all(&s("m"), &s("admin"), s("w"), 1000, &s("a")), Ok((900, 100)));
    c.set_arbiter(s("resolver")).unwrap();
    assert_eq!(c.require_arbiter(), Ok(s("resolver")));
    assert_eq!(c.resolve_winner_take_all(&s("m2"), &s("admin"), s("w"), 1000, &s("a")), Err(Error::Unauthorized));
    assert_eq!(c.resolve_winner_take_all(&s("m2"), &s("resolver"), s("w"), 1000, &s("a")), Ok((900, 100)));
    c.set_fee_collector(s("treasury")).unwrap();
    assert_eq!(c.require_fee_collector(), Ok(s("treasury")));
    c.set_admin(s("admin2")).unwrap();
    assert_eq!(c.require_admin(), Ok(s("admin2")));
    assert_eq!(c.upgrade(), Ok(()));
}

#[test]
fn payout_only_arbiter_settles() {
    let mut c = initialized();
    assert_eq!(c.resolve_winner_take_all(&s("m"), &s("eve"), s("w"), 100, &s("a")), Err(Error::Unauthorized));
    assert_eq!(c.resolve_split(&s("m"), &s("eve"), s("w"), s("l"), 100, 5000, &s("a")), Err(Error::Unauthorized));
    assert_eq!(c.get_fee_balance(&s("a")), 0);
    c.pause().unwrap();
    // Another caller is refused for not being the arbiter before the pause is looked at.
    assert_eq!(c.resolve_winner_take_all(&s("m"), &s("eve"), s("w"), 100, &s("a")), Err(Error::Unauthorized));
}

#[test]
fn payout_overflow_checks() {
    let mut c = initialized();
    assert!(c.winner_take_all_would_overflow(&s("m"), &s("admin"), u128::MAX, &s("a")));
    assert!(!c.winner_take_all_would_overflow(&s("m"), &s("eve"), u128::MAX, &s("a")));
    assert!(!c.winner_take_all_would_overflow(&s("m"), &s("admin"), 1000, &s("a")));
    assert!(c.split_would_overflow(&s("m"), &s("admin"), u128::MAX, 5000, &s("a")));
    assert!(!c.split_would_overflow(&s("m"), &s("admin"), u128::MAX, 10001, &s("a")));
    assert!(!c.split_would_overflow(&s("m"), &s("admin"), 1000, 5000, &s("a")));
    c.resolve_winner_take_all(&s("m"), &s("admin"), s("w"), 1000, &s("a")).unwrap();
    assert!(!c.winner_take_all_would_overflow(&s("m"), &s("admin"), u128::MAX, &s("a")));
}

#[test]
fn payout_validation() {
    assert!(validate_split_bps(10000));
    assert!(!validate_split_bps(10001));
    assert!(validate_fee_bps(1000));
    assert!(!validate_fee_bps(1001));
    assert!(validate_payout_amounts(1, 0));
    assert!(!validate_payout_amounts(0, 5));
}

#[test]
fn access_control_roles() {
    let mut store = RoleStore { admin: None, fee_collector: None, arbiter: None };
    assert_eq!(check_admin_access(&store, &s("a")), Err(AccessError::NoAdmin));
    assert_eq!(check_fee_collector_access(&store, &s("a")), Err(AccessError::NoCollector));
    assert_eq!(check_arbiter_access(&store, &s("a")), Err(AccessError::NoArbiter));
    assert_eq!(get_access_level(&store, &s("a")), AccessLevel::NoAccess);
    store.admin = Some(s("a"));
    assert_eq!(set_fee_collector(&mut store, &s("b"), s("c")), Err(AccessError::Unauthorized));
    set_fee_collector(&mut store, &s("a"), s("a")).unwrap();
    set_arbiter(&mut store, &s("a"), s("r")).unwrap();
    assert_eq!(get_access_level(&store, &s("a")), AccessLevel::Admin);
    assert_eq!(get_access_level(&store, &s("r")), AccessLevel::Arbiter);
    transfer_admin_role(&mut store, &s("a"), s("z")).unwrap();
    assert_eq!(get_access_level(&store, &s("a")), AccessLevel::FeeCollector);
    assert_eq!(check_admin_access(&store, &s("z")), Ok(()));
}

#[test]
fn upgrade_proposal_flow() {
    let mut store = UpgradeStore { admin: None, proposals: AssocList::new(), wasm_version: None };
    assert_eq!(propose_upgrade(&mut store, "p1", vec![1; 32], 10), Err(UpgradeError::NoAdmin));
    store.admin = Some(s("admin"));
    assert_eq!(approve_upgrade(&mut store, "p1"), Err(UpgradeError::ProposalNotFound));
    propose_upgrade(&mut store, "p1", vec![1; 32], 10).unwrap();
    assert_eq!(execute_upgrade(&mut store, "p1", 20), Err(UpgradeError::NotApproved));
    approve_upgrade(&mut store, "p1").unwrap();
    assert_eq!(approve_upgrade(&mut store, "p1"), Err(UpgradeError::InvalidStatus));
    execute_upgrade(&mut store, "p1", 20).unwrap();
    let p = store.proposals.get(&s("p1")).unwrap();
    assert_eq!(p.status, UpgradeStatus::Executed);
    assert_eq!(p.executed_at, Some(20));
    assert_eq!(p.created_at, 10);
    assert_eq!(p.proposed_by, "admin");
    assert_eq!(execute_upgrade(&mut store, "p1", 30), Err(UpgradeError::NotApproved));
    assert_eq!(get_current_wasm_version(&store), Err(UpgradeError::VersionNotFound));
    store.wasm_version = Some(vec![7; 32]);
    assert_eq!(get_current_wasm_version(&store), Ok(vec![7; 32]));
}

#[test]
fn event_log_keys() {
    let mut store = EventLogStore { entries: AssocList::new() };
    log_event(&mut store, "match_created", &s("alice"), "m1", 1234).unwrap();
    let entry = store.entries.get(&s("event_log:match_created:1234")).unwrap();
    assert_eq!(entry.timestamp, 1234);
    assert_eq!(entry.actor, "alice");
    assert_eq!(entry.data, "m1");
    log_event(&mut store, "fee_accrued", &s("bob"), "x", 0).unwrap();
    assert!(store.entries.contains(&s("event_log:fee_accrued:0")));
    assert_ne!(EventType::Disputed, EventType::Resolved);
}
