use wagr::assoc::AssocList;
use wagr::resolver::dispute_evidence::{
    get_dispute_evidence_for_match, mark_dispute_resolved, retrieve_dispute_evidence, store_dispute_evidence,
    DisputeEvidence, EvidenceError, EvidenceStore,
};
use wagr::resolver::signature_verification::{
    get_result_for_match, store_verified_result, validate_result_submission, verify_signature, ResultRecords,
    SignatureError,
};
use wagr::resolver::storage_optimization::{
    archive_old_matches, compact_storage, get_storage_usage, prune_expired_data, update_storage_stats, StorageOptimizer,
    StorageStats,
};
use wagr::resolver::utils::{dispute_window_remaining, is_dispute_window_open};
use wagr::resolver::validation::{validate_reason, validate_winner_loser};
use wagr::resolver::{Error, ResolverContract, ResultStatus, DISPUTE_WINDOW_SECS};

fn s(x: &str) -> String {
    x.to_string()
}

fn submitted() -> ResolverContract {
    let mut c = ResolverContract::new();
    c.initialize(s("admin")).unwrap();
    c.submit_result(s("match1"), s("winner"), s("loser"), s("checkmate"), vec![1, 2, 3], s("submitter"), 0)
        .unwrap();
    c
}

#[test]
fn resolver_test_initialize() {
    let mut c = ResolverContract::new();
    c.initialize(s("admin")).unwrap();
}

#[test]
fn test_submit_and_finalize() {
    let mut c = submitted();
    let match_id = s("match1");
    let (result_winner, status) = c.query_result_status(&match_id).unwrap();
    assert_eq!(result_winner, "winner");
    assert_eq!(status, ResultStatus::Pending);
    let finalized_winner = c.finalize(&match_id, DISPUTE_WINDOW_SECS + 1).unwrap();
    assert_eq!(finalized_winner, "winner");
}

#[test]
fn test_dispute_by_loser() {
    let mut c = submitted();
    let match_id = s("match1");
    let evidence = vec![9u8, 9, 9];
    assert_eq!(c.get_result(&match_id).unwrap().loser, "loser");
    c.dispute(&match_id, &s("loser"), evidence.clone(), 0).unwrap();
    let (_, status) = c.query_result_status(&match_id).unwrap();
    assert_eq!(status, ResultStatus::Disputed);
    assert_eq!(c.get_dispute_evidence(&match_id, 0), Ok(evidence));
}

#[test]
fn test_dispute_evidence_structure() {
    let evidence = DisputeEvidence {
        dispute_id: s("d1"),
        match_id: s("m1"),
        challenger: s("challenger"),
        evidence_type: s("screenshot"),
        evidence_data: s("ipfs://QmHash..."),
        timestamp: 1234567890,
        resolved: false,
    };
    assert_eq!(evidence.dispute_id, "d1");
    assert!(!evidence.resolved);
}

#[test]
fn test_evidence_type_validation() {
    let valid_types = vec!["screenshot", "move_log", "video", "signature"];
    for t in valid_types {
        assert!(!t.is_empty());
    }
}

#[test]
fn test_result_message_format() {
    let match_id = "m1";
    let winner = "G...";
    let loser = "G...";
    let message = format!("result:{}:{}:{}", match_id, winner, loser);
    assert!(message.contains("result:"));
    assert!(message.contains(match_id));
}

#[test]
fn test_storage_key_generation() {
    let optimizer = StorageOptimizer::new(true);
    let key = optimizer.calculate_storage_key("match", "m1");
    assert_eq!(key, "match:m1");
}

#[test]
fn test_archive_threshold() {
    let optimizer = StorageOptimizer::new(false);
    let created_at = 1000000;
    let current_time = 1000000 + (86400 * 91);
    assert!(optimizer.should_archive(created_at, current_time));
}

#[test]
fn test_dispute_window_24h() {
    let submitted = 0u64;
    let now = 86400u64;
    assert!(!is_dispute_window_open(submitted, now + 1));
}

#[test]
fn test_dispute_window_open() {
    let submitted = 0u64;
    let now = 43200u64;
    assert!(is_dispute_window_open(submitted, now));
}

#[test]
fn test_dispute_remaining() {
    let submitted = 0u64;
    let now = 43200u64;
    assert_eq!(dispute_window_remaining(submitted, now), 43200);
}

// Contract behaviour beyond the original tests.

#[test]
fn resolver_submission_refusals() {
    let mut c = submitted();
    assert_eq!(
        c.submit_result(s("match1"), s("a"), s("b"), s("timeout"), vec![], s("x"), 5),
        Err(Error::ResultExists)
    );
    assert_eq!(c.initialize(s("other")), Err(Error::AlreadyInitialized));
    c.pause().unwrap();
    assert!(c.is_paused());
    assert_eq!(c.submit_result(s("m2"), s("a"), s("b"), s("timeout"), vec![], s("x"), 5), Err(Error::Paused));
    c.unpause().unwrap();
    assert_eq!(c.submit_result(s("m2"), s("a"), s("b"), s("timeout"), vec![], s("x"), 5), Ok(()));
}

#[test]
fn resolver_missing_results() {
    let mut c = ResolverContract::new();
    assert_eq!(c.query_result_status(&s("m")), Err(Error::NoResult));
    assert!(matches!(c.get_result(&s("m")), Err(Error::NoResult)));
    assert_eq!(c.dispute(&s("m"), &s("loser"), vec![1], 0), Err(Error::NoResult));
    assert_eq!(c.finalize(&s("m"), 0), Err(Error::NoResult));
    assert_eq!(c.get_dispute_evidence(&s("m"), 0), Err(Error::NoEvidence));
    assert_eq!(c.get_dispute_count(&s("m")), 0);
    assert_eq!(c.set_admin(s("x")), Err(Error::NotInitialized));
    assert_eq!(c.upgrade(), Err(Error::NotInitialized));
}

#[test]
fn resolver_window_edges() {
    let mut c = submitted();
    let m = s("match1");
    let loser = s("loser");
    assert_eq!(c.finalize(&m, DISPUTE_WINDOW_SECS - 1), Err(Error::DisputeWindowOpen));
    assert_eq!(c.dispute(&m, &loser, vec![1], DISPUTE_WINDOW_SECS + 1), Err(Error::DisputeClosed));
    c.dispute(&m, &loser, vec![1], 10).unwrap();
    c.dispute(&m, &loser, vec![2], DISPUTE_WINDOW_SECS).unwrap();
    assert_eq!(c.get_dispute_count(&m), 2);
    assert_eq!(c.get_dispute_evidence(&m, 1), Ok(vec![2]));
    // A disputed result can still be finalised once the window has passed.
    assert_eq!(c.finalize(&m, DISPUTE_WINDOW_SECS), Ok(s("winner")));
    assert_eq!(c.query_result_status(&m).unwrap().1, ResultStatus::Finalized);
    // A finalised result is immutable, even at the very end of the window.
    assert_eq!(c.dispute(&m, &loser, vec![3], DISPUTE_WINDOW_SECS), Err(Error::DisputeClosed));
    assert_eq!(c.query_result_status(&m).unwrap().1, ResultStatus::Finalized);
    assert_eq!(c.get_dispute_count(&m), 2);
}

#[test]
fn resolver_only_loser_disputes() {
    let mut c = submitted();
    let m = s("match1");
    assert_eq!(c.dispute(&m, &s("winner"), vec![1], 10), Err(Error::OnlyLoser));
    assert_eq!(c.dispute(&m, &s("submitter"), vec![1], 10), Err(Error::OnlyLoser));
    assert_eq!(c.get_dispute_count(&m), 0);
    assert_eq!(c.query_result_status(&m).unwrap().1, ResultStatus::Pending);
    assert_eq!(c.dispute(&m, &s("loser"), vec![1], 10), Ok(()));
}

#[test]
fn resolver_overflow_checks() {
    let mut c = ResolverContract::new();
    c.initialize(s("admin")).unwrap();
    c.submit_result(s("late"), s("winner"), s("loser"), s("timeout"), vec![], s("x"), u64::MAX).unwrap();
    assert!(c.dispute_would_overflow(&s("late"), &s("loser"), 0));
    assert!(!c.dispute_would_overflow(&s("late"), &s("winner"), 0));
    assert!(c.finalize_would_overflow(&s("late")));
    assert!(!c.finalize_would_overflow(&s("none")));
    let c = submitted();
    assert!(!c.dispute_would_overflow(&s("match1"), &s("loser"), 10));
    assert!(!c.finalize_would_overflow(&s("match1")));
}

#[test]
fn resolver_admin_calls() {
    let mut c = submitted();
    assert_eq!(c.require_admin(), Ok(s("admin")));
    c.set_admin(s("admin2")).unwrap();
    assert_eq!(c.require_admin(), Ok(s("admin2")));
    assert_eq!(c.upgrade(), Ok(()));
    let r = c.get_result(&s("match1")).unwrap();
    assert_eq!((r.reason.as_str(), r.submitter.as_str(), r.proof, r.submitted_at), ("checkmate", "submitter", vec![1, 2, 3], 0));
}

#[test]
fn dispute_window_helpers() {
    assert!(is_dispute_window_open(100, 100 + DISPUTE_WINDOW_SECS));
    assert_eq!(dispute_window_remaining(100, 100 + DISPUTE_WINDOW_SECS), 0);
    assert_eq!(dispute_window_remaining(100, 5), DISPUTE_WINDOW_SECS + 95);
}

#[test]
fn resolver_validation() {
    assert!(validate_winner_loser(&s("a"), &s("b")));
    assert!(!validate_winner_loser(&s("a"), &s("a")));
    assert!(validate_reason("checkmate"));
    assert!(!validate_reason(""));
    assert!(validate_reason(&"x".repeat(100)));
    assert!(!validate_reason(&"x".repeat(101)));
}

#[test]
fn storage_optimizer_keys_and_stats() {
    let full = StorageOptimizer::new(false);
    assert_eq!(full.archive_threshold, 86400 * 90);
    assert_eq!(full.calculate_storage_key("match", "m1"), "match:m1:full");
    assert!(!full.should_archive(0, 86400 * 90));
    let mut stats = StorageStats { storage_usage: None };
    assert_eq!(get_storage_usage(&stats), Ok(0));
    update_storage_stats(&mut stats, 40).unwrap();
    update_storage_stats(&mut stats, u64::MAX).unwrap();
    assert_eq!(get_storage_usage(&stats), Ok(u64::MAX));
    assert_eq!(archive_old_matches(5), Ok(0));
    assert_eq!(prune_expired_data(5), Ok(0));
    assert_eq!(compact_storage(), Ok(()));
}

#[test]
fn evidence_store_flow() {
    let mut store = EvidenceStore { entries: AssocList::new() };
    assert!(matches!(retrieve_dispute_evidence(&store, "d1"), Err(EvidenceError::EvidenceNotFound)));
    assert_eq!(mark_dispute_resolved(&mut store, "d1", "upheld"), Err(EvidenceError::EvidenceNotFound));
    store_dispute_evidence(&mut store, "d1", "m1", s("bob"), "screenshot", "ipfs://x", 77).unwrap();
    let e = retrieve_dispute_evidence(&store, "d1").unwrap();
    assert_eq!((e.match_id.as_str(), e.challenger.as_str(), e.timestamp, e.resolved), ("m1", "bob", 77, false));
    mark_dispute_resolved(&mut store, "d1", "upheld").unwrap();
    assert!(retrieve_dispute_evidence(&store, "d1").unwrap().resolved);
    assert_eq!(get_dispute_evidence_for_match(&store, "m1").unwrap().len(), 0);
}

#[test]
fn signed_result_flow() {
    let mut records = ResultRecords { submitted: AssocList::new(), match_results: AssocList::new() };
    assert_eq!(verify_signature(&s("msg"), &vec![0; 63], &s("a")), Err(SignatureError::InvalidSig));
    assert_eq!(verify_signature(&s("msg"), &vec![0; 64], &s("a")), Ok(true));
    let sig = vec![0u8; 64];
    assert_eq!(validate_result_submission(&mut records, "m1", &s("w"), &s("l"), &sig, &s("x")), Ok(()));
    assert_eq!(
        validate_result_submission(&mut records, "m1", &s("w"), &s("l"), &sig, &s("x")),
        Err(SignatureError::AlreadySubmitted)
    );
    assert_eq!(get_result_for_match(&records, "m1"), Err(SignatureError::ResultNotFound));
    store_verified_result(&mut records, "m1", s("w"), s("l")).unwrap();
    assert_eq!(get_result_for_match(&records, "m1"), Ok((s("w"), s("l"))));
}
