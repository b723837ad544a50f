use fvm_actor::actor::Actor;
use fvm_actor::error::Error;
use fvm_actor::keys::account_key_bytes;
use fvm_actor::state::HamtState;
use fvm_actor::types::{InitParams, NodeInfo, NodeInfoPayload, ReportPayload, Votes};

fn payload(id: &str) -> NodeInfoPayload {
    NodeInfoPayload::new(id.to_string(), vec![format!("/ip4/10.0.0.1/tcp/80/p2p/{}", id)])
}

fn init_with(creators: &[u64], voting_duration: Option<i64>) -> HamtState {
    let params = InitParams {
        ids: creators.iter().map(|c| format!("peer{}", c)).collect(),
        creators: creators.to_vec(),
        addresses: creators.iter().map(|c| vec![format!("/ip4/10.0.0.{}/tcp/80", c)]).collect(),
        voting_duration,
    };
    match Actor::init(params) {
        Ok(s) => s,
        Err(_) => panic!("init failed"),
    }
}

#[test]
fn account_keys_are_decimal() {
    assert_eq!(account_key_bytes(0), b"0".to_vec());
    assert_eq!(account_key_bytes(7), b"7".to_vec());
    assert_eq!(account_key_bytes(1234), b"1234".to_vec());
    assert_eq!(account_key_bytes(u64::MAX), u64::MAX.to_string().into_bytes());
}

#[test]
fn error_codes_and_messages() {
    assert_eq!(Error::AlreadyVoted(3).code(), 10002);
    assert_eq!(Error::CannotDeserialize.code(), 10003);
    assert_eq!(Error::NotOwner.code(), 10009);
    assert_eq!(Error::NotExists.code(), 10010);
    assert_eq!(Error::NotCaller.code(), 10011);
    assert_eq!(Error::AlreadyVoted(42).msg(), "actor 42 already voted");
    assert_eq!(Error::NotOwner.msg(), "");
}

#[test]
fn votes_round_operations() {
    let mut v = Votes::new(100);
    assert_eq!(v.total_votes(), 0);
    assert!(!v.has_voted(&5));
    v.vote(&5);
    assert!(v.has_voted(&5));
    assert!(!v.has_voted(&6));
    assert_eq!(v.total_votes(), 1);
    assert!(!v.within_threshold(300, 200));
    assert!(v.within_threshold(301, 200));
    assert!(!v.within_threshold(i64::MIN, i64::MAX));
    assert!(!Votes::new(i64::MAX).within_threshold(i64::MAX, i64::MAX));
}

#[test]
fn voting_threshold_values() {
    assert_eq!(Actor::calculate_voting_threshold(0), 0);
    assert_eq!(Actor::calculate_voting_threshold(1), 0);
    assert_eq!(Actor::calculate_voting_threshold(2), 1);
    assert_eq!(Actor::calculate_voting_threshold(3), 2);
    assert_eq!(Actor::calculate_voting_threshold(30000), 20000);
    assert_eq!(Actor::calculate_voting_threshold(usize::MAX), ((usize::MAX as u128) * 2 / 3) as usize);
}

#[test]
fn init_seeds_checkers_and_defaults() {
    let s = init_with(&[1, 2, 3], None);
    assert_eq!(s.total_checkers(), 3);
    assert_eq!(s.vote_duration_threshold(), 200);
    assert!(matches!(s.is_checker(&2), Ok(true)));
    assert!(matches!(s.is_checker(&4), Ok(false)));
    assert!(matches!(s.is_member(&1), Ok(false)));
    let c = s.checker(&3).ok().flatten().expect("checker 3");
    assert_eq!(*c.creator(), 3);
    assert_eq!(c.id(), "peer3");
    assert_eq!(c.addresses(), &vec!["/ip4/10.0.0.3/tcp/80".to_string()]);
    let s = init_with(&[], Some(50));
    assert_eq!(s.total_checkers(), 0);
    assert_eq!(s.vote_duration_threshold(), 50);
}

#[test]
fn init_later_duplicate_creator_wins() {
    let params = InitParams {
        ids: vec!["a".to_string(), "b".to_string()],
        creators: vec![9, 9],
        addresses: vec![vec![], vec!["x".to_string()]],
        voting_duration: None,
    };
    let s = match Actor::init(params) {
        Ok(s) => s,
        Err(_) => panic!("init failed"),
    };
    assert_eq!(s.total_checkers(), 2);
    let c = s.checker(&9).ok().flatten().expect("checker 9");
    assert_eq!(c.id(), "b");
}

#[test]
fn added_member_is_member_owned_by_caller() {
    let mut s = init_with(&[1], None);
    assert!(Actor::new_member(&mut s, 77, payload("p77")).is_ok());
    assert!(matches!(s.is_member(&77), Ok(true)));
    let m = s.member(&77).ok().flatten().expect("member 77");
    assert_eq!(*m.creator(), 77);
    assert_eq!(m.id(), "p77");
}

#[test]
fn other_account_cannot_touch_record() {
    let mut s = init_with(&[1], None);
    assert!(Actor::new_member(&mut s, 10, payload("a")).is_ok());
    assert!(Actor::edit_member(&mut s, 20, payload("b")).is_ok());
    let a = s.member(&10).ok().flatten().expect("member 10");
    assert_eq!(a.id(), "a");
    assert!(matches!(Actor::rm_member(&mut s, 30), Err(Error::NotExists)));
    assert!(matches!(s.is_member(&10), Ok(true)));
    assert!(matches!(s.remove_node(20, &10), Err(Error::NotOwner)));
    assert!(matches!(s.remove_checker(20, &1), Err(Error::NotOwner)));
    assert!(matches!(s.is_checker(&1), Ok(true)));
    let forged = NodeInfo::new("f".to_string(), 10, vec![]);
    assert!(matches!(s.upsert_node(20, forged), Err(Error::NotOwner)));
    let forged = NodeInfo::new("f".to_string(), 99, vec![]);
    assert!(matches!(s.upsert_checker(20, forged), Err(Error::NotOwner)));
    assert!(matches!(s.is_checker(&99), Ok(false)));
}

#[test]
fn edit_member_twice_is_idempotent() {
    let mut s = init_with(&[1], None);
    assert!(Actor::edit_member(&mut s, 5, payload("same")).is_ok());
    let (first, _, _) = s.roots();
    let r1 = s.member(&5).ok().flatten().expect("member 5");
    assert!(Actor::edit_member(&mut s, 5, payload("same")).is_ok());
    let (second, _, _) = s.roots();
    let r2 = s.member(&5).ok().flatten().expect("member 5");
    assert_eq!(r1.id(), r2.id());
    assert_eq!(r1.addresses(), r2.addresses());
    assert_eq!(*r1.creator(), *r2.creator());
    assert_eq!(first, second);
}

#[test]
fn edit_replaces_own_record() {
    let mut s = init_with(&[1], None);
    assert!(Actor::new_checker(&mut s, 4, payload("old")).is_ok());
    assert!(Actor::edit_checker(&mut s, 4, payload("new")).is_ok());
    let c = s.checker(&4).ok().flatten().expect("checker 4");
    assert_eq!(c.id(), "new");
    assert_eq!(s.total_checkers(), 1);
}

#[test]
fn remove_own_records() {
    let mut s = init_with(&[1, 2], None);
    assert!(Actor::rm_checker(&mut s, 2).is_ok());
    assert!(matches!(s.is_checker(&2), Ok(false)));
    assert!(matches!(Actor::rm_checker(&mut s, 2), Err(Error::NotExists)));
    assert!(Actor::new_member(&mut s, 8, payload("m")).is_ok());
    assert!(Actor::rm_member(&mut s, 8).is_ok());
    assert!(matches!(s.is_member(&8), Ok(false)));
    assert!(matches!(Actor::rm_member(&mut s, 8), Err(Error::NotExists)));
}

#[test]
fn flush_roots_follow_contents() {
    let mut s = init_with(&[1], None);
    let (m0, c0, o0) = s.roots();
    assert!(Actor::new_member(&mut s, 3, payload("x")).is_ok());
    let (m1, c1, o1) = s.roots();
    assert_ne!(m0, m1);
    assert_eq!(c0, c1);
    assert_eq!(o0, o1);
    assert!(Actor::rm_member(&mut s, 3).is_ok());
    let (m2, _, _) = s.roots();
    assert_eq!(m0, m2);
}

#[test]
fn quorum_threshold_three_checkers() {
    let mut s = init_with(&[1, 2, 3, 4], None);
    // a snapshot of three checkers, as the threshold only reads the count at construction
    let mut s3 = init_with(&[1, 2, 3], None);
    assert!(Actor::new_checker(&mut s3, 4, payload("c4")).is_ok());
    assert_eq!(s3.total_checkers(), 3);
    assert!(Actor::report_checker(&mut s3, 1, 10, ReportPayload { checker: 3 }).is_ok());
    assert!(Actor::report_checker(&mut s3, 2, 11, ReportPayload { checker: 3 }).is_ok());
    assert!(matches!(s3.is_checker(&3), Ok(true)));
    assert!(Actor::report_checker(&mut s3, 4, 12, ReportPayload { checker: 3 }).is_ok());
    assert!(matches!(s3.is_checker(&3), Ok(false)));
    // with four checkers the threshold is still 2: the third vote evicts
    assert_eq!(Actor::calculate_voting_threshold(s.total_checkers()), 2);
    assert!(Actor::report_checker(&mut s, 1, 10, ReportPayload { checker: 4 }).is_ok());
    assert!(Actor::report_checker(&mut s, 2, 10, ReportPayload { checker: 4 }).is_ok());
    assert!(matches!(s.is_checker(&4), Ok(true)));
    assert!(Actor::report_checker(&mut s, 3, 10, ReportPayload { checker: 4 }).is_ok());
    assert!(matches!(s.is_checker(&4), Ok(false)));
}

#[test]
fn record_voted_counts_and_resets() {
    let mut s = init_with(&[1, 2, 3], Some(100));
    assert_eq!(s.record_voted(&3, &1, 1000).ok(), Some(1));
    assert!(matches!(s.has_voted(&3, &1), Ok(true)));
    assert!(matches!(s.has_voted(&3, &2), Ok(false)));
    // still within the window: the vote counts
    assert_eq!(s.record_voted(&3, &2, 1100).ok(), Some(2));
    // one epoch beyond the window of the last vote: the round starts again
    assert_eq!(s.record_voted(&3, &1, 1201).ok(), Some(0));
    assert!(matches!(s.has_voted(&3, &1), Ok(true)));
    assert!(matches!(s.has_voted(&3, &2), Ok(false)));
    assert_eq!(s.record_voted(&3, &2, 1202).ok(), Some(2));
}

#[test]
fn round_reset_after_window() {
    let mut s = init_with(&[1, 2, 3], None);
    let t0: i64 = 500;
    assert_eq!(s.record_voted(&3, &1, t0).ok(), Some(1));
    assert_eq!(s.record_voted(&3, &2, t0 + 200 + 1).ok(), Some(0));
    assert!(matches!(s.has_voted(&3, &1), Ok(false)));
    assert!(matches!(s.has_voted(&3, &2), Ok(true)));
    assert!(matches!(s.is_checker(&3), Ok(true)));
}

#[test]
fn record_voted_rejects_repeat_in_live_round() {
    let mut s = init_with(&[1, 2], None);
    assert_eq!(s.record_voted(&2, &1, 10).ok(), Some(1));
    assert!(matches!(s.record_voted(&2, &1, 20), Err(Error::AlreadyVoted(1))));
}

#[test]
fn duplicate_report_fails() {
    let mut s = init_with(&[1, 2, 3], None);
    assert!(Actor::report_checker(&mut s, 1, 10, ReportPayload { checker: 3 }).is_ok());
    assert!(matches!(
        Actor::report_checker(&mut s, 1, 11, ReportPayload { checker: 3 }),
        Err(Error::AlreadyVoted(1))
    ));
}

#[test]
fn report_requires_checker() {
    let mut s = init_with(&[1, 2, 3], None);
    assert!(Actor::new_member(&mut s, 50, payload("m")).is_ok());
    assert!(matches!(
        Actor::report_checker(&mut s, 50, 10, ReportPayload { checker: 3 }),
        Err(Error::NotCaller)
    ));
    assert!(matches!(s.has_voted(&3, &50), Ok(false)));
}

#[test]
fn end_to_end_eviction() {
    let mut s = init_with(&[1, 2, 3], None);
    assert!(Actor::report_checker(&mut s, 1, 1000, ReportPayload { checker: 3 }).is_ok());
    assert!(Actor::report_checker(&mut s, 2, 1050, ReportPayload { checker: 3 }).is_ok());
    assert!(matches!(s.is_checker(&3), Ok(true)));
    assert!(Actor::new_checker(&mut s, 4, payload("c4")).is_ok());
    assert!(Actor::report_checker(&mut s, 4, 1100, ReportPayload { checker: 3 }).is_ok());
    assert!(matches!(s.is_checker(&3), Ok(false)));
    assert!(matches!(s.is_checker(&4), Ok(true)));
    assert_eq!(s.total_checkers(), 3);
}

#[test]
fn live_vote_moves_window() {
    let mut s = init_with(&[1, 2, 3, 4], Some(100));
    assert_eq!(s.record_voted(&4, &1, 1000).ok(), Some(1));
    assert_eq!(s.record_voted(&4, &2, 1100).ok(), Some(2));
    // the window now runs from the last vote, at 1100
    assert_eq!(s.record_voted(&4, &3, 1200).ok(), Some(3));
    assert_eq!(s.record_voted(&4, &1, 1301).ok(), Some(0));
}

#[test]
fn stale_round_keeps_earlier_voters_out() {
    let mut s = init_with(&[1, 2, 3], Some(10));
    assert!(Actor::report_checker(&mut s, 1, 100, ReportPayload { checker: 3 }).is_ok());
    assert!(Actor::report_checker(&mut s, 2, 105, ReportPayload { checker: 3 }).is_ok());
    // the same voter after the window is still recorded in the stored round
    assert!(matches!(
        Actor::report_checker(&mut s, 2, 200, ReportPayload { checker: 3 }),
        Err(Error::AlreadyVoted(2))
    ));
    assert!(matches!(s.is_checker(&3), Ok(true)));
}
