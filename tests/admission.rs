use plan_builder::cache::{lookup_cached_result, CacheLookup, ResultCacheValue};
use plan_builder::queue::{
    after_removal, effective_permits, initial_acquire_state, on_poll, AcquireAction, PermitPoll,
    UNBOUNDED_PERMITS,
};

#[test]
fn zero_permits_means_unbounded() {
    assert_eq!(effective_permits(0), usize::MAX >> 4);
    assert_eq!(effective_permits(0), UNBOUNDED_PERMITS);
    assert_eq!(effective_permits(3), 3);
}

#[test]
fn pending_registers_once() {
    let s0 = initial_acquire_state();
    let (s1, a1) = on_poll(s0, false, PermitPoll::Pending);
    assert_eq!(a1, AcquireAction::RegisterAndWait);
    let (s2, a2) = on_poll(s1, false, PermitPoll::Pending);
    assert_eq!(a2, AcquireAction::Wait);
    let (s3, a3) = on_poll(s2, false, PermitPoll::Granted);
    assert_eq!(a3, AcquireAction::Deregister { granted: true });
    let (s4, a4) = after_removal(s3, true, true);
    assert_eq!(a4, AcquireAction::Acquired);
    assert!(s4.done);
}

#[test]
fn abort_wins() {
    let (s, a) = on_poll(initial_acquire_state(), true, PermitPoll::Granted);
    assert_eq!(a, AcquireAction::Aborted { keyed: false });
    assert!(s.done);
    let (_, a) = after_removal(s, false, true);
    assert_eq!(a, AcquireAction::Aborted { keyed: true });
}

#[test]
fn immediate_grant_and_close() {
    let (_, a) = on_poll(initial_acquire_state(), false, PermitPoll::Granted);
    assert_eq!(a, AcquireAction::Acquired);
    let (_, a) = on_poll(initial_acquire_state(), false, PermitPoll::Closed);
    assert_eq!(a, AcquireAction::AcquireFailed);
}

fn value(sha: &str, rows: u64) -> ResultCacheValue {
    ResultCacheValue { partitions_sha: sha.to_string(), num_rows: rows, location: "r/1".to_string() }
}

#[test]
fn cache_lookup_decisions() {
    let sha = "abc".to_string();
    assert!(matches!(lookup_cached_result(None, &sha), CacheLookup::Miss));
    assert!(matches!(lookup_cached_result(Some(&value("old", 3)), &sha), CacheLookup::Miss));
    assert!(matches!(lookup_cached_result(Some(&value("abc", 0)), &sha), CacheLookup::EmptyResult));
    match lookup_cached_result(Some(&value("abc", 3)), &sha) {
        CacheLookup::ReadFrom(l) => assert_eq!(l, "r/1"),
        other => panic!("unexpected {:?}", other),
    }
}
