use simple_cache::reaper::{next_action, SWEEP_INTERVAL_MILLIS};
use simple_cache::{LockOutcome, ReaperAction, TtlCache};

#[test]
fn stop_request_wins_over_every_lock_state() {
    assert_eq!(next_action(true, LockOutcome::Acquired), ReaperAction::Stop);
    assert_eq!(next_action(true, LockOutcome::Contended), ReaperAction::Stop);
    assert_eq!(next_action(true, LockOutcome::Poisoned), ReaperAction::Stop);
}

#[test]
fn lock_state_decides_while_running() {
    assert_eq!(next_action(false, LockOutcome::Acquired), ReaperAction::Sweep);
    assert_eq!(next_action(false, LockOutcome::Contended), ReaperAction::Skip);
    assert_eq!(next_action(false, LockOutcome::Poisoned), ReaperAction::Reset);
}

#[test]
fn sweep_interval_is_one_second() {
    assert_eq!(SWEEP_INTERVAL_MILLIS, 1000);
}

#[test]
fn actions_drive_a_store_to_empty() {
    let mut cache = TtlCache::with_ttl_nanos(10);
    cache.insert_at(1u8, 'a', 0);
    cache.insert_at(2u8, 'b', 5);
    let mut now: u128 = 0;
    let mut rounds = 0;
    while !cache.is_empty() {
        now += 5;
        match next_action(false, LockOutcome::Acquired) {
            ReaperAction::Sweep => cache.sweep_at(now),
            ReaperAction::Reset => cache.clear(),
            ReaperAction::Skip | ReaperAction::Stop => {}
        }
        rounds += 1;
    }
    assert_eq!(rounds, 3);
}
