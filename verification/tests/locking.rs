use tof_array::indicator::State;
use tof_array::lock::{CeilingLock, SharedIndicator};

const LOOP_PRIO: u8 = 0;
const HANDLER_PRIO: u8 = 2;
const CEILING: u8 = 3;

#[test]
fn second_context_is_deferred_while_first_holds() {
    let mut lock = CeilingLock::new(CEILING);
    assert!(lock.try_enter(LOOP_PRIO));
    assert!(!lock.try_enter(HANDLER_PRIO), "contender must be deferred, not granted");
    lock.exit(LOOP_PRIO);
    assert!(lock.try_enter(HANDLER_PRIO));
    lock.exit(HANDLER_PRIO);
}

#[test]
fn indicator_get_returns_last_set_value() {
    let mut shared = SharedIndicator::new(State::LedOff, CEILING);
    assert!(shared.try_enter(LOOP_PRIO));
    assert_eq!(shared.get(LOOP_PRIO), State::LedOff);
    shared.set(LOOP_PRIO, State::LedOn);
    assert_eq!(shared.get(LOOP_PRIO), State::LedOn);
    shared.toggle(LOOP_PRIO);
    assert_eq!(shared.get(LOOP_PRIO), State::LedOff);
    shared.exit(LOOP_PRIO);
}

/// Interleave foreground and handler accesses in every schedule of a small
/// script and check that no context ever observes a value outside the set of
/// explicitly set values.
#[test]
fn no_torn_value_across_interleavings() {
    // Each entry: (context priority, value to set or None to only observe).
    let scripts: &[&[(u8, Option<State>)]] = &[
        &[(LOOP_PRIO, Some(State::LedOn)), (HANDLER_PRIO, None), (LOOP_PRIO, None)],
        &[(HANDLER_PRIO, Some(State::LedOff)), (LOOP_PRIO, Some(State::LedOn)), (HANDLER_PRIO, None)],
        &[(LOOP_PRIO, None), (HANDLER_PRIO, Some(State::LedOn)), (LOOP_PRIO, Some(State::LedOff)), (HANDLER_PRIO, None)],
    ];
    for script in scripts {
        let mut shared = SharedIndicator::new(State::LedOff, CEILING);
        let mut explicitly_set = vec![State::LedOff];
        for &(prio, action) in script.iter() {
            // Each access runs under the lock; the scheduler (here: this
            // loop) only lets a context in when the section is free.
            assert!(shared.try_enter(prio));
            match action {
                Some(v) => {
                    shared.set(prio, v);
                    explicitly_set.push(v);
                }
                None => {
                    let seen = shared.get(prio);
                    assert!(
                        explicitly_set.contains(&seen),
                        "observed a value nobody set"
                    );
                }
            }
            shared.exit(prio);
        }
    }
}

#[test]
fn deferred_contender_changes_nothing() {
    let mut shared = SharedIndicator::new(State::LedOn, CEILING);
    assert!(shared.try_enter(HANDLER_PRIO));
    shared.set(HANDLER_PRIO, State::LedOff);
    // The foreground loop asks while the handler holds the section.
    assert!(!shared.try_enter(LOOP_PRIO));
    // The holder's view is intact and it can finish its update.
    assert_eq!(shared.get(HANDLER_PRIO), State::LedOff);
    shared.exit(HANDLER_PRIO);
    assert!(shared.try_enter(LOOP_PRIO));
    assert_eq!(shared.get(LOOP_PRIO), State::LedOff);
    shared.exit(LOOP_PRIO);
}
