use tof_array::mode::ModeTag;
use tof_array::negotiate::{negotiate, NegotiationError, Step};
use tof_array::power::DeviceSlot;

fn fresh_slots(n: usize) -> Vec<DeviceSlot> {
    let mut v = Vec::new();
    for _ in 0..n {
        v.push(DeviceSlot::new());
    }
    v
}

#[test]
fn two_slot_bring_up_trace() {
    let mut slots = fresh_slots(2);
    let addresses = vec![10u8, 11u8];
    let outcomes = vec![true, true];
    let (result, trace) = negotiate(&mut slots, &addresses, &outcomes);

    assert_eq!(
        trace,
        vec![
            Step::PowerOn(0),
            Step::WaitBoot,
            Step::AddressChange(0, 10, true),
            Step::PowerOn(1),
            Step::WaitBoot,
            Step::AddressChange(1, 11, true),
        ]
    );

    let handles = result.expect("both address changes succeeded");
    assert_eq!(handles.len(), 2);
    assert_eq!(handles[0].address, 10);
    assert_eq!(handles[1].address, 11);
    assert_eq!(handles[0].slot, 0);
    assert_eq!(handles[1].slot, 1);
    assert_eq!(handles[0].mode, ModeTag::Ready);
    assert_eq!(handles[1].mode, ModeTag::Ready);
    assert!(!handles[0].device_flag);
    assert!(!handles[1].device_flag);

    assert!(slots[0].powered && slots[0].address == Some(10));
    assert!(slots[1].powered && slots[1].address == Some(11));
}

#[test]
fn second_slot_failure_reports_slot_and_powers_all_off() {
    let mut slots = fresh_slots(2);
    let addresses = vec![10u8, 11u8];
    let outcomes = vec![true, false];
    let (result, trace) = negotiate(&mut slots, &addresses, &outcomes);

    assert_eq!(result.unwrap_err(), NegotiationError { slot: 1, address: 11 });
    assert_eq!(
        trace,
        vec![
            Step::PowerOn(0),
            Step::WaitBoot,
            Step::AddressChange(0, 10, true),
            Step::PowerOn(1),
            Step::WaitBoot,
            Step::AddressChange(1, 11, false),
            Step::PowerOff(0),
            Step::PowerOff(1),
        ]
    );
    for s in &slots {
        assert_eq!(*s, DeviceSlot { powered: false, address: None });
    }
}

#[test]
fn first_slot_failure_reports_slot_zero() {
    let mut slots = fresh_slots(3);
    let addresses = vec![20u8, 21u8, 22u8];
    let outcomes = vec![false, true, true];
    let (result, trace) = negotiate(&mut slots, &addresses, &outcomes);

    assert_eq!(result.unwrap_err(), NegotiationError { slot: 0, address: 20 });
    assert_eq!(
        trace,
        vec![
            Step::PowerOn(0),
            Step::WaitBoot,
            Step::AddressChange(0, 20, false),
            Step::PowerOff(0),
        ]
    );
    for s in &slots {
        assert_eq!(*s, DeviceSlot { powered: false, address: None });
    }
}

#[test]
fn empty_negotiation_is_trivially_successful() {
    let mut slots = fresh_slots(0);
    let addresses: Vec<u8> = Vec::new();
    let outcomes: Vec<bool> = Vec::new();
    let (result, trace) = negotiate(&mut slots, &addresses, &outcomes);
    assert!(result.unwrap().is_empty());
    assert!(trace.is_empty());
}

#[test]
fn single_slot_negotiation() {
    let mut slots = fresh_slots(1);
    let addresses = vec![42u8];
    let outcomes = vec![true];
    let (result, trace) = negotiate(&mut slots, &addresses, &outcomes);
    let handles = result.unwrap();
    assert_eq!(handles.len(), 1);
    assert_eq!(handles[0].address, 42);
    assert_eq!(
        trace,
        vec![Step::PowerOn(0), Step::WaitBoot, Step::AddressChange(0, 42, true)]
    );
}

/// Replay a trace and check, after every prefix, that no two powered slots
/// are simultaneously without an assigned address.
fn check_bring_up_invariant(n: usize, trace: &[Step]) {
    let mut powered = vec![false; n];
    let mut addressed = vec![false; n];
    for step in trace {
        match *step {
            Step::PowerOn(i) => powered[i] = true,
            Step::PowerOff(i) => {
                powered[i] = false;
                addressed[i] = false;
            }
            Step::AddressChange(i, _, ok) => {
                if ok {
                    addressed[i] = true;
                }
            }
            Step::WaitBoot => {}
        }
        let live = (0..n).filter(|&i| powered[i] && !addressed[i]).count();
        assert!(live <= 1, "two unaddressed slots powered at once");
    }
}

#[test]
fn bring_up_invariant_holds_on_success_and_failure() {
    for &outcomes in &[
        [true, true, true],
        [true, true, false],
        [true, false, true],
        [false, true, true],
    ] {
        let mut slots = fresh_slots(3);
        let addresses = vec![30u8, 31u8, 32u8];
        let (_, trace) = negotiate(&mut slots, &addresses, &outcomes.to_vec());
        check_bring_up_invariant(3, &trace);
    }
}

#[test]
fn addresses_are_distinct_and_as_requested() {
    let mut slots = fresh_slots(4);
    let addresses = vec![10u8, 12u8, 14u8, 16u8];
    let outcomes = vec![true; 4];
    let (result, _) = negotiate(&mut slots, &addresses, &outcomes);
    let handles = result.unwrap();
    for (i, h) in handles.iter().enumerate() {
        assert_eq!(h.address, addresses[i]);
        for other in handles.iter().skip(i + 1) {
            assert_ne!(h.address, other.address);
        }
    }
}
