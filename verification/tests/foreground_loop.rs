use tof_array::foreground::{
    led_level_high, loop_step, DisplayState, EdgeDetector, PacerAction, PacerEvent, PacerPhase,
    SequenceDriver, SingleShotPacer,
};
use tof_array::indicator::State;
use tof_array::mode::{ConfigOptions, ModeTag, SensorHandle};

#[test]
fn cycle_toggles_and_returns() {
    let mut s = State::LedOff;
    s.cycle();
    assert_eq!(s, State::LedOn);
    s.cycle();
    assert_eq!(s, State::LedOff);
}

#[test]
fn led_is_wired_active_low() {
    assert!(!led_level_high(State::LedOn));
    assert!(led_level_high(State::LedOff));
}

#[test]
fn loop_step_advances_only_on_pressed_button() {
    let mut s = State::LedOff;
    // Button released: drive the line high (LED off), keep the state.
    assert!(loop_step(&mut s, false));
    assert_eq!(s, State::LedOff);
    // Button pressed: the level reported is still for the state before the
    // press was noticed, then the state advances.
    assert!(loop_step(&mut s, true));
    assert_eq!(s, State::LedOn);
    assert!(!loop_step(&mut s, false));
    assert_eq!(s, State::LedOn);
}

#[test]
fn edge_detector_fires_once_per_press() {
    let mut d = EdgeDetector::new();
    let samples = [false, true, true, false, true];
    let fired: Vec<bool> = samples.iter().map(|&low| d.sample(low)).collect();
    assert_eq!(fired, vec![false, true, false, false, true]);
}

#[test]
fn display_sequence_loops_with_exit_and_enter_actions() {
    let mut d = SequenceDriver::new();
    assert_eq!(d.current, DisplayState::Welcome);

    let expected = [
        (DisplayState::RangeContinuous, None, Some(ModeTag::RangeContinuous)),
        (DisplayState::RangeSingle, Some(ModeTag::RangeContinuous), Some(ModeTag::RangeSingle)),
        (
            DisplayState::AmbientContinuous,
            Some(ModeTag::RangeSingle),
            Some(ModeTag::AmbientContinuous),
        ),
        (
            DisplayState::AmbientSingle,
            Some(ModeTag::AmbientContinuous),
            Some(ModeTag::AmbientSingle),
        ),
        (DisplayState::End, Some(ModeTag::AmbientSingle), None),
        (DisplayState::Welcome, None, None),
    ];
    for (state, stop, start) in expected {
        let (s, e) = d.advance();
        assert_eq!(d.current, state);
        assert_eq!(s, stop);
        assert_eq!(e, start);
    }
}

#[test]
fn display_sequence_drives_handle_through_modes() {
    let mut d = SequenceDriver::new();
    let mut h = SensorHandle::new(0, 10);
    for _ in 0..12 {
        let (stop, start) = d.advance();
        if let Some(m) = stop {
            assert_eq!(h.stop_mode(m, Ok(())), Ok(()));
        }
        if let Some(m) = start {
            assert_eq!(h.start_mode(m, ConfigOptions::default(), Ok(())), Ok(()));
        }
        match d.current {
            DisplayState::Welcome | DisplayState::End => assert_eq!(h.mode, ModeTag::Ready),
            DisplayState::RangeContinuous => assert_eq!(h.mode, ModeTag::RangeContinuous),
            DisplayState::RangeSingle => assert_eq!(h.mode, ModeTag::RangeSingle),
            DisplayState::AmbientContinuous => assert_eq!(h.mode, ModeTag::AmbientContinuous),
            DisplayState::AmbientSingle => assert_eq!(h.mode, ModeTag::AmbientSingle),
        }
    }
}

#[test]
fn pacer_cycles_through_its_three_phases() {
    let mut p = SingleShotPacer::new(250);
    assert_eq!(p.phase, PacerPhase::Issue);
    assert_eq!(p.next_action(), PacerAction::StartSingleShot);
    assert!(p.on_event(PacerEvent::Issued));
    assert_eq!(p.next_action(), PacerAction::WaitForInterrupt);
    assert!(p.on_event(PacerEvent::ResultHandled));
    assert_eq!(p.next_action(), PacerAction::DelayMs(250));
    assert!(p.on_event(PacerEvent::CooldownDone));
    assert_eq!(p.phase, PacerPhase::Issue);
}

#[test]
fn pacer_refuses_out_of_order_events() {
    let mut p = SingleShotPacer::new(100);
    assert!(!p.on_event(PacerEvent::ResultHandled));
    assert!(!p.on_event(PacerEvent::CooldownDone));
    assert_eq!(p.phase, PacerPhase::Issue);
    assert!(p.on_event(PacerEvent::Issued));
    assert!(!p.on_event(PacerEvent::Issued));
    assert_eq!(p.phase, PacerPhase::AwaitResult);
}
