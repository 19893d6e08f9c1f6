use am62x_evse::channel::TiRpmsg;
use am62x_evse::codec::{encode_frame, mk_heartbeat, CodecError, Command, Frame, Iec61851Event, PwmState};
use am62x_evse::codec::SlacState;
use am62x_evse::verbs::{SlacStatus, VerbError};
use am62x_evse::engine::{ActuatorJob, CallOutcome, LockAction, Notice, Reaction, SessionState, Step};

#[test]
fn plug_in_requests_lock_then_allows_power() {
    let mut s = SessionState::new();
    let step = s.apply(Iec61851Event::CarPluggedIn);
    assert!(s.plugged);
    assert_eq!(step.command, None);
    let job = step.job.unwrap();
    assert_eq!(job, ActuatorJob { action: LockAction::Lock, notice: Notice::Plugged(true) });
    let done = s.job_done(&job, CallOutcome::Success);
    assert_eq!(done.command, Some(Command::AllowPowerOn(true)));
    assert_eq!(done.notice, Some(Notice::Plugged(true)));
}

#[test]
fn unplug_turns_pwm_off_before_unlock() {
    let mut s = SessionState::new();
    s.apply(Iec61851Event::CarPluggedIn);
    s.apply(Iec61851Event::PpImax32a);
    assert!(s.plugged);
    assert_eq!(s.cable_imax, 32);
    let step = s.apply(Iec61851Event::CarUnplugged);
    assert_eq!(step.command, Some(Command::SetPwm { state: PwmState::Off, duty_bits: 0 }));
    assert_eq!(
        step.job,
        Some(ActuatorJob { action: LockAction::Unlock, notice: Notice::Plugged(false) })
    );
    assert!(!s.plugged);
    assert_eq!(s.pwm, PwmState::Off);
    assert_eq!(s.duty_bits, 0);
}

#[test]
fn repeated_cable_code_notifies_once() {
    let mut s = SessionState::new();
    let first = s.apply(Iec61851Event::PpImax32a);
    let second = s.apply(Iec61851Event::PpImax32a);
    assert_eq!(first.notice, Some(Notice::CableImax(32)));
    assert_eq!(second, Step { command: None, job: None, notice: None });
    assert_eq!(s.cable_imax, 32);
}

#[test]
fn cable_code_change_notifies_again() {
    let mut s = SessionState::new();
    s.apply(Iec61851Event::PpImax32a);
    let step = s.apply(Iec61851Event::PpImax64a);
    assert_eq!(step.notice, Some(Notice::CableImax(64)));
    assert_eq!(s.cable_imax, 64);
}

#[test]
fn heartbeat_counts_by_one() {
    let mut s = SessionState::new();
    let beat = encode_frame(&Frame::Heartbeat);
    assert_eq!(s.on_frame(&beat), Reaction::Heartbeat(1));
    assert_eq!(s.on_frame(&beat), Reaction::Heartbeat(2));
    assert_eq!(s.heartbeat_count, 2);
    assert!(!s.plugged);
}

#[test]
fn heartbeat_counter_stays_at_its_largest_value() {
    let mut s = SessionState::new();
    s.heartbeat_count = u64::MAX;
    assert_eq!(s.on_frame(&[0x12, 0x00]), Reaction::Heartbeat(u64::MAX));
}

#[test]
fn unknown_code_leaves_session_unchanged() {
    let mut s = SessionState::new();
    s.apply(Iec61851Event::CarPluggedIn);
    let before = s;
    assert_eq!(s.on_frame(&[0x08, 0x63]), Reaction::Dropped(CodecError::UnknownEventCode(99)));
    assert_eq!(s, before);
    assert_eq!(s.on_frame(&[0x08]), Reaction::Dropped(CodecError::Malformed));
    assert_eq!(s, before);
}

#[test]
fn event_frame_goes_through_state_machine() {
    let mut s = SessionState::new();
    let r = s.on_frame(&[0x08, 0x02]);
    assert!(s.relay_closed);
    assert_eq!(r, Reaction::Step(Step { command: None, job: None, notice: Some(Notice::RelayOn(true)) }));
}

#[test]
fn failed_heartbeat_write_keeps_engine_responsive() {
    let chan = TiRpmsg::new(3).unwrap();
    let beat = mk_heartbeat().unwrap();
    assert!(chan.write(beat.len(), -1).is_err());
    let mut s = SessionState::new();
    let step = s.apply(Iec61851Event::CarPluggedIn);
    assert!(s.plugged);
    assert_eq!(step.job.unwrap().action, LockAction::Lock);
}

#[test]
fn power_request_and_stop() {
    let mut s = SessionState::new();
    s.apply(Iec61851Event::PpImax20a);
    let on = s.apply(Iec61851Event::CarRequestedPower);
    assert!(s.power_requested);
    assert_eq!(on.job.unwrap().action, LockAction::Lock);
    let again = s.apply(Iec61851Event::CarRequestedPower);
    assert_eq!(again.job.unwrap().action, LockAction::Lock);
    let off = s.apply(Iec61851Event::CarRequestedStopPower);
    assert!(!s.power_requested);
    assert_eq!(s.cable_imax, 0);
    assert_eq!(
        off.job,
        Some(ActuatorJob { action: LockAction::Unlock, notice: Notice::PowerRequest(false) })
    );
}

#[test]
fn power_off_unlocks() {
    let mut s = SessionState::new();
    s.apply(Iec61851Event::PowerOn);
    let step = s.apply(Iec61851Event::PowerOff);
    assert!(!s.relay_closed);
    assert_eq!(step.job.unwrap().action, LockAction::Unlock);
    let done = s.job_done(&step.job.unwrap(), CallOutcome::Success);
    assert_eq!(done.command, Some(Command::AllowPowerOn(false)));
    assert_eq!(done.notice, Some(Notice::RelayOn(false)));
}

#[test]
fn errors_only_notify() {
    let mut s = SessionState::new();
    let before = s;
    for e in [
        Iec61851Event::ErrorE,
        Iec61851Event::ErrorDf,
        Iec61851Event::ErrorRelais,
        Iec61851Event::ErrorRcd,
    ] {
        let step = s.apply(e);
        assert_eq!(step, Step { command: None, job: None, notice: Some(Notice::Error(e)) });
    }
    assert_eq!(s, before);
}

#[test]
fn other_events_are_ignored() {
    let mut s = SessionState::new();
    let before = s;
    let step = s.apply(Iec61851Event::EnterBcd);
    assert_eq!(step, Step { command: None, job: None, notice: None });
    assert_eq!(s, before);
}

#[test]
fn failed_call_out_sends_nothing() {
    let mut s = SessionState::new();
    let job = s.apply(Iec61851Event::CarPluggedIn).job.unwrap();
    for outcome in [CallOutcome::Failed, CallOutcome::WatchdogExceeded] {
        let done = s.job_done(&job, outcome);
        assert_eq!(done.command, None);
        assert_eq!(done.notice, None);
    }
    assert!(s.plugged);
}

#[test]
fn lock_after_unplug_forbids_power() {
    let mut s = SessionState::new();
    let job = s.apply(Iec61851Event::CarPluggedIn).job.unwrap();
    s.apply(Iec61851Event::CarUnplugged);
    let done = s.job_done(&job, CallOutcome::Success);
    assert_eq!(done.command, Some(Command::AllowPowerOn(false)));
}

#[test]
fn pwm_request_is_recorded() {
    let mut s = SessionState::new();
    s.apply(Iec61851Event::CarPluggedIn);
    let d = 0.5f32.to_bits();
    assert_eq!(s.request_pwm("on", d), Ok(Command::SetPwm { state: PwmState::On, duty_bits: d }));
    assert_eq!(s.pwm, PwmState::On);
    assert_eq!(s.duty_bits, d);
    let before = s;
    assert_eq!(s.request_pwm("bogus", 0), Err(VerbError::InvalidArgument));
    assert_eq!(s.request_pwm("on", 2.0f32.to_bits()), Err(VerbError::InvalidArgument));
    assert_eq!(s, before);
    s.apply(Iec61851Event::CarUnplugged);
    assert_eq!(s.pwm, PwmState::Off);
    assert_eq!(s.duty_bits, 0);
}

#[test]
fn pwm_without_car_is_sent_not_recorded() {
    let mut s = SessionState::new();
    let before = s;
    let d = 0.5f32.to_bits();
    assert_eq!(s.request_pwm("on", d), Ok(Command::SetPwm { state: PwmState::On, duty_bits: d }));
    assert_eq!(s, before);
    assert_eq!(s.pwm, PwmState::Off);
}

#[test]
fn slac_request_is_recorded() {
    let mut s = SessionState::new();
    assert_eq!(s.request_slac(SlacStatus::Matched), Command::SetSlac(SlacState::Matched));
    assert_eq!(s.slac, SlacState::Matched);
}
