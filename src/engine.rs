//! The session state machine. Each event from the co-processor updates the
//! session and yields at most one immediate command, at most one actuator
//! job to run later, and at most one status notice.
//!
//! Policy choices where the behaviour is open:
//! - a repeated power request re-issues the lock call-out, like a first one;
//! - a repeated cable code changes nothing and notifies nobody;
//! - on unplug the PWM-off command is returned for immediate writing, before
//!   the unlock job runs;
//! - when a lock job succeeds the co-processor is allowed power only if the
//!   car is still plugged in at that time;
//! - a supervisory PWM request is recorded in the session while a car is
//!   plugged in; without a car it is still sent, and the session keeps its
//!   PWM off, as the session holds no PWM while unplugged.

use crate::codec::{frame_of, Command, CodecError, Frame, Iec61851Event, PwmState, SlacState, decode_frame};
use crate::verbs::{pwm_request, set_pwm, slac_command, slac_state_of, upper_of, SlacStatus, VerbError};
use vstd::prelude::*;

verus! {

/// What the external actuator service is asked to do.
#[derive(Clone, Copy, Debug, PartialEq, Eq, Structural)]
pub enum LockAction {
    Lock,
    Unlock,
}

/// A status change published to subscribers.
#[derive(Clone, Copy, Debug, PartialEq, Eq, Structural)]
pub enum Notice {
    Plugged(bool),
    PowerRequest(bool),
    RelayOn(bool),
    Error(Iec61851Event),
    CableImax(u32),
}

/// Work deferred out of the read path: a call-out to the actuator service,
/// and the notice to publish once it succeeds. It holds its decision by value.
#[derive(Clone, Copy, Debug, PartialEq, Eq, Structural)]
pub struct ActuatorJob {
    pub action: LockAction,
    pub notice: Notice,
}

/// What one event asks of the engine.
#[derive(Clone, Copy, Debug, PartialEq, Eq, Structural)]
pub struct Step {
    /// Written to the co-processor at once.
    pub command: Option<Command>,
    /// Posted as a deferred job.
    pub job: Option<ActuatorJob>,
    /// Published at once.
    pub notice: Option<Notice>,
}

/// How a deferred call-out ended.
#[derive(Clone, Copy, Debug, PartialEq, Eq, Structural)]
pub enum CallOutcome {
    Success,
    Failed,
    WatchdogExceeded,
}

/// What to do once a deferred job has ended.
#[derive(Clone, Copy, Debug, PartialEq, Eq, Structural)]
pub struct JobResult {
    pub command: Option<Command>,
    pub notice: Option<Notice>,
}

/// What the reader did with one received buffer.
#[derive(Clone, Copy, Debug, PartialEq, Eq, Structural)]
pub enum Reaction {
    /// A heartbeat; the liveness counter now holds this value.
    Heartbeat(u64),
    /// An event, and what it asks for.
    Step(Step),
    /// The buffer was dropped.
    Dropped(CodecError),
}

/// The session as the engine knows it.
#[derive(Clone, Copy, Debug, PartialEq, Eq, Structural)]
pub struct SessionState {
    pub plugged: bool,
    /// Current capacity of the cable, in amperes: 0, 13, 20, 32 or 64.
    pub cable_imax: u32,
    pub power_requested: bool,
    pub relay_closed: bool,
    pub pwm: PwmState,
    /// Bit pattern of the last PWM duty cycle commanded, as a 32-bit float.
    pub duty_bits: u32,
    pub slac: SlacState,
    /// Heartbeats received; for observation only.
    pub heartbeat_count: u64,
}

pub open spec fn cable_imax_valid(v: u32) -> bool {
    v == 0 || v == 13 || v == 20 || v == 32 || v == 64
}

/// The cable capacity that a proximity-pilot event reports.
pub open spec fn imax_of(e: Iec61851Event) -> Option<u32> {
    match e {
        Iec61851Event::PpImax13a => Some(13),
        Iec61851Event::PpImax20a => Some(20),
        Iec61851Event::PpImax32a => Some(32),
        Iec61851Event::PpImax64a => Some(64),
        _ => None,
    }
}

pub open spec fn is_error_event(e: Iec61851Event) -> bool {
    e == Iec61851Event::ErrorE || e == Iec61851Event::ErrorDf || e == Iec61851Event::ErrorRelais
        || e == Iec61851Event::ErrorRcd
}

pub open spec fn job_step(action: LockAction, notice: Notice) -> Step {
    Step { command: None, job: Some(ActuatorJob { action, notice }), notice: None }
}

pub open spec fn notice_step(notice: Notice) -> Step {
    Step { command: None, job: None, notice: Some(notice) }
}

pub open spec fn quiet_step() -> Step {
    Step { command: None, job: None, notice: None }
}

/// The session after event `e`.
pub open spec fn next_session(s: SessionState, e: Iec61851Event) -> SessionState {
    match e {
        Iec61851Event::CarPluggedIn => SessionState { plugged: true, ..s },
        Iec61851Event::CarUnplugged => SessionState {
            plugged: false,
            pwm: PwmState::Off,
            duty_bits: 0,
            ..s
        },
        Iec61851Event::CarRequestedPower => SessionState { power_requested: true, ..s },
        Iec61851Event::CarRequestedStopPower => SessionState {
            power_requested: false,
            cable_imax: 0,
            ..s
        },
        Iec61851Event::PowerOn => SessionState { relay_closed: true, ..s },
        Iec61851Event::PowerOff => SessionState { relay_closed: false, ..s },
        _ => match imax_of(e) {
            Some(v) => SessionState { cable_imax: v, ..s },
            None => s,
        },
    }
}

/// What event `e` asks for in session `s`.
pub open spec fn step_for(s: SessionState, e: Iec61851Event) -> Step {
    match e {
        Iec61851Event::CarPluggedIn => job_step(LockAction::Lock, Notice::Plugged(true)),
        Iec61851Event::CarUnplugged => Step {
            command: Some(Command::SetPwm { state: PwmState::Off, duty_bits: 0 }),
            job: Some(ActuatorJob { action: LockAction::Unlock, notice: Notice::Plugged(false) }),
            notice: None,
        },
        Iec61851Event::CarRequestedPower => job_step(LockAction::Lock, Notice::PowerRequest(true)),
        Iec61851Event::CarRequestedStopPower => job_step(
            LockAction::Unlock,
            Notice::PowerRequest(false),
        ),
        Iec61851Event::PowerOn => notice_step(Notice::RelayOn(true)),
        Iec61851Event::PowerOff => job_step(LockAction::Unlock, Notice::RelayOn(false)),
        _ => if is_error_event(e) {
            notice_step(Notice::Error(e))
        } else {
            match imax_of(e) {
                Some(v) => if v == s.cable_imax {
                    quiet_step()
                } else {
                    notice_step(Notice::CableImax(v))
                },
                None => quiet_step(),
            }
        },
    }
}

/// The session after a heartbeat: the counter goes up by one, and stays at
/// its largest value once there.
pub open spec fn after_heartbeat(s: SessionState) -> SessionState {
    if s.heartbeat_count < u64::MAX {
        SessionState { heartbeat_count: (s.heartbeat_count + 1) as u64, ..s }
    } else {
        s
    }
}

/// What a deferred job leads to once its call-out has ended, in session `s`
/// as it stands then.
pub open spec fn job_result(s: SessionState, job: ActuatorJob, outcome: CallOutcome) -> JobResult {
    if outcome == CallOutcome::Success {
        JobResult {
            command: Some(
                Command::AllowPowerOn(job.action == LockAction::Lock && s.plugged),
            ),
            notice: Some(job.notice),
        }
    } else {
        JobResult { command: None, notice: None }
    }
}

impl SessionState {
    /// The state invariant: a known cable capacity, and no PWM while no car
    /// is plugged in.
    pub open spec fn wf(&self) -> bool {
        &&& cable_imax_valid(self.cable_imax)
        &&& !self.plugged ==> self.pwm == PwmState::Off && self.duty_bits == 0
    }

    /// A fresh session: nothing plugged, nothing requested, PWM off.
    pub fn new() -> (r: SessionState)
        ensures
            r.wf(),
            !r.plugged,
            r.cable_imax == 0,
            !r.power_requested,
            !r.relay_closed,
            r.pwm == PwmState::Off,
            r.duty_bits == 0,
            r.slac == SlacState::Undefined,
            r.heartbeat_count == 0,
    {
        SessionState {
            plugged: false,
            cable_imax: 0,
            power_requested: false,
            relay_closed: false,
            pwm: PwmState::Off,
            duty_bits: 0,
            slac: SlacState::Undefined,
            heartbeat_count: 0,
        }
    }

    /// Applies one event to the session.
    pub fn apply(&mut self, e: Iec61851Event) -> (r: Step)
        ensures
            *final(self) == next_session(*old(self), e),
            r == step_for(*old(self), e),
            old(self).wf() ==> final(self).wf(),
    {
        match e {
            Iec61851Event::CarPluggedIn => {
                self.plugged = true;
                Step {
                    command: None,
                    job: Some(ActuatorJob { action: LockAction::Lock, notice: Notice::Plugged(true) }),
                    notice: None,
                }
            },
            Iec61851Event::CarUnplugged => {
                self.plugged = false;
                self.pwm = PwmState::Off;
                self.duty_bits = 0;
                Step {
                    command: Some(Command::SetPwm { state: PwmState::Off, duty_bits: 0 }),
                    job: Some(
                        ActuatorJob { action: LockAction::Unlock, notice: Notice::Plugged(false) },
                    ),
                    notice: None,
                }
            },
            Iec61851Event::CarRequestedPower => {
                self.power_requested = true;
                Step {
                    command: None,
                    job: Some(
                        ActuatorJob { action: LockAction::Lock, notice: Notice::PowerRequest(true) },
                    ),
                    notice: None,
                }
            },
            Iec61851Event::CarRequestedStopPower => {
                self.power_requested = false;
                self.cable_imax = 0;
                Step {
                    command: None,
                    job: Some(
                        ActuatorJob {
                            action: LockAction::Unlock,
                            notice: Notice::PowerRequest(false),
                        },
                    ),
                    notice: None,
                }
            },
            Iec61851Event::PowerOn => {
                self.relay_closed = true;
                Step { command: None, job: None, notice: Some(Notice::RelayOn(true)) }
            },
            Iec61851Event::PowerOff => {
                self.relay_closed = false;
                Step {
                    command: None,
                    job: Some(
                        ActuatorJob { action: LockAction::Unlock, notice: Notice::RelayOn(false) },
                    ),
                    notice: None,
                }
            },
            Iec61851Event::ErrorE
            | Iec61851Event::ErrorDf
            | Iec61851Event::ErrorRelais
            | Iec61851Event::ErrorRcd => {
                Step { command: None, job: None, notice: Some(Notice::Error(e)) }
            },
            Iec61851Event::PpImax13a => self.set_cable_imax(13),
            Iec61851Event::PpImax20a => self.set_cable_imax(20),
            Iec61851Event::PpImax32a => self.set_cable_imax(32),
            Iec61851Event::PpImax64a => self.set_cable_imax(64),
            _ => Step { command: None, job: None, notice: None },
        }
    }

    /// Records a cable capacity; a notice only when it changes.
    fn set_cable_imax(&mut self, v: u32) -> (r: Step)
        ensures
            *final(self) == (SessionState { cable_imax: v, ..*old(self) }),
            r == (if v == old(self).cable_imax {
                quiet_step()
            } else {
                notice_step(Notice::CableImax(v))
            }),
    {
        if self.cable_imax == v {
            Step { command: None, job: None, notice: None }
        } else {
            self.cable_imax = v;
            Step { command: None, job: None, notice: Some(Notice::CableImax(v)) }
        }
    }

    /// Handles one buffer read from the channel: a heartbeat bumps the
    /// liveness counter, an event goes through the state machine, and a
    /// buffer that does not decode is dropped with the session unchanged.
    pub fn on_frame(&mut self, bytes: &[u8]) -> (r: Reaction)
        ensures
            match frame_of(bytes@) {
                Ok(Frame::Heartbeat) => *final(self) == after_heartbeat(*old(self))
                    && r == Reaction::Heartbeat(final(self).heartbeat_count),
                Ok(Frame::Event(e)) => *final(self) == next_session(*old(self), e)
                    && r == Reaction::Step(step_for(*old(self), e)),
                Err(err) => *final(self) == *old(self) && r == Reaction::Dropped(err),
            },
            old(self).wf() ==> final(self).wf(),
    {
        match decode_frame(bytes) {
            Ok(Frame::Heartbeat) => {
                if self.heartbeat_count < u64::MAX {
                    self.heartbeat_count = self.heartbeat_count + 1;
                }
                Reaction::Heartbeat(self.heartbeat_count)
            },
            Ok(Frame::Event(e)) => Reaction::Step(self.apply(e)),
            Err(err) => Reaction::Dropped(err),
        }
    }

    /// The `pwm` verb on this session: checks the request, and records the
    /// PWM it commands while a car is plugged in. Without a car the command
    /// is still returned for sending, and the session keeps its PWM off. A
    /// refused request changes nothing.
    pub fn request_pwm(&mut self, action: &str, duty_bits: u32) -> (r: Result<Command, VerbError>)
        ensures
            r == pwm_request(upper_of(action@), duty_bits),
            *final(self) == (match r {
                Ok(Command::SetPwm { state, duty_bits }) => if old(self).plugged {
                    SessionState { pwm: state, duty_bits, ..*old(self) }
                } else {
                    *old(self)
                },
                _ => *old(self),
            }),
            old(self).wf() ==> final(self).wf(),
    {
        match set_pwm(action, duty_bits) {
            Ok(Command::SetPwm { state, duty_bits: d }) => {
                if self.plugged {
                    self.pwm = state;
                    self.duty_bits = d;
                }
                Ok(Command::SetPwm { state, duty_bits: d })
            },
            other => other,
        }
    }

    /// The `slac` verb on this session: records the SLAC state it reports.
    pub fn request_slac(&mut self, status: SlacStatus) -> (r: Command)
        ensures
            r == Command::SetSlac(slac_state_of(status)),
            *final(self) == (SessionState { slac: slac_state_of(status), ..*old(self) }),
            old(self).wf() ==> final(self).wf(),
    {
        let c = slac_command(status);
        if let Command::SetSlac(st) = c {
            self.slac = st;
        }
        c
    }

    /// What to write and publish once a deferred job's call-out has ended.
    /// The session is read as it stands when the job ends, not as it stood
    /// when the job was posted.
    pub fn job_done(&self, job: &ActuatorJob, outcome: CallOutcome) -> (r: JobResult)
        ensures
            r == job_result(*self, *job, outcome),
    {
        match outcome {
            CallOutcome::Success => {
                let allow = match job.action {
                    LockAction::Lock => self.plugged,
                    LockAction::Unlock => false,
                };
                JobResult { command: Some(Command::AllowPowerOn(allow)), notice: Some(job.notice) }
            },
            _ => JobResult { command: None, notice: None },
        }
    }
}

/// A heartbeat raises the liveness counter by exactly one, below its largest
/// value, and changes nothing else.
pub proof fn lemma_heartbeat_counts(s: SessionState)
    requires
        s.heartbeat_count < u64::MAX,
    ensures
        after_heartbeat(s).heartbeat_count == s.heartbeat_count + 1,
        after_heartbeat(s) == (SessionState { heartbeat_count: after_heartbeat(s).heartbeat_count, ..s }),
{
}

/// A cable code received twice in a row notifies at most once: the second
/// time it changes nothing and asks for nothing, and the capacity is the
/// one the code names.
pub proof fn lemma_repeated_cable_code(s: SessionState, e: Iec61851Event)
    requires
        imax_of(e) is Some,
    ensures
        next_session(s, e).cable_imax == imax_of(e)->Some_0,
        next_session(next_session(s, e), e) == next_session(s, e),
        step_for(next_session(s, e), e) == quiet_step(),
        step_for(s, e).job is None,
        step_for(s, e).command is None,
{
}

/// Unplugging always turns the PWM off, and the command that says so is
/// returned for immediate writing, ahead of the unlock call-out.
pub proof fn lemma_unplug_forces_pwm_off(s: SessionState)
    ensures
        next_session(s, Iec61851Event::CarUnplugged).pwm == PwmState::Off,
        !next_session(s, Iec61851Event::CarUnplugged).plugged,
        step_for(s, Iec61851Event::CarUnplugged).command == Some(
            Command::SetPwm { state: PwmState::Off, duty_bits: 0 },
        ),
        step_for(s, Iec61851Event::CarUnplugged).job == Some(
            ActuatorJob { action: LockAction::Unlock, notice: Notice::Plugged(false) },
        ),
{
}

} // verus!
