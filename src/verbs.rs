//! The checks behind the supervisory verbs: each turns a caller's argument
//! into a command for the co-processor, or rejects it before anything is
//! written.

use crate::codec::{Command, PwmState, SlacState};
use vstd::prelude::*;
use vstd::string::StrSliceExecFns;

verus! {

/// Why a verb refused its argument.
#[derive(Clone, Copy, Debug, PartialEq, Eq, Structural)]
pub enum VerbError {
    InvalidArgument,
}

/// SLAC progress as reported by the matching service.
#[derive(Clone, Copy, Debug, PartialEq, Eq, Structural)]
pub enum SlacStatus {
    Idle,
    Waiting,
    Matching,
    Matched,
    Timeout,
    Unmatched,
}

/// The upper-case form of a string, as Unicode defines it.
pub uninterp spec fn upper_of(s: Seq<char>) -> Seq<char>;

/// Relies on `str::to_uppercase`: the result depends on the characters alone.
#[verifier::external_body]
fn uppercase(s: &str) -> (r: String)
    ensures
        r@ == upper_of(s@),
{
    s.to_uppercase()
}

/// The PWM state that an upper-case action names.
pub open spec fn pwm_action(a: Seq<char>) -> Option<PwmState> {
    if a == seq!['O', 'N'] {
        Some(PwmState::On)
    } else if a == seq!['O', 'F', 'F'] {
        Some(PwmState::Off)
    } else if a == seq!['F', 'A', 'I', 'L'] {
        Some(PwmState::Fault)
    } else {
        None
    }
}

/// Whether a 32-bit float bit pattern is a duty cycle in [0, 1]: +0.0 up to
/// 1.0 (0x3F80_0000), or -0.0. NaNs and negative values are outside.
pub open spec fn duty_valid(duty_bits: u32) -> bool {
    duty_bits <= 0x3F80_0000 || duty_bits == 0x8000_0000
}

pub open spec fn pwm_setting_of(state: PwmState, duty_bits: u32) -> Result<Command, VerbError> {
    if duty_valid(duty_bits) {
        Ok(Command::SetPwm { state, duty_bits })
    } else {
        Err(VerbError::InvalidArgument)
    }
}

pub open spec fn pwm_request(upper_action: Seq<char>, duty_bits: u32) -> Result<Command, VerbError> {
    match pwm_action(upper_action) {
        Some(state) => pwm_setting_of(state, duty_bits),
        None => Err(VerbError::InvalidArgument),
    }
}

fn chars_are(s: &str, t: &str) -> (r: bool)
    ensures
        r == (s@ == t@),
{
    let n = s.unicode_len();
    if n != t.unicode_len() {
        return false;
    }
    let mut i: usize = 0;
    while i < n
        invariant
            n == s@.len(),
            n == t@.len(),
            i <= n,
            forall|j: int| 0 <= j < i ==> s@[j] == t@[j],
        decreases n - i,
    {
        if s.get_char(i) != t.get_char(i) {
            return false;
        }
        i = i + 1;
    }
    assert(s@ =~= t@);
    true
}

/// The PWM state named by an action already in upper case.
pub fn pwm_state_of_action(upper_action: &str) -> (r: Option<PwmState>)
    ensures
        r == pwm_action(upper_action@),
{
    proof {
        reveal_strlit("ON");
        reveal_strlit("OFF");
        reveal_strlit("FAIL");
        assert("ON"@ =~= seq!['O', 'N']);
        assert("OFF"@ =~= seq!['O', 'F', 'F']);
        assert("FAIL"@ =~= seq!['F', 'A', 'I', 'L']);
    }
    if chars_are(upper_action, "ON") {
        Some(PwmState::On)
    } else if chars_are(upper_action, "OFF") {
        Some(PwmState::Off)
    } else if chars_are(upper_action, "FAIL") {
        Some(PwmState::Fault)
    } else {
        None
    }
}

/// A PWM setting, refused unless the duty cycle lies in [0, 1].
pub fn pwm_setting(state: PwmState, duty_bits: u32) -> (r: Result<Command, VerbError>)
    ensures
        r == pwm_setting_of(state, duty_bits),
{
    if duty_bits <= 0x3F80_0000 || duty_bits == 0x8000_0000 {
        Ok(Command::SetPwm { state, duty_bits })
    } else {
        Err(VerbError::InvalidArgument)
    }
}

/// The PWM command for an action already in upper case: "ON", "OFF" or
/// "FAIL"; any other action, or a duty cycle outside [0, 1], is refused.
pub fn pwm_command(upper_action: &str, duty_bits: u32) -> (r: Result<Command, VerbError>)
    ensures
        r == pwm_request(upper_action@, duty_bits),
{
    match pwm_state_of_action(upper_action) {
        Some(state) => pwm_setting(state, duty_bits),
        None => Err(VerbError::InvalidArgument),
    }
}

/// The `pwm` verb: the action is read without regard to case.
pub fn set_pwm(action: &str, duty_bits: u32) -> (r: Result<Command, VerbError>)
    ensures
        r == pwm_request(upper_of(action@), duty_bits),
{
    let upper = uppercase(action);
    pwm_command(upper.as_str(), duty_bits)
}

/// The duty cycle that IEC 61851-1 assigns to a cable capacity, as the bit
/// pattern of a 32-bit float: I / 0.6 % up to 51 A (13 A: 13/60, 20 A: 1/3,
/// 32 A: 32/60), I / 2.5 + 64 % above (64 A: 0.896). Other currents are not
/// capacities.
pub open spec fn imax_duty(imax: u32) -> Option<u32> {
    if imax == 0 {
        Some(0)
    } else if imax == 13 {
        Some(0x3e5d_ddde)
    } else if imax == 20 {
        Some(0x3eaa_aaab)
    } else if imax == 32 {
        Some(0x3f08_8889)
    } else if imax == 64 {
        Some(0x3f65_6042)
    } else {
        None
    }
}

/// The `imax` verb's check: the current must be a cable capacity (0, 13, 20,
/// 32 or 64 A); the result is the duty cycle that advertises it.
pub fn imax_duty_bits(imax: u32) -> (r: Result<u32, VerbError>)
    ensures
        r == (match imax_duty(imax) {
            Some(d) => Ok(d),
            None => Err(VerbError::InvalidArgument),
        }),
{
    match imax {
        0 => Ok(0),
        13 => Ok(0x3e5d_ddde),
        20 => Ok(0x3eaa_aaab),
        32 => Ok(0x3f08_8889),
        64 => Ok(0x3f65_6042),
        _ => Err(VerbError::InvalidArgument),
    }
}

/// Every duty cycle a cable capacity asks for lies in [0, 1].
pub proof fn lemma_imax_duty_valid(imax: u32)
    ensures
        imax_duty(imax) matches Some(d) ==> duty_valid(d),
{
}

/// The `power` verb.
pub fn power_command(allow: bool) -> (r: Command)
    ensures
        r == Command::AllowPowerOn(allow),
{
    Command::AllowPowerOn(allow)
}

/// The `iec6185` verb: turns event reporting on or off.
pub fn enable_command(enable: bool) -> (r: Command)
    ensures
        r == (if enable { Command::Enable } else { Command::Disable }),
{
    if enable {
        Command::Enable
    } else {
        Command::Disable
    }
}

pub open spec fn slac_state_of(status: SlacStatus) -> SlacState {
    match status {
        SlacStatus::Matching => SlacState::Running,
        SlacStatus::Matched => SlacState::Matched,
        SlacStatus::Timeout | SlacStatus::Unmatched => SlacState::NotMatched,
        _ => SlacState::Undefined,
    }
}

/// The `slac` verb: reports the matching progress to the co-processor.
pub fn slac_command(status: SlacStatus) -> (r: Command)
    ensures
        r == Command::SetSlac(slac_state_of(status)),
{
    let state = match status {
        SlacStatus::Matching => SlacState::Running,
        SlacStatus::Matched => SlacState::Matched,
        SlacStatus::Timeout | SlacStatus::Unmatched => SlacState::NotMatched,
        _ => SlacState::Undefined,
    };
    Command::SetSlac(state)
}

/// The SLAC status that an upper-case name names.
pub open spec fn slac_status_name(a: Seq<char>) -> Option<SlacStatus> {
    if a == seq!['I', 'D', 'L', 'E'] {
        Some(SlacStatus::Idle)
    } else if a == seq!['W', 'A', 'I', 'T', 'I', 'N', 'G'] {
        Some(SlacStatus::Waiting)
    } else if a == seq!['M', 'A', 'T', 'C', 'H', 'I', 'N', 'G'] {
        Some(SlacStatus::Matching)
    } else if a == seq!['M', 'A', 'T', 'C', 'H', 'E', 'D'] {
        Some(SlacStatus::Matched)
    } else if a == seq!['T', 'I', 'M', 'E', 'O', 'U', 'T'] {
        Some(SlacStatus::Timeout)
    } else if a == seq!['U', 'N', 'M', 'A', 'T', 'C', 'H', 'E', 'D'] {
        Some(SlacStatus::Unmatched)
    } else {
        None
    }
}

/// The SLAC status named by an upper-case name.
pub fn slac_status_of_upper(upper_name: &str) -> (r: Option<SlacStatus>)
    ensures
        r == slac_status_name(upper_name@),
{
    proof {
        reveal_strlit("IDLE");
        reveal_strlit("WAITING");
        reveal_strlit("MATCHING");
        reveal_strlit("MATCHED");
        reveal_strlit("TIMEOUT");
        reveal_strlit("UNMATCHED");
        assert("IDLE"@ =~= seq!['I', 'D', 'L', 'E']);
        assert("WAITING"@ =~= seq!['W', 'A', 'I', 'T', 'I', 'N', 'G']);
        assert("MATCHING"@ =~= seq!['M', 'A', 'T', 'C', 'H', 'I', 'N', 'G']);
        assert("MATCHED"@ =~= seq!['M', 'A', 'T', 'C', 'H', 'E', 'D']);
        assert("TIMEOUT"@ =~= seq!['T', 'I', 'M', 'E', 'O', 'U', 'T']);
        assert("UNMATCHED"@ =~= seq!['U', 'N', 'M', 'A', 'T', 'C', 'H', 'E', 'D']);
    }
    if chars_are(upper_name, "IDLE") {
        Some(SlacStatus::Idle)
    } else if chars_are(upper_name, "WAITING") {
        Some(SlacStatus::Waiting)
    } else if chars_are(upper_name, "MATCHING") {
        Some(SlacStatus::Matching)
    } else if chars_are(upper_name, "MATCHED") {
        Some(SlacStatus::Matched)
    } else if chars_are(upper_name, "TIMEOUT") {
        Some(SlacStatus::Timeout)
    } else if chars_are(upper_name, "UNMATCHED") {
        Some(SlacStatus::Unmatched)
    } else {
        None
    }
}

/// The `slac` verb's argument: a status name, read without regard to case.
pub fn slac_status_of(name: &str) -> (r: Result<SlacStatus, VerbError>)
    ensures
        r == (match slac_status_name(upper_of(name@)) {
            Some(st) => Ok(st),
            None => Err(VerbError::InvalidArgument),
        }),
{
    let upper = uppercase(name);
    match slac_status_of_upper(upper.as_str()) {
        Some(st) => Ok(st),
        None => Err(VerbError::InvalidArgument),
    }
}

} // verus!
