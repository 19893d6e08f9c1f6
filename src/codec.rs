//! The messages exchanged with the charging co-processor, in the protobuf
//! wire format. Commands go down (`HighToLow`), events and heartbeats come up
//! (`LowToHigh`). Each message holds one field of a `oneof`:
//!
//! | direction | field | number | wire type |
//! |---|---|---|---|
//! | down | enable | 1 | bytes (empty message) |
//! | down | disable | 2 | bytes (empty message) |
//! | down | allow_power_on | 3 | varint |
//! | down | set_pwm | 4 | bytes: state = 1 (varint), duty_cycle = 2 (fixed32) |
//! | down | heartbeat | 5 | bytes (empty message) |
//! | down | set_slac | 6 | bytes: state = 1 (varint) |
//! | up | event | 1 | varint |
//! | up | heartbeat | 2 | bytes (empty message) |
//!
//! The duty cycle is carried as the IEEE-754 bit pattern of a 32-bit float;
//! this crate never interprets it.
//!
//! Decoding reads fields to the end of the buffer, as protobuf does: fields
//! of unknown number are skipped, the last member of the `oneof` wins, and a
//! repeated member that holds a message is merged into the one before it.
//! Fields left out take their default value. A buffer with no member of the
//! `oneof` is empty.
//!
//! Encoding into a growable buffer cannot fail: the `mk_*` encoders return a
//! `Result` so that callers can chain them with fallible steps, and their
//! contracts say it is always `Ok`.

use crate::fields::{le32_value, lemma_read_varint_len, next_field, read_inner, scan_inner, take_next_field};
use crate::varint::{lemma_read_varint, push_varint, varint};
use vstd::prelude::*;

verus! {

/// State of the control-pilot PWM generator.
#[derive(Clone, Copy, Debug, PartialEq, Eq, Structural)]
pub enum PwmState {
    On,
    Off,
    Fault,
}

/// State of the SLAC matching as reported to the co-processor.
#[derive(Clone, Copy, Debug, PartialEq, Eq, Structural)]
pub enum SlacState {
    Undefined,
    Running,
    Matched,
    NotMatched,
}

/// An IEC 61851 event raised by the co-processor.
#[derive(Clone, Copy, Debug, PartialEq, Eq, Structural)]
pub enum Iec61851Event {
    CarPluggedIn,
    CarRequestedPower,
    PowerOn,
    PowerOff,
    CarRequestedStopPower,
    CarUnplugged,
    /// Control pilot error.
    ErrorE,
    /// Diode fault.
    ErrorDf,
    /// Relay (contactor) fault.
    ErrorRelais,
    /// Residual current detected.
    ErrorRcd,
    ErrorVentilationNotAvailable,
    ErrorOverCurrent,
    EnterBcd,
    LeaveBcd,
    PermanentFault,
    EvseReplugStarted,
    EvseReplugFinished,
    /// Proximity pilot: no cable.
    PpImaxNc,
    /// Proximity pilot: 13 A cable.
    PpImax13a,
    /// Proximity pilot: 20 A cable.
    PpImax20a,
    /// Proximity pilot: 32 A cable.
    PpImax32a,
    /// Proximity pilot: 64 A cable.
    PpImax64a,
}

/// A command sent to the co-processor.
#[derive(Clone, Copy, Debug, PartialEq, Eq, Structural)]
pub enum Command {
    Enable,
    Disable,
    AllowPowerOn(bool),
    SetPwm { state: PwmState, duty_bits: u32 },
    SetSlac(SlacState),
    Heartbeat,
}

/// A message received from the co-processor.
#[derive(Clone, Copy, Debug, PartialEq, Eq, Structural)]
pub enum Frame {
    Event(Iec61851Event),
    Heartbeat,
}

/// Why a buffer could not be decoded.
#[derive(Clone, Copy, Debug, PartialEq, Eq, Structural)]
pub enum CodecError {
    /// The buffer holds no field.
    Empty,
    /// The buffer is truncated or does not follow the message layout.
    Malformed,
    /// A well-formed event frame whose event code is not known.
    UnknownEventCode(u64),
    /// A well-formed command whose state code names no state.
    UnknownStateCode(u64),
}

/// What the reader makes of a received buffer.
#[derive(Clone, Copy, Debug, PartialEq, Eq, Structural)]
pub enum EventMsg {
    Evt(Iec61851Event),
    Heartbeat(),
    Error(CodecError),
}

pub open spec fn event_code(e: Iec61851Event) -> nat {
    match e {
        Iec61851Event::CarPluggedIn => 0,
        Iec61851Event::CarRequestedPower => 1,
        Iec61851Event::PowerOn => 2,
        Iec61851Event::PowerOff => 3,
        Iec61851Event::CarRequestedStopPower => 4,
        Iec61851Event::CarUnplugged => 5,
        Iec61851Event::ErrorE => 6,
        Iec61851Event::ErrorDf => 7,
        Iec61851Event::ErrorRelais => 8,
        Iec61851Event::ErrorRcd => 9,
        Iec61851Event::ErrorVentilationNotAvailable => 10,
        Iec61851Event::ErrorOverCurrent => 11,
        Iec61851Event::EnterBcd => 12,
        Iec61851Event::LeaveBcd => 13,
        Iec61851Event::PermanentFault => 14,
        Iec61851Event::EvseReplugStarted => 15,
        Iec61851Event::EvseReplugFinished => 16,
        Iec61851Event::PpImaxNc => 17,
        Iec61851Event::PpImax13a => 18,
        Iec61851Event::PpImax20a => 19,
        Iec61851Event::PpImax32a => 20,
        Iec61851Event::PpImax64a => 21,
    }
}

/// The event with a given code, if any.
pub open spec fn event_of_code(c: nat) -> Option<Iec61851Event> {
    if exists|e: Iec61851Event| event_code(e) == c {
        Some(choose|e: Iec61851Event| event_code(e) == c)
    } else {
        None
    }
}

pub open spec fn pwm_code(s: PwmState) -> nat {
    match s {
        PwmState::On => 0,
        PwmState::Off => 1,
        PwmState::Fault => 2,
    }
}

pub open spec fn pwm_of_code(c: nat) -> Option<PwmState> {
    if c == 0 {
        Some(PwmState::On)
    } else if c == 1 {
        Some(PwmState::Off)
    } else if c == 2 {
        Some(PwmState::Fault)
    } else {
        None
    }
}

pub open spec fn slac_code(s: SlacState) -> nat {
    match s {
        SlacState::Undefined => 0,
        SlacState::Running => 1,
        SlacState::Matched => 2,
        SlacState::NotMatched => 3,
    }
}

pub open spec fn slac_of_code(c: nat) -> Option<SlacState> {
    if c == 0 {
        Some(SlacState::Undefined)
    } else if c == 1 {
        Some(SlacState::Running)
    } else if c == 2 {
        Some(SlacState::Matched)
    } else if c == 3 {
        Some(SlacState::NotMatched)
    } else {
        None
    }
}

/// The key that opens a field: its number and its wire type.
pub open spec fn field_key(field: nat, wire: nat) -> nat {
    field * 8 + wire
}

/// A field whose value is a varint.
pub open spec fn varint_field(field: nat, v: nat) -> Seq<u8> {
    varint(field_key(field, 0)) + varint(v)
}

/// A length-delimited field.
pub open spec fn bytes_field(field: nat, p: Seq<u8>) -> Seq<u8> {
    varint(field_key(field, 2)) + varint(p.len()) + p
}

/// A 32-bit word, least significant byte first.
pub open spec fn le32(x: u32) -> Seq<u8> {
    seq![
        (x % 256) as u8,
        (x / 256 % 256) as u8,
        (x / 256 / 256 % 256) as u8,
        (x / 256 / 256 / 256) as u8,
    ]
}

pub open spec fn pwm_payload(state: PwmState, duty_bits: u32) -> Seq<u8> {
    varint_field(1, pwm_code(state)) + varint(field_key(2, 5)) + le32(duty_bits)
}

/// The bytes of a command.
pub open spec fn command_bytes(c: Command) -> Seq<u8> {
    match c {
        Command::Enable => bytes_field(1, Seq::empty()),
        Command::Disable => bytes_field(2, Seq::empty()),
        Command::AllowPowerOn(b) => varint_field(3, if b { 1 } else { 0 }),
        Command::SetPwm { state, duty_bits } => bytes_field(4, pwm_payload(state, duty_bits)),
        Command::Heartbeat => bytes_field(5, Seq::empty()),
        Command::SetSlac(s) => bytes_field(6, varint_field(1, slac_code(s))),
    }
}

/// The bytes of a frame as the co-processor sends it.
pub open spec fn frame_bytes(f: Frame) -> Seq<u8> {
    match f {
        Frame::Event(e) => varint_field(1, event_code(e)),
        Frame::Heartbeat => bytes_field(2, Seq::empty()),
    }
}

/// The message a received buffer holds, before its event code is looked up.
#[derive(Clone, Copy, Debug, PartialEq, Eq, Structural)]
pub enum RawFrame {
    Event(u64),
    Heartbeat,
}

/// The command a buffer holds, before its state codes are looked up.
#[derive(Clone, Copy, Debug, PartialEq, Eq, Structural)]
pub enum RawCommand {
    Enable,
    Disable,
    AllowPowerOn(bool),
    SetPwm(u64, u32),
    Heartbeat,
    SetSlac(u64),
}

/// A message without fields: whatever it holds is skipped, if well formed.
pub open spec fn empty_message(p: Seq<u8>) -> bool {
    scan_inner(p, 0, (0, 0)) is Some
}

/// The effect of one field of a received buffer: the last member of the
/// `oneof` wins, other field numbers are skipped.
pub open spec fn frame_step(acc: Option<RawFrame>, tag: nat, wire: nat, v: nat, p: Seq<u8>) -> Option<Option<RawFrame>> {
    if tag == 1 {
        if wire == 0 {
            Some(Some(RawFrame::Event(v as u64)))
        } else {
            None
        }
    } else if tag == 2 {
        if wire == 2 && empty_message(p) {
            Some(Some(RawFrame::Heartbeat))
        } else {
            None
        }
    } else {
        Some(acc)
    }
}

/// Reads the fields of a received buffer to its end. `None` if malformed.
pub open spec fn scan_frame(s: Seq<u8>, acc: Option<RawFrame>) -> Option<Option<RawFrame>>
    decreases s.len(),
{
    if s.len() == 0 {
        Some(acc)
    } else {
        match next_field(s, 100) {
            None => None,
            Some((tag, wire, v, p, r)) => if r.len() < s.len() {
                match frame_step(acc, tag, wire, v, p) {
                    Some(a) => scan_frame(r, a),
                    None => None,
                }
            } else {
                None
            },
        }
    }
}

/// What a received buffer decodes to. A buffer without a member of the
/// `oneof` is empty; an event code is read as the 32-bit integer that
/// protobuf enums are.
pub open spec fn frame_of(s: Seq<u8>) -> Result<Frame, CodecError> {
    match scan_frame(s, None) {
        None => Err(CodecError::Malformed),
        Some(None) => Err(CodecError::Empty),
        Some(Some(RawFrame::Heartbeat)) => Ok(Frame::Heartbeat),
        Some(Some(RawFrame::Event(v))) => match event_of_code(v as nat % 4294967296) {
            Some(e) => Ok(Frame::Event(e)),
            None => Err(CodecError::UnknownEventCode(v)),
        },
    }
}

pub open spec fn event_msg_of(r: Result<Frame, CodecError>) -> EventMsg {
    match r {
        Ok(Frame::Event(e)) => EventMsg::Evt(e),
        Ok(Frame::Heartbeat) => EventMsg::Heartbeat(),
        Err(e) => EventMsg::Error(e),
    }
}

/// The effect of one field of a command buffer. A repeated member of the
/// `oneof` that holds a message is merged into the one before it.
pub open spec fn command_step(acc: Option<RawCommand>, tag: nat, wire: nat, v: nat, p: Seq<u8>) -> Option<Option<RawCommand>> {
    if tag == 1 || tag == 2 || tag == 5 {
        if wire == 2 && empty_message(p) {
            Some(
                Some(
                    if tag == 1 {
                        RawCommand::Enable
                    } else if tag == 2 {
                        RawCommand::Disable
                    } else {
                        RawCommand::Heartbeat
                    },
                ),
            )
        } else {
            None
        }
    } else if tag == 3 {
        if wire == 0 {
            Some(Some(RawCommand::AllowPowerOn(v != 0)))
        } else {
            None
        }
    } else if tag == 4 {
        let start = match acc {
            Some(RawCommand::SetPwm(st, d)) => (st, d),
            _ => (0u64, 0u32),
        };
        if wire == 2 {
            match scan_inner(p, 2, start) {
                Some((st, d)) => Some(Some(RawCommand::SetPwm(st, d))),
                None => None,
            }
        } else {
            None
        }
    } else if tag == 6 {
        let start = match acc {
            Some(RawCommand::SetSlac(st)) => (st, 0u32),
            _ => (0u64, 0u32),
        };
        if wire == 2 {
            match scan_inner(p, 1, start) {
                Some((st, _)) => Some(Some(RawCommand::SetSlac(st))),
                None => None,
            }
        } else {
            None
        }
    } else {
        Some(acc)
    }
}

/// Reads the fields of a command buffer to its end. `None` if malformed.
pub open spec fn scan_command(s: Seq<u8>, acc: Option<RawCommand>) -> Option<Option<RawCommand>>
    decreases s.len(),
{
    if s.len() == 0 {
        Some(acc)
    } else {
        match next_field(s, 100) {
            None => None,
            Some((tag, wire, v, p, r)) => if r.len() < s.len() {
                match command_step(acc, tag, wire, v, p) {
                    Some(a) => scan_command(r, a),
                    None => None,
                }
            } else {
                None
            },
        }
    }
}

/// The command a raw command stands for; a state code is read as a 32-bit
/// integer and must name a state.
pub open spec fn command_of_raw(c: RawCommand) -> Result<Command, CodecError> {
    match c {
        RawCommand::Enable => Ok(Command::Enable),
        RawCommand::Disable => Ok(Command::Disable),
        RawCommand::AllowPowerOn(b) => Ok(Command::AllowPowerOn(b)),
        RawCommand::Heartbeat => Ok(Command::Heartbeat),
        RawCommand::SetPwm(st, d) => match pwm_of_code(st as nat % 4294967296) {
            Some(state) => Ok(Command::SetPwm { state, duty_bits: d }),
            None => Err(CodecError::UnknownStateCode(st)),
        },
        RawCommand::SetSlac(st) => match slac_of_code(st as nat % 4294967296) {
            Some(state) => Ok(Command::SetSlac(state)),
            None => Err(CodecError::UnknownStateCode(st)),
        },
    }
}

/// What a command buffer decodes to.
pub open spec fn command_of(s: Seq<u8>) -> Result<Command, CodecError> {
    match scan_command(s, None) {
        None => Err(CodecError::Malformed),
        Some(None) => Err(CodecError::Empty),
        Some(Some(c)) => command_of_raw(c),
    }
}

impl Iec61851Event {
    /// The event's code on the wire.
    pub fn code(&self) -> (r: u64)
        ensures
            r as nat == event_code(*self),
    {
        match self {
            Iec61851Event::CarPluggedIn => 0,
            Iec61851Event::CarRequestedPower => 1,
            Iec61851Event::PowerOn => 2,
            Iec61851Event::PowerOff => 3,
            Iec61851Event::CarRequestedStopPower => 4,
            Iec61851Event::CarUnplugged => 5,
            Iec61851Event::ErrorE => 6,
            Iec61851Event::ErrorDf => 7,
            Iec61851Event::ErrorRelais => 8,
            Iec61851Event::ErrorRcd => 9,
            Iec61851Event::ErrorVentilationNotAvailable => 10,
            Iec61851Event::ErrorOverCurrent => 11,
            Iec61851Event::EnterBcd => 12,
            Iec61851Event::LeaveBcd => 13,
            Iec61851Event::PermanentFault => 14,
            Iec61851Event::EvseReplugStarted => 15,
            Iec61851Event::EvseReplugFinished => 16,
            Iec61851Event::PpImaxNc => 17,
            Iec61851Event::PpImax13a => 18,
            Iec61851Event::PpImax20a => 19,
            Iec61851Event::PpImax32a => 20,
            Iec61851Event::PpImax64a => 21,
        }
    }

    /// The event with code `c`, if there is one.
    pub fn from_code(c: u64) -> (r: Option<Iec61851Event>)
        ensures
            r == event_of_code(c as nat),
    {
        proof {
            lemma_event_code_injective();
        }
        let r = match c {
            0 => Some(Iec61851Event::CarPluggedIn),
            1 => Some(Iec61851Event::CarRequestedPower),
            2 => Some(Iec61851Event::PowerOn),
            3 => Some(Iec61851Event::PowerOff),
            4 => Some(Iec61851Event::CarRequestedStopPower),
            5 => Some(Iec61851Event::CarUnplugged),
            6 => Some(Iec61851Event::ErrorE),
            7 => Some(Iec61851Event::ErrorDf),
            8 => Some(Iec61851Event::ErrorRelais),
            9 => Some(Iec61851Event::ErrorRcd),
            10 => Some(Iec61851Event::ErrorVentilationNotAvailable),
            11 => Some(Iec61851Event::ErrorOverCurrent),
            12 => Some(Iec61851Event::EnterBcd),
            13 => Some(Iec61851Event::LeaveBcd),
            14 => Some(Iec61851Event::PermanentFault),
            15 => Some(Iec61851Event::EvseReplugStarted),
            16 => Some(Iec61851Event::EvseReplugFinished),
            17 => Some(Iec61851Event::PpImaxNc),
            18 => Some(Iec61851Event::PpImax13a),
            19 => Some(Iec61851Event::PpImax20a),
            20 => Some(Iec61851Event::PpImax32a),
            21 => Some(Iec61851Event::PpImax64a),
            _ => None,
        };
        proof {
            if let Some(e) = r {
                assert(event_code(e) == c);
            }
        }
        r
    }
}

/// No two events share a code, and every code is below 22.
pub proof fn lemma_event_code_injective()
    ensures
        forall|a: Iec61851Event, b: Iec61851Event|
            event_code(a) == event_code(b) ==> a == b,
        forall|a: Iec61851Event| event_code(a) < 22,
{
}

/// Every event is found again from its code.
pub proof fn lemma_event_of_code(e: Iec61851Event)
    ensures
        event_of_code(event_code(e)) == Some(e),
{
    lemma_event_code_injective();
}

impl PwmState {
    pub fn code(&self) -> (r: u64)
        ensures
            r as nat == pwm_code(*self),
    {
        match self {
            PwmState::On => 0,
            PwmState::Off => 1,
            PwmState::Fault => 2,
        }
    }

    pub fn from_code(c: u64) -> (r: Option<PwmState>)
        ensures
            r == pwm_of_code(c as nat),
    {
        match c {
            0 => Some(PwmState::On),
            1 => Some(PwmState::Off),
            2 => Some(PwmState::Fault),
            _ => None,
        }
    }
}

impl SlacState {
    pub fn code(&self) -> (r: u64)
        ensures
            r as nat == slac_code(*self),
    {
        match self {
            SlacState::Undefined => 0,
            SlacState::Running => 1,
            SlacState::Matched => 2,
            SlacState::NotMatched => 3,
        }
    }

    pub fn from_code(c: u64) -> (r: Option<SlacState>)
        ensures
            r == slac_of_code(c as nat),
    {
        match c {
            0 => Some(SlacState::Undefined),
            1 => Some(SlacState::Running),
            2 => Some(SlacState::Matched),
            3 => Some(SlacState::NotMatched),
            _ => None,
        }
    }
}

fn put_varint_field(buf: &mut Vec<u8>, field: u64, v: u64)
    requires
        field < 256,
    ensures
        final(buf)@ == old(buf)@ + varint_field(field as nat, v as nat),
{
    push_varint(buf, field * 8);
    push_varint(buf, v);
    proof {
        assert(final(buf)@ =~= old(buf)@ + varint_field(field as nat, v as nat));
    }
}

fn put_bytes_field(buf: &mut Vec<u8>, field: u64, payload: Vec<u8>)
    requires
        field < 256,
    ensures
        final(buf)@ == old(buf)@ + bytes_field(field as nat, payload@),
{
    push_varint(buf, field * 8 + 2);
    push_varint(buf, payload.len() as u64);
    let mut p = payload;
    buf.append(&mut p);
    proof {
        assert(final(buf)@ =~= old(buf)@ + bytes_field(field as nat, payload@));
    }
}

fn put_le32(buf: &mut Vec<u8>, x: u32)
    ensures
        final(buf)@ == old(buf)@ + le32(x),
{
    buf.push((x % 256) as u8);
    buf.push((x / 256 % 256) as u8);
    buf.push((x / 256 / 256 % 256) as u8);
    buf.push((x / 256 / 256 / 256) as u8);
    proof {
        assert(final(buf)@ =~= old(buf)@ + le32(x));
    }
}

/// Encodes a command for the co-processor.
pub fn encode_command(c: &Command) -> (r: Vec<u8>)
    ensures
        r@ == command_bytes(*c),
{
    let mut buf: Vec<u8> = Vec::new();
    match c {
        Command::Enable => put_bytes_field(&mut buf, 1, Vec::new()),
        Command::Disable => put_bytes_field(&mut buf, 2, Vec::new()),
        Command::AllowPowerOn(b) => put_varint_field(&mut buf, 3, if *b { 1 } else { 0 }),
        Command::SetPwm { state, duty_bits } => {
            let mut p: Vec<u8> = Vec::new();
            put_varint_field(&mut p, 1, state.code());
            push_varint(&mut p, 21);
            put_le32(&mut p, *duty_bits);
            assert(p@ =~= pwm_payload(*state, *duty_bits));
            put_bytes_field(&mut buf, 4, p);
        },
        Command::Heartbeat => put_bytes_field(&mut buf, 5, Vec::new()),
        Command::SetSlac(st) => {
            let mut p: Vec<u8> = Vec::new();
            put_varint_field(&mut p, 1, st.code());
            put_bytes_field(&mut buf, 6, p);
        },
    }
    assert(buf@ =~= command_bytes(*c));
    buf
}

/// Encodes a frame as the co-processor sends it.
pub fn encode_frame(f: &Frame) -> (r: Vec<u8>)
    ensures
        r@ == frame_bytes(*f),
{
    let mut buf: Vec<u8> = Vec::new();
    match f {
        Frame::Event(e) => put_varint_field(&mut buf, 1, e.code()),
        Frame::Heartbeat => put_bytes_field(&mut buf, 2, Vec::new()),
    }
    assert(buf@ =~= frame_bytes(*f));
    buf
}

fn is_empty_message(p: &[u8]) -> (r: bool)
    ensures
        r == empty_message(p@),
{
    match read_inner(p, 0, (0, 0)) {
        Some(_) => true,
        None => false,
    }
}

/// Decodes a frame received from the co-processor.
pub fn decode_frame(bytes: &[u8]) -> (r: Result<Frame, CodecError>)
    ensures
        r == frame_of(bytes@),
{
    let mut cur = bytes;
    let mut acc: Option<RawFrame> = None;
    while cur.len() > 0
        invariant
            scan_frame(bytes@, None) == scan_frame(cur@, acc),
        decreases cur@.len(),
    {
        match take_next_field(cur, 100) {
            None => return Err(CodecError::Malformed),
            Some((tag, wire, v, p, rest)) => {
                if tag == 1 {
                    if wire != 0 {
                        return Err(CodecError::Malformed);
                    }
                    acc = Some(RawFrame::Event(v));
                } else if tag == 2 {
                    if wire != 2 || !is_empty_message(p) {
                        return Err(CodecError::Malformed);
                    }
                    acc = Some(RawFrame::Heartbeat);
                }
                cur = rest;
            },
        }
    }
    match acc {
        None => Err(CodecError::Empty),
        Some(RawFrame::Heartbeat) => Ok(Frame::Heartbeat),
        Some(RawFrame::Event(v)) => match Iec61851Event::from_code(v % 4294967296) {
            Some(e) => Ok(Frame::Event(e)),
            None => Err(CodecError::UnknownEventCode(v)),
        },
    }
}

/// Decodes a command buffer.
pub fn decode_command(bytes: &[u8]) -> (r: Result<Command, CodecError>)
    ensures
        r == command_of(bytes@),
{
    let mut cur = bytes;
    let mut acc: Option<RawCommand> = None;
    while cur.len() > 0
        invariant
            scan_command(bytes@, None) == scan_command(cur@, acc),
        decreases cur@.len(),
    {
        match take_next_field(cur, 100) {
            None => return Err(CodecError::Malformed),
            Some((tag, wire, v, p, rest)) => {
                if tag == 1 || tag == 2 || tag == 5 {
                    if wire != 2 || !is_empty_message(p) {
                        return Err(CodecError::Malformed);
                    }
                    acc = Some(
                        if tag == 1 {
                            RawCommand::Enable
                        } else if tag == 2 {
                            RawCommand::Disable
                        } else {
                            RawCommand::Heartbeat
                        },
                    );
                } else if tag == 3 {
                    if wire != 0 {
                        return Err(CodecError::Malformed);
                    }
                    acc = Some(RawCommand::AllowPowerOn(v != 0));
                } else if tag == 4 {
                    let start = match acc {
                        Some(RawCommand::SetPwm(st, d)) => (st, d),
                        _ => (0u64, 0u32),
                    };
                    if wire != 2 {
                        return Err(CodecError::Malformed);
                    }
                    match read_inner(p, 2, start) {
                        Some((st, d)) => acc = Some(RawCommand::SetPwm(st, d)),
                        None => return Err(CodecError::Malformed),
                    }
                } else if tag == 6 {
                    let start = match acc {
                        Some(RawCommand::SetSlac(st)) => (st, 0u32),
                        _ => (0u64, 0u32),
                    };
                    if wire != 2 {
                        return Err(CodecError::Malformed);
                    }
                    match read_inner(p, 1, start) {
                        Some((st, _)) => acc = Some(RawCommand::SetSlac(st)),
                        None => return Err(CodecError::Malformed),
                    }
                }
                cur = rest;
            },
        }
    }
    match acc {
        None => Err(CodecError::Empty),
        Some(RawCommand::Enable) => Ok(Command::Enable),
        Some(RawCommand::Disable) => Ok(Command::Disable),
        Some(RawCommand::AllowPowerOn(b)) => Ok(Command::AllowPowerOn(b)),
        Some(RawCommand::Heartbeat) => Ok(Command::Heartbeat),
        Some(RawCommand::SetPwm(st, d)) => match PwmState::from_code(st % 4294967296) {
            Some(state) => Ok(Command::SetPwm { state, duty_bits: d }),
            None => Err(CodecError::UnknownStateCode(st)),
        },
        Some(RawCommand::SetSlac(st)) => match SlacState::from_code(st % 4294967296) {
            Some(state) => Ok(Command::SetSlac(state)),
            None => Err(CodecError::UnknownStateCode(st)),
        },
    }
}

/// Decodes a buffer received from the co-processor into what the reader
/// acts on.
pub fn msg_uncode(buffer: &[u8]) -> (r: EventMsg)
    ensures
        r == event_msg_of(frame_of(buffer@)),
{
    match decode_frame(buffer) {
        Ok(Frame::Event(e)) => EventMsg::Evt(e),
        Ok(Frame::Heartbeat) => EventMsg::Heartbeat(),
        Err(e) => EventMsg::Error(e),
    }
}

/// Encodes the command that disables the IEC 61851 state machine.
pub fn mk_disable() -> (r: Result<Vec<u8>, CodecError>)
    ensures
        match r {
            Ok(b) => b@ == command_bytes(Command::Disable),
            Err(_) => false,
        },
{
    Ok(encode_command(&Command::Disable))
}

/// Encodes the command that enables the IEC 61851 state machine.
pub fn mk_enable() -> (r: Result<Vec<u8>, CodecError>)
    ensures
        match r {
            Ok(b) => b@ == command_bytes(Command::Enable),
            Err(_) => false,
        },
{
    Ok(encode_command(&Command::Enable))
}

/// Encodes the command that allows or forbids closing the power relay.
pub fn mk_power(allow: bool) -> (r: Result<Vec<u8>, CodecError>)
    ensures
        match r {
            Ok(b) => b@ == command_bytes(Command::AllowPowerOn(allow)),
            Err(_) => false,
        },
{
    Ok(encode_command(&Command::AllowPowerOn(allow)))
}

/// Encodes the keep-alive sent to the co-processor.
pub fn mk_heartbeat() -> (r: Result<Vec<u8>, CodecError>)
    ensures
        match r {
            Ok(b) => b@ == command_bytes(Command::Heartbeat),
            Err(_) => false,
        },
{
    Ok(encode_command(&Command::Heartbeat))
}

/// Encodes the keep-alive that the co-processor sends, as it sends it.
pub fn mk_lowbeat() -> (r: Result<Vec<u8>, CodecError>)
    ensures
        match r {
            Ok(b) => b@ == frame_bytes(Frame::Heartbeat),
            Err(_) => false,
        },
{
    Ok(encode_frame(&Frame::Heartbeat))
}

/// Encodes a PWM setting; `duty_bits` is the bit pattern of the duty cycle
/// as a 32-bit float.
pub fn mk_pwm(state: &PwmState, duty_bits: u32) -> (r: Result<Vec<u8>, CodecError>)
    ensures
        match r {
            Ok(b) => b@ == command_bytes(Command::SetPwm { state: *state, duty_bits }),
            Err(_) => false,
        },
{
    Ok(encode_command(&Command::SetPwm { state: *state, duty_bits }))
}

/// Encodes a SLAC state report.
pub fn mk_slac(state: &SlacState) -> (r: Result<Vec<u8>, CodecError>)
    ensures
        match r {
            Ok(b) => b@ == command_bytes(Command::SetSlac(*state)),
            Err(_) => false,
        },
{
    Ok(encode_command(&Command::SetSlac(*state)))
}

proof fn lemma_varint_field(tag: u64, v: u64, rest: Seq<u8>, budget: nat)
    requires
        1 <= tag < 0x2000_0000,
    ensures
        next_field(varint_field(tag as nat, v as nat) + rest, budget) == Some(
            (tag as nat, 0nat, v as nat, Seq::<u8>::empty(), rest),
        ),
{
    let k = (tag * 8) as u64;
    let a = varint(k as nat);
    let b = varint(v as nat);
    let s = varint_field(tag as nat, v as nat) + rest;
    assert(s =~= a + (b + rest));
    lemma_read_varint(k, b + rest);
    assert(s.skip(a.len() as int) =~= b + rest);
    lemma_read_varint(v, rest);
    assert((b + rest).skip(b.len() as int) =~= rest);
}

proof fn lemma_bytes_field(tag: u64, p: Seq<u8>, rest: Seq<u8>, budget: nat)
    requires
        1 <= tag < 0x2000_0000,
        p.len() <= u64::MAX,
    ensures
        next_field(bytes_field(tag as nat, p) + rest, budget) == Some(
            (tag as nat, 2nat, p.len(), p, rest),
        ),
{
    let k = (tag * 8 + 2) as u64;
    let a = varint(k as nat);
    let b = varint(p.len());
    let s = bytes_field(tag as nat, p) + rest;
    assert(s =~= a + (b + (p + rest)));
    lemma_read_varint(k, b + (p + rest));
    let r = s.skip(a.len() as int);
    assert(r =~= b + (p + rest));
    lemma_read_varint(p.len() as u64, p + rest);
    let q = r.skip(b.len() as int);
    assert(q =~= p + rest);
    assert(q.take(p.len() as int) =~= p);
    assert(q.skip(p.len() as int) =~= rest);
}

proof fn lemma_fixed32_field(tag: u64, x: u32, rest: Seq<u8>, budget: nat)
    requires
        1 <= tag < 0x2000_0000,
    ensures
        next_field(varint(field_key(tag as nat, 5)) + le32(x) + rest, budget) == Some(
            (tag as nat, 5nat, 0nat, le32(x), rest),
        ),
{
    let k = (tag * 8 + 5) as u64;
    let a = varint(k as nat);
    let s = a + le32(x) + rest;
    assert(s =~= a + (le32(x) + rest));
    lemma_read_varint(k, le32(x) + rest);
    let r = s.skip(a.len() as int);
    assert(r =~= le32(x) + rest);
    assert(r.take(4) =~= le32(x));
    assert(r.skip(4) =~= rest);
}

proof fn lemma_le32(x: u32)
    ensures
        le32(x).len() == 4,
        le32_value(le32(x)) == x,
{
    let y = x / 256;
    let z = y / 256;
    let w = z / 256;
    assert(x == x % 256 + 256 * y);
    assert(y == y % 256 + 256 * z);
    assert(z == z % 256 + 256 * w);
}

proof fn lemma_empty_message()
    ensures
        empty_message(Seq::empty()),
{
    assert(scan_inner(Seq::empty(), 0, (0, 0)) == Some((0u64, 0u32)));
}

/// The payload of a PWM setting reads back as its state code and duty cycle,
/// whatever an earlier setting held.
proof fn lemma_pwm_payload(state: PwmState, duty_bits: u32, start: (u64, u32))
    ensures
        scan_inner(pwm_payload(state, duty_bits), 2, start) == Some(
            (pwm_code(state) as u64, duty_bits),
        ),
{
    let code = pwm_code(state) as u64;
    let e = Seq::<u8>::empty();
    let tail = varint(field_key(2, 5)) + le32(duty_bits);
    let p = pwm_payload(state, duty_bits);
    assert(p =~= varint_field(1, code as nat) + tail);
    lemma_varint_field(1, code, tail, 99);
    assert(tail =~= varint(field_key(2, 5)) + le32(duty_bits) + e);
    lemma_fixed32_field(2, duty_bits, e, 99);
    lemma_le32(duty_bits);
    assert(scan_inner(e, 2, (code, duty_bits)) == Some((code, duty_bits)));
    assert(scan_inner(tail, 2, (code, start.1)) == Some((code, duty_bits)));
}

proof fn lemma_slac_payload(state: SlacState, start: (u64, u32))
    ensures
        scan_inner(varint_field(1, slac_code(state)), 1, start) == Some(
            (slac_code(state) as u64, start.1),
        ),
{
    let code = slac_code(state) as u64;
    let e = Seq::<u8>::empty();
    let p = varint_field(1, slac_code(state));
    assert(p =~= varint_field(1, code as nat) + e);
    lemma_varint_field(1, code, e, 99);
    assert(scan_inner(e, 1, (code, start.1)) == Some((code, start.1)));
}

proof fn lemma_one_command_field(s: Seq<u8>, tag: nat, wire: nat, v: nat, p: Seq<u8>, rc: RawCommand)
    requires
        next_field(s, 100) == Some((tag, wire, v, p, Seq::<u8>::empty())),
        command_step(None, tag, wire, v, p) == Some(Some(rc)),
    ensures
        scan_command(s, None) == Some(Some(rc)),
{
    lemma_read_varint_len(s);
    assert(scan_command(Seq::<u8>::empty(), Some(rc)) == Some(Some(rc)));
}

/// Decoding an encoded command gives back the command.
pub proof fn lemma_command_round_trip(c: Command)
    ensures
        command_of(command_bytes(c)) == Ok::<Command, CodecError>(c),
{
    let e = Seq::<u8>::empty();
    let s = command_bytes(c);
    lemma_empty_message();
    match c {
        Command::Enable => {
            assert(s =~= bytes_field(1, e) + e);
            lemma_bytes_field(1, e, e, 100);
            lemma_one_command_field(s, 1, 2, 0, e, RawCommand::Enable);
        },
        Command::Disable => {
            assert(s =~= bytes_field(2, e) + e);
            lemma_bytes_field(2, e, e, 100);
            lemma_one_command_field(s, 2, 2, 0, e, RawCommand::Disable);
        },
        Command::Heartbeat => {
            assert(s =~= bytes_field(5, e) + e);
            lemma_bytes_field(5, e, e, 100);
            lemma_one_command_field(s, 5, 2, 0, e, RawCommand::Heartbeat);
        },
        Command::AllowPowerOn(b) => {
            let v: u64 = if b { 1 } else { 0 };
            assert(s =~= varint_field(3, v as nat) + e);
            lemma_varint_field(3, v, e, 100);
            lemma_one_command_field(s, 3, 0, v as nat, e, RawCommand::AllowPowerOn(b));
        },
        Command::SetPwm { state, duty_bits } => {
            let p = pwm_payload(state, duty_bits);
            let code = pwm_code(state) as u64;
            lemma_read_varint(8, Seq::empty());
            lemma_read_varint(code, Seq::empty());
            lemma_read_varint(21, Seq::empty());
            lemma_le32(duty_bits);
            assert(s =~= bytes_field(4, p) + e);
            lemma_bytes_field(4, p, e, 100);
            lemma_pwm_payload(state, duty_bits, (0, 0));
            lemma_one_command_field(s, 4, 2, p.len(), p, RawCommand::SetPwm(code, duty_bits));
        },
        Command::SetSlac(st) => {
            let p = varint_field(1, slac_code(st));
            let code = slac_code(st) as u64;
            lemma_read_varint(8, Seq::empty());
            lemma_read_varint(code, Seq::empty());
            assert(s =~= bytes_field(6, p) + e);
            lemma_bytes_field(6, p, e, 100);
            lemma_slac_payload(st, (0, 0));
            lemma_one_command_field(s, 6, 2, p.len(), p, RawCommand::SetSlac(code));
        },
    }
}

/// Decoding an encoded frame gives back the frame.
pub proof fn lemma_frame_round_trip(f: Frame)
    ensures
        frame_of(frame_bytes(f)) == Ok::<Frame, CodecError>(f),
{
    let e = Seq::<u8>::empty();
    let s = frame_bytes(f);
    match f {
        Frame::Event(ev) => {
            lemma_event_code_injective();
            lemma_event_of_code(ev);
            let code = event_code(ev) as u64;
            assert(s =~= varint_field(1, code as nat) + e);
            lemma_varint_field(1, code, e, 100);
            assert(scan_frame(e, Some(RawFrame::Event(code))) == Some(Some(RawFrame::Event(code))));
        },
        Frame::Heartbeat => {
            lemma_empty_message();
            assert(s =~= bytes_field(2, e) + e);
            lemma_bytes_field(2, e, e, 100);
            assert(scan_frame(e, Some(RawFrame::Heartbeat)) == Some(Some(RawFrame::Heartbeat)));
        },
    }
}

/// A heartbeat field whose payload is a well-formed message, followed by
/// fields of other numbers, decodes as a heartbeat.
pub proof fn lemma_heartbeat_frame(p: Seq<u8>)
    requires
        p.len() <= u64::MAX,
        empty_message(p),
    ensures
        frame_of(bytes_field(2, p)) == Ok::<Frame, CodecError>(Frame::Heartbeat),
{
    let e = Seq::<u8>::empty();
    assert(bytes_field(2, p) =~= bytes_field(2, p) + e);
    lemma_bytes_field(2, p, e, 100);
    assert(scan_frame(e, Some(RawFrame::Heartbeat)) == Some(Some(RawFrame::Heartbeat)));
}

/// An event frame whose code names no event decodes as an error that
/// carries the code.
pub proof fn lemma_unknown_event_code(c: u64)
    requires
        event_of_code(c as nat % 4294967296) is None,
    ensures
        frame_of(varint_field(1, c as nat)) == Err::<Frame, CodecError>(
            CodecError::UnknownEventCode(c),
        ),
{
    let e = Seq::<u8>::empty();
    assert(varint_field(1, c as nat) =~= varint_field(1, c as nat) + e);
    lemma_varint_field(1, c, e, 100);
    assert(scan_frame(e, Some(RawFrame::Event(c))) == Some(Some(RawFrame::Event(c))));
}

} // verus!
