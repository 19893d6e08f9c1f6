use am62x_evse::codec::{
    decode_command, decode_frame, encode_command, encode_frame, mk_disable, mk_enable,
    mk_heartbeat, mk_lowbeat, mk_power, mk_pwm, mk_slac, msg_uncode, CodecError, Command,
    EventMsg, Frame, Iec61851Event, PwmState, SlacState,
};

fn all_commands() -> Vec<Command> {
    vec![
        Command::Enable,
        Command::Disable,
        Command::AllowPowerOn(true),
        Command::AllowPowerOn(false),
        Command::SetPwm { state: PwmState::On, duty_bits: 0.05f32.to_bits() },
        Command::SetPwm { state: PwmState::Off, duty_bits: 0 },
        Command::SetPwm { state: PwmState::Fault, duty_bits: u32::MAX },
        Command::SetSlac(SlacState::Undefined),
        Command::SetSlac(SlacState::Running),
        Command::SetSlac(SlacState::Matched),
        Command::SetSlac(SlacState::NotMatched),
        Command::Heartbeat,
    ]
}

#[test]
fn every_command_round_trips() {
    for c in all_commands() {
        let bytes = encode_command(&c);
        assert_eq!(decode_command(&bytes), Ok(c));
    }
}

#[test]
fn every_frame_round_trips() {
    let events = [
        Iec61851Event::CarPluggedIn,
        Iec61851Event::CarUnplugged,
        Iec61851Event::ErrorRcd,
        Iec61851Event::PpImax64a,
    ];
    for e in events {
        let bytes = encode_frame(&Frame::Event(e));
        assert_eq!(decode_frame(&bytes), Ok(Frame::Event(e)));
    }
    let bytes = encode_frame(&Frame::Heartbeat);
    assert_eq!(decode_frame(&bytes), Ok(Frame::Heartbeat));
}

#[test]
fn command_bytes_are_exact() {
    assert_eq!(mk_enable().unwrap(), vec![0x0a, 0x00]);
    assert_eq!(mk_disable().unwrap(), vec![0x12, 0x00]);
    assert_eq!(mk_power(true).unwrap(), vec![0x18, 0x01]);
    assert_eq!(mk_power(false).unwrap(), vec![0x18, 0x00]);
    assert_eq!(mk_heartbeat().unwrap(), vec![0x2a, 0x00]);
    assert_eq!(
        mk_pwm(&PwmState::Off, 0).unwrap(),
        vec![0x22, 0x07, 0x08, 0x01, 0x15, 0x00, 0x00, 0x00, 0x00]
    );
    assert_eq!(
        mk_pwm(&PwmState::On, 0x3d4c_cccd).unwrap(),
        vec![0x22, 0x07, 0x08, 0x00, 0x15, 0xcd, 0xcc, 0x4c, 0x3d]
    );
    assert_eq!(mk_slac(&SlacState::Matched).unwrap(), vec![0x32, 0x02, 0x08, 0x02]);
    assert_eq!(mk_lowbeat().unwrap(), vec![0x12, 0x00]);
}

#[test]
fn event_frames_decode() {
    assert_eq!(msg_uncode(&[0x08, 0x00]), EventMsg::Evt(Iec61851Event::CarPluggedIn));
    assert_eq!(msg_uncode(&[0x08, 0x05]), EventMsg::Evt(Iec61851Event::CarUnplugged));
    assert_eq!(msg_uncode(&[0x08, 0x14]), EventMsg::Evt(Iec61851Event::PpImax32a));
}

#[test]
fn unknown_event_code_is_an_error() {
    assert_eq!(msg_uncode(&[0x08, 0x63]), EventMsg::Error(CodecError::UnknownEventCode(99)));
    assert_eq!(
        msg_uncode(&[0x08, 0xac, 0x02]),
        EventMsg::Error(CodecError::UnknownEventCode(300))
    );
}

#[test]
fn event_code_is_read_as_32_bits() {
    // 2^32 + 2 on the wire is the 32-bit code 2
    assert_eq!(
        msg_uncode(&[0x08, 0x82, 0x80, 0x80, 0x80, 0x10]),
        EventMsg::Evt(Iec61851Event::PowerOn)
    );
}

#[test]
fn empty_and_malformed_buffers() {
    assert_eq!(msg_uncode(&[]), EventMsg::Error(CodecError::Empty));
    assert_eq!(msg_uncode(&[0x08]), EventMsg::Error(CodecError::Malformed));
    assert_eq!(msg_uncode(&[0x08, 0x80]), EventMsg::Error(CodecError::Malformed));
    assert_eq!(msg_uncode(&[0x12, 0x02, 0x00]), EventMsg::Error(CodecError::Malformed));
    assert_eq!(msg_uncode(&[0x08, 0x01, 0x00]), EventMsg::Error(CodecError::Malformed));
    assert_eq!(msg_uncode(&[0x1a, 0x00]), EventMsg::Error(CodecError::Empty));
    assert_eq!(msg_uncode(&[0x12, 0x01, 0x08]), EventMsg::Error(CodecError::Malformed));
    assert_eq!(msg_uncode(&[0x0a, 0x00]), EventMsg::Error(CodecError::Malformed));
    assert_eq!(msg_uncode(&[0x1b, 0x1c]), EventMsg::Error(CodecError::Empty));
    assert_eq!(msg_uncode(&[0x1c]), EventMsg::Error(CodecError::Malformed));
    assert_eq!(msg_uncode(&[0x0f]), EventMsg::Error(CodecError::Malformed));
    assert_eq!(decode_command(&[]), Err(CodecError::Empty));
    assert_eq!(decode_command(&[0x22, 0x02, 0x08, 0x07]), Err(CodecError::UnknownStateCode(7)));
    assert_eq!(decode_command(&[0x22, 0x02, 0x10, 0x00]), Err(CodecError::Malformed));
}

#[test]
fn heartbeat_payload_is_not_inspected() {
    assert_eq!(msg_uncode(&[0x12, 0x02, 0x08, 0x01]), EventMsg::Heartbeat());
}

#[test]
fn eleven_byte_varint_is_refused() {
    let bytes = [0x08, 0xff, 0xff, 0xff, 0xff, 0xff, 0xff, 0xff, 0xff, 0xff, 0x02];
    assert_eq!(msg_uncode(&bytes), EventMsg::Error(CodecError::Malformed));
}

#[test]
fn largest_varint_round_trips() {
    let c = Command::SetPwm { state: PwmState::Fault, duty_bits: u32::MAX };
    let bytes = encode_command(&c);
    assert_eq!(bytes[bytes.len() - 4..], [0xff, 0xff, 0xff, 0xff]);
    assert_eq!(decode_command(&bytes), Ok(c));
}

#[test]
fn event_codes_map_both_ways() {
    for c in 0u64..22 {
        let e = Iec61851Event::from_code(c).unwrap();
        assert_eq!(e.code(), c);
    }
    assert_eq!(Iec61851Event::from_code(22), None);
}

#[test]
fn last_oneof_member_wins() {
    assert_eq!(msg_uncode(&[0x08, 0x00, 0x12, 0x00]), EventMsg::Heartbeat());
    assert_eq!(msg_uncode(&[0x12, 0x00, 0x08, 0x05]), EventMsg::Evt(Iec61851Event::CarUnplugged));
    assert_eq!(
        msg_uncode(&[0x08, 0x01, 0x08, 0x63]),
        EventMsg::Error(CodecError::UnknownEventCode(99))
    );
}

#[test]
fn unknown_fields_are_skipped() {
    // field 5 varint, field 6 fixed64, field 7 bytes, field 8 fixed32, then an event
    let bytes = [
        0x28, 0x05, 0x31, 1, 2, 3, 4, 5, 6, 7, 8, 0x3a, 0x02, 0xaa, 0xbb, 0x45, 1, 2, 3, 4, 0x08,
        0x02,
    ];
    assert_eq!(msg_uncode(&bytes), EventMsg::Evt(Iec61851Event::PowerOn));
    assert_eq!(msg_uncode(&[0x28, 0x05]), EventMsg::Error(CodecError::Empty));
    assert_eq!(msg_uncode(&[0x31, 1, 2, 3]), EventMsg::Error(CodecError::Malformed));
}

#[test]
fn pwm_fields_left_at_default() {
    // SetPwm{state: On, duty_cycle: 0.0} as proto3 encoders write it
    assert_eq!(
        decode_command(&[0x22, 0x00]),
        Ok(Command::SetPwm { state: PwmState::On, duty_bits: 0 })
    );
    // only the duty cycle
    assert_eq!(
        decode_command(&[0x22, 0x05, 0x15, 0x00, 0x00, 0x80, 0x3f]),
        Ok(Command::SetPwm { state: PwmState::On, duty_bits: 0x3f80_0000 })
    );
    assert_eq!(decode_command(&[0x32, 0x00]), Ok(Command::SetSlac(SlacState::Undefined)));
}

#[test]
fn repeated_message_members_merge() {
    // state Fault, then a second set_pwm holding only the duty cycle
    let bytes = [0x22, 0x02, 0x08, 0x02, 0x22, 0x05, 0x15, 0x00, 0x00, 0x80, 0x3f];
    assert_eq!(
        decode_command(&bytes),
        Ok(Command::SetPwm { state: PwmState::Fault, duty_bits: 0x3f80_0000 })
    );
    // a different member in between starts afresh
    let bytes = [0x22, 0x02, 0x08, 0x02, 0x18, 0x01, 0x22, 0x00];
    assert_eq!(decode_command(&bytes), Ok(Command::SetPwm { state: PwmState::On, duty_bits: 0 }));
    assert_eq!(decode_command(&[0x0a, 0x00, 0x18, 0x01]), Ok(Command::AllowPowerOn(true)));
    assert_eq!(decode_command(&[0x18, 0x05]), Ok(Command::AllowPowerOn(true)));
}

#[test]
fn groups_are_skipped() {
    // group 3 holding a varint, then an event
    assert_eq!(
        msg_uncode(&[0x1b, 0x08, 0x01, 0x1c, 0x08, 0x02]),
        EventMsg::Evt(Iec61851Event::PowerOn)
    );
    // nested groups
    assert_eq!(
        msg_uncode(&[0x1b, 0x23, 0x24, 0x1c, 0x08, 0x05]),
        EventMsg::Evt(Iec61851Event::CarUnplugged)
    );
    // end key of another group, unterminated group
    assert_eq!(msg_uncode(&[0x1b, 0x24]), EventMsg::Error(CodecError::Malformed));
    assert_eq!(msg_uncode(&[0x1b, 0x08, 0x01]), EventMsg::Error(CodecError::Malformed));
    // a group inside a command payload
    assert_eq!(
        decode_command(&[0x22, 0x04, 0x1b, 0x1c, 0x08, 0x02]),
        Ok(Command::SetPwm { state: PwmState::Fault, duty_bits: 0 })
    );
}

#[test]
fn group_nesting_is_bounded() {
    let nested = |depth: usize| {
        let mut b = vec![0x1bu8; depth];
        b.extend(vec![0x1cu8; depth]);
        b.extend([0x08, 0x00]);
        b
    };
    assert_eq!(msg_uncode(&nested(100)), EventMsg::Evt(Iec61851Event::CarPluggedIn));
    assert_eq!(msg_uncode(&nested(101)), EventMsg::Error(CodecError::Malformed));
}
