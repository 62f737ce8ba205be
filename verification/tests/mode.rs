use bobbin::errors::{Error, ProtocolError};
use bobbin::framing::Response;
use bobbin::mode::{
    decode_mode, decode_mode_code, debug_entry_step, DebugEntryStep, Mode, ModeAction,
    SessionState,
};

#[test]
fn mode_codes_decode_totally() {
    assert_eq!(decode_mode_code(0x00), Ok(Mode::Dfu));
    assert_eq!(decode_mode_code(0x01), Ok(Mode::Mass));
    assert_eq!(decode_mode_code(0x02), Ok(Mode::Debug));
    assert_eq!(decode_mode_code(0x03), Ok(Mode::Swim));
    assert_eq!(decode_mode_code(0x04), Ok(Mode::Bootloader));
}

#[test]
fn unknown_mode_codes_are_protocol_errors() {
    assert_eq!(
        decode_mode_code(0x05),
        Err(Error::Protocol(ProtocolError::UnknownMode(0x05)))
    );
    assert_eq!(
        decode_mode_code(0xFFFF),
        Err(Error::Protocol(ProtocolError::UnknownMode(0xFFFF)))
    );
}

#[test]
fn mode_decodes_from_the_two_byte_response() {
    let mut res = Response::new(2);
    res.fill(&[0x02, 0x00]);
    assert_eq!(decode_mode(&mut res), Ok(Mode::Debug));

    let mut res = Response::new(2);
    res.fill(&[0x07, 0x00]);
    assert_eq!(
        decode_mode(&mut res),
        Err(Error::Protocol(ProtocolError::UnknownMode(0x07)))
    );
}

#[test]
fn querying_twice_returns_the_same_mode() {
    let mut s = SessionState::new();
    assert_eq!(s.mode, None);
    s.observe_mode(Mode::Swim);
    let first = s.mode;
    assert!(s.action_allowed(ModeAction::Query));
    s.apply(ModeAction::Query);
    let second = s.mode;
    assert_eq!(first, second);
    assert_eq!(second, Some(Mode::Swim));
}

#[test]
fn exit_dfu_is_legal_only_from_dfu() {
    let mut s = SessionState::new();
    assert!(!s.action_allowed(ModeAction::ExitDfu));
    s.observe_mode(Mode::Debug);
    assert!(!s.action_allowed(ModeAction::ExitDfu));
    s.observe_mode(Mode::Dfu);
    assert!(s.action_allowed(ModeAction::ExitDfu));
    s.apply(ModeAction::ExitDfu);
    assert_eq!(s.mode, None);
}

#[test]
fn enter_swd_drives_towards_debug() {
    let mut s = SessionState::new();
    assert!(s.action_allowed(ModeAction::EnterSwd));
    s.apply(ModeAction::EnterSwd);
    assert_eq!(s.mode, Some(Mode::Debug));
}

#[test]
fn debug_entry_follows_the_driving_pattern() {
    assert_eq!(debug_entry_step(Mode::Dfu), DebugEntryStep::ExitDfu);
    assert_eq!(debug_entry_step(Mode::Debug), DebugEntryStep::Done);
    assert_eq!(debug_entry_step(Mode::Mass), DebugEntryStep::EnterSwd);
    assert_eq!(debug_entry_step(Mode::Swim), DebugEntryStep::EnterSwd);
    assert_eq!(debug_entry_step(Mode::Bootloader), DebugEntryStep::EnterSwd);
}
