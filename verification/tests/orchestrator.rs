use alexa_avr_control::avr::{
    parse_code_field, parse_volume_frame, power_precondition, validate_response, volume_steps,
    AvrError,
};
use alexa_avr_control::codec::{AvrCommand, CodecConfig};
use alexa_avr_control::skill::{validate_input_value, validate_volume_value};

fn cfg() -> CodecConfig {
    CodecConfig { volume_ceiling: 101, power_off_digit: 2 }
}

#[test]
fn power_on_while_already_on_is_refused() {
    // The device reports it is on; power-on must fail the precondition
    // before any wire code for it is built.
    let r = power_precondition(&AvrCommand::PowerOn, "PWR0\r\n", &cfg());
    assert!(matches!(r, Err(AvrError::PowerAlreadyOn)));
}

#[test]
fn power_off_while_already_off_is_refused() {
    let r = power_precondition(&AvrCommand::PowerOff, "PWR2\r\n", &cfg());
    assert!(matches!(r, Err(AvrError::PowerAlreadyOff)));
}

#[test]
fn other_commands_while_off_are_refused() {
    let r = power_precondition(&AvrCommand::Mute, "PWR2\r\n", &cfg());
    assert!(matches!(r, Err(AvrError::PowerOffCantProcess)));
    let r = power_precondition(&AvrCommand::SetVolume(5), "PWR2\r\n", &cfg());
    assert!(matches!(r, Err(AvrError::PowerOffCantProcess)));
}

#[test]
fn power_on_while_off_passes_precondition() {
    let r = power_precondition(&AvrCommand::PowerOn, "PWR2\r\n", &cfg());
    assert!(r.is_ok());
}

#[test]
fn commands_while_on_pass_precondition() {
    let r = power_precondition(&AvrCommand::Mute, "PWR0\r\n", &cfg());
    assert!(r.is_ok());
    let r = power_precondition(&AvrCommand::PowerOff, "PWR0\r\n", &cfg());
    assert!(r.is_ok());
}

#[test]
fn power_precondition_honors_configured_off_digit() {
    let c = CodecConfig { volume_ceiling: 101, power_off_digit: 1 };
    let r = power_precondition(&AvrCommand::PowerOff, "PWR1\r\n", &c);
    assert!(matches!(r, Err(AvrError::PowerAlreadyOff)));
    // With digit 2 configured, a PWR1 frame does not read as off.
    let r = power_precondition(&AvrCommand::PowerOff, "PWR1\r\n", &cfg());
    assert!(r.is_ok());
}

#[test]
fn validate_response_match_and_mismatch() {
    let r = validate_response(AvrCommand::Mute, "MUT0\r\n".to_string(), &cfg());
    assert!(r.is_ok());
    // The pattern may sit inside a longer reply.
    let r = validate_response(AvrCommand::Mute, "R\r\nMUT0\r\n".to_string(), &cfg());
    assert!(r.is_ok());
    let r = validate_response(AvrCommand::Mute, "MUT1\r\n".to_string(), &cfg());
    match r {
        Err(AvrError::ResponseDoesntMatch { expected }) => assert_eq!(expected, "MUT0\r\n"),
        other => panic!("wrong result: {:?}", other),
    }
}

#[test]
fn validate_response_volume_confirms_exact_target() {
    let r = validate_response(AvrCommand::SetVolume(5), "VOL051\r\n".to_string(), &cfg());
    assert!(r.is_ok());
    let r = validate_response(AvrCommand::SetVolume(5), "VOL049\r\n".to_string(), &cfg());
    assert!(matches!(r, Err(AvrError::ResponseDoesntMatch { .. })));
}

#[test]
fn parse_volume_frame_reads_value() {
    assert_eq!(parse_volume_frame("VOL081\r\n"), Some(81));
    assert_eq!(parse_volume_frame("VOL5\r\n"), Some(5));
    assert_eq!(parse_volume_frame("VOL101"), Some(101));
}

#[test]
fn parse_volume_frame_rejects_noise() {
    assert_eq!(parse_volume_frame(""), None);
    assert_eq!(parse_volume_frame("R\r\n"), None);
    assert_eq!(parse_volume_frame("VOL\r\n"), None);
    assert_eq!(parse_volume_frame("VOL08x\r\n"), None);
    assert_eq!(parse_volume_frame("R\r\nVOL081\r\n"), None);
    assert_eq!(parse_volume_frame("VOL0811\r\n"), None);
}

#[test]
fn volume_steps_difference() {
    // Each discrete step is worth two native units, truncated toward zero.
    assert_eq!(volume_steps(41, 51), (true, 5));
    assert_eq!(volume_steps(51, 41), (false, 5));
    assert_eq!(volume_steps(50, 51), (true, 0));
    assert_eq!(volume_steps(51, 50), (false, 0));
    assert_eq!(volume_steps(51, 51), (true, 0));
}

#[test]
fn parse_code_field_reads_padded_target() {
    assert_eq!(parse_code_field("051VL\r"), 51);
    assert_eq!(parse_code_field("101VL\r"), 101);
    assert_eq!(parse_code_field("011VL\r"), 11);
}

#[test]
fn slot_validation_accepts_one_leading_plus() {
    assert_eq!(validate_volume_value("+5".to_string()), Some(5));
    assert_eq!(validate_input_value("+22".to_string()), Some(22));
    assert_eq!(validate_volume_value("+".to_string()), None);
    assert_eq!(validate_volume_value("++5".to_string()), None);
    assert_eq!(validate_volume_value("5+".to_string()), None);
}

#[test]
fn volume_slot_validation() {
    assert_eq!(validate_volume_value("5".to_string()), Some(5));
    assert_eq!(validate_volume_value("10".to_string()), Some(10));
    assert_eq!(validate_volume_value("010".to_string()), Some(10));
    assert_eq!(validate_volume_value("0".to_string()), None);
    assert_eq!(validate_volume_value("11".to_string()), None);
    assert_eq!(validate_volume_value("999".to_string()), None);
    assert_eq!(validate_volume_value("?".to_string()), None);
    assert_eq!(validate_volume_value("".to_string()), None);
}

#[test]
fn input_slot_validation() {
    assert_eq!(validate_input_value("1".to_string()), Some(1));
    assert_eq!(validate_input_value("7".to_string()), Some(7));
    assert_eq!(validate_input_value("22".to_string()), Some(22));
    assert_eq!(validate_input_value("23".to_string()), None);
    assert_eq!(validate_input_value("0".to_string()), None);
    assert_eq!(validate_input_value("?".to_string()), None);
    assert_eq!(validate_input_value("2x".to_string()), None);
}
