use alexa_avr_control::codec::{get_input_code, get_volume_code, AvrCommand, AvrQuery, CodecConfig};

fn cfg() -> CodecConfig {
    CodecConfig { volume_ceiling: 101, power_off_digit: 2 }
}

#[test]
fn set_volume_five_code_and_expected() {
    // Level 5 with ceiling 101: ceil(0.5 * 101) = 51, padded to three digits.
    let cmd = AvrCommand::SetVolume(5);
    assert_eq!(cmd.code(&cfg()), "051VL\r");
    assert_eq!(cmd.expected(&cfg()), "VOL051\r\n");
}

#[test]
fn set_volume_extremes() {
    assert_eq!(AvrCommand::SetVolume(1).code(&cfg()), "011VL\r");
    assert_eq!(AvrCommand::SetVolume(10).code(&cfg()), "101VL\r");
    assert_eq!(AvrCommand::SetVolume(10).expected(&cfg()), "VOL101\r\n");
}

#[test]
fn set_volume_other_ceiling() {
    // A different per-device calibration changes the numeric field of both
    // the code and the expected pattern in the same way.
    let c = CodecConfig { volume_ceiling: 161, power_off_digit: 2 };
    // ceil(3/10 * 161) = ceil(48.3) = 49
    assert_eq!(AvrCommand::SetVolume(3).code(&c), "049VL\r");
    assert_eq!(AvrCommand::SetVolume(3).expected(&c), "VOL049\r\n");
}

#[test]
fn volume_field_round_trip_all_levels() {
    // Re-derive the numeric field from the produced code and re-run the
    // mapping formula: the padded value must come back unchanged.
    for n in 1u16..=10 {
        let code = AvrCommand::SetVolume(n as u8).code(&cfg());
        let field = &code[0..3];
        let target = (n * 101 + 9) / 10;
        assert_eq!(field, format!("{:0>3}", target));
        assert_eq!(field.parse::<u16>().unwrap(), target);
    }
}

#[test]
fn change_input_seven_code_and_expected() {
    // Input 7 is the TV/SAT mapping.
    let cmd = AvrCommand::ChangeInput(7);
    assert_eq!(cmd.code(&cfg()), "05FN\r");
    assert_eq!(cmd.expected(&cfg()), "FN05\r\n");
}

#[test]
fn change_input_expected_embeds_table_code_for_all_ids() {
    let table = [
        (1, "25"),
        (2, "49"),
        (3, "19"),
        (4, "15"),
        (5, "10"),
        (6, "14"),
        (7, "05"),
        (8, "20"),
        (9, "21"),
        (10, "22"),
        (11, "23"),
        (12, "24"),
        (13, "26"),
        (14, "17"),
        (15, "01"),
        (16, "03"),
        (17, "02"),
        (18, "00"),
        (19, "12"),
        (20, "33"),
        (21, "27"),
        (22, "31"),
        (23, "04"),
    ];
    for (id, digits) in table {
        let cmd = AvrCommand::ChangeInput(id);
        let code = cmd.code(&cfg());
        let expected = cmd.expected(&cfg());
        assert_eq!(code, format!("{}FN\r", digits));
        assert_eq!(expected, format!("FN{}\r\n", digits));
        // The expected pattern contains exactly the two-digit device code.
        assert_eq!(&expected[2..4], digits);
    }
}

#[test]
fn fixed_command_codes() {
    assert_eq!(AvrCommand::PowerOn.code(&cfg()), "PO\r");
    assert_eq!(AvrCommand::PowerOff.code(&cfg()), "PF\r");
    assert_eq!(AvrCommand::Mute.code(&cfg()), "MO\r");
    assert_eq!(AvrCommand::Unmute.code(&cfg()), "MF\r");
    assert_eq!(AvrCommand::VolumeDown.code(&cfg()), "VD\r");
    assert_eq!(AvrCommand::VolumeUp.code(&cfg()), "VU\r");
}

#[test]
fn fixed_command_expected_patterns() {
    assert_eq!(AvrCommand::Mute.expected(&cfg()), "MUT0\r\n");
    assert_eq!(AvrCommand::Unmute.expected(&cfg()), "MUT1\r\n");
    assert_eq!(AvrCommand::PowerOn.expected(&cfg()), "PWR0\r\n");
    assert_eq!(AvrCommand::PowerOff.expected(&cfg()), "PWR2\r\n");
    assert_eq!(AvrCommand::VolumeDown.expected(&cfg()), "VOL");
    assert_eq!(AvrCommand::VolumeUp.expected(&cfg()), "VOL");
}

#[test]
fn power_off_ack_digit_is_configurable() {
    let c = CodecConfig { volume_ceiling: 101, power_off_digit: 1 };
    assert_eq!(AvrCommand::PowerOff.expected(&c), "PWR1\r\n");
}

#[test]
fn volume_and_input_code_builders() {
    assert_eq!(get_volume_code(5, 101), "051VL\r");
    assert_eq!(get_volume_code(1, 1), "001VL\r");
    assert_eq!(get_input_code(7), "05FN\r");
    assert_eq!(get_input_code(23), "04FN\r");
}

#[test]
fn query_codes() {
    assert_eq!(AvrQuery::Volume.code(), "?V\r");
    assert_eq!(AvrQuery::Mute.code(), "?M\r");
    assert_eq!(AvrQuery::Power.code(), "?P\r");
    assert_eq!(AvrQuery::Input.code(), "?F\r");
}

#[test]
fn confirming_query_matches_affected_attribute() {
    assert_eq!(AvrCommand::SetVolume(5).confirming_query(), AvrQuery::Volume);
    assert_eq!(AvrCommand::VolumeUp.confirming_query(), AvrQuery::Volume);
    assert_eq!(AvrCommand::VolumeDown.confirming_query(), AvrQuery::Volume);
    assert_eq!(AvrCommand::PowerOn.confirming_query(), AvrQuery::Power);
    assert_eq!(AvrCommand::PowerOff.confirming_query(), AvrQuery::Power);
    assert_eq!(AvrCommand::Mute.confirming_query(), AvrQuery::Mute);
    assert_eq!(AvrCommand::Unmute.confirming_query(), AvrQuery::Mute);
    assert_eq!(AvrCommand::ChangeInput(7).confirming_query(), AvrQuery::Input);
}

#[test]
fn default_config_is_reference_device() {
    let c: CodecConfig = Default::default();
    assert_eq!(c.volume_ceiling, 101);
    assert_eq!(c.power_off_digit, 2);
}
