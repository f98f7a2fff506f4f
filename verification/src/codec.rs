//! Command codec: the pure, total mapping from an abstract command to the
//! wire code sent to the device and to the acknowledgement pattern a genuine
//! reply must contain. Both are derived from the same inputs, so they cannot
//! drift apart.
use crate::wire::{all_digits, digit_char, digit_str, digits_value, three_digits};
use crate::wire::lemma_three_digits_value;
use vstd::prelude::*;
use vstd::string::*;

verus! {

/// Per-device calibration: receivers of this family differ in the highest
/// native volume worth setting and in the digit of the power-off
/// acknowledgement, so neither is hard-coded.
#[derive(Clone, Copy, PartialEq, Eq, Structural, Debug)]
pub struct CodecConfig {
    /// Native volume value that a spoken level of 10 maps to.
    pub volume_ceiling: u8,
    /// Digit of the `PWR<d>` line the device answers when standing off.
    pub power_off_digit: u8,
}

impl CodecConfig {
    /// The ceiling is positive and the power-off digit is a single digit.
    pub open spec fn wf(self) -> bool {
        1 <= self.volume_ceiling && self.power_off_digit <= 9
    }
}

impl core::default::Default for CodecConfig {
    /// The values of the documented reference device: 101 is the native
    /// volume equal to the loudest this gateway is willing to set, and the
    /// device acknowledges standing off with `PWR2`.
    fn default() -> (r: CodecConfig)
        ensures
            r == (CodecConfig { volume_ceiling: 101u8, power_off_digit: 2u8 }),
            r.wf(),
    {
        CodecConfig { volume_ceiling: 101, power_off_digit: 2 }
    }
}

/// Commands that can be sent to the device.
#[derive(Clone, Copy, PartialEq, Eq, Structural, Debug)]
pub enum AvrCommand {
    SetVolume(u8),
    Mute,
    Unmute,
    PowerOn,
    PowerOff,
    ChangeInput(u8),
    VolumeDown,
    VolumeUp,
}

/// Status queries the device answers with a tagged value line.
#[derive(Clone, Copy, PartialEq, Eq, Structural, Debug)]
pub enum AvrQuery {
    Volume,
    Mute,
    Power,
    Input,
}

impl AvrCommand {
    /// Numeric arguments lie in the range the upstream validation admits:
    /// spoken volume levels are 1 to 10, logical input ids are mapped in the
    /// device table.
    pub open spec fn wf(self) -> bool {
        match self {
            AvrCommand::SetVolume(n) => 1 <= n <= 10,
            AvrCommand::ChangeInput(id) => 1 <= id <= 23,
            _ => true,
        }
    }
}

/// The native volume value for a spoken level: `level/10` of the ceiling,
/// rounded up.
pub open spec fn volume_target(n: int, ceiling: int) -> int {
    (n * ceiling + 9) / 10
}

/// The device's native code for each logical input id.
pub open spec fn input_digits(id: int) -> Seq<char> {
    if id == 1 {
        seq!['2', '5']  // BD
    } else if id == 2 {
        seq!['4', '9']  // Game
    } else if id == 3 {
        seq!['1', '9']  // HDMI 1
    } else if id == 4 {
        seq!['1', '5']  // DVR/BDR
    } else if id == 5 {
        seq!['1', '0']  // Video 1
    } else if id == 6 {
        seq!['1', '4']  // Video 2
    } else if id == 7 {
        seq!['0', '5']  // TV/SAT
    } else if id == 8 {
        seq!['2', '0']  // HDMI 2
    } else if id == 9 {
        seq!['2', '1']  // HDMI 3
    } else if id == 10 {
        seq!['2', '2']  // HDMI 4
    } else if id == 11 {
        seq!['2', '3']  // HDMI 5
    } else if id == 12 {
        seq!['2', '4']  // HDMI 6
    } else if id == 13 {
        seq!['2', '6']  // Internet radio
    } else if id == 14 {
        seq!['1', '7']  // iPod/USB
    } else if id == 15 {
        seq!['0', '1']  // CD
    } else if id == 16 {
        seq!['0', '3']  // CD-R/Tape
    } else if id == 17 {
        seq!['0', '2']  // Tuner
    } else if id == 18 {
        seq!['0', '0']  // Phono
    } else if id == 19 {
        seq!['1', '2']  // Multi-channel in
    } else if id == 20 {
        seq!['3', '3']  // Adapter port
    } else if id == 21 {
        seq!['2', '7']  // Sirius
    } else if id == 22 {
        seq!['3', '1']  // HDMI cyclic
    } else if id == 23 {
        seq!['0', '4']  // DVD
    } else {
        Seq::empty()
    }
}

/// The wire code for a command: what is written to the device, terminated
/// by a carriage return.
pub open spec fn code_chars(cmd: AvrCommand, cfg: CodecConfig) -> Seq<char> {
    match cmd {
        AvrCommand::SetVolume(n) => three_digits(
            volume_target(n as int, cfg.volume_ceiling as int),
        ) + seq!['V', 'L', '\r'],
        AvrCommand::ChangeInput(id) => input_digits(id as int) + seq!['F', 'N', '\r'],
        AvrCommand::PowerOn => seq!['P', 'O', '\r'],
        AvrCommand::PowerOff => seq!['P', 'F', '\r'],
        AvrCommand::Mute => seq!['M', 'O', '\r'],
        AvrCommand::Unmute => seq!['M', 'F', '\r'],
        AvrCommand::VolumeDown => seq!['V', 'D', '\r'],
        AvrCommand::VolumeUp => seq!['V', 'U', '\r'],
    }
}

/// The fragment a genuine acknowledgement of the command must contain. For
/// the numeric commands it embeds the same field as the wire code; for the
/// fixed commands it is the acknowledgement line the device documentation
/// gives, with the power-off digit taken from the configuration.
pub open spec fn expected_chars(cmd: AvrCommand, cfg: CodecConfig) -> Seq<char> {
    match cmd {
        AvrCommand::SetVolume(n) => seq!['V', 'O', 'L'] + three_digits(
            volume_target(n as int, cfg.volume_ceiling as int),
        ) + seq!['\r', '\n'],
        AvrCommand::ChangeInput(id) => seq!['F', 'N'] + input_digits(id as int)
            + seq!['\r', '\n'],
        AvrCommand::Mute => seq!['M', 'U', 'T', '0', '\r', '\n'],
        AvrCommand::Unmute => seq!['M', 'U', 'T', '1', '\r', '\n'],
        AvrCommand::PowerOn => seq!['P', 'W', 'R', '0', '\r', '\n'],
        AvrCommand::PowerOff => seq!['P', 'W', 'R', digit_char(cfg.power_off_digit as int), '\r', '\n'],
        AvrCommand::VolumeDown => seq!['V', 'O', 'L'],
        AvrCommand::VolumeUp => seq!['V', 'O', 'L'],
    }
}

/// The wire code of each status query.
pub open spec fn query_code_chars(q: AvrQuery) -> Seq<char> {
    match q {
        AvrQuery::Volume => seq!['?', 'V', '\r'],
        AvrQuery::Mute => seq!['?', 'M', '\r'],
        AvrQuery::Power => seq!['?', 'P', '\r'],
        AvrQuery::Input => seq!['?', 'F', '\r'],
    }
}

/// The query that confirms whether a command took effect.
pub open spec fn query_of(cmd: AvrCommand) -> AvrQuery {
    match cmd {
        AvrCommand::SetVolume(_) => AvrQuery::Volume,
        AvrCommand::ChangeInput(_) => AvrQuery::Input,
        AvrCommand::PowerOn => AvrQuery::Power,
        AvrCommand::PowerOff => AvrQuery::Power,
        AvrCommand::Mute => AvrQuery::Mute,
        AvrCommand::Unmute => AvrQuery::Mute,
        AvrCommand::VolumeDown => AvrQuery::Volume,
        AvrCommand::VolumeUp => AvrQuery::Volume,
    }
}

/// Convert a spoken volume level to the device's zero-padded volume-set
/// code.
pub fn get_volume_code(n: u8, ceiling: u8) -> (r: String)
    requires
        1 <= n <= 10,
        1 <= ceiling,
    ensures
        r@ == three_digits(volume_target(n as int, ceiling as int)) + seq!['V', 'L', '\r'],
{
    proof {
        assert(n as int * ceiling as int <= 2550) by (nonlinear_arith)
            requires
                1 <= n <= 10,
                1 <= ceiling <= 255,
        ;
        assert(n as int * ceiling as int >= 1) by (nonlinear_arith)
            requires
                1 <= n,
                1 <= ceiling,
        ;
    }
    let t: u16 = (n as u16 * ceiling as u16 + 9) / 10;
    let d1: u8 = (t / 100) as u8;
    let d2: u8 = (t / 10 % 10) as u8;
    let d3: u8 = (t % 10) as u8;
    let mut code = String::new();
    code.append(digit_str(d1));
    code.append(digit_str(d2));
    code.append(digit_str(d3));
    code.append("VL\r");
    proof {
        reveal_strlit("VL\r");
        assert(t / 100 == t as int / 100 % 10);
        assert(code@ =~= three_digits(volume_target(n as int, ceiling as int)) + seq!['V', 'L', '\r']);
    }
    code
}

/// Convert a logical input id to the device's input-change code.
pub fn get_input_code(n: u8) -> (r: String)
    requires
        1 <= n <= 23,
    ensures
        r@ == input_digits(n as int) + seq!['F', 'N', '\r'],
{
    let pre: &'static str = match n {
        1 => "25",
        2 => "49",
        3 => "19",
        4 => "15",
        5 => "10",
        6 => "14",
        7 => "05",
        8 => "20",
        9 => "21",
        10 => "22",
        11 => "23",
        12 => "24",
        13 => "26",
        14 => "17",
        15 => "01",
        16 => "03",
        17 => "02",
        18 => "00",
        19 => "12",
        20 => "33",
        21 => "27",
        22 => "31",
        23 => "04",
        _ => vstd::pervasive::unreached(),
    };
    proof {
        reveal_strlit("25");
        reveal_strlit("49");
        reveal_strlit("19");
        reveal_strlit("15");
        reveal_strlit("10");
        reveal_strlit("14");
        reveal_strlit("05");
        reveal_strlit("20");
        reveal_strlit("21");
        reveal_strlit("22");
        reveal_strlit("23");
        reveal_strlit("24");
        reveal_strlit("26");
        reveal_strlit("17");
        reveal_strlit("01");
        reveal_strlit("03");
        reveal_strlit("02");
        reveal_strlit("00");
        reveal_strlit("12");
        reveal_strlit("33");
        reveal_strlit("27");
        reveal_strlit("31");
        reveal_strlit("04");
        assert(pre@ =~= input_digits(n as int));
    }
    let mut code = pre.to_owned();
    code.append("FN\r");
    proof {
        reveal_strlit("FN\r");
        assert(code@ =~= input_digits(n as int) + seq!['F', 'N', '\r']);
    }
    code
}

impl AvrCommand {
    /// The wire code for this command.
    pub fn code(&self, cfg: &CodecConfig) -> (r: String)
        requires
            self.wf(),
            cfg.wf(),
        ensures
            r@ == code_chars(*self, *cfg),
    {
        match self {
            AvrCommand::SetVolume(n) => {
                let r = get_volume_code(*n, cfg.volume_ceiling);
                r
            },
            AvrCommand::ChangeInput(n) => get_input_code(*n),
            AvrCommand::PowerOn => {
                let r = "PO\r".to_owned();
                proof {
                    reveal_strlit("PO\r");
                    assert(r@ =~= code_chars(*self, *cfg));
                }
                r
            },
            AvrCommand::PowerOff => {
                let r = "PF\r".to_owned();
                proof {
                    reveal_strlit("PF\r");
                    assert(r@ =~= code_chars(*self, *cfg));
                }
                r
            },
            AvrCommand::Mute => {
                let r = "MO\r".to_owned();
                proof {
                    reveal_strlit("MO\r");
                    assert(r@ =~= code_chars(*self, *cfg));
                }
                r
            },
            AvrCommand::Unmute => {
                let r = "MF\r".to_owned();
                proof {
                    reveal_strlit("MF\r");
                    assert(r@ =~= code_chars(*self, *cfg));
                }
                r
            },
            AvrCommand::VolumeDown => {
                let r = "VD\r".to_owned();
                proof {
                    reveal_strlit("VD\r");
                    assert(r@ =~= code_chars(*self, *cfg));
                }
                r
            },
            AvrCommand::VolumeUp => {
                let r = "VU\r".to_owned();
                proof {
                    reveal_strlit("VU\r");
                    assert(r@ =~= code_chars(*self, *cfg));
                }
                r
            },
        }
    }

    /// The acknowledgement fragment a genuine reply must contain. For the
    /// numeric commands it is built by slicing the numeric field out of the
    /// freshly generated wire code, so the two always agree.
    pub fn expected(&self, cfg: &CodecConfig) -> (r: String)
        requires
            self.wf(),
            cfg.wf(),
        ensures
            r@ == expected_chars(*self, *cfg),
    {
        match self {
            AvrCommand::SetVolume(_) => {
                let c = self.code(cfg);
                let field = c.as_str().substring_char(0, 3);
                let mut r = String::new();
                r.append("VOL");
                r.append(field);
                r.append("\r\n");
                proof {
                    reveal_strlit("VOL");
                    reveal_strlit("\r\n");
                    assert(field@ =~= c@.subrange(0, 3));
                    assert(r@ =~= expected_chars(*self, *cfg));
                }
                r
            },
            AvrCommand::ChangeInput(_) => {
                let c = self.code(cfg);
                let field = c.as_str().substring_char(0, 2);
                let mut r = String::new();
                r.append("FN");
                r.append(field);
                r.append("\r\n");
                proof {
                    reveal_strlit("FN");
                    reveal_strlit("\r\n");
                    assert(field@ =~= c@.subrange(0, 2));
                    assert(r@ =~= expected_chars(*self, *cfg));
                }
                r
            },
            AvrCommand::Mute => {
                let r = "MUT0\r\n".to_owned();
                proof {
                    reveal_strlit("MUT0\r\n");
                    assert(r@ =~= expected_chars(*self, *cfg));
                }
                r
            },
            AvrCommand::Unmute => {
                let r = "MUT1\r\n".to_owned();
                proof {
                    reveal_strlit("MUT1\r\n");
                    assert(r@ =~= expected_chars(*self, *cfg));
                }
                r
            },
            AvrCommand::PowerOn => {
                let r = "PWR0\r\n".to_owned();
                proof {
                    reveal_strlit("PWR0\r\n");
                    assert(r@ =~= expected_chars(*self, *cfg));
                }
                r
            },
            AvrCommand::PowerOff => {
                let mut r = String::new();
                r.append("PWR");
                r.append(digit_str(cfg.power_off_digit));
                r.append("\r\n");
                proof {
                    reveal_strlit("PWR");
                    reveal_strlit("\r\n");
                    assert(r@ =~= expected_chars(*self, *cfg));
                }
                r
            },
            AvrCommand::VolumeDown => {
                let r = "VOL".to_owned();
                proof {
                    reveal_strlit("VOL");
                    assert(r@ =~= expected_chars(*self, *cfg));
                }
                r
            },
            AvrCommand::VolumeUp => {
                let r = "VOL".to_owned();
                proof {
                    reveal_strlit("VOL");
                    assert(r@ =~= expected_chars(*self, *cfg));
                }
                r
            },
        }
    }
}

impl AvrQuery {
    /// The wire code for this status query.
    pub fn code(&self) -> (r: String)
        ensures
            r@ == query_code_chars(*self),
    {
        match self {
            AvrQuery::Volume => {
                let r = "?V\r".to_owned();
                proof {
                    reveal_strlit("?V\r");
                    assert(r@ =~= query_code_chars(*self));
                }
                r
            },
            AvrQuery::Mute => {
                let r = "?M\r".to_owned();
                proof {
                    reveal_strlit("?M\r");
                    assert(r@ =~= query_code_chars(*self));
                }
                r
            },
            AvrQuery::Power => {
                let r = "?P\r".to_owned();
                proof {
                    reveal_strlit("?P\r");
                    assert(r@ =~= query_code_chars(*self));
                }
                r
            },
            AvrQuery::Input => {
                let r = "?F\r".to_owned();
                proof {
                    reveal_strlit("?F\r");
                    assert(r@ =~= query_code_chars(*self));
                }
                r
            },
        }
    }
}

/// The numeric mapping is within the three-digit field for every admitted
/// level and ceiling.
pub proof fn lemma_volume_target_bounds(n: int, ceiling: int)
    requires
        1 <= n <= 10,
        1 <= ceiling <= 255,
    ensures
        1 <= volume_target(n, ceiling) <= 255,
{
    assert(1 <= n * ceiling <= 2550) by (nonlinear_arith)
        requires
            1 <= n <= 10,
            1 <= ceiling <= 255,
    ;
}

/// Determinism and round trip of the volume mapping: the numeric field of a
/// freshly encoded volume code is exactly the padded mapping value, and
/// reading the field back as a number and re-running the mapping formula
/// reproduces it.
pub proof fn lemma_volume_field_round_trip(n: u8, cfg: CodecConfig)
    requires
        1 <= n <= 10,
        cfg.wf(),
    ensures
        code_chars(AvrCommand::SetVolume(n), cfg).subrange(0, 3) == three_digits(
            volume_target(n as int, cfg.volume_ceiling as int),
        ),
        all_digits(code_chars(AvrCommand::SetVolume(n), cfg).subrange(0, 3)),
        digits_value(code_chars(AvrCommand::SetVolume(n), cfg).subrange(0, 3)) == volume_target(
            n as int,
            cfg.volume_ceiling as int,
        ),
        three_digits(
            digits_value(code_chars(AvrCommand::SetVolume(n), cfg).subrange(0, 3)),
        ) == code_chars(AvrCommand::SetVolume(n), cfg).subrange(0, 3),
        expected_chars(AvrCommand::SetVolume(n), cfg) == seq!['V', 'O', 'L'] + code_chars(
            AvrCommand::SetVolume(n),
            cfg,
        ).subrange(0, 3) + seq!['\r', '\n'],
{
    let t = volume_target(n as int, cfg.volume_ceiling as int);
    lemma_volume_target_bounds(n as int, cfg.volume_ceiling as int);
    assert(code_chars(AvrCommand::SetVolume(n), cfg).subrange(0, 3) =~= three_digits(t));
    lemma_three_digits_value(t);
}

/// The acknowledgement pattern for an input change embeds exactly the
/// two-digit device code of that input, in the position the wire code also
/// carries it.
pub proof fn lemma_input_expected_embeds_code(id: u8, cfg: CodecConfig)
    requires
        1 <= id <= 23,
        cfg.wf(),
    ensures
        input_digits(id as int).len() == 2,
        expected_chars(AvrCommand::ChangeInput(id), cfg) == seq!['F', 'N'] + input_digits(
            id as int,
        ) + seq!['\r', '\n'],
        expected_chars(AvrCommand::ChangeInput(id), cfg).subrange(2, 4) == input_digits(id as int),
        code_chars(AvrCommand::ChangeInput(id), cfg).subrange(0, 2) == input_digits(id as int),
{
    assert(input_digits(id as int).len() == 2);
    assert(expected_chars(AvrCommand::ChangeInput(id), cfg).subrange(2, 4) =~= input_digits(
        id as int,
    ));
    assert(code_chars(AvrCommand::ChangeInput(id), cfg).subrange(0, 2) =~= input_digits(id as int));
}

} // verus!
