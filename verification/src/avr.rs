//! Command orchestrator: one complete request/response exchange per call.
//! It checks the power precondition, builds the wire code with the codec,
//! hands it through the bridge, waits a bounded time for the reply, re-reads
//! the device's state with a status query, and validates that query against
//! the codec's expected pattern. What the device answers cannot be known
//! here, so every decision over a received frame is a pure function with an
//! exact contract, and the exchange functions promise which failures they
//! can surface.
use crate::bridge::{Bridge, MAX_WAIT_MS};
use crate::codec::{
    expected_chars, query_of, AvrCommand, AvrQuery, CodecConfig, lemma_volume_field_round_trip,
};
use crate::wire::{
    all_digits, all_trail, contains_pattern, digit_run_end, digits_value, has_pattern, repeat_str,
};
use vstd::prelude::*;
use vstd::string::*;

verus! {

/// How an exchange can fail, as surfaced to the caller.
#[derive(Debug)]
pub enum AvrError {
    /// No response within the bounded window.
    Timeout,
    /// Power-off was asked while the device already stands off.
    PowerAlreadyOff,
    /// Power-on was asked while the device is already on.
    PowerAlreadyOn,
    /// The device stands off and cannot process the command.
    PowerOffCantProcess,
    /// The device replied, but not with the expected pattern; the command
    /// most likely did not take effect.
    ResponseDoesntMatch { expected: String },
    /// A half of the bridge is gone; no exchange can run any more.
    ConnectionLost,
}

/// How long an exchange waits for a frame before giving up.
pub const RESPONSE_TIMEOUT_MS: u64 = 1500;

/// Settle delay between a volume adjustment and the confirming query.
pub const VOLUME_SETTLE_MS: u64 = 2000;

/// Settle delay after power-on, before status queries are meaningful.
pub const POWER_ON_SETTLE_MS: u64 = 1000;

/// Relies on crossbeam_channel::after and Receiver::recv: `after` makes a
/// receiver that delivers a single message once the duration has elapsed,
/// so the receive returns after about `ms` milliseconds. The bound keeps
/// the delivery instant representable, so the receive cannot wait forever.
#[verifier::external_body]
fn settle(ms: u64)
    requires
        ms <= MAX_WAIT_MS,
{
    let _ = crossbeam_channel::after(core::time::Duration::from_millis(ms)).recv();
}

/// What the power precondition decides, given the frame the power query
/// returned: power-off while already off and anything but power-on while
/// off are refused, as is power-on while already on.
pub open spec fn power_decision(cmd: AvrCommand, frame: Seq<char>, cfg: CodecConfig) -> Result<
    (),
    AvrError,
> {
    if has_pattern(frame, expected_chars(AvrCommand::PowerOff, cfg)) && cmd
        != AvrCommand::PowerOn {
        if cmd == AvrCommand::PowerOff {
            Err(AvrError::PowerAlreadyOff)
        } else {
            Err(AvrError::PowerOffCantProcess)
        }
    } else if has_pattern(frame, expected_chars(AvrCommand::PowerOn, cfg)) && cmd
        == AvrCommand::PowerOn {
        Err(AvrError::PowerAlreadyOn)
    } else {
        Ok(())
    }
}

/// Decide the power precondition from the frame the power query returned.
pub fn power_precondition(cmd: &AvrCommand, frame: &str, cfg: &CodecConfig) -> (r: Result<
    (),
    AvrError,
>)
    requires
        cfg.wf(),
    ensures
        r == power_decision(*cmd, frame@, *cfg),
{
    let off_ack = AvrCommand::PowerOff.expected(cfg);
    let on_ack = AvrCommand::PowerOn.expected(cfg);
    if contains_pattern(frame, off_ack.as_str()) && !(*cmd == AvrCommand::PowerOn) {
        if *cmd == AvrCommand::PowerOff {
            Err(AvrError::PowerAlreadyOff)
        } else {
            Err(AvrError::PowerOffCantProcess)
        }
    } else if contains_pattern(frame, on_ack.as_str()) && *cmd == AvrCommand::PowerOn {
        Err(AvrError::PowerAlreadyOn)
    } else {
        Ok(())
    }
}

/// Power-on is idempotent at the precondition: whenever the power query's
/// frame carries the on acknowledgement, asking for power-on is refused as
/// already on, before any wire code for it is built or sent.
pub proof fn lemma_power_on_idempotent(frame: Seq<char>, cfg: CodecConfig)
    requires
        has_pattern(frame, expected_chars(AvrCommand::PowerOn, cfg)),
    ensures
        power_decision(AvrCommand::PowerOn, frame, cfg) == Result::<(), AvrError>::Err(
            AvrError::PowerAlreadyOn,
        ),
{
}

/// Power-off while the device already stands off is refused as already
/// off, before any wire code for it is built or sent.
pub proof fn lemma_power_off_idempotent(frame: Seq<char>, cfg: CodecConfig)
    requires
        has_pattern(frame, expected_chars(AvrCommand::PowerOff, cfg)),
    ensures
        power_decision(AvrCommand::PowerOff, frame, cfg) == Result::<(), AvrError>::Err(
            AvrError::PowerAlreadyOff,
        ),
{
}

/// A well-shaped volume status frame: the `VOL` tag, one to three digits,
/// and nothing after them but line terminators and spaces.
pub open spec fn volume_frame_ok(s: Seq<char>) -> bool {
    &&& s.len() >= 4
    &&& s.subrange(0, 3) == seq!['V', 'O', 'L']
    &&& digit_run_end(s, 3) > 3
    &&& digit_run_end(s, 3) - 3 <= 3
    &&& all_trail(s.subrange(digit_run_end(s, 3), s.len() as int))
}

/// The value a well-shaped volume status frame carries.
pub open spec fn volume_frame_value(s: Seq<char>) -> int {
    digits_value(s.subrange(3, digit_run_end(s, 3)))
}

/// Scan to the end of the run of digit characters starting at `start`.
fn digit_run_to(frame: &str, start: usize) -> (e: usize)
    requires
        start <= frame@.len(),
    ensures
        e == digit_run_end(frame@, start as int),
        start <= e <= frame@.len(),
{
    let len = frame.unicode_len();
    let mut e: usize = start;
    loop
        invariant
            start <= e <= len,
            len == frame@.len(),
            digit_run_end(frame@, start as int) == digit_run_end(frame@, e as int),
        decreases len - e,
    {
        if e >= len {
            proof {
                assert(digit_run_end(frame@, e as int) == e);
            }
            return e;
        }
        let c = frame.get_char(e);
        if !(c as u32 >= 48 && c as u32 <= 57) {
            proof {
                assert(digit_run_end(frame@, e as int) == e);
            }
            return e;
        }
        proof {
            assert(digit_run_end(frame@, e as int) == digit_run_end(frame@, e + 1));
        }
        e += 1;
    }
}

/// Every run of digits writes a small nonnegative number.
proof fn lemma_digits_value_bounds(s: Seq<char>)
    requires
        all_digits(s),
    ensures
        0 <= digits_value(s),
        s.len() <= 1 ==> digits_value(s) <= 9,
        s.len() <= 2 ==> digits_value(s) <= 99,
        s.len() <= 3 ==> digits_value(s) <= 999,
    decreases s.len(),
{
    if s.len() > 0 {
        assert(all_digits(s.drop_last()));
        lemma_digits_value_bounds(s.drop_last());
    }
}

/// Read the current native volume out of a volume status frame; `None` on
/// anything not shaped like one.
#[verifier::loop_isolation(false)]
pub fn parse_volume_frame(frame: &str) -> (r: Option<u16>)
    ensures
        r matches Some(v) ==> volume_frame_ok(frame@) && v as int == volume_frame_value(frame@)
            && v <= 999,
        r is None ==> !volume_frame_ok(frame@),
{
    let len = frame.unicode_len();
    if len < 4 {
        return None;
    }
    if frame.get_char(0) != 'V' || frame.get_char(1) != 'O' || frame.get_char(2) != 'L' {
        proof {
            if frame@.subrange(0, 3) == seq!['V', 'O', 'L'] {
                assert(frame@.subrange(0, 3)[0] == frame@[0]);
                assert(frame@.subrange(0, 3)[1] == frame@[1]);
                assert(frame@.subrange(0, 3)[2] == frame@[2]);
            }
        }
        return None;
    }
    proof {
        assert(frame@.subrange(0, 3) =~= seq!['V', 'O', 'L']);
    }
    let e: usize = digit_run_to(frame, 3);
    if e == 3 {
        return None;
    }
    if e - 3 > 3 {
        return None;
    }
    proof {
        lemma_run_digits(frame@, 3);
    }
    let mut t: usize = e;
    while t < len
        invariant
            e <= t <= len,
            len == frame@.len(),
            forall|i: int| e <= i < t ==> crate::wire::is_trail_char(#[trigger] frame@[i]),
        decreases len - t,
    {
        let c = frame.get_char(t);
        if !(c == '\r' || c == '\n' || c == ' ') {
            proof {
                assert(frame@.subrange(e as int, len as int)[t - e] == frame@[t as int]);
            }
            return None;
        }
        t += 1;
    }
    proof {
        assert(all_trail(frame@.subrange(e as int, len as int)));
    }
    let mut v: u16 = 0;
    let mut i: usize = 3;
    while i < e
        invariant
            3 <= i <= e,
            all_digits(frame@.subrange(3, i as int)),
            v as int == digits_value(frame@.subrange(3, i as int)),
            v <= 999,
        decreases e - i,
    {
        proof {
            lemma_digits_value_bounds(frame@.subrange(3, i as int));
        }
        let c = frame.get_char(i);
        let d: u16 = (c as u32 - 48) as u16;
        v = v * 10 + d;
        proof {
            assert(frame@.subrange(3, i + 1).drop_last() =~= frame@.subrange(3, i as int));
            assert(frame@.subrange(3, i + 1).last() == frame@[i as int]);
        }
        i += 1;
    }
    proof {
        assert(frame@.subrange(3, e as int) == frame@.subrange(3, i as int));
    }
    Some(v)
}

/// Digits run in a volume frame: its characters really are digits.
proof fn lemma_run_digits(s: Seq<char>, i: int)
    requires
        0 <= i <= s.len(),
    ensures
        i <= digit_run_end(s, i) <= s.len(),
        forall|k: int| i <= k < digit_run_end(s, i) ==> crate::wire::is_digit_char(#[trigger] s[k]),
    decreases s.len() - i,
{
    if i < s.len() && crate::wire::is_digit_char(s[i]) {
        lemma_run_digits(s, i + 1);
    }
}

/// Direction of a volume adjustment: whether to step up.
pub open spec fn step_up(current: int, desired: int) -> bool {
    desired >= current
}

/// Number of discrete volume steps, each worth two native units, truncated
/// toward zero as the device's coarse stepping requires.
pub open spec fn step_count(current: int, desired: int) -> int {
    if desired >= current {
        (desired - current) / 2
    } else {
        (current - desired) / 2
    }
}

/// The signed step difference between the current and the desired native
/// volume, split into a direction and a count.
pub fn volume_steps(current: u16, desired: u16) -> (r: (bool, usize))
    ensures
        r.0 == step_up(current as int, desired as int),
        r.1 as int == step_count(current as int, desired as int),
{
    if desired >= current {
        (true, ((desired - current) / 2) as usize)
    } else {
        (false, ((current - desired) / 2) as usize)
    }
}

/// Read the three-digit numeric field out of a freshly built volume code.
pub fn parse_code_field(code: &str) -> (r: u16)
    requires
        code@.len() >= 3,
        all_digits(code@.subrange(0, 3)),
    ensures
        r as int == digits_value(code@.subrange(0, 3)),
        r <= 999,
{
    let mut v: u16 = 0;
    let mut i: usize = 0;
    while i < 3
        invariant
            0 <= i <= 3,
            code@.len() >= 3,
            all_digits(code@.subrange(0, 3)),
            all_digits(code@.subrange(0, i as int)),
            v as int == digits_value(code@.subrange(0, i as int)),
            v <= 999,
        decreases 3 - i,
    {
        proof {
            lemma_digits_value_bounds(code@.subrange(0, i as int));
            assert(code@.subrange(0, 3)[i as int] == code@[i as int]);
        }
        let c = code.get_char(i);
        let d: u16 = (c as u32 - 48) as u16;
        v = v * 10 + d;
        proof {
            assert(code@.subrange(0, i + 1).drop_last() =~= code@.subrange(0, i as int));
            assert(code@.subrange(0, i + 1).last() == code@[i as int]);
        }
        i += 1;
    }
    proof {
        assert(code@.subrange(0, 3) == code@.subrange(0, i as int));
    }
    v
}

/// Validate the confirming query's frame against the expected
/// acknowledgement pattern: success exactly when the pattern occurs in the
/// frame, and a mismatch error that carries the pattern otherwise.
pub fn validate_response(cmd: AvrCommand, response: String, cfg: &CodecConfig) -> (r: Result<
    (),
    AvrError,
>)
    requires
        cmd.wf(),
        cfg.wf(),
    ensures
        (r matches Ok(())) == has_pattern(response@, expected_chars(cmd, *cfg)),
        r matches Err(e) ==> (e matches AvrError::ResponseDoesntMatch { expected } && expected@
            == expected_chars(cmd, *cfg)),
{
    let expected = cmd.expected(cfg);
    if !contains_pattern(response.as_str(), expected.as_str()) {
        return Err(AvrError::ResponseDoesntMatch { expected });
    }
    Ok(())
}

/// Hand a wire code to the connection manager and wait a bounded time for
/// the frame it forwards back.
pub fn send_command(bridge: &Bridge, code: &str) -> (r: Result<String, AvrError>)
    ensures
        r matches Err(e) ==> (e matches AvrError::Timeout || e matches AvrError::ConnectionLost),
{
    match bridge.send_outbound(code.to_owned()) {
        Ok(()) => (),
        Err(e) => {
            return Err(e);
        },
    }
    get_response(bridge)
}

/// Wait for the frame the connection manager forwards back; a reply that
/// takes longer than the bounded window counts as a timeout.
pub fn get_response(bridge: &Bridge) -> (r: Result<String, AvrError>)
    ensures
        r matches Err(e) ==> (e matches AvrError::Timeout || e matches AvrError::ConnectionLost),
{
    bridge.recv_inbound(RESPONSE_TIMEOUT_MS)
}

impl AvrQuery {
    /// Send this status query and hand back the device's answer frame.
    pub fn query(&self, bridge: &Bridge) -> (r: Result<String, AvrError>)
        ensures
            r matches Err(e) ==> (e matches AvrError::Timeout || e matches AvrError::ConnectionLost),
    {
        let code = self.code();
        send_command(bridge, code.as_str())
    }
}

impl AvrCommand {
    /// The status query for the attribute this command affects: volume for
    /// the volume commands, power for the power commands, mute for the
    /// mute commands, input for an input change.
    pub fn confirming_query(&self) -> (q: AvrQuery)
        ensures
            q == query_of(*self),
    {
        match self {
            AvrCommand::SetVolume(_) => AvrQuery::Volume,
            AvrCommand::ChangeInput(_) => AvrQuery::Input,
            AvrCommand::PowerOn => AvrQuery::Power,
            AvrCommand::PowerOff => AvrQuery::Power,
            AvrCommand::Mute => AvrQuery::Mute,
            AvrCommand::Unmute => AvrQuery::Mute,
            AvrCommand::VolumeDown => AvrQuery::Volume,
            AvrCommand::VolumeUp => AvrQuery::Volume,
        }
    }

    /// Run the status query that confirms this command: the code handed to
    /// the bridge is `query_of(*self)`'s, as `confirming_query` states.
    pub fn query(&self, bridge: &Bridge) -> (r: Result<String, AvrError>)
        ensures
            r matches Err(e) ==> (e matches AvrError::Timeout || e matches AvrError::ConnectionLost),
    {
        self.confirming_query().query(bridge)
    }
}

/// Query the current power state and decide the precondition for the
/// command: the decision over the received frame is `power_decision`, so
/// each power error can only name the command it is about.
pub fn power_validation(bridge: &Bridge, cmd: &AvrCommand, cfg: &CodecConfig) -> (r: Result<
    (),
    AvrError,
>)
    requires
        cfg.wf(),
    ensures
        r matches Err(e) ==> (e matches AvrError::Timeout || e matches AvrError::ConnectionLost
            || e matches AvrError::PowerAlreadyOff || e matches AvrError::PowerAlreadyOn
            || e matches AvrError::PowerOffCantProcess),
        r matches Err(AvrError::PowerAlreadyOn) ==> *cmd == AvrCommand::PowerOn,
        r matches Err(AvrError::PowerAlreadyOff) ==> *cmd == AvrCommand::PowerOff,
        r matches Err(AvrError::PowerOffCantProcess) ==> *cmd != AvrCommand::PowerOn && *cmd
            != AvrCommand::PowerOff,
{
    let current_power = match AvrQuery::Power.query(bridge) {
        Ok(s) => s,
        Err(e) => {
            return Err(e);
        },
    };
    power_precondition(cmd, current_power.as_str(), cfg)
}

/// Walk the volume to the target of a freshly built volume-set code:
/// query the current native volume, compute the signed step difference,
/// and send that many discrete single-step codes in one write — the
/// device's absolute set acknowledgement is unreliable, relative stepping
/// plus the final confirming query is not. With no steps to take, nothing
/// is sent.
pub fn volume_control(bridge: &Bridge, code: String, cfg: &CodecConfig) -> (r: Result<
    (),
    AvrError,
>)
    requires
        cfg.wf(),
        code@.len() >= 3,
        all_digits(code@.subrange(0, 3)),
    ensures
        r matches Err(e) ==> (e matches AvrError::Timeout || e matches AvrError::ConnectionLost
            || e matches AvrError::ResponseDoesntMatch { .. }),
        r matches Err(AvrError::ResponseDoesntMatch { expected }) ==> expected@ == seq![
            'V',
            'O',
            'L',
        ],
{
    let resp = match AvrQuery::Volume.query(bridge) {
        Ok(s) => s,
        Err(e) => {
            return Err(e);
        },
    };
    let current = match parse_volume_frame(resp.as_str()) {
        Some(v) => v,
        None => {
            // The reply did not parse as a volume status line: report the
            // tag such a line must carry.
            let expected = "VOL".to_owned();
            proof {
                reveal_strlit("VOL");
                assert(expected@ =~= seq!['V', 'O', 'L']);
            }
            return Err(AvrError::ResponseDoesntMatch { expected });
        },
    };
    let desired = parse_code_field(code.as_str());
    let (up, steps) = volume_steps(current, desired);
    if steps == 0 {
        return Ok(());
    }
    let unit = if up {
        AvrCommand::VolumeUp.code(cfg)
    } else {
        AvrCommand::VolumeDown.code(cfg)
    };
    let adj = repeat_str(unit.as_str(), steps);
    match send_command(bridge, adj.as_str()) {
        Ok(_) => Ok(()),
        Err(e) => Err(e),
    }
}

/// One complete exchange: precondition check, send (stepping the volume for
/// a volume-set), settle where the device needs time, then re-query the
/// relevant attribute and validate it against the expected pattern. What
/// the device answers is not knowable here, but each typed failure can only
/// arise where it belongs: a power error names the command it is about, and
/// a mismatch carries either the command's expected pattern or the tag of
/// the volume status line that would not parse.
pub fn send_and_validate(bridge: &Bridge, cmd: AvrCommand, cfg: &CodecConfig) -> (r: Result<
    (),
    AvrError,
>)
    requires
        cmd.wf(),
        cfg.wf(),
    ensures
        r matches Err(AvrError::PowerAlreadyOn) ==> cmd == AvrCommand::PowerOn,
        r matches Err(AvrError::PowerAlreadyOff) ==> cmd == AvrCommand::PowerOff,
        r matches Err(AvrError::PowerOffCantProcess) ==> cmd != AvrCommand::PowerOn && cmd
            != AvrCommand::PowerOff,
        r matches Err(AvrError::ResponseDoesntMatch { expected }) ==> (expected@ == expected_chars(
            cmd,
            *cfg,
        ) || expected@ == seq!['V', 'O', 'L']),
{
    match power_validation(bridge, &cmd, cfg) {
        Ok(()) => (),
        Err(e) => {
            return Err(e);
        },
    }
    match cmd {
        AvrCommand::SetVolume(n) => {
            let code = cmd.code(cfg);
            proof {
                lemma_volume_field_round_trip(n, *cfg);
            }
            match volume_control(bridge, code, cfg) {
                Ok(()) => (),
                Err(e) => {
                    return Err(e);
                },
            }
            settle(VOLUME_SETTLE_MS);
        },
        AvrCommand::PowerOn => {
            let code = cmd.code(cfg);
            match send_command(bridge, code.as_str()) {
                Ok(_) => (),
                Err(e) => {
                    return Err(e);
                },
            }
            settle(POWER_ON_SETTLE_MS);
        },
        _ => {
            let code = cmd.code(cfg);
            match send_command(bridge, code.as_str()) {
                Ok(_) => (),
                Err(e) => {
                    return Err(e);
                },
            }
        },
    }
    let query_response = match cmd.query(bridge) {
        Ok(s) => s,
        Err(e) => {
            return Err(e);
        },
    };
    validate_response(cmd, query_response, cfg)
}

/// Entry point for the request flow: run one exchange for the command,
/// blocking until it completes, fails, or times out.
pub fn process(bridge: &Bridge, cmd: AvrCommand, cfg: &CodecConfig) -> (r: Result<(), AvrError>)
    requires
        cmd.wf(),
        cfg.wf(),
    ensures
        r matches Err(AvrError::PowerAlreadyOn) ==> cmd == AvrCommand::PowerOn,
        r matches Err(AvrError::PowerAlreadyOff) ==> cmd == AvrCommand::PowerOff,
        r matches Err(AvrError::PowerOffCantProcess) ==> cmd != AvrCommand::PowerOn && cmd
            != AvrCommand::PowerOff,
        r matches Err(AvrError::ResponseDoesntMatch { expected }) ==> (expected@ == expected_chars(
            cmd,
            *cfg,
        ) || expected@ == seq!['V', 'O', 'L']),
{
    send_and_validate(bridge, cmd, cfg)
}

} // verus!
