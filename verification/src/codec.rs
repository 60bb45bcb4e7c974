//! The report codec: pure, deterministic framing of logical commands into
//! fixed 65-byte feature reports.
//!
//! A report is laid out as: byte 0 reserved (always zero), byte 1 the report
//! type, byte 2 the command opcode, bytes 3 onward the command's argument
//! payload, and every remaining byte zero. The layout, the opcode values and
//! the 65-byte total are mandated by the peripheral's firmware protocol.

use vstd::prelude::*;

use crate::errors::ControlError;

verus! {

/// Report type of every command report.
pub const REPORT_TYPE_COMMAND: u8 = 0x02;

/// Opcode of the pointer-movement command.
pub const COMMAND_SCRIPT_MOVE_MOUSE: u8 = 0x15;

/// Opcode of the payload-injection command.
pub const COMMAND_SCRIPT_INJECT: u8 = 0x17;

/// Opcode of the command that sets the injection target.
pub const COMMAND_SCRIPT_INJECT_TARGET: u8 = 0x16;

/// Opcode of the passive-enumeration command.
pub const COMMAND_SCRIPT_PASSIVE_ENUM: u8 = 0x19;

/// Opcode of the command that clears the device's state.
pub const COMMAND_SCRIPT_CLEAR: u8 = 0x14;

/// Opcode of the key-press command.
pub const COMMAND_SCRIPT_PRESS: u8 = 0x12;

/// True of the characters `0`-`9`, `a`-`f` and `A`-`F`.
pub open spec fn is_hex_digit(c: char) -> bool {
    ||| 48 <= c as int && c as int <= 57
    ||| 97 <= c as int && c as int <= 102
    ||| 65 <= c as int && c as int <= 70
}

/// Numeric value of one hex digit.
pub open spec fn hex_val(c: char) -> u8
    recommends
        is_hex_digit(c),
{
    if 48 <= c as int && c as int <= 57 {
        (c as int - 48) as u8
    } else if 97 <= c as int && c as int <= 102 {
        (c as int - 87) as u8
    } else {
        (c as int - 55) as u8
    }
}

/// The target string with every colon separator removed.
pub open spec fn clean_target(s: Seq<char>) -> Seq<char>
    decreases s.len(),
{
    if s.len() == 0 {
        Seq::empty()
    } else {
        let rest = clean_target(s.drop_last());
        if s.last() == ':' {
            rest
        } else {
            rest.push(s.last())
        }
    }
}

/// True where every character of the sequence is a hex digit.
pub open spec fn all_hex(h: Seq<char>) -> bool {
    forall|i: int| 0 <= i < h.len() ==> is_hex_digit(#[trigger] h[i])
}

/// A target string decodes cleanly: after the colons are removed, what is
/// left consists of hex digits and splits into complete two-digit groups.
pub open spec fn valid_target(s: Seq<char>) -> bool {
    &&& all_hex(clean_target(s))
    &&& clean_target(s).len() % 2 == 0
}

/// The byte one two-digit hex group denotes.
pub open spec fn pair_val(hi: char, lo: char) -> u8
    recommends
        is_hex_digit(hi),
        is_hex_digit(lo),
{
    (hex_val(hi) * 16 + hex_val(lo)) as u8
}

/// The bytes a colon-free hex string denotes, two digits per byte.
pub open spec fn bytes_of_hex(h: Seq<char>) -> Seq<u8>
    recommends
        all_hex(h),
        h.len() % 2 == 0,
    decreases h.len(),
{
    if h.len() < 2 {
        Seq::empty()
    } else {
        bytes_of_hex(h.take(h.len() - 2)).push(
            pair_val(h[h.len() - 2], h[h.len() - 1]),
        )
    }
}

/// The bytes a colon-delimited target string denotes.
pub open spec fn decoded_target(s: Seq<char>) -> Seq<u8> {
    bytes_of_hex(clean_target(s))
}

/// Numeric value of a hex digit, or `None` for any other character.
pub fn hex_digit_value(c: char) -> (r: Option<u8>)
    ensures
        is_hex_digit(c) ==> r == Some(hex_val(c)),
        !is_hex_digit(c) ==> r is None,
{
    let v: u32 = c as u32;
    if 48 <= v && v <= 57 {
        Some((v - 48) as u8)
    } else if 97 <= v && v <= 102 {
        Some((v - 87) as u8)
    } else if 65 <= v && v <= 70 {
        Some((v - 55) as u8)
    } else {
        None
    }
}

/// Decodes a colon-delimited hex string, such as a MAC address, into its
/// bytes: the colons are removed and every remaining two-character group is
/// parsed as one base-16 byte. Fails with `MalformedTarget` exactly when the
/// colon-free string has odd length or holds a character that is no hex
/// digit.
pub fn decode_hex_pairs(target: &str) -> (r: Result<Vec<u8>, ControlError>)
    ensures
        valid_target(target@) ==> (r matches Ok(v) && v@ == decoded_target(target@)),
        !valid_target(target@) ==> r == Err::<Vec<u8>, ControlError>(ControlError::MalformedTarget),
{
    let n = target.unicode_len();
    let mut cleaned: Vec<char> = Vec::new();
    let mut i: usize = 0;
    while i < n
        invariant
            n == target@.len(),
            i <= n,
            cleaned@ == clean_target(target@.take(i as int)),
        decreases n - i,
    {
        let c = target.get_char(i);
        proof {
            assert(target@.take(i + 1).drop_last() =~= target@.take(i as int));
            assert(target@.take(i + 1).last() == target@[i as int]);
        }
        if c != ':' {
            cleaned.push(c);
        }
        i += 1;
    }
    proof {
        assert(target@.take(n as int) =~= target@);
    }
    if cleaned.len() % 2 != 0 {
        return Err(ControlError::MalformedTarget);
    }
    let mut out: Vec<u8> = Vec::new();
    let mut j: usize = 0;
    while j < cleaned.len()
        invariant
            cleaned@ == clean_target(target@),
            cleaned@.len() % 2 == 0,
            j % 2 == 0,
            j <= cleaned.len(),
            all_hex(cleaned@.take(j as int)),
            out@ == bytes_of_hex(cleaned@.take(j as int)),
        decreases cleaned.len() - j,
    {
        let hi = cleaned[j];
        let lo = cleaned[j + 1];
        let dh = hex_digit_value(hi);
        let dl = hex_digit_value(lo);
        if dh.is_none() || dl.is_none() {
            proof {
                if !is_hex_digit(cleaned@[j as int]) {
                    assert(!all_hex(cleaned@));
                } else {
                    assert(!is_hex_digit(cleaned@[j + 1]));
                    assert(!all_hex(cleaned@));
                }
            }
            return Err(ControlError::MalformedTarget);
        }
        let h = dh.unwrap();
        let l = dl.unwrap();
        out.push(h * 16 + l);
        proof {
            let t2 = cleaned@.take(j + 2);
            assert(t2.take(j as int) =~= cleaned@.take(j as int));
            assert(t2[j as int] == cleaned@[j as int]);
            assert(t2[j + 1] == cleaned@[j + 1]);
            assert(out@ == bytes_of_hex(t2));
            assert forall|k: int| 0 <= k < t2.len() implies is_hex_digit(t2[k]) by {
                if k < j {
                    assert(t2[k] == cleaned@.take(j as int)[k]);
                }
            }
        }
        j += 2;
    }
    proof {
        assert(cleaned@.take(cleaned@.len() as int) =~= cleaned@);
    }
    Ok(out)
}

/// A logical command, one of the fixed set the peripheral's firmware
/// understands. Targets are carried as the colon-delimited hex strings the
/// caller supplies; they are decoded at encoding time.
#[derive(Debug, Clone)]
pub enum Command {
    /// Move the pointer by a signed offset and set the button flags.
    MoveMouse { x: i16, y: i16, left: u8, right: u8 },
    /// Trigger injection of the staged payload.
    Inject,
    /// Set the injection target, given as a colon-delimited hex string.
    InjectTarget { target: String },
    /// Start passive enumeration of the given target.
    PassiveEnum { target: String },
    /// Clear the device's state.
    Clear,
    /// Press one key, given by its 8-bit code.
    Press { key: u8 },
}

/// The opcode byte of a command.
pub open spec fn opcode_of(c: Command) -> u8 {
    match c {
        Command::MoveMouse { .. } => COMMAND_SCRIPT_MOVE_MOUSE,
        Command::Inject => COMMAND_SCRIPT_INJECT,
        Command::InjectTarget { .. } => COMMAND_SCRIPT_INJECT_TARGET,
        Command::PassiveEnum { .. } => COMMAND_SCRIPT_PASSIVE_ENUM,
        Command::Clear => COMMAND_SCRIPT_CLEAR,
        Command::Press { .. } => COMMAND_SCRIPT_PRESS,
    }
}

/// The unsigned 16-bit pattern of a signed 16-bit value, in two's
/// complement.
pub open spec fn to_u16(x: i16) -> u16 {
    if x >= 0 {
        x as u16
    } else {
        (x + 0x10000) as u16
    }
}

/// High byte of a big-endian 16-bit value.
pub open spec fn be_hi(w: u16) -> u8 {
    (w / 256) as u8
}

/// Low byte of a big-endian 16-bit value.
pub open spec fn be_lo(w: u16) -> u8 {
    (w % 256) as u8
}

/// The six argument bytes of a pointer-movement command: x and y big-endian
/// in two's complement, then the two button flags.
pub open spec fn mouse_args(x: i16, y: i16, left: u8, right: u8) -> Seq<u8> {
    seq![
        be_hi(to_u16(x)),
        be_lo(to_u16(x)),
        be_hi(to_u16(y)),
        be_lo(to_u16(y)),
        left,
        right,
    ]
}

/// The argument payload of a command.
pub open spec fn args_of(c: Command) -> Seq<u8> {
    match c {
        Command::MoveMouse { x, y, left, right } => mouse_args(x, y, left, right),
        Command::Inject => Seq::empty(),
        Command::InjectTarget { target } => decoded_target(target@),
        Command::PassiveEnum { target } => decoded_target(target@),
        Command::Clear => Seq::empty(),
        Command::Press { key } => seq![key],
    }
}

/// The full 65-byte report: reserved zero, report type, opcode, the argument
/// payload, and zero padding to the end.
pub open spec fn report_bytes(report_type: u8, cmd: u8, args: Seq<u8>) -> Seq<u8> {
    Seq::new(
        65,
        |i: int|
            if i == 0 {
                0u8
            } else if i == 1 {
                report_type
            } else if i == 2 {
                cmd
            } else if 3 <= i < 3 + args.len() {
                args[i - 3]
            } else {
                0u8
            },
    )
}

/// The report a command encodes to.
pub open spec fn report_of(c: Command) -> Seq<u8> {
    report_bytes(REPORT_TYPE_COMMAND, opcode_of(c), args_of(c))
}

/// True of the commands `encode` accepts: the fixed-argument commands
/// always, and the two target-carrying commands exactly when their target
/// decodes cleanly into at most 62 bytes.
pub open spec fn encode_ok(c: Command) -> bool {
    match c {
        Command::InjectTarget { target } => valid_target(target@) && decoded_target(
            target@,
        ).len() <= 62,
        Command::PassiveEnum { target } => valid_target(target@) && decoded_target(
            target@,
        ).len() <= 62,
        _ => true,
    }
}

/// The error `encode` reports for a command it rejects: a target that does
/// not decode is malformed; one that decodes to more than 62 bytes
/// overflows the report's argument budget.
pub open spec fn encode_err(c: Command) -> ControlError
    recommends
        !encode_ok(c),
{
    match c {
        Command::InjectTarget { target } => if !valid_target(target@) {
            ControlError::MalformedTarget
        } else {
            ControlError::ArgumentOverflow
        },
        Command::PassiveEnum { target } => if !valid_target(target@) {
            ControlError::MalformedTarget
        } else {
            ControlError::ArgumentOverflow
        },
        _ => ControlError::MalformedTarget,
    }
}

/// Builds the 65-byte report around an argument payload known to fit.
fn build_report_exact(report_type: u8, cmd: u8, args: &Vec<u8>) -> (r: Vec<u8>)
    requires
        args@.len() <= 62,
    ensures
        r@ == report_bytes(report_type, cmd, args@),
{
    let mut report: Vec<u8> = Vec::new();
    let mut i: usize = 0;
    while i < 65
        invariant
            i <= 65,
            report@.len() == i,
            forall|k: int| 0 <= k < i ==> report@[k] == 0u8,
        decreases 65 - i,
    {
        report.push(0u8);
        i += 1;
    }
    report[1] = report_type;
    report[2] = cmd;
    let mut j: usize = 0;
    while j < args.len()
        invariant
            args@.len() <= 62,
            j <= args@.len(),
            report@.len() == 65,
            report@[0] == 0u8,
            report@[1] == report_type,
            report@[2] == cmd,
            forall|k: int| 3 <= k < 3 + j ==> report@[k] == args@[k - 3],
            forall|k: int| 3 + j <= k < 65 ==> report@[k] == 0u8,
        decreases args@.len() - j,
    {
        report[3 + j] = args[j];
        j += 1;
    }
    proof {
        assert(report@ =~= report_bytes(report_type, cmd, args@));
    }
    report
}

/// Builds a report, validating the argument budget: fails with
/// `ArgumentOverflow` exactly when the payload exceeds the 62 bytes left
/// after the reserved byte, the report type and the opcode.
pub fn build_report(report_type: u8, cmd: u8, args: &Vec<u8>) -> (r: Result<
    Vec<u8>,
    ControlError,
>)
    ensures
        args@.len() <= 62 ==> (r matches Ok(v) && v@ == report_bytes(report_type, cmd, args@)),
        args@.len() > 62 ==> r == Err::<Vec<u8>, ControlError>(ControlError::ArgumentOverflow),
{
    if args.len() > 62 {
        return Err(ControlError::ArgumentOverflow);
    }
    Ok(build_report_exact(report_type, cmd, args))
}

/// Splits a signed 16-bit value into its big-endian byte pair, in two's
/// complement.
fn i16_to_be_pair(x: i16) -> (r: (u8, u8))
    ensures
        r.0 == be_hi(to_u16(x)),
        r.1 == be_lo(to_u16(x)),
{
    let w: u16 = if x >= 0 {
        x as u16
    } else {
        let v: i32 = x as i32 + 0x10000;
        v as u16
    };
    ((w / 256) as u8, (w % 256) as u8)
}

/// Encodes a pointer-movement command: x and y big-endian, then the two
/// button flags, in a 65-byte report under the movement opcode.
pub fn cmd_mouse(x: i16, y: i16, left: u8, right: u8) -> (r: Vec<u8>)
    ensures
        r@ == report_of(Command::MoveMouse { x, y, left, right }),
{
    let (xh, xl) = i16_to_be_pair(x);
    let (yh, yl) = i16_to_be_pair(y);
    let mut args: Vec<u8> = Vec::new();
    args.push(xh);
    args.push(xl);
    args.push(yh);
    args.push(yl);
    args.push(left);
    args.push(right);
    proof {
        assert(args@ =~= mouse_args(x, y, left, right));
    }
    build_report_exact(REPORT_TYPE_COMMAND, COMMAND_SCRIPT_MOVE_MOUSE, &args)
}

/// Encodes the injection-trigger command: no arguments.
pub fn cmd_inject() -> (r: Vec<u8>)
    ensures
        r@ == report_of(Command::Inject),
{
    let args: Vec<u8> = Vec::new();
    proof {
        assert(args@ =~= args_of(Command::Inject));
    }
    build_report_exact(REPORT_TYPE_COMMAND, COMMAND_SCRIPT_INJECT, &args)
}

/// Encodes the set-injection-target command: the decoded target bytes under
/// the target opcode. Fails with `MalformedTarget` when the string does not
/// decode, and with `ArgumentOverflow` when it decodes to more than 62
/// bytes.
pub fn cmd_inject_target(target: &str) -> (r: Result<Vec<u8>, ControlError>)
    ensures
        valid_target(target@) && decoded_target(target@).len() <= 62 ==> (r matches Ok(v)
            && v@ == report_bytes(
            REPORT_TYPE_COMMAND,
            COMMAND_SCRIPT_INJECT_TARGET,
            decoded_target(target@),
        )),
        !valid_target(target@) ==> r == Err::<Vec<u8>, ControlError>(
            ControlError::MalformedTarget,
        ),
        valid_target(target@) && decoded_target(target@).len() > 62 ==> r == Err::<
            Vec<u8>,
            ControlError,
        >(ControlError::ArgumentOverflow),
{
    let bytes = decode_hex_pairs(target)?;
    build_report(REPORT_TYPE_COMMAND, COMMAND_SCRIPT_INJECT_TARGET, &bytes)
}

/// Encodes the passive-enumeration command: the decoded target bytes under
/// the enumeration opcode, with the same failure modes as the target
/// command.
pub fn cmd_passive_enum(target: &str) -> (r: Result<Vec<u8>, ControlError>)
    ensures
        valid_target(target@) && decoded_target(target@).len() <= 62 ==> (r matches Ok(v)
            && v@ == report_bytes(
            REPORT_TYPE_COMMAND,
            COMMAND_SCRIPT_PASSIVE_ENUM,
            decoded_target(target@),
        )),
        !valid_target(target@) ==> r == Err::<Vec<u8>, ControlError>(
            ControlError::MalformedTarget,
        ),
        valid_target(target@) && decoded_target(target@).len() > 62 ==> r == Err::<
            Vec<u8>,
            ControlError,
        >(ControlError::ArgumentOverflow),
{
    let bytes = decode_hex_pairs(target)?;
    build_report(REPORT_TYPE_COMMAND, COMMAND_SCRIPT_PASSIVE_ENUM, &bytes)
}

/// Encodes the clear command: no arguments.
pub fn cmd_clear() -> (r: Vec<u8>)
    ensures
        r@ == report_of(Command::Clear),
{
    let args: Vec<u8> = Vec::new();
    proof {
        assert(args@ =~= args_of(Command::Clear));
    }
    build_report_exact(REPORT_TYPE_COMMAND, COMMAND_SCRIPT_CLEAR, &args)
}

/// Encodes the key-press command: the one key code as argument.
pub fn cmd_press(key: u8) -> (r: Vec<u8>)
    ensures
        r@ == report_of(Command::Press { key }),
{
    let mut args: Vec<u8> = Vec::new();
    args.push(key);
    proof {
        assert(args@ =~= args_of(Command::Press { key }));
    }
    build_report_exact(REPORT_TYPE_COMMAND, COMMAND_SCRIPT_PRESS, &args)
}

/// Encodes any command into its 65-byte report. Succeeds exactly on the
/// commands `encode_ok` admits and then returns exactly `report_of` the
/// command; a target that does not decode is reported as malformed, one
/// whose bytes exceed the argument budget as an overflow.
pub fn encode(c: &Command) -> (r: Result<Vec<u8>, ControlError>)
    ensures
        encode_ok(*c) ==> (r matches Ok(v) && v@ == report_of(*c)),
        !encode_ok(*c) ==> r == Err::<Vec<u8>, ControlError>(encode_err(*c)),
{
    match c {
        Command::MoveMouse { x, y, left, right } => Ok(cmd_mouse(*x, *y, *left, *right)),
        Command::Inject => Ok(cmd_inject()),
        Command::InjectTarget { target } => cmd_inject_target(target.as_str()),
        Command::PassiveEnum { target } => cmd_passive_enum(target.as_str()),
        Command::Clear => Ok(cmd_clear()),
        Command::Press { key } => Ok(cmd_press(*key)),
    }
}

/// Law: every encoded report is exactly 65 bytes long, whatever the
/// command.
pub proof fn lemma_report_len(c: Command)
    ensures
        report_of(c).len() == 65,
{
}

/// Law: byte 0 of every encoded report is zero, byte 1 is the command
/// report type, and byte 2 is the command's own opcode.
pub proof fn lemma_report_header(c: Command)
    ensures
        report_of(c)[0] == 0u8,
        report_of(c)[1] == REPORT_TYPE_COMMAND,
        report_of(c)[2] == opcode_of(c),
{
}

/// Law: the clear report and the inject report agree on every byte but the
/// opcode at byte 2, and every argument byte of both is zero.
pub proof fn lemma_clear_inject_differ_only_in_opcode()
    ensures
        forall|i: int|
            0 <= i < 65 && i != 2 ==> report_of(Command::Clear)[i] == report_of(
                Command::Inject,
            )[i],
        forall|i: int| 3 <= i < 65 ==> report_of(Command::Clear)[i] == 0u8,
        forall|i: int| 3 <= i < 65 ==> report_of(Command::Inject)[i] == 0u8,
{
}

/// True where two commands are of the same kind, whatever their payloads.
pub open spec fn same_kind(a: Command, b: Command) -> bool {
    ||| a is MoveMouse && b is MoveMouse
    ||| a is Inject && b is Inject
    ||| a is InjectTarget && b is InjectTarget
    ||| a is PassiveEnum && b is PassiveEnum
    ||| a is Clear && b is Clear
    ||| a is Press && b is Press
}

/// Law: the opcode mapping is injective — two commands that encode to the
/// same opcode are of the same kind.
pub proof fn lemma_opcode_injective(a: Command, b: Command)
    ensures
        opcode_of(a) == opcode_of(b) ==> same_kind(a, b),
{
}

} // verus!
