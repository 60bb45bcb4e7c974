use hidctl::codec::{
    cmd_clear, cmd_inject, cmd_inject_target, cmd_mouse, cmd_passive_enum, cmd_press,
    decode_hex_pairs, encode, Command, COMMAND_SCRIPT_CLEAR, COMMAND_SCRIPT_INJECT,
    COMMAND_SCRIPT_INJECT_TARGET, COMMAND_SCRIPT_MOVE_MOUSE, COMMAND_SCRIPT_PASSIVE_ENUM,
    COMMAND_SCRIPT_PRESS, REPORT_TYPE_COMMAND,
};
use hidctl::errors::ControlError;

fn expected_report(opcode: u8, args: &[u8]) -> Vec<u8> {
    let mut r = vec![0u8; 65];
    r[1] = REPORT_TYPE_COMMAND;
    r[2] = opcode;
    r[3..3 + args.len()].copy_from_slice(args);
    r
}

#[test]
fn encode_is_always_65_bytes() {
    let commands = vec![
        Command::MoveMouse { x: 0, y: 0, left: 0, right: 0 },
        Command::Inject,
        Command::InjectTarget { target: String::from("AA:BB:CC:DD:EE:FF") },
        Command::PassiveEnum { target: String::from("01:02") },
        Command::Clear,
        Command::Press { key: 0x41 },
    ];
    for c in commands {
        let r = encode(&c).unwrap();
        assert_eq!(r.len(), 65);
    }
}

#[test]
fn encode_header_bytes() {
    let cases = vec![
        (Command::MoveMouse { x: 5, y: -5, left: 1, right: 1 }, COMMAND_SCRIPT_MOVE_MOUSE),
        (Command::Inject, COMMAND_SCRIPT_INJECT),
        (
            Command::InjectTarget { target: String::from("AA:BB:CC:DD:EE:FF") },
            COMMAND_SCRIPT_INJECT_TARGET,
        ),
        (Command::PassiveEnum { target: String::from("00") }, COMMAND_SCRIPT_PASSIVE_ENUM),
        (Command::Clear, COMMAND_SCRIPT_CLEAR),
        (Command::Press { key: 9 }, COMMAND_SCRIPT_PRESS),
    ];
    for (c, opcode) in cases {
        let r = encode(&c).unwrap();
        assert_eq!(r[0], 0x00);
        assert_eq!(r[1], 0x02);
        assert_eq!(r[2], opcode);
    }
}

#[test]
fn mouse_move_big_endian_twos_complement() {
    let r = cmd_mouse(300, -150, 1, 0);
    assert_eq!(r.len(), 65);
    assert_eq!(&r[3..9], &[0x01, 0x2C, 0xFF, 0x6A, 0x01, 0x00]);
    let via_encode = encode(&Command::MoveMouse { x: 300, y: -150, left: 1, right: 0 }).unwrap();
    assert_eq!(r, via_encode);
}

#[test]
fn mouse_move_full_report() {
    let r = cmd_mouse(300, -150, 1, 0);
    let expected = expected_report(0x15, &[0x01, 0x2C, 0xFF, 0x6A, 0x01, 0x00]);
    assert_eq!(r, expected);
}

#[test]
fn decode_mac_address() {
    let r = decode_hex_pairs("AA:BB:CC:DD:EE:FF").unwrap();
    assert_eq!(r, vec![0xAA, 0xBB, 0xCC, 0xDD, 0xEE, 0xFF]);
}

#[test]
fn decode_odd_length_fails() {
    assert_eq!(decode_hex_pairs("AA:B"), Err(ControlError::MalformedTarget));
}

#[test]
fn decode_non_hex_fails() {
    assert_eq!(decode_hex_pairs("ZZ:11"), Err(ControlError::MalformedTarget));
}

#[test]
fn decode_lowercase_and_mixed_grouping() {
    assert_eq!(decode_hex_pairs("aa:0f"), Ok(vec![0xAA, 0x0F]));
    assert_eq!(decode_hex_pairs("A:A12"), Ok(vec![0xAA, 0x12]));
}

#[test]
fn decode_empty_and_colons_only() {
    assert_eq!(decode_hex_pairs(""), Ok(vec![]));
    assert_eq!(decode_hex_pairs(":::"), Ok(vec![]));
}

#[test]
fn clear_and_inject_differ_only_in_opcode() {
    let clear = cmd_clear();
    let inject = cmd_inject();
    assert_eq!(clear.len(), 65);
    assert_eq!(inject.len(), 65);
    for i in 0..65 {
        if i == 2 {
            assert_eq!(clear[i], 0x14);
            assert_eq!(inject[i], 0x17);
        } else {
            assert_eq!(clear[i], inject[i]);
        }
    }
    for i in 3..65 {
        assert_eq!(clear[i], 0x00);
        assert_eq!(inject[i], 0x00);
    }
}

#[test]
fn opcodes_are_pairwise_distinct() {
    let opcodes = vec![
        COMMAND_SCRIPT_MOVE_MOUSE,
        COMMAND_SCRIPT_INJECT,
        COMMAND_SCRIPT_INJECT_TARGET,
        COMMAND_SCRIPT_PASSIVE_ENUM,
        COMMAND_SCRIPT_CLEAR,
        COMMAND_SCRIPT_PRESS,
    ];
    for i in 0..opcodes.len() {
        for j in 0..opcodes.len() {
            if i != j {
                assert_ne!(opcodes[i], opcodes[j]);
            }
        }
    }
}

#[test]
fn press_key_report() {
    let r = cmd_press(0x41);
    let expected = expected_report(0x12, &[0x41]);
    assert_eq!(r, expected);
    let via_encode = encode(&Command::Press { key: 0x41 }).unwrap();
    assert_eq!(r, via_encode);
}

#[test]
fn inject_target_report() {
    let r = cmd_inject_target("AA:BB:CC:DD:EE:FF").unwrap();
    let expected = expected_report(0x16, &[0xAA, 0xBB, 0xCC, 0xDD, 0xEE, 0xFF]);
    assert_eq!(r, expected);
}

#[test]
fn passive_enum_report() {
    let r = cmd_passive_enum("AA:BB:CC:DD:EE:FF").unwrap();
    let expected = expected_report(0x19, &[0xAA, 0xBB, 0xCC, 0xDD, 0xEE, 0xFF]);
    assert_eq!(r, expected);
}

#[test]
fn inject_target_malformed_and_overflow() {
    assert_eq!(cmd_inject_target("AA:B"), Err(ControlError::MalformedTarget));
    assert_eq!(cmd_passive_enum("0G"), Err(ControlError::MalformedTarget));
    let too_long = "AB".repeat(63);
    assert_eq!(cmd_inject_target(&too_long), Err(ControlError::ArgumentOverflow));
    assert_eq!(cmd_passive_enum(&too_long), Err(ControlError::ArgumentOverflow));
    assert_eq!(
        encode(&Command::InjectTarget { target: too_long.clone() }),
        Err(ControlError::ArgumentOverflow)
    );
    assert_eq!(
        encode(&Command::InjectTarget { target: String::from("A") }),
        Err(ControlError::MalformedTarget)
    );
}

#[test]
fn inject_target_fills_whole_argument_budget() {
    let full = "AB".repeat(62);
    let r = cmd_inject_target(&full).unwrap();
    assert_eq!(r.len(), 65);
    for i in 3..65 {
        assert_eq!(r[i], 0xAB);
    }
}

#[test]
fn build_report_validates_budget() {
    let args = vec![1u8; 62];
    let r = hidctl::codec::build_report(0x02, 0x17, &args).unwrap();
    assert_eq!(r.len(), 65);
    assert_eq!(r[64], 1);
    let oversized = vec![1u8; 63];
    assert_eq!(
        hidctl::codec::build_report(0x02, 0x17, &oversized),
        Err(ControlError::ArgumentOverflow)
    );
}

#[test]
fn encode_is_deterministic() {
    let a = encode(&Command::PassiveEnum { target: String::from("12:34") }).unwrap();
    let b = encode(&Command::PassiveEnum { target: String::from("12:34") }).unwrap();
    assert_eq!(a, b);
}
