//! Number writing and parsing, and the command-reply encoding.

use inapi::command::CommandResult;
use inapi::frames::{encode_command_response, Frame, FrameData};
use inapi::host::Host;
use inapi::num::{digit_of, i32_to_dec, parse_i32, parse_u64, u64_to_dec};
use inapi::telemetry::parse_version_triple;
use inapi::remote::command_result_response;

fn text_of(f: &Frame) -> String {
    match &f.data {
        FrameData::Text(s) => s.clone(),
        FrameData::Bin(_) => panic!("expected a text frame"),
    }
}

#[test]
fn writes_decimal_numbers() {
    assert_eq!(u64_to_dec(0), "0");
    assert_eq!(u64_to_dec(7), "7");
    assert_eq!(u64_to_dec(123), "123");
    assert_eq!(u64_to_dec(1000), "1000");
    assert_eq!(u64_to_dec(u64::MAX), "18446744073709551615");
}

#[test]
fn writes_signed_decimal_numbers() {
    assert_eq!(i32_to_dec(0), "0");
    assert_eq!(i32_to_dec(42), "42");
    assert_eq!(i32_to_dec(-1), "-1");
    assert_eq!(i32_to_dec(i32::MIN), "-2147483648");
    assert_eq!(i32_to_dec(i32::MAX), "2147483647");
}

#[test]
fn reads_unsigned_numbers() {
    assert_eq!(parse_u64("0"), Some(0));
    assert_eq!(parse_u64("007"), Some(7));
    assert_eq!(parse_u64("18446744073709551615"), Some(u64::MAX));
    assert_eq!(parse_u64("18446744073709551616"), None);
    assert_eq!(parse_u64(""), None);
    assert_eq!(parse_u64("12a"), None);
    assert_eq!(parse_u64("-3"), None);
    assert_eq!(parse_u64("1 2"), None);
}

#[test]
fn reads_signed_numbers() {
    assert_eq!(parse_i32("0"), Some(0));
    assert_eq!(parse_i32("-0"), Some(0));
    assert_eq!(parse_i32("2147483647"), Some(i32::MAX));
    assert_eq!(parse_i32("2147483648"), None);
    assert_eq!(parse_i32("-2147483648"), Some(i32::MIN));
    assert_eq!(parse_i32("-2147483649"), None);
    assert_eq!(parse_i32("-"), None);
    assert_eq!(parse_i32("two"), None);
    assert_eq!(parse_i32("ü2"), None);
}

#[test]
fn digit_table_matches_characters() {
    assert_eq!(digit_of('0'), Some(0));
    assert_eq!(digit_of('9'), Some(9));
    assert_eq!(digit_of('a'), None);
    assert_eq!(digit_of(' '), None);
}

#[test]
fn number_round_trips_on_the_wire() {
    for n in [0u64, 1, 9, 10, 65535, 123456789] {
        assert_eq!(parse_u64(&u64_to_dec(n)), Some(n));
    }
    for i in [0i32, 1, -1, 12345, -12345, i32::MIN, i32::MAX] {
        assert_eq!(parse_i32(&i32_to_dec(i)), Some(i));
    }
}

#[test]
fn encodes_a_command_reply() {
    let res = CommandResult {
        exit_code: -7,
        stdout: "out".to_string(),
        stderr: "err".to_string(),
    };
    let frames = encode_command_response(&res);
    assert_eq!(frames.len(), 4);
    assert_eq!(text_of(&frames[0]), "Ok");
    assert!(frames[0].more);
    assert_eq!(text_of(&frames[1]), "-7");
    assert!(frames[1].more);
    assert_eq!(text_of(&frames[2]), "out");
    assert!(frames[2].more);
    assert_eq!(text_of(&frames[3]), "err");
    assert!(!frames[3].more);
}

#[test]
fn command_reply_round_trips_end_to_end() {
    let sent = CommandResult {
        exit_code: 0,
        stdout: "Service started...".to_string(),
        stderr: "".to_string(),
    };
    let frames = encode_command_response(&sent);

    let mut host = Host::test_new(None, true, false, None);
    host.push_response(frames);
    let received = command_result_response(&mut host).unwrap();

    assert_eq!(received.exit_code, sent.exit_code);
    assert_eq!(received.stdout, sent.stdout);
    assert_eq!(received.stderr, sent.stderr);
}

#[test]
fn non_numeric_exit_code_is_a_parse_error() {
    let mut host = Host::test_new(None, true, false, None);
    host.push_response(vec![
        Frame::text("Ok", true),
        Frame::text("zero", true),
        Frame::text("", true),
        Frame::text("", false),
    ]);
    assert!(matches!(
        command_result_response(&mut host),
        Err(inapi::error::Error::Parse(_))
    ));
}

#[test]
fn version_triples_parse() {
    assert_eq!(parse_version_triple("22.04.3"), Some((22, 4, 3)));
    assert_eq!(parse_version_triple("24.05.1234.abcdef"), Some((24, 5, 1234)));
    assert_eq!(parse_version_triple("0.0.0"), Some((0, 0, 0)));
    assert_eq!(parse_version_triple("1.2"), None);
    assert_eq!(parse_version_triple("a.b.c"), None);
    assert_eq!(parse_version_triple("1.2.x"), None);
    assert_eq!(parse_version_triple("1..3"), None);
    assert_eq!(parse_version_triple(""), None);
    assert_eq!(parse_version_triple("4294967295.0.1"), Some((4294967295, 0, 1)));
    assert_eq!(parse_version_triple("4294967296.0.1"), None);
}
