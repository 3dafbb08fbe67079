use ajazz_sdk::info::Kind;
use ajazz_sdk::protocol::parser::{
    extract_string, is_akp03_button_press, is_akp03_encoder_press, is_akp03_encoder_value,
    parse_akp03_button_press, parse_akp03_encoder_press, parse_akp03_encoder_value, strip_nul,
};
use ajazz_sdk::{AjazzError, AjazzInput};

fn report(code: u8) -> Vec<u8> {
    let mut data = vec![0u8; 512];
    data[0] = 1;
    data[9] = code;
    data
}

fn pressed(len: usize, index: usize) -> Vec<bool> {
    (0..len).map(|i| i == index).collect()
}

fn buttons(input: Result<AjazzInput, AjazzError>) -> Vec<bool> {
    match input {
        Ok(AjazzInput::ButtonStateChange(states)) => states,
        other => panic!("expected a button report, got {:?}", other),
    }
}

#[test]
fn empty_report_is_no_data() {
    let data = vec![0u8; 512];
    let input = Kind::Akp153.parse_input(&data).unwrap();
    assert!(matches!(input, AjazzInput::NoData));
    assert!(input.is_empty());
    let short = [0u8];
    assert!(Kind::Akp03.parse_input(&short).unwrap().is_empty());
}

#[test]
fn non_empty_inputs_are_not_empty() {
    assert!(!AjazzInput::ButtonStateChange(vec![false]).is_empty());
    assert!(!AjazzInput::EncoderStateChange(vec![]).is_empty());
    assert!(!AjazzInput::EncoderTwist(vec![0]).is_empty());
}

#[test]
fn v1_release_report() {
    assert_eq!(buttons(Kind::Akp153.parse_input(&report(0))), vec![false; 18]);
    assert_eq!(buttons(Kind::Akp815.parse_input(&report(0))), vec![false; 15]);
}

#[test]
fn akp153_button_reports() {
    // native index 12 (code 13) is key 0, native index 0 (code 1) is key 4
    assert_eq!(buttons(Kind::Akp153.parse_input(&report(13))), pressed(18, 0));
    assert_eq!(buttons(Kind::Akp153.parse_input(&report(1))), pressed(18, 4));
    assert_eq!(buttons(Kind::MadDogGk150W.parse_input(&report(18))), pressed(18, 17));
    assert_eq!(buttons(Kind::Akp153E.parse_input(&report(3))), pressed(18, 16));
}

#[test]
fn akp815_button_reports() {
    assert_eq!(buttons(Kind::Akp815.parse_input(&report(1))), pressed(15, 14));
    assert_eq!(buttons(Kind::Akp815.parse_input(&report(15))), pressed(15, 0));
    assert_eq!(buttons(Kind::Akp815.parse_input(&report(13))), pressed(15, 2));
}

#[test]
fn v1_out_of_range_button_is_bad_data() {
    assert!(matches!(Kind::Akp153.parse_input(&report(19)), Err(AjazzError::BadData)));
    assert!(matches!(Kind::Akp815.parse_input(&report(16)), Err(AjazzError::BadData)));
    assert!(matches!(Kind::Akp815.parse_input(&report(0xff)), Err(AjazzError::BadData)));
}

#[test]
fn akp03_button_reports() {
    for code in 1u8..=6 {
        assert_eq!(buttons(Kind::Akp03.parse_input(&report(code))), pressed(9, code as usize - 1));
    }
    assert_eq!(buttons(Kind::Akp03E.parse_input(&report(0x25))), pressed(9, 6));
    assert_eq!(buttons(Kind::Akp03R.parse_input(&report(0x30))), pressed(9, 7));
    assert_eq!(buttons(Kind::Akp03RRev2.parse_input(&report(0x31))), pressed(9, 8));
}

#[test]
fn akp03_encoder_twist_reports() {
    let cases = [
        (0x90u8, vec![-1i8, 0, 0]),
        (0x91, vec![1, 0, 0]),
        (0x50, vec![0, -1, 0]),
        (0x51, vec![0, 1, 0]),
        (0x60, vec![0, 0, -1]),
        (0x61, vec![0, 0, 1]),
    ];
    for (code, expected) in cases {
        match Kind::Akp03.parse_input(&report(code)) {
            Ok(AjazzInput::EncoderTwist(values)) => assert_eq!(values, expected),
            other => panic!("unexpected {:?}", other),
        }
    }
}

#[test]
fn akp03_encoder_press_reports() {
    let cases = [(0x33u8, 0usize), (0x35, 1), (0x34, 2)];
    for (code, encoder) in cases {
        match Kind::Akp03.parse_input(&report(code)) {
            Ok(AjazzInput::EncoderStateChange(states)) => assert_eq!(states, pressed(3, encoder)),
            other => panic!("unexpected {:?}", other),
        }
    }
}

#[test]
fn akp03_unknown_codes_are_bad_data() {
    for code in [0u8, 7, 0x24, 0x32, 0x36, 0x52, 0x62, 0x92, 0xff] {
        assert!(matches!(Kind::Akp03.parse_input(&report(code)), Err(AjazzError::BadData)));
    }
}

#[test]
fn akp03_single_code_parsers() {
    assert_eq!(buttons(parse_akp03_button_press(0)), vec![false; 9]);
    assert_eq!(buttons(parse_akp03_button_press(4)), pressed(9, 3));
    assert!(matches!(parse_akp03_button_press(0x40), Err(AjazzError::BadData)));
    assert!(matches!(parse_akp03_encoder_value(0x33), Err(AjazzError::BadData)));
    assert!(matches!(parse_akp03_encoder_press(0x90), Err(AjazzError::BadData)));
    assert!(is_akp03_button_press(1));
    assert!(is_akp03_button_press(0x31));
    assert!(!is_akp03_button_press(0));
    assert!(!is_akp03_button_press(7));
    assert!(is_akp03_encoder_value(0x61));
    assert!(!is_akp03_encoder_value(0x62));
    assert!(is_akp03_encoder_press(0x34));
    assert!(!is_akp03_encoder_press(0x36));
}

#[test]
fn key_index_round_trip() {
    for kind in [Kind::Akp153, Kind::Akp153E, Kind::Akp153R, Kind::MadDogGk150W, Kind::Akp815] {
        for key in 0..kind.key_count() {
            let native = kind.index_to_native_v1(key).unwrap();
            assert_eq!(kind.index_from_native_v1(native), Some(key));
            let normal = kind.index_from_native_v1(key).unwrap();
            assert_eq!(kind.index_to_native_v1(normal), Some(key));
        }
    }
}

#[test]
fn akp815_keys_are_numbered_backwards() {
    assert_eq!(Kind::Akp815.index_to_native_v1(0), Some(14));
    assert_eq!(Kind::Akp815.index_to_native_v1(14), Some(0));
    assert_eq!(Kind::Akp815.index_from_native_v1(14), Some(0));
    assert_eq!(Kind::Akp815.index_to_native_v1(2), Some(12));
    assert_eq!(Kind::Akp815.index_from_native_v1(12), Some(2));
    assert_eq!(Kind::Akp153.index_to_native_v1(0), Some(12));
}

#[test]
fn native_index_edges() {
    assert_eq!(Kind::Akp153.index_from_native_v1(18), None);
    assert_eq!(Kind::Akp815.index_from_native_v1(15), None);
    assert_eq!(Kind::Akp815.index_from_native_v1(0), Some(14));
    assert_eq!(Kind::Akp03.index_from_native_v1(0), None);
    assert_eq!(Kind::Akp153.index_to_native_v1(18), Some(18));
    assert_eq!(Kind::Akp153.index_to_native_v1(200), Some(200));
    assert_eq!(Kind::Akp03.index_to_native_v1(0), None);
}

#[test]
fn ack_detection() {
    let ack = [0x41u8, 0x43, 0x4b, 0x00, 0x00, 0x4f, 0x4b];
    assert!(Kind::Akp153.is_ack_ok(&ack));
    let mut longer = ack.to_vec();
    longer.extend_from_slice(&[1, 2, 3]);
    assert!(Kind::Akp03.is_ack_ok(&longer));
    assert!(!Kind::Akp153.is_ack_ok(&ack[..6]));
    assert!(!Kind::Akp153.is_ack_ok(&[0x41, 0x43, 0x4b, 0x00, 0x00, 0x4f, 0x4c]));
    assert!(!Kind::Akp153.is_ack_ok(&[]));
}

#[test]
fn extract_string_drops_nul() {
    assert_eq!(extract_string(b"V1.0.5\0\0\0").unwrap(), "V1.0.5");
    assert_eq!(extract_string(b"\0A\0B\0").unwrap(), "AB");
    assert_eq!(extract_string("h\u{e9}\0llo".as_bytes()).unwrap(), "h\u{e9}llo");
    assert_eq!(extract_string(b"").unwrap(), "");
    assert_eq!(extract_string(b"\0\0").unwrap(), "");
}

#[test]
fn extract_string_rejects_invalid_utf8() {
    assert!(extract_string(&[0xc3, 0x00, 0xa9]).is_err());
    assert!(extract_string(&[0xff]).is_err());
    assert!(extract_string(&[b'a', 0x80]).is_err());
}

#[test]
fn strip_nul_keeps_other_characters() {
    assert_eq!(strip_nul("a\0b\0c"), "abc");
    assert_eq!(strip_nul("\u{1F600}\0"), "\u{1F600}");
    assert_eq!(strip_nul("plain"), "plain");
}
