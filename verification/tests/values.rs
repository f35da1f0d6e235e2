use catserver::dummy::DummyRadio;
use catserver::freq::Freq;
use catserver::rig::{is_valid_rig, Mode, Radio, RadioError, Slot, Status};
use catserver::text::{decimal_string, first_word, parse_u32, push_decimal, str_eq, trim};

#[test]
fn khz_becomes_hz() {
    assert_eq!(Freq::from_khz(7074).as_u32_hz(), 7_074_000);
    assert_eq!(Freq::from_khz(0).as_u32_hz(), 0);
    assert_eq!(Freq::from_khz(4_294_967).as_u32_hz(), 4_294_967_000);
}

#[test]
fn khz_beyond_range_saturates() {
    assert_eq!(Freq::from_khz(4_294_968).as_u32_hz(), u32::MAX);
    assert_eq!(Freq::from_khz(u32::MAX).as_u32_hz(), u32::MAX);
}

#[test]
fn register_bits_are_kept() {
    assert_eq!(Freq::from_i32_hz(14_074_000).as_u32_hz(), 14_074_000);
    assert_eq!(Freq::from_i32_hz(-1).as_u32_hz(), u32::MAX);
    assert_eq!(Freq::from_i32_hz(i32::MIN).as_u32_hz(), 0x8000_0000);
    assert_eq!(Freq::from_u32_hz(u32::MAX).as_i32_hz(), -1);
    assert_eq!(Freq::from_u32_hz(0x8000_0000).as_i32_hz(), i32::MIN);
    assert_eq!(Freq::from_u32_hz(7_000_000).as_i32_hz(), 7_000_000);
}

#[test]
fn rigs_one_and_two_are_valid() {
    assert!(!is_valid_rig(0));
    assert!(is_valid_rig(1));
    assert!(is_valid_rig(2));
    assert!(!is_valid_rig(3));
    assert!(!is_valid_rig(255));
}

#[test]
fn dummy_starts_connected_on_rig_one() {
    let mut radio = DummyRadio::new();
    assert_eq!(radio.get_name(), "dummy");
    assert!(radio.is_available());
    radio.init();
    let status = radio.get_status();
    assert_eq!(status.freq, 0);
    assert_eq!(status.status, "connected");
    assert_eq!(status.mode, "SSB");
    assert_eq!(status.current_rig, 1);
}

#[test]
fn dummy_keeps_four_frequencies_apart() {
    let mut radio = DummyRadio::new();
    radio.set_frequency(Slot::A, Freq::from_u32_hz(14_074_000));
    radio.set_frequency(Slot::B, Freq::from_u32_hz(1));
    assert_eq!(radio.get_status().freq, 14_074_000);
    assert_eq!(radio.set_rig(2), Ok(()));
    assert_eq!(radio.current_rig(), 2);
    assert_eq!(radio.get_status().freq, 0);
    radio.set_frequency(Slot::A, Freq::from_u32_hz(7_074_000));
    radio.set_frequency(Slot::B, Freq::from_u32_hz(2));
    let status = radio.get_status();
    assert_eq!(status.freq, 7_074_000);
    assert_eq!(status.current_rig, 2);
    assert_eq!(radio.set_rig(1), Ok(()));
    assert_eq!(radio.get_status().freq, 14_074_000);
}

#[test]
fn dummy_turns_down_unknown_rig() {
    let mut radio = DummyRadio::new();
    radio.set_frequency(Slot::A, Freq::from_u32_hz(3_573_000));
    assert_eq!(radio.set_rig(3), Err(RadioError::InvalidRig(3)));
    assert_eq!(radio.set_rig(0), Err(RadioError::InvalidRig(0)));
    let status = radio.get_status();
    assert_eq!(status.current_rig, 1);
    assert_eq!(status.freq, 3_573_000);
}

#[test]
fn dummy_mode_does_not_touch_frequency() {
    let mut radio = DummyRadio::new();
    radio.set_frequency(Slot::A, Freq::from_u32_hz(10));
    radio.set_mode(Mode::CW);
    let copy = radio.clone();
    assert_eq!(radio.get_status().freq, 10);
    let mut copy = copy;
    assert_eq!(copy.get_status().freq, 10);
}

#[test]
fn snapshots_compare_by_content() {
    let a = Status { freq: 1, status: "connected".into(), mode: "SSB".into(), current_rig: 1 };
    let b = a.clone();
    assert!(a == b);
    let c = Status { freq: 2, status: "connected".into(), mode: "SSB".into(), current_rig: 1 };
    assert!(a != c);
    let d = Status { freq: 1, status: "connected".into(), mode: "CW".into(), current_rig: 1 };
    assert!(a != d);
    let e = Status { freq: 1, status: "unknown".into(), mode: "SSB".into(), current_rig: 1 };
    assert!(a != e);
    let f = Status { freq: 1, status: "connected".into(), mode: "SSB".into(), current_rig: 2 };
    assert!(a != f);
}

#[test]
fn strings_compare_by_characters() {
    assert!(str_eq("", ""));
    assert!(str_eq("SSB", "SSB"));
    assert!(!str_eq("SSB", "SSb"));
    assert!(!str_eq("SSB", "SS"));
    assert!(!str_eq("é", "e"));
    assert!(str_eq("日本", "日本"));
}

#[test]
fn numbers_are_written_in_decimal() {
    assert_eq!(decimal_string(0), "0");
    assert_eq!(decimal_string(9), "9");
    assert_eq!(decimal_string(10), "10");
    assert_eq!(decimal_string(14_074_000), "14074000");
    assert_eq!(decimal_string(u64::MAX), "18446744073709551615");
    let mut out = String::from("F ");
    push_decimal(&mut out, 7_100_000);
    assert_eq!(out, "F 7100000");
}

#[test]
fn numbers_are_read_in_decimal() {
    assert_eq!(parse_u32("0"), Some(0));
    assert_eq!(parse_u32("14074000"), Some(14_074_000));
    assert_eq!(parse_u32("+5"), Some(5));
    assert_eq!(parse_u32("007"), Some(7));
    assert_eq!(parse_u32("4294967295"), Some(u32::MAX));
    assert_eq!(parse_u32("4294967296"), None);
    assert_eq!(parse_u32("99999999999999999999999"), None);
    assert_eq!(parse_u32(""), None);
    assert_eq!(parse_u32("+"), None);
    assert_eq!(parse_u32("-5"), None);
    assert_eq!(parse_u32("++5"), None);
    assert_eq!(parse_u32("5+"), None);
    assert_eq!(parse_u32(" 5"), None);
    assert_eq!(parse_u32("5 "), None);
    assert_eq!(parse_u32("1.5"), None);
    assert_eq!(parse_u32("٣"), None);
    assert_eq!(parse_u32("RPRT -1"), None);
}

#[test]
fn reading_agrees_with_the_standard_library() {
    let samples = ["0", "+0", "12", "+", "", "-1", "4294967295", "4294967296", "1e3", "0x10", "00"];
    for text in samples {
        assert_eq!(parse_u32(text), text.parse::<u32>().ok());
    }
}

#[test]
fn white_space_is_trimmed() {
    assert_eq!(trim("14074000\n"), "14074000");
    assert_eq!(trim("  USB 2400\r\n"), "USB 2400");
    assert_eq!(trim(""), "");
    assert_eq!(trim(" \t\n"), "");
    assert_eq!(trim("a"), "a");
    assert_eq!(trim("\u{3000}a b\u{a0}"), "a b");
    assert_eq!(trim("x\u{200b}"), "x\u{200b}");
}

#[test]
fn first_field_is_found() {
    assert_eq!(first_word("USB 2400"), Some("USB"));
    assert_eq!(first_word("  PKTUSB\t3000\n"), Some("PKTUSB"));
    assert_eq!(first_word("CW"), Some("CW"));
    assert_eq!(first_word(""), None);
    assert_eq!(first_word(" \n "), None);
    assert_eq!(first_word("\u{2003}FM\u{2003}x"), Some("FM"));
}
