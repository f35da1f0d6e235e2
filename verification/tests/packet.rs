use catserver::reporting::{build_status_packet, Mode, MAGIC, PACKET_TYPE, SCHEMA};

fn field(text: &str) -> Vec<u8> {
    let mut out = (text.len() as u32).to_be_bytes().to_vec();
    out.extend_from_slice(text.as_bytes());
    out
}

#[test]
fn golden_status_packet() {
    let packet = build_status_packet("K1ABC", "W9XYZ", 14_074_000, Mode::FT8, "0", "EM12", "FN20");
    let expected: Vec<u8> = vec![
        0xad, 0xbc, 0xcb, 0xda, // magic
        0, 0, 0, 2, // schema
        0, 0, 0, 1, // status
        0, 0, 0, 6, b'W', b'S', b'J', b'T', b'-', b'X', // program
        0, 0, 0, 0, 0, 0xd6, 0xc0, 0x90, // 14 074 000 Hz
        0, 0, 0, 3, b'F', b'T', b'8', // mode
        0, 0, 0, 5, b'K', b'1', b'A', b'B', b'C', // DX call
        0, 0, 0, 1, b'0', // report
        0, 0, 0, 3, b'F', b'T', b'8', // transmit mode
        0, 0, 0, // flags
        0, 0, 0, 0, // receive offset
        0, 0, 0, 0, // transmit offset
        0, 0, 0, 5, b'W', b'9', b'X', b'Y', b'Z', // DE call
        0, 0, 0, 4, b'F', b'N', b'2', b'0', // DE grid
        0, 0, 0, 4, b'E', b'M', b'1', b'2', // DX grid
        0, // watchdog
        0xff, 0xff, 0xff, 0xff, 0, 0, 0xff, 0xff, 0xff, 0xff, 0xff, 0xff, 0xff, 0xff,
        0, 0, 0, 7, b'D', b'e', b'f', b'a', b'u', b'l', b't', // configuration
        0xff, 0xff, 0xff, 0xff,
    ];
    assert_eq!(packet, expected);
}

#[test]
fn packet_follows_the_layout() {
    let packet = build_status_packet("DL1ÄB", "", u64::MAX, Mode::Rtty, "-12", "", "JO62qm");
    let mut expected = Vec::new();
    expected.extend_from_slice(&MAGIC.to_be_bytes());
    expected.extend_from_slice(&SCHEMA.to_be_bytes());
    expected.extend_from_slice(&PACKET_TYPE.to_be_bytes());
    expected.extend(field("WSJT-X"));
    expected.extend_from_slice(&u64::MAX.to_be_bytes());
    expected.extend(field("RTTY"));
    expected.extend(field("DL1ÄB"));
    expected.extend(field("-12"));
    expected.extend(field("RTTY"));
    expected.extend_from_slice(&[0, 0, 0]);
    expected.extend_from_slice(&[0; 8]);
    expected.extend(field(""));
    expected.extend(field("JO62qm"));
    expected.extend(field(""));
    expected.push(0);
    expected.extend_from_slice(b"\xff\xff\xff\xff\x00\x00\xff\xff\xff\xff\xff\xff\xff\xff");
    expected.extend(field("Default"));
    expected.extend_from_slice(&[0xff; 4]);
    assert_eq!(packet, expected);
}

#[test]
fn text_length_counts_bytes() {
    let packet = build_status_packet("Ä", "", 0, Mode::CW, "", "", "");
    // magic, schema, type, program, frequency, mode
    let at = 12 + 10 + 8 + 6;
    assert_eq!(&packet[at..at + 6], &[0, 0, 0, 2, 0xc3, 0x84]);
}

#[test]
fn constants_of_the_header() {
    assert_eq!(MAGIC, 0xadbccbda);
    assert_eq!(SCHEMA, 2);
    assert_eq!(PACKET_TYPE, 1);
}

#[test]
fn modes_have_wire_names() {
    assert_eq!(Mode::FT8.as_bytes(), b"FT8");
    assert_eq!(Mode::FT4.as_bytes(), b"FT4");
    assert_eq!(Mode::CW.as_bytes(), b"CW");
    assert_eq!(Mode::Ssb.as_bytes(), b"SSB");
    assert_eq!(Mode::Rtty.as_bytes(), b"RTTY");
}

#[test]
fn spots_name_modes() {
    assert_eq!(Mode::from_spot("FT8"), Some(Mode::FT8));
    assert_eq!(Mode::from_spot("FT4"), Some(Mode::FT4));
    assert_eq!(Mode::from_spot("CW"), Some(Mode::CW));
    assert_eq!(Mode::from_spot("SSB"), Some(Mode::Ssb));
    assert_eq!(Mode::from_spot("DIGI"), Some(Mode::Rtty));
    assert_eq!(Mode::from_spot("RTTY"), None);
    assert_eq!(Mode::from_spot("ft8"), None);
    assert_eq!(Mode::from_spot(""), None);
}
