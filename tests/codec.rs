use sim800::{ucs2_to_uft8, Arguments};

fn encode(s: &str) -> String {
    s.chars().map(|c| format!("{:04X}", c as u32)).collect()
}

#[test]
fn decodes_groups_of_four() {
    assert_eq!(ucs2_to_uft8("00480065006C006C006F"), "Hello");
    assert_eq!(ucs2_to_uft8("041F04400438043204350442"), "Привет");
    assert_eq!(ucs2_to_uft8("00e9"), "é");
}

#[test]
fn round_trip_of_basic_plane_text() {
    for s in ["", "+48123456789", "Zażółć gęślą jaźń", "日本語", "\u{FFFD}\u{E000}"] {
        assert_eq!(ucs2_to_uft8(&encode(s)), s);
    }
}

#[test]
fn short_trailing_group_is_dropped() {
    assert_eq!(ucs2_to_uft8("0048006"), "H");
    assert_eq!(ucs2_to_uft8("004800"), "H");
    assert_eq!(ucs2_to_uft8("0"), "");
    assert_eq!(ucs2_to_uft8(&(encode("ok") + "12")), "ok");
}

#[test]
fn surrogate_codes_are_skipped() {
    assert_eq!(ucs2_to_uft8("D83DDE000041"), "A");
}

#[test]
fn decoding_stops_at_a_non_hex_group() {
    assert_eq!(ucs2_to_uft8("0041zz420042"), "A");
}

#[test]
fn arguments_getters() {
    let a = Arguments::new("/dev/ttyUSB0".to_string(), 115_200, 30, true, false);
    assert_eq!(a.serial_port(), "/dev/ttyUSB0");
    assert_eq!(a.baud_rate(), 115_200);
    assert_eq!(a.timeout(), 30);
    assert!(a.list_messages());
    assert!(!a.delete_messages());
}
