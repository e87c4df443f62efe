use microphone::text::{
    c_buffer_text, decimal_text, has_nul, parse_u32, parse_u64, signed_decimal_text,
    utf16_to_string,
};

#[test]
fn decimal_numbers_are_printed_without_leading_zeros() {
    assert_eq!(decimal_text(0), "0");
    assert_eq!(decimal_text(7), "7");
    assert_eq!(decimal_text(10), "10");
    assert_eq!(decimal_text(44_100), "44100");
    assert_eq!(decimal_text(u64::MAX), u64::MAX.to_string());
}

#[test]
fn signed_numbers_are_printed_with_a_minus_sign() {
    assert_eq!(signed_decimal_text(0), "0");
    assert_eq!(signed_decimal_text(-66_628), "-66628");
    assert_eq!(signed_decimal_text(i64::MAX), i64::MAX.to_string());
    assert_eq!(signed_decimal_text(i64::MIN), i64::MIN.to_string());
}

#[test]
fn printed_numbers_are_read_back() {
    for n in [0u32, 1, 9, 10, 99, 4_294_967_294, u32::MAX] {
        assert_eq!(parse_u32(&decimal_text(n as u64)), Some(n));
    }
    for n in [0u64, 42, 10_000_000_000, u64::MAX] {
        assert_eq!(parse_u64(&decimal_text(n)), Some(n));
    }
}

#[test]
fn numbers_are_read_as_the_standard_library_reads_them() {
    for text in [
        "", "+", "-", "0", "-0", "+0", "007", "+12", "++1", "1+", " 1", "1 ", "1_000", "12a",
        "4294967295", "4294967296", "+4294967295", "18446744073709551615",
        "18446744073709551616", "99999999999999999999", "0x10", "\u{0661}", "1.0",
    ] {
        assert_eq!(parse_u32(text), text.parse::<u32>().ok(), "{text:?}");
        assert_eq!(parse_u64(text), text.parse::<u64>().ok(), "{text:?}");
    }
}

#[test]
fn a_nul_anywhere_is_found() {
    assert!(!has_nul(""));
    assert!(!has_nul("snd_pcm_open"));
    assert!(has_nul("snd_pcm_open\0"));
    assert!(has_nul("\0snd"));
    assert!(has_nul("snd\0pcm"));
}

#[test]
fn c_buffers_end_at_the_first_nul() {
    assert_eq!(c_buffer_text(b"Broken pipe\0rest"), "Broken pipe");
    assert_eq!(c_buffer_text(b"Broken pipe"), "Broken pipe");
    assert_eq!(c_buffer_text(b"\0rest"), "");
    assert_eq!(c_buffer_text(b""), "");
    assert_eq!(c_buffer_text("Mikrofon \u{fc}ber\0".as_bytes()), "Mikrofon \u{fc}ber");
}

#[test]
fn invalid_utf8_is_replaced() {
    assert_eq!(c_buffer_text(&[b'a', 0xff, b'b']), "a\u{fffd}b");
    assert_eq!(c_buffer_text(&[0xe2, 0x82]), "\u{fffd}");
}

#[test]
fn utf16_names_come_back_whole() {
    for name in ["", "Mikrofon", "\u{30de}\u{30a4}\u{30af}", "Mic \u{1f3a4} 2", "\u{10ffff}"] {
        let mut units: Vec<u16> = name.encode_utf16().collect();
        assert_eq!(utf16_to_string(&units), name);
        units.push(0);
        units.push(0xd800);
        units.push(65);
        assert_eq!(utf16_to_string(&units), name);
    }
}

#[test]
fn unpaired_surrogates_are_replaced() {
    for units in [
        vec![0xd800u16],
        vec![0xdc00],
        vec![65, 0xd800, 66],
        vec![65, 0xdc00, 66],
        vec![0xd800, 0xd800, 0xdc00],
        vec![0xdc00, 0xd800],
        vec![0xdbff, 0xdfff, 0xdbff],
        vec![0xd7ff, 0xe000, 0xffff],
    ] {
        assert_eq!(utf16_to_string(&units), String::from_utf16_lossy(&units), "{units:?}");
    }
}
