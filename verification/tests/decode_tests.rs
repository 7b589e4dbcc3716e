use growatt_bridge::decode::{decode, string_proc, Decimal};

#[test]
fn decode_scales_example() {
    // 0x00C8 = 200 at scale factor -1 means 200 * 10^-1 = 20.0
    let d = decode(0x00C8, -1);
    assert_eq!(d, Decimal { mantissa: 200, exponent: -1 });
    let value = d.mantissa as f64 * 10f64.powi(d.exponent as i32);
    assert_eq!(value, 20.0);
}

#[test]
fn decode_is_signed() {
    assert_eq!(decode(0xFFFF, 0), Decimal { mantissa: -1, exponent: 0 });
    assert_eq!(decode(0x8000, 2), Decimal { mantissa: -32768, exponent: 2 });
    assert_eq!(decode(0x7FFF, -3), Decimal { mantissa: 32767, exponent: -3 });
}

#[test]
fn decode_is_total_at_edges() {
    assert_eq!(decode(0, 0), Decimal { mantissa: 0, exponent: 0 });
    assert_eq!(decode(u16::MAX, i16::MAX), Decimal { mantissa: -1, exponent: i16::MAX });
    assert_eq!(decode(u16::MAX, i16::MIN), Decimal { mantissa: -1, exponent: i16::MIN });
}

#[test]
fn string_proc_big_endian() {
    // 0x4142 is "AB", 0x4344 is "CD": high byte first
    let words: Vec<u16> = vec![0x4142, 0x4344];
    assert_eq!(string_proc(&words), "ABCD");
}

#[test]
fn string_proc_empty() {
    let words: Vec<u16> = vec![];
    assert_eq!(string_proc(&words), "");
}

#[test]
fn string_proc_invalid_utf8_placeholder() {
    // 0xFFFE is not valid UTF-8 in any position
    let words: Vec<u16> = vec![0xFFFE];
    let s = string_proc(&words);
    assert!(s.contains("ERROR"));
}

#[test]
fn string_proc_multibyte_utf8() {
    // 0xC3A9 is the two-byte UTF-8 encoding of 'é'
    let words: Vec<u16> = vec![0xC3A9];
    assert_eq!(string_proc(&words), "\u{e9}");
}
