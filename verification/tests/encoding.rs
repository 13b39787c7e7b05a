use dex_account::encoding::{to_hex_lower, uuid_to_text};
use dex_account::text::{chars_of, push_decimal, text_equals};

#[test]
fn uuid_text_matches_uuid_crate() {
    for v in [0u128, 1, u128::MAX, 0x0123456789abcdef0123456789abcdef] {
        assert_eq!(uuid_to_text(v), uuid::Uuid::from_u128(v).to_string());
    }
    let r = uuid::Uuid::new_v4();
    assert_eq!(uuid_to_text(r.as_u128()), r.to_string());
}

#[test]
fn hex_and_decimal() {
    assert_eq!(to_hex_lower(&vec![0x00, 0xab, 0x0f, 0xff]), "00ab0fff");
    assert_eq!(to_hex_lower(&vec![]), "");
    let mut s = String::from("n=");
    push_decimal(&mut s, 1234567890);
    assert_eq!(s, "n=1234567890");
}

#[test]
fn text_helpers() {
    assert!(text_equals("é", "é"));
    assert!(!text_equals("a", "ab"));
    assert_eq!(chars_of("héllo"), vec!['h', 'é', 'l', 'l', 'o']);
}
