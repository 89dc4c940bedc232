use verugent::text::{
    decimal_text, deeper, filled, hex2_text, padding, same_text, unsigned_text,
};

#[test]
fn decimal_numerals() {
    assert_eq!(decimal_text(0), "0");
    assert_eq!(decimal_text(9), "9");
    assert_eq!(decimal_text(10), "10");
    assert_eq!(decimal_text(1234567890), "1234567890");
    assert_eq!(decimal_text(-1), "-1");
    assert_eq!(decimal_text(-305), "-305");
    assert_eq!(decimal_text(i64::MAX), "9223372036854775807");
    assert_eq!(decimal_text(i64::MIN), "-9223372036854775808");
    assert_eq!(unsigned_text(u64::MAX), "18446744073709551615");
}

#[test]
fn hexadecimal_numerals_are_two_digits_wide() {
    assert_eq!(hex2_text(0), "00");
    assert_eq!(hex2_text(9), "09");
    assert_eq!(hex2_text(10), "0A");
    assert_eq!(hex2_text(15), "0F");
    assert_eq!(hex2_text(16), "10");
    assert_eq!(hex2_text(255), "FF");
    assert_eq!(hex2_text(256), "100");
    assert_eq!(hex2_text(0xBEEF), "BEEF");
}

#[test]
fn indentation_is_four_blanks_a_level() {
    assert_eq!(padding(0), "");
    assert_eq!(padding(-3), "");
    assert_eq!(padding(1), "    ");
    assert_eq!(padding(5), "                    ");
    assert_eq!(deeper(0), 1);
    assert_eq!(deeper(-1), 0);
    assert_eq!(deeper(i32::MAX), i32::MAX);
}

#[test]
fn templates_take_their_argument_at_every_marker() {
    assert_eq!(filled("", "x"), "");
    assert_eq!(filled("plain", "x"), "plain");
    assert_eq!(filled("$", "12"), "12");
    assert_eq!(filled("a$b$", "0"), "a0b0");
    assert_eq!(filled("$$", ""), "");
    assert_eq!(filled("r_en$ <= w$;\n", "17"), "r_en17 <= w17;\n");
}

#[test]
fn text_comparison() {
    assert!(same_text("block", "block"));
    assert!(!same_text("block", "Block"));
    assert!(!same_text("block", "bloc"));
    assert!(same_text("", ""));
}
