use limitless_cli::numtext::{i128_to_string, parse_i64, parse_u128, parse_u32, u128_to_string};
use limitless_cli::usdc::{allowance_display, format_raw_usdc, raw_to_shares, raw_to_usdc};

#[test]
fn integer_text_round_trips() {
    assert_eq!(u128_to_string(0), "0");
    assert_eq!(u128_to_string(1234567890), "1234567890");
    assert_eq!(u128_to_string(u128::MAX), u128::MAX.to_string());
    assert_eq!(i128_to_string(-42), "-42");
    assert_eq!(i128_to_string(i128::MIN), i128::MIN.to_string());
}

#[test]
fn parsing_follows_str_parse() {
    assert_eq!(parse_i64("-500000"), Some(-500000));
    assert_eq!(parse_i64("+17"), Some(17));
    assert_eq!(parse_i64("9223372036854775807"), Some(i64::MAX));
    assert_eq!(parse_i64("9223372036854775808"), None);
    assert_eq!(parse_i64("-9223372036854775808"), Some(i64::MIN));
    assert_eq!(parse_i64(""), None);
    assert_eq!(parse_i64("-"), None);
    assert_eq!(parse_i64("12a"), None);
    assert_eq!(parse_i64(" 1"), None);
    assert_eq!(parse_u32("4294967295"), Some(u32::MAX));
    assert_eq!(parse_u32("4294967296"), None);
    assert_eq!(parse_u32("-1"), None);
    assert_eq!(parse_u128("340282366920938463463374607431768211455"), Some(u128::MAX));
    assert_eq!(parse_u128("340282366920938463463374607431768211456"), None);
}

#[test]
fn raw_to_usdc_keeps_small_losses_negative() {
    assert_eq!(raw_to_usdc("1500000"), "1.50");
    assert_eq!(raw_to_usdc("-500000"), "-0.50");
    assert_eq!(raw_to_usdc("-1500000"), "-1.50");
    assert_eq!(raw_to_usdc("0"), "0.00");
    assert_eq!(raw_to_usdc("123456789"), "123.45");
    assert_eq!(raw_to_usdc("5"), "0.00");
    assert_eq!(raw_to_usdc("n/a"), "n/a");
}

#[test]
fn format_raw_usdc_drops_the_sign_of_small_losses() {
    assert_eq!(format_raw_usdc("5702208369"), "5702.20");
    assert_eq!(format_raw_usdc("-500000"), "0.50");
    assert_eq!(format_raw_usdc("-2500000"), "-2.50");
    assert_eq!(format_raw_usdc("abc"), "abc");
}

#[test]
fn raw_to_shares_uses_two_cut_decimals() {
    assert_eq!(raw_to_shares("100000000"), "100.00");
    assert_eq!(raw_to_shares("1999999"), "1.99");
    assert_eq!(raw_to_shares("-5000"), "-0.00");
    assert_eq!(raw_to_shares("-1234567"), "-1.23");
    assert_eq!(raw_to_shares("0"), "0.00");
    assert_eq!(raw_to_shares("9223372036854775807"), "9223372036854.77");
    assert_eq!(raw_to_shares("1.5"), "1.5");
}

#[test]
fn allowance_display_caps_at_unlimited() {
    assert_eq!(allowance_display("25000000"), "25.00 USDC");
    assert_eq!(allowance_display("1234567"), "1.23 USDC");
    assert_eq!(allowance_display("1000000000000000"), "1000000000.00 USDC");
    assert_eq!(allowance_display("1000000001000000"), "Unlimited");
    assert_eq!(allowance_display("115792089237316195423570985008687907853269984665640564039457584007913129639935"), "115792089237316195423570985008687907853269984665640564039457584007913129639935");
    assert_eq!(allowance_display("none"), "none");
}

#[test]
fn written_integers_read_back() {
    for v in [0i64, 7, -7, 1_000_000, -250_000, i64::MAX, i64::MIN] {
        assert_eq!(parse_i64(&i128_to_string(v as i128)), Some(v));
        assert_eq!(raw_to_usdc(&v.to_string()), raw_to_usdc(&i128_to_string(v as i128)));
    }
    assert_eq!(raw_to_usdc(&(-250_000i64).to_string()), "-0.25");
    for n in [0u128, 42, u32::MAX as u128, u128::MAX] {
        assert_eq!(parse_u128(&u128_to_string(n)), Some(n));
    }
}
