use limitless_cli::decimal::{display_volume, format_decimal, format_optional_decimal, format_optional_price, format_size, liquidity_text, DecimalValue};
use limitless_cli::markets::{market_detail_rows, pagination_lines, CollateralToken, MarketDetail, MarketTokens, Venue};
use limitless_cli::monitor::{apply_notice, initial_status, key_quits, FeedNotice, KeyPress};
use limitless_cli::wallet::{adapter_needs_approval, key_format_ok, stored_key_text};

fn dec(mantissa: i128, scale: u32) -> DecimalValue {
    DecimalValue { mantissa, scale }
}

#[test]
fn volumes_are_shortened() {
    assert_eq!(format_decimal(dec(5_702_208_369, 6)), "5.7K");
    assert_eq!(format_decimal(dec(2_500_000, 0)), "2.5M");
    assert_eq!(format_decimal(dec(1_999_999_999, 3)), "1.9M");
    assert_eq!(format_decimal(dec(12345, 2)), "123.45");
    assert_eq!(format_decimal(dec(999_999, 0)), "999.9K");
    assert_eq!(format_decimal(dec(1000, 0)), "1.0K");
    assert_eq!(format_decimal(dec(-5, 1)), "-0.50");
    assert_eq!(format_decimal(dec(7, 0)), "7.00");
    assert_eq!(format_optional_decimal(&None), "-");
    assert_eq!(format_optional_decimal(&Some(dec(42, 0))), "42.00");
    assert_eq!(format_optional_price(&Some(dec(65, 2))), "$0.65");
    assert_eq!(format_optional_price(&Some(dec(6789, 4))), "$0.67");
    assert_eq!(format_optional_price(&None), "-");
}

#[test]
fn sizes_are_written_in_shares() {
    assert_eq!(format_size(dec(2_500_000, 0)), "2.50");
    assert_eq!(format_size(dec(1_234_567, 1)), "0.12");
    assert_eq!(format_size(dec(0, 0)), "0.00");
}

#[test]
fn volumes_and_liquidity_are_read_from_text() {
    let v = display_volume(&Some("5702.208369".to_string())).unwrap();
    assert_eq!((v.mantissa, v.scale), (5_702_208_369, 6));
    assert!(display_volume(&Some("abc".to_string())).is_none());
    assert!(display_volume(&None).is_none());
    assert_eq!(liquidity_text(&Some("1500000.5".to_string())), Some("1.5M".to_string()));
    assert_eq!(liquidity_text(&Some("n/a".to_string())), None);
}

#[test]
fn pagination_below_the_markets_table() {
    assert_eq!(
        pagination_lines(Some(0), Some(20), Some(487), 20, true),
        vec!["\nPage 1 of 25 (487 markets total, showing 20)".to_string(), "Next: --page 1".to_string()]
    );
    assert_eq!(pagination_lines(Some(3), Some(25), Some(100), 25, false), vec!["\nPage 4 of 4 (100 markets total, showing 25)".to_string()]);
    assert_eq!(pagination_lines(None, None, None, 5, false), vec!["\nShowing 5 markets (page 1)".to_string()]);
}

fn bare(slug: &str) -> MarketDetail {
    MarketDetail {
        slug: slug.to_string(),
        title: "Title".to_string(),
        description: None,
        trade_type: None,
        market_type: None,
        status: None,
        volume: None,
        liquidity: None,
        yes_price: "$0.65".to_string(),
        no_price: "\u{2014}".to_string(),
        deadline: None,
        resolution_source: None,
        automation_type: None,
        venue: None,
        tokens: None,
        collateral_token: None,
        categories: None,
        tags: None,
        created_at: None,
        sub_markets: None,
    }
}

fn labels(rows: &[(String, String)]) -> Vec<&str> {
    rows.iter().map(|r| r.0.as_str()).collect()
}

#[test]
fn detail_rows_of_a_bare_market() {
    let rows = market_detail_rows(&bare("m"));
    assert_eq!(labels(&rows), vec!["Slug", "Title", "YES Price", "NO Price"]);
    assert_eq!(rows[2].1, "$0.65");
}

#[test]
fn detail_rows_of_a_full_market() {
    let mut d = bare("btc");
    d.description = Some("<p>Yes if &amp; only if</p>".to_string());
    d.trade_type = Some("clob".to_string());
    d.status = Some("FUNDED".to_string());
    d.volume = Some("5.7K".to_string());
    d.deadline = Some("Feb 25, 16:00 UTC".to_string());
    d.venue = Some(Venue { exchange: "0xex".to_string(), adapter: Some("0xad".to_string()) });
    d.tokens = Some(MarketTokens { yes: Some("1".to_string()), no: None });
    d.collateral_token = Some(CollateralToken { symbol: "USDC".to_string(), address: "0xusdc".to_string(), decimals: 6 });
    d.categories = Some(vec!["Crypto".to_string(), "Daily".to_string()]);
    d.tags = Some(Vec::new());
    d.created_at = Some("2026-01-01".to_string());
    d.sub_markets = Some(vec!["A".to_string(), "B".to_string()]);
    let rows = market_detail_rows(&d);
    assert_eq!(
        labels(&rows),
        vec![
            "Slug", "Title", "Description", "Trade Type", "Status", "Volume", "YES Price", "NO Price", "Deadline",
            "Exchange", "Adapter", "YES Token ID", "Collateral", "Categories", "Created", "Sub-Markets", "", ""
        ]
    );
    assert_eq!(rows[2].1, "Yes if & only if");
    assert_eq!(rows[5].1, "5.7K USDC");
    assert_eq!(rows[12].1, "USDC (0xusdc)");
    assert_eq!(rows[13].1, "Crypto, Daily");
    assert_eq!(rows[15].1, "2");
    assert_eq!(rows[16].1, "  [0] A");
    assert_eq!(rows[17].1, "  [1] B");
}

#[test]
fn wallet_keys_and_approvals() {
    assert_eq!(stored_key_text("abcd"), "0xabcd");
    assert_eq!(stored_key_text("0xabcd"), "0xabcd");
    let good = format!("0x{}", "1".repeat(64));
    assert!(key_format_ok(&good));
    assert!(!key_format_ok(&"1".repeat(66)));
    assert!(!key_format_ok("0x1234"));
    let venue = |a: Option<&str>| Venue { exchange: "0xex".to_string(), adapter: a.map(|s| s.to_string()) };
    assert!(adapter_needs_approval(&venue(Some("0xabc"))));
    assert!(!adapter_needs_approval(&venue(Some("0x0000000000000000000000000000000000000000"))));
    assert!(!adapter_needs_approval(&venue(Some(""))));
    assert!(!adapter_needs_approval(&venue(None)));
}

#[test]
fn monitor_keys_and_status() {
    assert!(key_quits(KeyPress::Char('q'), false));
    assert!(key_quits(KeyPress::Esc, false));
    assert!(key_quits(KeyPress::Char('c'), true));
    assert!(!key_quits(KeyPress::Char('c'), false));
    assert!(!key_quits(KeyPress::Other, true));
    let s = initial_status();
    assert!(!s.connected);
    assert_eq!(s.message, "Connecting...");
    let s = apply_notice(s, FeedNotice::Connected);
    assert!(s.connected);
    assert_eq!(s.message, "Connected");
    let s = apply_notice(s, FeedNotice::Error("boom".to_string()));
    assert!(s.connected);
    assert_eq!(s.message, "Error: boom");
    let s = apply_notice(s, FeedNotice::Disconnected("WS closed".to_string()));
    assert!(!s.connected);
    assert_eq!(s.message, "Disconnected: WS closed");
}

#[test]
fn format_decimal_with_many_decimals_is_exact() {
    assert_eq!(format_decimal(dec(79_228_162_514_264_337_593_543_950_335, 28)), "7.92");
    assert_eq!(format_decimal(dec(79_228_162_514_264_337_593_543_950_335, 22)), "7.9M");
    assert_eq!(format_decimal(dec(79_228_162_514_264_337_593_543_950_335, 25)), "7.9K");
    assert_eq!(format_decimal(dec(-123_456_789_012_345_678_901_234_567, 25)), "-12.34");
}
