use limitless_cli::orders::locked_balance_summary;
use limitless_cli::events::{event_rows, events_header, EventEntry, EventSide};
use limitless_cli::markets::{format_status, join_category_counts, slug_rows, MarketSlug};
use limitless_cli::portfolio::{
    history_header, history_rows, no_positions_message, points_shown, position_rows, position_rows_checked, status_passes, trade_rows,
    AmmPosition, ClobPosition, HistoryEntry, PositionSide, TimeField, TradeEntry,
};
use limitless_cli::profiles::{event_trader, fee_rate_bps, EventProfile, Profile, ProfileRank};
use limitless_cli::timefmt::{display_deadline, format_deadline_with_time, format_event_time, format_unix_time};

fn s(t: &str) -> Option<String> {
    Some(t.to_string())
}

#[test]
fn slug_rows_fill_missing_details_with_dashes() {
    let slugs = vec![
        MarketSlug { slug: "btc-100k".into(), ticker: s("BTC"), strike_price: s("100000"), deadline: None },
        MarketSlug { slug: "eth".into(), ticker: None, strike_price: None, deadline: s("Mar 1") },
    ];
    let rows = slug_rows(&slugs);
    assert_eq!(rows.len(), 2);
    assert_eq!(rows[0].slug, "btc-100k");
    assert_eq!(rows[0].ticker, "BTC");
    assert_eq!(rows[0].strike, "100000");
    assert_eq!(rows[0].deadline, "\u{2014}");
    assert_eq!(rows[1].ticker, "\u{2014}");
    assert_eq!(rows[1].deadline, "Mar 1");
}

#[test]
fn market_status_names() {
    assert_eq!(format_status(&s("FUNDED")), "Active");
    assert_eq!(format_status(&s("RESOLVED")), "Resolved");
    assert_eq!(format_status(&s("CREATED")), "CREATED");
    assert_eq!(format_status(&None), "\u{2014}");
}

#[test]
fn categories_are_listed_by_count_stably() {
    let counts = vec![
        ("2".to_string(), 5u32),
        ("7".to_string(), 12u32),
        ("3".to_string(), 5u32),
        ("99".to_string(), 1u32),
        ("x".to_string(), 3u32),
    ];
    let cats = vec![(2u32, "Crypto".to_string()), (3u32, "Sports".to_string()), (7u32, "Politics".to_string())];
    let joined = join_category_counts(&counts, &cats);
    let got: Vec<(u32, &str, u32)> = joined.iter().map(|c| (c.id, c.name.as_str(), c.count)).collect();
    assert_eq!(
        got,
        vec![
            (7, "Politics", 12),
            (2, "Crypto", 5),
            (3, "Sports", 5),
            (0, "Unknown (x)", 3),
            (99, "Unknown (99)", 1),
        ]
    );
    assert!(join_category_counts(&Vec::new(), &cats).is_empty());
}

#[test]
fn duplicate_category_ids_take_the_last_name() {
    let counts = vec![("4".to_string(), 1u32)];
    let cats = vec![(4u32, "Old".to_string()), (4u32, "New".to_string())];
    assert_eq!(join_category_counts(&counts, &cats)[0].name, "New");
}

#[test]
fn times_as_the_tables_show_them() {
    assert_eq!(format_event_time("2026-04-01T02:59:00.000Z"), "Apr 01, 02:59 UTC");
    assert_eq!(format_event_time("2026-04-01T02:59:00"), "Apr 01, 02:59 UTC");
    assert_eq!(format_event_time("2026-04-01T02:59:00.123456"), "Apr 01, 02:59 UTC");
    assert_eq!(format_event_time("soon"), "soon");
    assert_eq!(format_deadline_with_time("-"), "-");
    assert_eq!(format_deadline_with_time(""), "-");
    assert_eq!(format_deadline_with_time("2026-02-25T16:00:00Z"), "Feb 25, 16:00 UTC");
    assert_eq!(format_unix_time(1_700_000_000), "Nov 14, 22:13 UTC");
    assert_eq!(format_unix_time(1_700_000_000_000), "Nov 14, 22:13 UTC");
    assert_eq!(format_unix_time(u64::MAX), "18446744073709551615");
}

#[test]
fn market_deadlines_prefer_the_timestamp() {
    assert_eq!(display_deadline(Some(1_771_977_600_000), &s("Feb 25, 2026"), &None), s("Feb 25, 00:00 UTC"));
    assert_eq!(display_deadline(None, &s("Feb 25, 2026"), &s("2026-02-25")), s("Feb 25, 2026"));
    assert_eq!(display_deadline(None, &None, &s("2026-02-25")), s("2026-02-25"));
    assert_eq!(display_deadline(None, &None, &None), None);
}

fn side(cost: &str, fill: &str, value: &str, realised: &str, unrealized: &str) -> PositionSide {
    PositionSide { cost: s(cost), fill_price: s(fill), market_value: s(value), realised_pnl: s(realised), unrealized_pnl: s(unrealized) }
}

fn empty_side() -> PositionSide {
    PositionSide { cost: None, fill_price: None, market_value: None, realised_pnl: None, unrealized_pnl: None }
}

fn clob(status: &str, yes_balance: &str, no_balance: Option<&str>) -> ClobPosition {
    ClobPosition {
        title: s("Will BTC close above $100k?"),
        status: s(status),
        deadline: s("2026-04-01T02:59:00.000Z"),
        yes_balance: s(yes_balance),
        no_balance: no_balance.map(|b| b.to_string()),
        yes: side("1000000", "400000", "1250000", "-500000", "750000"),
        no: side("2000000", "600000", "900000", "-600000", "100000"),
    }
}

#[test]
fn position_rows_for_each_held_side() {
    let rows = position_rows(&vec![clob("FUNDED", "2500000", Some("1000000"))], &Vec::new(), "all");
    assert_eq!(rows.len(), 2);
    let y = &rows[0];
    assert_eq!(y.market, "Will BTC close above $100k?");
    assert_eq!(y.status, "FUNDED");
    assert_eq!(y.side, "YES");
    assert_eq!(y.shares, "2.50");
    assert_eq!(y.fill_price, "400000");
    assert_eq!(y.market_value, "1.25");
    assert_eq!(y.cost, "1.00");
    assert_eq!(y.pnl, "0.25");
    assert_eq!(y.deadline, "Apr 01, 02:59 UTC");
    let n = &rows[1];
    assert_eq!(n.side, "NO");
    assert_eq!(n.shares, "1.00");
    assert_eq!(n.pnl, "-0.50");
}

#[test]
fn position_rows_skip_empty_sides_and_filtered_markets() {
    let positions = vec![
        clob("FUNDED", "0", None),
        clob("RESOLVED", "3000000", Some("oops")),
        clob("funded", "1000000", None),
    ];
    let amm = vec![AmmPosition { title: s("AMM market"), status: None }, AmmPosition { title: None, status: s("FUNDED") }];
    let open = position_rows(&positions, &amm, "Open");
    assert_eq!(open.iter().map(|r| r.status.as_str()).collect::<Vec<_>>(), vec!["funded", "FUNDED"]);
    assert_eq!(open[1].market, "?");
    assert_eq!(open[1].side, "-");
    let closed = position_rows(&positions, &amm, "closed");
    assert_eq!(closed.len(), 1);
    assert_eq!(closed[0].side, "YES");
    let all = position_rows(&positions, &amm, "all");
    assert_eq!(all.len(), 4);
    assert_eq!(all[2].status, "AMM");
    assert_eq!(all[2].pnl, "-");
}

#[test]
fn position_rows_default_missing_figures_to_zero() {
    let p = ClobPosition {
        title: None,
        status: None,
        deadline: None,
        yes_balance: s("1000000"),
        no_balance: None,
        yes: empty_side(),
        no: empty_side(),
    };
    let rows = position_rows(&vec![p], &Vec::new(), "everything");
    assert_eq!(rows.len(), 1);
    assert_eq!(rows[0].market, "?");
    assert_eq!(rows[0].status, "-");
    assert_eq!(rows[0].fill_price, "0");
    assert_eq!(rows[0].cost, "0.00");
    assert_eq!(rows[0].pnl, "0.00");
    assert_eq!(rows[0].deadline, "-");
}

#[test]
fn long_titles_are_shortened_to_45_bytes() {
    let mut p = clob("FUNDED", "1000000", None);
    p.title = s("An extremely long market question that keeps going and going");
    let rows = position_rows(&vec![p], &Vec::new(), "all");
    assert_eq!(rows[0].market, "An extremely long market question that kee...");
    assert_eq!(rows[0].market.len(), 45);
}

#[test]
fn status_filter_words() {
    assert!(status_passes("open", "funded"));
    assert!(status_passes("active", "FUNDED"));
    assert!(!status_passes("funded", "RESOLVED"));
    assert!(status_passes("resolved", "resolved"));
    assert!(!status_passes("closed", "FUNDED"));
    assert!(status_passes("all", "anything"));
}

#[test]
fn positions_messages() {
    assert_eq!(no_positions_message("all"), "No open positions.");
    assert_eq!(no_positions_message("open"), "No positions matching status 'open'.");
    assert!(points_shown("12.5"));
    assert!(!points_shown("0"));
    assert!(!points_shown("0.00000000"));
}

#[test]
fn trade_rows_from_entries() {
    let trades = vec![
        TradeEntry {
            title: s("BTC above 100k"),
            side: s("buy"),
            outcome_index: Some(0),
            outcome: None,
            amount: s("2500000"),
            time: Some(TimeField::Unix(1_700_000_000_000)),
        },
        TradeEntry {
            title: None,
            side: None,
            outcome_index: Some(7),
            outcome: s("Maybe"),
            amount: s("?"),
            time: Some(TimeField::Text("2026-04-01T02:59:00Z".to_string())),
        },
        TradeEntry { title: s("x"), side: s("sell"), outcome_index: Some(1), outcome: None, amount: None, time: Some(TimeField::Other) },
    ];
    let rows = trade_rows(&trades);
    assert_eq!(rows.len(), 3);
    assert_eq!((rows[0].market.as_str(), rows[0].side.as_str(), rows[0].outcome.as_str()), ("BTC above 100k", "BUY", "YES"));
    assert_eq!(rows[0].amount, "2.50");
    assert_eq!(rows[0].time, "Nov 14, 22:13 UTC");
    assert_eq!((rows[1].market.as_str(), rows[1].side.as_str(), rows[1].outcome.as_str()), ("?", "-", "Maybe"));
    assert_eq!(rows[1].amount, "?");
    assert_eq!(rows[1].time, "Apr 01, 02:59 UTC");
    assert_eq!((rows[2].outcome.as_str(), rows[2].amount.as_str(), rows[2].time.as_str()), ("NO", "-", "-"));
}

#[test]
fn history_rows_from_entries() {
    let entries = vec![
        HistoryEntry {
            strategy: s("Buy"),
            title: s("M"),
            outcome_index: Some(1),
            token_amount: s("3000000"),
            collateral: s("-1500000"),
            block_timestamp: Some(1_700_000_000),
        },
        HistoryEntry { strategy: None, title: None, outcome_index: None, token_amount: None, collateral: None, block_timestamp: None },
    ];
    let rows = history_rows(&entries);
    assert_eq!(
        (rows[0].strategy.as_str(), rows[0].market.as_str(), rows[0].outcome.as_str(), rows[0].shares.as_str(), rows[0].collateral.as_str(), rows[0].time.as_str()),
        ("Buy", "M", "NO", "3.00", "-1.50", "Nov 14, 22:13 UTC")
    );
    assert_eq!(
        (rows[1].strategy.as_str(), rows[1].market.as_str(), rows[1].outcome.as_str(), rows[1].shares.as_str(), rows[1].time.as_str()),
        ("?", "?", "-", "-", "-")
    );
    assert_eq!(history_header(Some(120), 20), "120 entries (showing 20):");
    assert_eq!(history_header(None, 20), "20 entries:");
}

#[test]
fn event_rows_from_entries() {
    let events = vec![
        EventEntry {
            side: Some(0),
            matched_size: s("2500000"),
            taker_amount: s("-500000"),
            profile: Some(EventProfile { account: s("0x1234567890abcdef1234"), display_name: None, username: None }),
            created_at: s("2026-04-01T02:59:00.000Z"),
        },
        EventEntry {
            side: Some(1),
            matched_size: None,
            taker_amount: s("junk"),
            profile: Some(EventProfile { account: s("0xabc"), display_name: s("Whale"), username: None }),
            created_at: None,
        },
        EventEntry { side: Some(5), matched_size: None, taker_amount: None, profile: None, created_at: None },
    ];
    let rows = event_rows(&events);
    assert_eq!(rows[0].side, EventSide::Buy);
    assert_eq!(rows[0].size, "2.50");
    assert_eq!(rows[0].cost, "0.50");
    assert_eq!(rows[0].trader, "0x1234...1234");
    assert_eq!(rows[0].time, "Apr 01, 02:59 UTC");
    assert_eq!(rows[1].side, EventSide::Sell);
    assert_eq!((rows[1].size.as_str(), rows[1].cost.as_str(), rows[1].trader.as_str(), rows[1].time.as_str()), ("-", "junk", "Whale", "-"));
    assert_eq!(rows[2].side, EventSide::Unknown);
    assert_eq!(rows[2].trader, "-");
    assert_eq!(events_header(3, Some(1), Some(4), Some(40)), "3 events (page 1 of 4, 40 total):");
    assert_eq!(events_header(3, Some(1), None, Some(40)), "3 events:");
}

#[test]
fn traders_and_fee_rates() {
    let p = Some(EventProfile { account: s("0xacc"), display_name: s("Disp"), username: s("user") });
    assert_eq!(event_trader(&p), s("user"));
    assert_eq!(event_trader(&None), None);
    let profile = Profile { id: 7, account: None, display_name: None, username: None, rank: Some(ProfileRank { fee_rate_bps: Some(150) }) };
    assert_eq!(fee_rate_bps(&profile), 150);
    let plain = Profile { id: 7, account: None, display_name: None, username: None, rank: None };
    assert_eq!(fee_rate_bps(&plain), 300);
    let no_rate = Profile { id: 7, account: None, display_name: None, username: None, rank: Some(ProfileRank { fee_rate_bps: None }) };
    assert_eq!(fee_rate_bps(&no_rate), 300);
}

#[test]
fn checked_position_rows_refuse_uncuttable_titles() {
    let mut p = clob("FUNDED", "1000000", None);
    p.title = Some(format!("a{}", "\u{e9}".repeat(30)));
    assert!(position_rows_checked(&vec![p.clone()], &Vec::new(), "all").is_none());
    assert_eq!(position_rows_checked(&vec![p], &Vec::new(), "resolved").unwrap().len(), 0);
    let ok = position_rows_checked(&vec![clob("FUNDED", "1000000", None)], &Vec::new(), "all").unwrap();
    assert_eq!(ok.len(), 1);
    assert_eq!(ok[0].shares, "1.00");
}

#[test]
fn locked_balance_prefers_formatted_amount() {
    let s = locked_balance_summary(
        &Some("12.50".to_string()),
        &Some("12500000".to_string()),
        &Some("USDC".to_string()),
        Some(3),
    );
    assert_eq!(s.amount, "12.50");
    assert_eq!(s.currency, "USDC");
    assert_eq!(s.open_orders, 3);
}

#[test]
fn locked_balance_falls_back_to_raw_then_zero() {
    let s = locked_balance_summary(&None, &Some("12500000".to_string()), &None, None);
    assert_eq!(s.amount, "12500000");
    assert_eq!(s.currency, "USDC");
    assert_eq!(s.open_orders, 0);
    let z = locked_balance_summary(&None, &None, &Some("EUR".to_string()), Some(1));
    assert_eq!(z.amount, "0");
    assert_eq!(z.currency, "EUR");
}

#[test]
fn millisecond_trades_show_as_their_seconds() {
    let entry = |ts: u64| TradeEntry {
        title: s("T"),
        side: s("buy"),
        outcome_index: Some(1),
        outcome: None,
        amount: s("1000000"),
        time: Some(TimeField::Unix(ts)),
    };
    let rows = trade_rows(&vec![entry(1_700_000_000_123), entry(1_700_000_000)]);
    assert_eq!(rows[0].time, rows[1].time);
    assert_eq!(rows[0].time, "Nov 14, 22:13 UTC");
    assert_eq!(rows[0].outcome, "NO");
    assert_eq!(format_unix_time(1_000_000_000_000_000), format_unix_time(1_000_000_000_000));
}
