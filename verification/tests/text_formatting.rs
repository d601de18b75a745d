use limitless_cli::description::clean_description;
use limitless_cli::orders::{created_date, order_side_style, order_status_style, SideStyle, StatusStyle};
use limitless_cli::text::{camel_to_title, mask_key, split_args, truncate, truncate_address};

#[test]
fn truncate_keeps_short_text() {
    assert_eq!(truncate("hello", 10), "hello");
    assert_eq!(truncate("hello", 5), "hello");
}

#[test]
fn truncate_cuts_long_text_with_ellipsis() {
    assert_eq!(truncate("hello world", 8), "hello...");
    assert_eq!(truncate("abcdef", 2), "...");
    let t = truncate("Will Bitcoin close above $100k by the end of the year?", 20);
    assert_eq!(t, "Will Bitcoin clos...");
    assert_eq!(t.len(), 20);
}

#[test]
fn truncate_address_shortens_hex_addresses() {
    assert_eq!(truncate_address("0x1234567890abcdef1234"), "0x1234...1234");
    assert_eq!(truncate_address("0x1234"), "0x1234");
    assert_eq!(truncate_address("abcdefghijklmnop"), "abcdefghijklmnop");
}

#[test]
fn mask_key_hides_the_middle() {
    assert_eq!(mask_key("short"), "****");
    assert_eq!(mask_key("12345678"), "****");
    assert_eq!(mask_key("0123456789abcdef"), "0123...cdef");
}

#[test]
fn camel_to_title_splits_words() {
    assert_eq!(camel_to_title("totalPoints"), "Total Points");
    assert_eq!(camel_to_title("referralBonusPoints"), "Referral Bonus Points");
    assert_eq!(camel_to_title("volume"), "Volume");
    assert_eq!(camel_to_title(""), "");
}

#[test]
fn split_args_on_whitespace_and_quotes() {
    assert_eq!(split_args("markets list --limit 5"), vec!["markets", "list", "--limit", "5"]);
    assert_eq!(split_args("  markets   search \"bitcoin price\" "), vec!["markets", "search", "bitcoin price"]);
    assert_eq!(split_args("a 'b c' d"), vec!["a", "b c", "d"]);
    assert_eq!(split_args("say \"it's\""), vec!["say", "it's"]);
    assert_eq!(split_args("open \"unclosed quote"), vec!["open", "unclosed quote"]);
    assert_eq!(split_args("x \"\" y"), vec!["x", "y"]);
    assert!(split_args("   ").is_empty());
}

#[test]
fn clean_description_strips_html() {
    assert_eq!(
        clean_description("<p>Resolves YES if BTC &gt; $100k.</p><p>Source: &quot;Coinbase&quot; &amp; others</p>"),
        "Resolves YES if BTC  $100k.\nSource: \"Coinbase\" & others"
    );
    assert_eq!(clean_description("  <b>bold</b> line<br>next<br/>more<br />end  "), "bold line\nnext\nmore\nend");
    assert_eq!(clean_description("a &lt;tag&gt; b"), "a  b");
    assert_eq!(clean_description(""), "");
}

#[test]
fn order_styles_ignore_case() {
    assert_eq!(order_side_style("buy"), SideStyle::Buy);
    assert_eq!(order_side_style("SELL"), SideStyle::Sell);
    assert_eq!(order_side_style("hold"), SideStyle::Plain);
    assert_eq!(order_status_style("open"), StatusStyle::Open);
    assert_eq!(order_status_style("Active"), StatusStyle::Open);
    assert_eq!(order_status_style("MATCHED"), StatusStyle::Filled);
    assert_eq!(order_status_style("canceled"), StatusStyle::Cancelled);
    assert_eq!(order_status_style("PENDING"), StatusStyle::Plain);
}

#[test]
fn created_date_keeps_the_date_part() {
    assert_eq!(created_date(&Some("2026-04-01T02:59:00.000Z".to_string())), "2026-04-01");
    assert_eq!(created_date(&Some("yesterday".to_string())), "yesterday");
    assert_eq!(created_date(&None), "-");
}

fn figures() -> limitless_cli::orders::OrderFigures {
    limitless_cli::orders::OrderFigures {
        shares_filled: "10.000000".to_string(),
        avg_price: "0.6500".to_string(),
        usd_gross: "6.500000".to_string(),
        usd_fee: "0.100000".to_string(),
        usd_net: "6.400000".to_string(),
        maker_amount: "65.000000".to_string(),
        price: "0.6500".to_string(),
        taker_amount: "100.00".to_string(),
        fee_rate: "300 bps (3%)".to_string(),
    }
}

fn placed(side: Option<u64>, matched: bool, order_type: Option<&str>) -> limitless_cli::orders::PlacedOrder {
    limitless_cli::orders::PlacedOrder {
        side,
        matched,
        order_type: order_type.map(|s| s.to_string()),
        market_title: Some("BTC".to_string()),
        order_id: Some("0123456789abcdefghijklmnop".to_string()),
        created_at: None,
    }
}

fn summary(o: &limitless_cli::orders::PlacedOrder) -> Vec<(String, String)> {
    limitless_cli::orders::order_summary_rows(o, &figures())
}

#[test]
fn matched_order_summary() {
    let rows = summary(&placed(Some(0), true, Some("FOK")));
    let labels: Vec<&str> = rows.iter().map(|r| r.0.as_str()).collect();
    assert_eq!(labels, vec!["Market", "Order ID", "Side", "Type", "Shares", "Avg Price", "Spent", "Fee", "Net", "Created"]);
    assert_eq!(rows[1].1, "0123456789abcdefg...");
    assert_eq!(rows[2].1, "BUY");
    assert_eq!(rows[5].1, "0.6500 USDC");
    assert_eq!(rows[9].1, "-");
    let sold = summary(&placed(Some(1), true, None));
    assert_eq!(sold[2].1, "SELL");
    assert_eq!(sold[3].1, "GTC");
    assert_eq!(sold[6].0, "Received");
}

#[test]
fn resting_order_summary() {
    let gtc = summary(&placed(Some(0), false, None));
    let labels: Vec<&str> = gtc.iter().map(|r| r.0.as_str()).collect();
    assert_eq!(labels, vec!["Market", "Order ID", "Side", "Price", "Shares", "Cost", "Type", "Fee Rate", "Created"]);
    assert_eq!(gtc[3].1, "0.6500 USDC");
    assert_eq!(gtc[5].1, "65.000000 USDC");
    let fok_buy = summary(&placed(Some(0), false, Some("FOK")));
    assert_eq!((fok_buy[3].0.as_str(), fok_buy[3].1.as_str()), ("Amount", "65.000000 USDC"));
    let fok_sell = summary(&placed(Some(1), false, Some("FOK")));
    assert_eq!((fok_sell[3].0.as_str(), fok_sell[3].1.as_str()), ("Shares", "65.000000"));
    let odd = summary(&placed(Some(7), false, Some("fok")));
    assert_eq!(odd[2].1, "?");
    assert_eq!(odd[3].0, "Price");
}

#[test]
fn split_args_without_quotes_is_split_whitespace() {
    for line in ["markets list --limit 5", "  a\tb\n c  ", "", " \u{3000}x\u{a0}y ", "one"] {
        let expected: Vec<String> = line.split_whitespace().map(String::from).collect();
        assert_eq!(split_args(line), expected);
    }
}
