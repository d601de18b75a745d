use limitless_cli::auth::{resolve_api_key, resolve_private_key, AuthError};
use limitless_cli::commands::{OutputFormat, SortBy};
use limitless_cli::config::{config_dir, config_path, default_api_url, default_chain_id, default_rpc_url, default_ws_url, Config, API_BASE_URL, WS_URL};
use limitless_cli::requests::{
    active_markets_request, cancel_all_path, cancel_order_path, history_request, historical_prices_request,
    market_events_request, market_request, orderbook_request, pnl_chart_request, profile_request,
    public_pnl_chart_request, public_positions_request, request_url, search_markets_request,
    trading_allowance_request, user_orders_request, ApiRequest,
};
use limitless_cli::shell::{shell_action, ShellAction};

fn params(r: &ApiRequest) -> Vec<(&str, &str)> {
    r.params.iter().map(|(a, b)| (a.as_str(), b.as_str())).collect()
}

#[test]
fn active_markets_request_carries_the_filters() {
    let r = active_markets_request(Some(2), Some(25), Some("trending"), Some("clob"), None);
    assert_eq!(r.path, "/markets/active");
    assert_eq!(params(&r), vec![("page", "2"), ("limit", "25"), ("sortBy", "trending"), ("tradeType", "clob")]);
    let r = active_markets_request(None, None, None, None, Some("29"));
    assert_eq!(r.path, "/markets/active/29");
    assert!(r.params.is_empty());
}

#[test]
fn market_requests_name_the_slug() {
    assert_eq!(market_request("btc-100k").path, "/markets/btc-100k");
    assert_eq!(orderbook_request("btc-100k").path, "/markets/btc-100k/orderbook");
    let r = search_markets_request("bitcoin", Some(5));
    assert_eq!(r.path, "/markets/search");
    assert_eq!(params(&r), vec![("query", "bitcoin"), ("limit", "5")]);
    let r = market_events_request("btc", Some(1), None);
    assert_eq!(r.path, "/markets/btc/events");
    assert_eq!(params(&r), vec![("page", "1")]);
    let r = historical_prices_request("btc", Some("2026-01-01"), None, Some("1h"));
    assert_eq!(r.path, "/markets/btc/historical-price");
    assert_eq!(params(&r), vec![("from", "2026-01-01"), ("interval", "1h")]);
}

#[test]
fn portfolio_requests() {
    let r = pnl_chart_request(Some("7d"));
    assert_eq!(r.path, "/portfolio/pnl-chart");
    assert_eq!(params(&r), vec![("timeframe", "7d")]);
    let r = history_request(None, Some(10));
    assert_eq!(r.path, "/portfolio/history");
    assert_eq!(params(&r), vec![("limit", "10")]);
    let r = trading_allowance_request(Some("clob"), Some("0xabc"));
    assert_eq!(r.path, "/portfolio/trading/allowance");
    assert_eq!(params(&r), vec![("type", "clob"), ("spender", "0xabc")]);
    assert_eq!(profile_request("0xabc").path, "/profiles/public/0xabc");
    assert_eq!(public_positions_request("0xabc").path, "/portfolio/0xabc/positions");
    let r = public_pnl_chart_request("0xabc", None);
    assert_eq!(r.path, "/portfolio/0xabc/pnl-chart");
    assert!(r.params.is_empty());
}

#[test]
fn user_orders_request_repeats_statuses() {
    let r = user_orders_request("btc", Some(&["LIVE", "MATCHED"]), Some(50));
    assert_eq!(r.path, "/markets/btc/user-orders");
    assert_eq!(params(&r), vec![("limit", "50"), ("statuses", "LIVE"), ("statuses", "MATCHED")]);
    let r = user_orders_request("btc", None, None);
    assert!(r.params.is_empty());
}

#[test]
fn cancel_paths_and_urls() {
    assert_eq!(cancel_order_path("abc-123"), "/orders/abc-123");
    assert_eq!(cancel_all_path("btc"), "/orders/all/btc");
    assert_eq!(request_url(API_BASE_URL, "/markets/active"), "https://api.limitless.exchange/markets/active");
}

#[test]
fn config_defaults() {
    let c = Config::default();
    assert!(c.api_key.is_none());
    assert!(c.private_key.is_none());
    assert_eq!(c.chain_id, 8453);
    assert_eq!(c.rpc_url, "https://mainnet.base.org");
    assert_eq!(c.api_url, "https://api.limitless.exchange");
    assert_eq!(c.ws_url, WS_URL);
    assert_eq!(default_chain_id(), 8453);
    assert_eq!(default_rpc_url(), "https://mainnet.base.org");
    assert_eq!(default_api_url(), API_BASE_URL);
    assert_eq!(default_ws_url(), "wss://ws.limitless.exchange");
}

#[test]
fn config_file_lives_in_the_limitless_directory() {
    assert_eq!(config_dir(Some("/home/u/.config")), "/home/u/.config/limitless");
    assert_eq!(config_dir(Some("/home/u/.config/")), "/home/u/.config/limitless");
    assert_eq!(config_dir(None), "./limitless");
    assert_eq!(config_path("/home/u/.config/limitless"), "/home/u/.config/limitless/config.json");
}

fn stored(api: Option<&str>, pk: Option<&str>) -> Config {
    let mut c = Config::default();
    c.api_key = api.map(|s| s.to_string());
    c.private_key = pk.map(|s| s.to_string());
    c
}

#[test]
fn keys_come_from_flag_then_env_then_file() {
    let c = stored(Some("file-key"), Some("file-pk"));
    assert_eq!(resolve_api_key(Some("flag"), Some("env"), Some(&c)).unwrap(), "flag");
    assert_eq!(resolve_api_key(None, Some("env"), Some(&c)).unwrap(), "env");
    assert_eq!(resolve_api_key(None, Some(""), Some(&c)).unwrap(), "file-key");
    assert_eq!(resolve_api_key(None, None, Some(&c)).unwrap(), "file-key");
    assert_eq!(resolve_api_key(None, None, None), Err(AuthError::NoApiKey));
    assert_eq!(resolve_api_key(None, Some(""), Some(&stored(None, None))), Err(AuthError::NoApiKey));
    assert_eq!(resolve_private_key(None, None, Some(&c)).unwrap(), "file-pk");
    assert_eq!(resolve_private_key(Some("0xpk"), None, None).unwrap(), "0xpk");
    assert_eq!(resolve_private_key(None, None, None), Err(AuthError::NoPrivateKey));
}

#[test]
fn format_and_sort_names() {
    assert_eq!(OutputFormat::Table.name(), "table");
    assert_eq!(OutputFormat::Json.name(), "json");
    assert_eq!(SortBy::EndingSoon.name(), "ending_soon");
    assert_eq!(SortBy::LpRewards.name(), "lp_rewards");
    assert_eq!(SortBy::Trending.name(), "trending");
}

#[test]
fn shell_lines() {
    assert!(matches!(shell_action("  exit ", OutputFormat::Table, &None, &None), ShellAction::Quit));
    assert!(matches!(shell_action("quit", OutputFormat::Table, &None, &None), ShellAction::Quit));
    assert!(matches!(shell_action("   ", OutputFormat::Table, &None, &None), ShellAction::Skip));
    match shell_action("shell", OutputFormat::Table, &None, &None) {
        ShellAction::Notice(t) => assert_eq!(t, "Already in shell mode."),
        _ => panic!("expected a notice"),
    }
    match shell_action("setup now", OutputFormat::Table, &None, &None) {
        ShellAction::Notice(t) => assert_eq!(t, "Run 'limitless setup' outside the shell."),
        _ => panic!("expected a notice"),
    }
    match shell_action(" markets search \"btc price\"", OutputFormat::Json, &Some("k".to_string()), &Some("p".to_string())) {
        ShellAction::Run(args) => assert_eq!(
            args,
            vec!["limitless", "--output", "json", "--api-key", "k", "--private-key", "p", "markets", "search", "btc price"]
        ),
        _ => panic!("expected a command"),
    }
    match shell_action("markets list", OutputFormat::Table, &None, &None) {
        ShellAction::Run(args) => assert_eq!(args, vec!["limitless", "--output", "table", "markets", "list"]),
        _ => panic!("expected a command"),
    }
}
