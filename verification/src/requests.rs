//! The requests of the exchange's REST API: for each call, its path and its
//! query parameters, in the order in which they are sent.

use vstd::prelude::*;
use crate::chars::string_of;
use crate::numtext::{nat_digits, u128_to_string};

verus! {

/// A request: a path below the API's base URL and query parameters.
#[derive(Clone, Debug)]
pub struct ApiRequest {
    pub path: String,
    pub params: Vec<(String, String)>,
}

impl ApiRequest {
    /// The parameters as pairs of texts.
    pub open spec fn params_view(self) -> Seq<(Seq<char>, Seq<char>)> {
        self.params@.map_values(|p: (String, String)| (p.0@, p.1@))
    }
}

/// A parameter that is sent only when it has a value.
pub open spec fn opt_param(name: Seq<char>, value: Option<Seq<char>>) -> Seq<(Seq<char>, Seq<char>)> {
    match value {
        Some(v) => seq![(name, v)],
        None => seq![],
    }
}

/// A numeric parameter that is sent only when it has a value.
pub open spec fn opt_num_param(name: Seq<char>, value: Option<u32>) -> Seq<(Seq<char>, Seq<char>)> {
    match value {
        Some(v) => seq![(name, nat_digits(v as nat))],
        None => seq![],
    }
}

/// The view of an optional text.
pub open spec fn opt_text(s: Option<&str>) -> Option<Seq<char>> {
    match s {
        Some(t) => Some(t@),
        None => None,
    }
}

fn push_param(params: &mut Vec<(String, String)>, name: &str, value: &str)
    ensures
        final(params)@.map_values(|p: (String, String)| (p.0@, p.1@)) == old(params)@.map_values(
            |p: (String, String)| (p.0@, p.1@),
        ).push((name@, value@)),
{
    params.push((string_of(name), string_of(value)));
    assert(params@.map_values(|p: (String, String)| (p.0@, p.1@)) =~= old(params)@.map_values(
        |p: (String, String)| (p.0@, p.1@),
    ).push((name@, value@)));
}

fn push_opt_param(params: &mut Vec<(String, String)>, name: &str, value: Option<&str>)
    ensures
        final(params)@.map_values(|p: (String, String)| (p.0@, p.1@)) == old(params)@.map_values(
            |p: (String, String)| (p.0@, p.1@),
        ) + opt_param(name@, opt_text(value)),
{
    match value {
        Some(v) => push_param(params, name, v),
        None => {
            assert(old(params)@.map_values(|p: (String, String)| (p.0@, p.1@)) + opt_param(
                name@,
                opt_text(value),
            ) =~= old(params)@.map_values(|p: (String, String)| (p.0@, p.1@)));
        },
    }
}

fn push_opt_num_param(params: &mut Vec<(String, String)>, name: &str, value: Option<u32>)
    ensures
        final(params)@.map_values(|p: (String, String)| (p.0@, p.1@)) == old(params)@.map_values(
            |p: (String, String)| (p.0@, p.1@),
        ) + opt_num_param(name@, value),
{
    match value {
        Some(v) => {
            let t = u128_to_string(v as u128);
            push_param(params, name, t.as_str());
        },
        None => {
            assert(old(params)@.map_values(|p: (String, String)| (p.0@, p.1@)) + opt_num_param(
                name@,
                value,
            ) =~= old(params)@.map_values(|p: (String, String)| (p.0@, p.1@)));
        },
    }
}

/// `prefix + middle + suffix`.
fn path3(prefix: &str, middle: &str, suffix: &str) -> (res: String)
    ensures
        res@ == prefix@ + middle@ + suffix@,
{
    let mut p = string_of(prefix);
    p.append(middle);
    p.append(suffix);
    p
}

/// A request without parameters.
fn plain(path: String) -> (res: ApiRequest)
    ensures
        res.path@ == path@,
        res.params_view() == Seq::<(Seq<char>, Seq<char>)>::empty(),
{
    let r = ApiRequest { path, params: Vec::new() };
    assert(r.params_view() =~= Seq::<(Seq<char>, Seq<char>)>::empty());
    r
}

/// Active markets, one page: the category, where given, is a path component;
/// page, limit, sort order and trade type are parameters.
pub fn active_markets_request(
    page: Option<u32>,
    limit: Option<u32>,
    sort_by: Option<&str>,
    trade_type: Option<&str>,
    category: Option<&str>,
) -> (res: ApiRequest)
    ensures
        category matches Some(c) ==> res.path@ == "/markets/active/"@ + c@,
        category is None ==> res.path@ == "/markets/active"@,
        res.params_view() == opt_num_param("page"@, page) + opt_num_param("limit"@, limit)
            + opt_param("sortBy"@, opt_text(sort_by)) + opt_param("tradeType"@, opt_text(trade_type)),
{
    let mut params: Vec<(String, String)> = Vec::new();
    assert(params@.map_values(|p: (String, String)| (p.0@, p.1@)) =~= Seq::<
        (Seq<char>, Seq<char>),
    >::empty());
    push_opt_num_param(&mut params, "page", page);
    push_opt_num_param(&mut params, "limit", limit);
    push_opt_param(&mut params, "sortBy", sort_by);
    push_opt_param(&mut params, "tradeType", trade_type);
    let path = match category {
        Some(c) => path3("/markets/active/", c, ""),
        None => string_of("/markets/active"),
    };
    proof {
        reveal_strlit("");
    }
    let r = ApiRequest { path, params };
    assert(r.params_view() =~= opt_num_param("page"@, page) + opt_num_param("limit"@, limit)
        + opt_param("sortBy"@, opt_text(sort_by)) + opt_param("tradeType"@, opt_text(trade_type)));
    r
}

/// One market, by slug.
pub fn market_request(slug: &str) -> (res: ApiRequest)
    ensures
        res.path@ == "/markets/"@ + slug@,
        res.params_view() == Seq::<(Seq<char>, Seq<char>)>::empty(),
{
    proof {
        reveal_strlit("");
    }
    plain(path3("/markets/", slug, ""))
}

/// Market search: the query, then the limit where given.
pub fn search_markets_request(query: &str, limit: Option<u32>) -> (res: ApiRequest)
    ensures
        res.path@ == "/markets/search"@,
        res.params_view() == seq![("query"@, query@)] + opt_num_param("limit"@, limit),
{
    let mut params: Vec<(String, String)> = Vec::new();
    assert(params@.map_values(|p: (String, String)| (p.0@, p.1@)) =~= Seq::<
        (Seq<char>, Seq<char>),
    >::empty());
    push_param(&mut params, "query", query);
    push_opt_num_param(&mut params, "limit", limit);
    let r = ApiRequest { path: string_of("/markets/search"), params };
    assert(r.params_view() =~= seq![("query"@, query@)] + opt_num_param("limit"@, limit));
    r
}

/// A request for a fixed path without parameters.
pub fn fixed_request(path: &str) -> (res: ApiRequest)
    ensures
        res.path@ == path@,
        res.params_view() == Seq::<(Seq<char>, Seq<char>)>::empty(),
{
    plain(string_of(path))
}

/// A request with one optional text parameter.
fn one_param_request(path: String, name: &str, value: Option<&str>) -> (res: ApiRequest)
    ensures
        res.path@ == path@,
        res.params_view() == opt_param(name@, opt_text(value)),
{
    let mut params: Vec<(String, String)> = Vec::new();
    assert(params@.map_values(|p: (String, String)| (p.0@, p.1@)) =~= Seq::<
        (Seq<char>, Seq<char>),
    >::empty());
    push_opt_param(&mut params, name, value);
    let r = ApiRequest { path, params };
    assert(r.params_view() =~= opt_param(name@, opt_text(value)));
    r
}

/// A request with optional page and limit parameters.
fn paged_request(path: String, page: Option<u32>, limit: Option<u32>) -> (res: ApiRequest)
    ensures
        res.path@ == path@,
        res.params_view() == opt_num_param("page"@, page) + opt_num_param("limit"@, limit),
{
    let mut params: Vec<(String, String)> = Vec::new();
    assert(params@.map_values(|p: (String, String)| (p.0@, p.1@)) =~= Seq::<
        (Seq<char>, Seq<char>),
    >::empty());
    push_opt_num_param(&mut params, "page", page);
    push_opt_num_param(&mut params, "limit", limit);
    let r = ApiRequest { path, params };
    assert(r.params_view() =~= opt_num_param("page"@, page) + opt_num_param("limit"@, limit));
    r
}

/// The PnL chart of the key's portfolio, over a timeframe where given.
pub fn pnl_chart_request(timeframe: Option<&str>) -> (res: ApiRequest)
    ensures
        res.path@ == "/portfolio/pnl-chart"@,
        res.params_view() == opt_param("timeframe"@, opt_text(timeframe)),
{
    one_param_request(string_of("/portfolio/pnl-chart"), "timeframe", timeframe)
}

/// The history of the key's portfolio, one page.
pub fn history_request(page: Option<u32>, limit: Option<u32>) -> (res: ApiRequest)
    ensures
        res.path@ == "/portfolio/history"@,
        res.params_view() == opt_num_param("page"@, page) + opt_num_param("limit"@, limit),
{
    paged_request(string_of("/portfolio/history"), page, limit)
}

/// The trading allowance of the key's wallet: the trading type, then the
/// spender, where given.
pub fn trading_allowance_request(trading_type: Option<&str>, spender: Option<&str>) -> (res:
    ApiRequest)
    ensures
        res.path@ == "/portfolio/trading/allowance"@,
        res.params_view() == opt_param("type"@, opt_text(trading_type)) + opt_param(
            "spender"@,
            opt_text(spender),
        ),
{
    let mut params: Vec<(String, String)> = Vec::new();
    assert(params@.map_values(|p: (String, String)| (p.0@, p.1@)) =~= Seq::<
        (Seq<char>, Seq<char>),
    >::empty());
    push_opt_param(&mut params, "type", trading_type);
    push_opt_param(&mut params, "spender", spender);
    let r = ApiRequest { path: string_of("/portfolio/trading/allowance"), params };
    assert(r.params_view() =~= opt_param("type"@, opt_text(trading_type)) + opt_param(
        "spender"@,
        opt_text(spender),
    ));
    r
}

/// A trader's public profile, by address.
pub fn profile_request(address: &str) -> (res: ApiRequest)
    ensures
        res.path@ == "/profiles/public/"@ + address@,
        res.params_view() == Seq::<(Seq<char>, Seq<char>)>::empty(),
{
    proof {
        reveal_strlit("");
    }
    plain(path3("/profiles/public/", address, ""))
}

/// The public positions of an address.
pub fn public_positions_request(address: &str) -> (res: ApiRequest)
    ensures
        res.path@ == "/portfolio/"@ + address@ + "/positions"@,
        res.params_view() == Seq::<(Seq<char>, Seq<char>)>::empty(),
{
    plain(path3("/portfolio/", address, "/positions"))
}

/// The traded volume of an address.
pub fn public_traded_volume_request(address: &str) -> (res: ApiRequest)
    ensures
        res.path@ == "/portfolio/"@ + address@ + "/traded-volume"@,
        res.params_view() == Seq::<(Seq<char>, Seq<char>)>::empty(),
{
    plain(path3("/portfolio/", address, "/traded-volume"))
}

/// The PnL chart of an address, over a timeframe where given.
pub fn public_pnl_chart_request(address: &str, timeframe: Option<&str>) -> (res: ApiRequest)
    ensures
        res.path@ == "/portfolio/"@ + address@ + "/pnl-chart"@,
        res.params_view() == opt_param("timeframe"@, opt_text(timeframe)),
{
    one_param_request(path3("/portfolio/", address, "/pnl-chart"), "timeframe", timeframe)
}

/// The orderbook of a market.
pub fn orderbook_request(slug: &str) -> (res: ApiRequest)
    ensures
        res.path@ == "/markets/"@ + slug@ + "/orderbook"@,
        res.params_view() == Seq::<(Seq<char>, Seq<char>)>::empty(),
{
    plain(path3("/markets/", slug, "/orderbook"))
}

/// The statuses of a user-orders request, one "statuses" parameter each.
pub open spec fn status_params(statuses: Seq<&str>) -> Seq<(Seq<char>, Seq<char>)> {
    statuses.map_values(|s: &str| ("statuses"@, s@))
}

/// The key's orders on a market: the limit where given, then one
/// "statuses" parameter per status.
pub fn user_orders_request(slug: &str, statuses: Option<&[&str]>, limit: Option<u32>) -> (res:
    ApiRequest)
    ensures
        res.path@ == "/markets/"@ + slug@ + "/user-orders"@,
        statuses matches Some(s) ==> res.params_view() == opt_num_param("limit"@, limit)
            + status_params(s@),
        statuses is None ==> res.params_view() == opt_num_param("limit"@, limit),
{
    let mut params: Vec<(String, String)> = Vec::new();
    assert(params@.map_values(|p: (String, String)| (p.0@, p.1@)) =~= Seq::<
        (Seq<char>, Seq<char>),
    >::empty());
    push_opt_num_param(&mut params, "limit", limit);
    let ghost base = params@.map_values(|p: (String, String)| (p.0@, p.1@));
    if let Some(s) = statuses {
        let mut i: usize = 0;
        while i < s.len()
            invariant
                0 <= i <= s.len(),
                params@.map_values(|p: (String, String)| (p.0@, p.1@)) == base + status_params(
                    s@.subrange(0, i as int),
                ),
            decreases s.len() - i,
        {
            push_param(&mut params, "statuses", s[i]);
            i = i + 1;
            assert(status_params(s@.subrange(0, i as int)) =~= status_params(
                s@.subrange(0, i - 1),
            ).push(("statuses"@, s@[i - 1]@)));
            assert(params@.map_values(|p: (String, String)| (p.0@, p.1@)) =~= base + status_params(
                s@.subrange(0, i as int),
            ));
        }
        assert(s@.subrange(0, s@.len() as int) =~= s@);
    } else {
        assert(base =~= opt_num_param("limit"@, limit));
    }
    ApiRequest { path: path3("/markets/", slug, "/user-orders"), params }
}

/// The balance locked in the key's orders on a market.
pub fn locked_balance_request(slug: &str) -> (res: ApiRequest)
    ensures
        res.path@ == "/markets/"@ + slug@ + "/locked-balance"@,
        res.params_view() == Seq::<(Seq<char>, Seq<char>)>::empty(),
{
    plain(path3("/markets/", slug, "/locked-balance"))
}

/// A market's historical prices: from, to and interval where given.
pub fn historical_prices_request(
    slug: &str,
    from: Option<&str>,
    to: Option<&str>,
    interval: Option<&str>,
) -> (res: ApiRequest)
    ensures
        res.path@ == "/markets/"@ + slug@ + "/historical-price"@,
        res.params_view() == opt_param("from"@, opt_text(from)) + opt_param("to"@, opt_text(to))
            + opt_param("interval"@, opt_text(interval)),
{
    let mut params: Vec<(String, String)> = Vec::new();
    assert(params@.map_values(|p: (String, String)| (p.0@, p.1@)) =~= Seq::<
        (Seq<char>, Seq<char>),
    >::empty());
    push_opt_param(&mut params, "from", from);
    push_opt_param(&mut params, "to", to);
    push_opt_param(&mut params, "interval", interval);
    let r = ApiRequest { path: path3("/markets/", slug, "/historical-price"), params };
    assert(r.params_view() =~= opt_param("from"@, opt_text(from)) + opt_param("to"@, opt_text(to))
        + opt_param("interval"@, opt_text(interval)));
    r
}

/// A market's feed events, one page.
pub fn market_events_request(slug: &str, page: Option<u32>, limit: Option<u32>) -> (res:
    ApiRequest)
    ensures
        res.path@ == "/markets/"@ + slug@ + "/events"@,
        res.params_view() == opt_num_param("page"@, page) + opt_num_param("limit"@, limit),
{
    paged_request(path3("/markets/", slug, "/events"), page, limit)
}

/// The path that cancels one order.
pub fn cancel_order_path(order_id: &str) -> (res: String)
    ensures
        res@ == "/orders/"@ + order_id@,
{
    proof {
        reveal_strlit("");
    }
    path3("/orders/", order_id, "")
}

/// The path that cancels all of the key's orders on a market.
pub fn cancel_all_path(slug: &str) -> (res: String)
    ensures
        res@ == "/orders/all/"@ + slug@,
{
    proof {
        reveal_strlit("");
    }
    path3("/orders/all/", slug, "")
}

/// The full URL of a path below a base URL.
pub fn request_url(base_url: &str, path: &str) -> (res: String)
    ensures
        res@ == base_url@ + path@,
{
    proof {
        reveal_strlit("");
    }
    path3(base_url, path, "")
}

} // verus!
