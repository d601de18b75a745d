//! How the user-orders table shows an order: the colour of its side and
//! status, and the date of its creation.

use vstd::prelude::*;
use crate::chars::{chars_equal, chars_of, string_from_chars, string_of, to_uppercase, unicode_uppercase};
use crate::text::{can_shorten, shortened, truncate};

verus! {

/// The colour of an order's side: buys green, sells red, other sides plain.
#[derive(Clone, Copy, Debug, PartialEq, Eq, Structural)]
pub enum SideStyle {
    Buy,
    Sell,
    Plain,
}

/// The colour of an order's status: open orders green, filled cyan,
/// cancelled dimmed, others plain.
#[derive(Clone, Copy, Debug, PartialEq, Eq, Structural)]
pub enum StatusStyle {
    Open,
    Filled,
    Cancelled,
    Plain,
}

/// The style of a side, by its upper case: "BUY" or "SELL".
pub open spec fn side_style_of(side: Seq<char>) -> SideStyle {
    let u = unicode_uppercase(side);
    if u == "BUY"@ {
        SideStyle::Buy
    } else if u == "SELL"@ {
        SideStyle::Sell
    } else {
        SideStyle::Plain
    }
}

/// The style of a status, by its upper case: "OPEN" or "ACTIVE" are open,
/// "FILLED" or "MATCHED" filled, "CANCELLED" or "CANCELED" cancelled.
pub open spec fn status_style_of(status: Seq<char>) -> StatusStyle {
    let u = unicode_uppercase(status);
    if u == "OPEN"@ || u == "ACTIVE"@ {
        StatusStyle::Open
    } else if u == "FILLED"@ || u == "MATCHED"@ {
        StatusStyle::Filled
    } else if u == "CANCELLED"@ || u == "CANCELED"@ {
        StatusStyle::Cancelled
    } else {
        StatusStyle::Plain
    }
}

/// The style of an order's side.
pub fn order_side_style(side: &str) -> (res: SideStyle)
    ensures
        res == side_style_of(side@),
{
    let u = chars_of(to_uppercase(side).as_str());
    if chars_equal(&u, "BUY") {
        SideStyle::Buy
    } else if chars_equal(&u, "SELL") {
        SideStyle::Sell
    } else {
        SideStyle::Plain
    }
}

/// The style of an order's status.
pub fn order_status_style(status: &str) -> (res: StatusStyle)
    ensures
        res == status_style_of(status@),
{
    let u = chars_of(to_uppercase(status).as_str());
    if chars_equal(&u, "OPEN") || chars_equal(&u, "ACTIVE") {
        StatusStyle::Open
    } else if chars_equal(&u, "FILLED") || chars_equal(&u, "MATCHED") {
        StatusStyle::Filled
    } else if chars_equal(&u, "CANCELLED") || chars_equal(&u, "CANCELED") {
        StatusStyle::Cancelled
    } else {
        StatusStyle::Plain
    }
}

/// The text before the first 'T' (all of it where there is none): the date
/// of an ISO 8601 time.
pub open spec fn before_t(s: Seq<char>) -> Seq<char>
    decreases s.len(),
{
    if s.len() == 0 {
        s
    } else if s[0] == 'T' {
        seq![]
    } else {
        seq![s[0]] + before_t(s.drop_first())
    }
}

/// The created column of the user-orders table: the date part of the
/// creation time, or "-" where there is none.
pub fn created_date(created_at: &Option<String>) -> (res: String)
    ensures
        res@ == match created_at {
            Some(s) => before_t(s@),
            None => "-"@,
        },
{
    match created_at {
        Some(s) => {
            let cs = chars_of(s.as_str());
            let mut i: usize = 0;
            assert(cs@.subrange(0, cs@.len() as int) =~= cs@);
            assert(cs@.subrange(0, 0) + before_t(cs@) =~= before_t(cs@));
            while i < cs.len() && cs[i] != 'T'
                invariant
                    0 <= i <= cs.len(),
                    before_t(cs@) == cs@.subrange(0, i as int) + before_t(
                        cs@.subrange(i as int, cs@.len() as int),
                    ),
                decreases cs.len() - i,
            {
                let ghost rest = cs@.subrange(i as int, cs@.len() as int);
                assert(rest.drop_first() =~= cs@.subrange(i + 1, cs@.len() as int));
                assert(cs@.subrange(0, i + 1) =~= cs@.subrange(0, i as int) + seq![cs@[i as int]]);
                i = i + 1;
            }
            let ghost rest = cs@.subrange(i as int, cs@.len() as int);
            if i < cs.len() {
                assert(rest[0] == cs@[i as int]);
            }
            assert(before_t(rest) =~= Seq::<char>::empty());
            let mut out: Vec<char> = Vec::new();
            let mut k: usize = 0;
            while k < i
                invariant
                    0 <= k <= i,
                    i <= cs.len(),
                    out@ == cs@.subrange(0, k as int),
                decreases i - k,
            {
                out.push(cs[k]);
                k = k + 1;
                assert(out@ =~= cs@.subrange(0, k as int));
            }
            assert(before_t(cs@) =~= out@);
            string_from_chars(out.as_slice())
        },
        None => string_of("-"),
    }
}

/// The figures of a placed order as the summary writes them; the API sends
/// them as floats or atomic amounts, which the caller writes.
#[derive(Clone, Debug)]
pub struct OrderFigures {
    pub shares_filled: String,
    pub avg_price: String,
    pub usd_gross: String,
    pub usd_fee: String,
    pub usd_net: String,
    pub maker_amount: String,
    pub price: String,
    pub taker_amount: String,
    pub fee_rate: String,
}

/// What the API says of a placed order: its side (0 buy, 1 sell), whether
/// it matched, its type, market title, id and creation time, where given.
#[derive(Clone, Debug)]
pub struct PlacedOrder {
    pub side: Option<u64>,
    pub matched: bool,
    pub order_type: Option<String>,
    pub market_title: Option<String>,
    pub order_id: Option<String>,
    pub created_at: Option<String>,
}

/// The side label of a placed order.
pub open spec fn side_label(side: Option<u64>) -> Seq<char> {
    match side {
        Some(s) => if s == 0 {
            "BUY"@
        } else if s == 1 {
            "SELL"@
        } else {
            "?"@
        },
        None => "?"@,
    }
}

/// Whether a placed order is a buy (side 0).
pub open spec fn is_buy(side: Option<u64>) -> bool {
    side == Some(0u64)
}

/// An optional text, or `d`.
pub open spec fn or_text(t: Option<String>, d: Seq<char>) -> Seq<char> {
    match t {
        Some(s) => s@,
        None => d,
    }
}

/// The rows of the summary of a placed order. A matched order shows what
/// was filled: shares, average price, what was spent (a buy) or received (a
/// sell), the fee and the net. An order left on the book shows for a FOK
/// order its amount (a buy, in USDC) or shares (a sell), and for a GTC
/// order its price, shares and cost, then its type and fee rate.
pub open spec fn summary_rows(o: PlacedOrder, f: OrderFigures) -> Seq<(Seq<char>, Seq<char>)> {
    let order_type = or_text(o.order_type, "GTC"@);
    let head = seq![
        ("Market"@, or_text(o.market_title, "-"@)),
        ("Order ID"@, shortened(or_text(o.order_id, "-"@), 20)),
        ("Side"@, side_label(o.side)),
    ];
    if o.matched {
        head + seq![
            ("Type"@, order_type),
            ("Shares"@, f.shares_filled@),
            ("Avg Price"@, f.avg_price@ + " USDC"@),
            (
                if is_buy(o.side) {
                    "Spent"@
                } else {
                    "Received"@
                },
                f.usd_gross@ + " USDC"@,
            ),
            ("Fee"@, f.usd_fee@ + " USDC"@),
            ("Net"@, f.usd_net@ + " USDC"@),
            ("Created"@, or_text(o.created_at, "-"@)),
        ]
    } else {
        head + (if order_type == "FOK"@ {
            seq![
                (
                    if is_buy(o.side) {
                        "Amount"@
                    } else {
                        "Shares"@
                    },
                    f.maker_amount@ + if is_buy(o.side) {
                        " USDC"@
                    } else {
                        ""@
                    },
                ),
            ]
        } else {
            seq![
                ("Price"@, f.price@ + " USDC"@),
                ("Shares"@, f.taker_amount@),
                ("Cost"@, f.maker_amount@ + " USDC"@),
            ]
        }) + seq![
            ("Type"@, order_type),
            ("Fee Rate"@, f.fee_rate@),
            ("Created"@, or_text(o.created_at, "-"@)),
        ]
    }
}

/// The texts of a list of rows.
pub open spec fn pair_texts(rows: Seq<(String, String)>) -> Seq<(Seq<char>, Seq<char>)> {
    rows.map_values(|r: (String, String)| (r.0@, r.1@))
}

fn or_text_exec(t: &Option<String>, d: &str) -> (res: String)
    ensures
        res@ == or_text(*t, d@),
{
    match t {
        Some(s) => s.clone(),
        None => string_of(d),
    }
}

fn with_usdc(t: &String) -> (res: String)
    ensures
        res@ == t@ + " USDC"@,
{
    let mut r = t.clone();
    r.append(" USDC");
    r
}

fn push_pair(rows: &mut Vec<(String, String)>, label: &str, value: String)
    ensures
        pair_texts(final(rows)@) == pair_texts(old(rows)@).push((label@, value@)),
{
    let ghost before = rows@;
    rows.push((string_of(label), value));
    assert(pair_texts(rows@) =~= pair_texts(before).push((label@, value@)));
}

/// The rows of the summary of a placed order. The order id must be
/// shortenable to 20 bytes (the command-line program stops on other input).
pub fn order_summary_rows(o: &PlacedOrder, f: &OrderFigures) -> (res: Vec<(String, String)>)
    requires
        can_shorten(or_text(o.order_id, "-"@), 20),
    ensures
        pair_texts(res@) == summary_rows(*o, *f),
{
    let order_type = or_text_exec(&o.order_type, "GTC");
    let id = or_text_exec(&o.order_id, "-");
    let buy = match o.side {
        Some(0) => true,
        _ => false,
    };
    let side = match o.side {
        Some(0) => string_of("BUY"),
        Some(1) => string_of("SELL"),
        _ => string_of("?"),
    };
    let mut rows: Vec<(String, String)> = Vec::new();
    assert(pair_texts(rows@) =~= Seq::<(Seq<char>, Seq<char>)>::empty());
    push_pair(&mut rows, "Market", or_text_exec(&o.market_title, "-"));
    push_pair(&mut rows, "Order ID", truncate(id.as_str(), 20));
    push_pair(&mut rows, "Side", side);
    if o.matched {
        push_pair(&mut rows, "Type", order_type);
        push_pair(&mut rows, "Shares", f.shares_filled.clone());
        push_pair(&mut rows, "Avg Price", with_usdc(&f.avg_price));
        if buy {
            push_pair(&mut rows, "Spent", with_usdc(&f.usd_gross));
        } else {
            push_pair(&mut rows, "Received", with_usdc(&f.usd_gross));
        }
        push_pair(&mut rows, "Fee", with_usdc(&f.usd_fee));
        push_pair(&mut rows, "Net", with_usdc(&f.usd_net));
        push_pair(&mut rows, "Created", or_text_exec(&o.created_at, "-"));
    } else {
        let t = chars_of(order_type.as_str());
        if chars_equal(&t, "FOK") {
            if buy {
                push_pair(&mut rows, "Amount", with_usdc(&f.maker_amount));
            } else {
                let amount = f.maker_amount.clone();
                proof {
                    reveal_strlit("");
                    assert(amount@ + ""@ =~= amount@);
                }
                push_pair(&mut rows, "Shares", amount);
            }
        } else {
            push_pair(&mut rows, "Price", with_usdc(&f.price));
            push_pair(&mut rows, "Shares", f.taker_amount.clone());
            push_pair(&mut rows, "Cost", with_usdc(&f.maker_amount));
        }
        push_pair(&mut rows, "Type", order_type);
        push_pair(&mut rows, "Fee Rate", f.fee_rate.clone());
        push_pair(&mut rows, "Created", or_text_exec(&o.created_at, "-"));
    }
    assert(pair_texts(rows@) =~= summary_rows(*o, *f));
    rows
}

/// What the locked-balance report shows: the amount, its currency and the
/// number of open orders.
#[derive(Clone, Debug)]
pub struct LockedSummary {
    pub amount: String,
    pub currency: String,
    pub open_orders: u32,
}

/// The amount shown for a locked balance: the formatted amount where the
/// service sent one, else the raw amount, else "0".
pub open spec fn locked_amount(formatted: Option<String>, raw: Option<String>) -> Seq<char> {
    match formatted {
        Some(f) => f@,
        None => match raw {
            Some(r) => r@,
            None => "0"@,
        },
    }
}

/// The locked-balance report: the amount as `locked_amount` picks it, the
/// currency or "USDC", and the count of open orders or 0.
pub fn locked_balance_summary(
    formatted: &Option<String>,
    raw: &Option<String>,
    currency: &Option<String>,
    order_count: Option<u32>,
) -> (res: LockedSummary)
    ensures
        res.amount@ == locked_amount(*formatted, *raw),
        res.currency@ == match *currency {
            Some(c) => c@,
            None => "USDC"@,
        },
        res.open_orders == match order_count {
            Some(n) => n,
            None => 0u32,
        },
{
    let amount = match formatted {
        Some(f) => f.clone(),
        None => match raw {
            Some(r) => r.clone(),
            None => string_of("0"),
        },
    };
    let cur = match currency {
        Some(c) => c.clone(),
        None => string_of("USDC"),
    };
    let open_orders: u32 = match order_count {
        Some(n) => n,
        None => 0,
    };
    LockedSummary { amount, currency: cur, open_orders }
}

/// The summary of a matched order shows each money figure under its own
/// label: what was spent (a buy) or received (a sell) is the gross amount,
/// the fee is the fee, and the net is the net amount, each in USDC.
pub proof fn law_matched_summary_shows_each_figure(o: PlacedOrder, f: OrderFigures)
    requires
        o.matched,
    ensures
        summary_rows(o, f).contains(
            (
                if is_buy(o.side) {
                    "Spent"@
                } else {
                    "Received"@
                },
                f.usd_gross@ + " USDC"@,
            ),
        ),
        summary_rows(o, f).contains(("Fee"@, f.usd_fee@ + " USDC"@)),
        summary_rows(o, f).contains(("Net"@, f.usd_net@ + " USDC"@)),
        summary_rows(o, f).contains(("Shares"@, f.shares_filled@)),
{
    let rows = summary_rows(o, f);
    assert(rows[4] == ("Shares"@, f.shares_filled@));
    assert(rows[6] == (
        if is_buy(o.side) {
            "Spent"@
        } else {
            "Received"@
        },
        f.usd_gross@ + " USDC"@,
    ));
    assert(rows[7] == ("Fee"@, f.usd_fee@ + " USDC"@));
    assert(rows[8] == ("Net"@, f.usd_net@ + " USDC"@));
}

} // verus!
