//! The rows of the portfolio tables: positions (with the status filter),
//! trades and history entries, from the fields that the API sends.

use vstd::prelude::*;
use crate::chars::{chars_of, chars_equal, string_of, to_lowercase, to_uppercase, unicode_lowercase, unicode_uppercase};
use crate::numtext::{nat_digits, parse_i64, parse_int_spec, u128_to_string};
use crate::text::{can_shorten, shortened, truncate};
use crate::timefmt::{
    cut_19_ok,
    deadline_text,
    format_deadline_with_time,
    format_unix_time,
    is_millisecond_time,
    unix_time_text,
};
use crate::usdc::{amount_text, raw_to_shares, raw_to_usdc, raw_usdc_text, signed_usdc_text};

verus! {

/// The figures of one side (YES or NO) of an order-book position, as raw
/// text in millionths; `None` where the API sent none.
#[derive(Clone, Debug)]
pub struct PositionSide {
    pub cost: Option<String>,
    pub fill_price: Option<String>,
    pub market_value: Option<String>,
    pub realised_pnl: Option<String>,
    pub unrealized_pnl: Option<String>,
}

/// A position on the order book: its market's title, status and deadline,
/// the token balances of both sides (raw text; `None` where the API sent no
/// text) and the figures of both sides.
#[derive(Clone, Debug)]
pub struct ClobPosition {
    pub title: Option<String>,
    pub status: Option<String>,
    pub deadline: Option<String>,
    pub yes_balance: Option<String>,
    pub no_balance: Option<String>,
    pub yes: PositionSide,
    pub no: PositionSide,
}

/// A position in an AMM market: its market's title and status.
#[derive(Clone, Debug)]
pub struct AmmPosition {
    pub title: Option<String>,
    pub status: Option<String>,
}

/// A row of the positions table. `fill_price` is the raw average fill
/// price (millionths of a dollar), which the table writes as a price.
#[derive(Clone, Debug)]
pub struct PositionRow {
    pub market: String,
    pub status: String,
    pub side: String,
    pub shares: String,
    pub fill_price: String,
    pub market_value: String,
    pub cost: String,
    pub pnl: String,
    pub deadline: String,
}

/// The texts of a positions row.
pub struct PositionRowView {
    pub market: Seq<char>,
    pub status: Seq<char>,
    pub side: Seq<char>,
    pub shares: Seq<char>,
    pub fill_price: Seq<char>,
    pub market_value: Seq<char>,
    pub cost: Seq<char>,
    pub pnl: Seq<char>,
    pub deadline: Seq<char>,
}

impl View for PositionRow {
    type V = PositionRowView;

    open spec fn view(&self) -> PositionRowView {
        PositionRowView {
            market: self.market@,
            status: self.status@,
            side: self.side@,
            shares: self.shares@,
            fill_price: self.fill_price@,
            market_value: self.market_value@,
            cost: self.cost@,
            pnl: self.pnl@,
            deadline: self.deadline@,
        }
    }
}

/// An optional text, or `d` where it is missing.
pub open spec fn text_or(t: Option<String>, d: Seq<char>) -> Seq<char> {
    match t {
        Some(s) => s@,
        None => d,
    }
}

fn text_or_exec(t: &Option<String>, d: &str) -> (res: String)
    ensures
        res@ == text_or(*t, d@),
{
    match t {
        Some(s) => s.clone(),
        None => string_of(d),
    }
}

/// The `i64` that a text holds, or 0 where it holds none.
pub open spec fn i64_or_zero(t: Seq<char>) -> int {
    match parse_int_spec(t, true, i64::MIN as int, i64::MAX as int) {
        Some(v) => v,
        None => 0,
    }
}

fn i64_or_zero_exec(t: &str) -> (res: i64)
    ensures
        res == i64_or_zero(t@),
{
    match parse_i64(t) {
        Some(v) => v,
        None => 0,
    }
}

/// Whether the status filter keeps a position with this status: "funded",
/// "open" and "active" (in any case) keep funded positions, "resolved" and
/// "closed" keep resolved ones (the status compared in upper case), and any
/// other filter keeps every position. `filter_lower` is the filter in lower
/// case.
pub open spec fn status_kept(filter_lower: Seq<char>, status: Seq<char>) -> bool {
    if filter_lower == "funded"@ || filter_lower == "open"@ || filter_lower == "active"@ {
        unicode_uppercase(status) == "FUNDED"@
    } else if filter_lower == "resolved"@ || filter_lower == "closed"@ {
        unicode_uppercase(status) == "RESOLVED"@
    } else {
        true
    }
}

/// Whether the status filter (already in lower case) keeps a position with
/// this status.
pub fn status_passes(filter_lower: &str, status: &str) -> (res: bool)
    ensures
        res == status_kept(filter_lower@, status@),
{
    let f = chars_of(filter_lower);
    if chars_equal(&f, "funded") || chars_equal(&f, "open") || chars_equal(&f, "active") {
        let u = chars_of(to_uppercase(status).as_str());
        chars_equal(&u, "FUNDED")
    } else if chars_equal(&f, "resolved") || chars_equal(&f, "closed") {
        let u = chars_of(to_uppercase(status).as_str());
        chars_equal(&u, "RESOLVED")
    } else {
        true
    }
}

/// The profit and loss of a position's side: realised plus unrealised, each
/// read as an `i64` (0 where missing or unreadable).
pub open spec fn side_pnl(s: PositionSide) -> int {
    i64_or_zero(text_or(s.realised_pnl, "0"@)) + i64_or_zero(text_or(s.unrealized_pnl, "0"@))
}

/// The row of one side of an order-book position.
pub open spec fn side_row(p: ClobPosition, yes: bool) -> PositionRowView {
    let s = if yes {
        p.yes
    } else {
        p.no
    };
    let balance = if yes {
        text_or(p.yes_balance, "0"@)
    } else {
        text_or(p.no_balance, "0"@)
    };
    PositionRowView {
        market: shortened(text_or(p.title, "?"@), 45),
        status: text_or(p.status, "-"@),
        side: if yes {
            "YES"@
        } else {
            "NO"@
        },
        shares: raw_usdc_text(balance),
        fill_price: text_or(s.fill_price, "0"@),
        market_value: raw_usdc_text(text_or(s.market_value, "0"@)),
        cost: raw_usdc_text(text_or(s.cost, "0"@)),
        pnl: signed_usdc_text(side_pnl(s)),
        deadline: deadline_text(text_or(p.deadline, "-"@)),
    }
}

/// Whether a side of an order-book position has a positive balance.
pub open spec fn side_held(p: ClobPosition, yes: bool) -> bool {
    if yes {
        i64_or_zero(text_or(p.yes_balance, "0"@)) > 0
    } else {
        i64_or_zero(text_or(p.no_balance, "0"@)) > 0
    }
}

/// The rows of an order-book position: none where the filter drops it, else
/// one for each side with a positive balance, YES first.
pub open spec fn clob_rows(p: ClobPosition, filter_lower: Seq<char>) -> Seq<PositionRowView> {
    if !status_kept(filter_lower, text_or(p.status, "-"@)) {
        seq![]
    } else {
        (if side_held(p, true) {
            seq![side_row(p, true)]
        } else {
            seq![]
        }) + (if side_held(p, false) {
            seq![side_row(p, false)]
        } else {
            seq![]
        })
    }
}

/// The row of an AMM position: its title and status, dashes elsewhere.
pub open spec fn amm_row(p: AmmPosition) -> PositionRowView {
    PositionRowView {
        market: shortened(text_or(p.title, "?"@), 45),
        status: text_or(p.status, "AMM"@),
        side: "-"@,
        shares: "-"@,
        fill_price: "-"@,
        market_value: "-"@,
        cost: "-"@,
        pnl: "-"@,
        deadline: "-"@,
    }
}

/// The rows of an AMM position: one, unless the filter drops it.
pub open spec fn amm_rows(p: AmmPosition, filter_lower: Seq<char>) -> Seq<PositionRowView> {
    if status_kept(filter_lower, text_or(p.status, "AMM"@)) {
        seq![amm_row(p)]
    } else {
        seq![]
    }
}

/// The rows of the positions table for order-book positions, in order.
pub open spec fn all_clob_rows(ps: Seq<ClobPosition>, filter_lower: Seq<char>) -> Seq<PositionRowView>
    decreases ps.len(),
{
    if ps.len() == 0 {
        seq![]
    } else {
        all_clob_rows(ps.drop_last(), filter_lower) + clob_rows(ps.last(), filter_lower)
    }
}

/// The rows of the positions table for AMM positions, in order.
pub open spec fn all_amm_rows(ps: Seq<AmmPosition>, filter_lower: Seq<char>) -> Seq<PositionRowView>
    decreases ps.len(),
{
    if ps.len() == 0 {
        seq![]
    } else {
        all_amm_rows(ps.drop_last(), filter_lower) + amm_rows(ps.last(), filter_lower)
    }
}

/// What the positions table needs of an order-book position that it shows:
/// a title that can be shortened, a deadline that can be cut, and sides
/// whose profit and loss fits an `i64` (the command-line program stops on other input).
pub open spec fn clob_position_ok(p: ClobPosition, filter_lower: Seq<char>) -> bool {
    status_kept(filter_lower, text_or(p.status, "-"@)) ==> {
        &&& (side_held(p, true) || side_held(p, false)) ==> can_shorten(text_or(p.title, "?"@), 45)
            && cut_19_ok(text_or(p.deadline, "-"@))
        &&& side_held(p, true) ==> i64::MIN <= side_pnl(p.yes) <= i64::MAX
        &&& side_held(p, false) ==> i64::MIN <= side_pnl(p.no) <= i64::MAX
    }
}

/// What the positions table needs of an AMM position that it shows: a
/// title that can be shortened.
pub open spec fn amm_position_ok(p: AmmPosition, filter_lower: Seq<char>) -> bool {
    status_kept(filter_lower, text_or(p.status, "AMM"@)) ==> can_shorten(text_or(p.title, "?"@), 45)
}

/// The views of a list of rows.
pub open spec fn row_views(rows: Seq<PositionRow>) -> Seq<PositionRowView> {
    rows.map_values(|r: PositionRow| r@)
}

fn side_row_exec(p: &ClobPosition, yes: bool) -> (res: PositionRow)
    requires
        can_shorten(text_or(p.title, "?"@), 45),
        cut_19_ok(text_or(p.deadline, "-"@)),
        i64::MIN <= side_pnl(if yes { p.yes } else { p.no }) <= i64::MAX,
        side_held(*p, yes),
    ensures
        res@ == side_row(*p, yes),
{
    let s = if yes {
        &p.yes
    } else {
        &p.no
    };
    let balance = if yes {
        text_or_exec(&p.yes_balance, "0")
    } else {
        text_or_exec(&p.no_balance, "0")
    };
    let title = text_or_exec(&p.title, "?");
    let realised = text_or_exec(&s.realised_pnl, "0");
    let unrealised = text_or_exec(&s.unrealized_pnl, "0");
    let total: i64 = i64_or_zero_exec(realised.as_str()) + i64_or_zero_exec(unrealised.as_str());
    let deadline = text_or_exec(&p.deadline, "-");
    let row = PositionRow {
        market: truncate(title.as_str(), 45),
        status: text_or_exec(&p.status, "-"),
        side: if yes {
            string_of("YES")
        } else {
            string_of("NO")
        },
        shares: raw_to_shares(balance.as_str()),
        fill_price: text_or_exec(&s.fill_price, "0"),
        market_value: raw_to_usdc(text_or_exec(&s.market_value, "0").as_str()),
        cost: raw_to_usdc(text_or_exec(&s.cost, "0").as_str()),
        pnl: amount_text(total, true),
        deadline: format_deadline_with_time(deadline.as_str()),
    };
    row
}

fn push_clob_rows(p: &ClobPosition, filter_lower: &String, out: &mut Vec<PositionRow>)
    requires
        clob_position_ok(*p, filter_lower@),
    ensures
        row_views(final(out)@) == row_views(old(out)@) + clob_rows(*p, filter_lower@),
{
    let status = text_or_exec(&p.status, "-");
    if !status_passes(filter_lower.as_str(), status.as_str()) {
        assert(row_views(out@) =~= row_views(out@) + clob_rows(*p, filter_lower@));
        return;
    }
    let ghost before = row_views(out@);
    let yes_bal = i64_or_zero_exec(text_or_exec(&p.yes_balance, "0").as_str());
    if yes_bal > 0 {
        let row = side_row_exec(p, true);
        out.push(row);
    }
    let ghost mid = row_views(out@);
    assert(mid =~= before + (if side_held(*p, true) {
        seq![side_row(*p, true)]
    } else {
        seq![]
    }));
    let no_bal = i64_or_zero_exec(text_or_exec(&p.no_balance, "0").as_str());
    if no_bal > 0 {
        let row = side_row_exec(p, false);
        out.push(row);
    }
    assert(row_views(out@) =~= mid + (if side_held(*p, false) {
        seq![side_row(*p, false)]
    } else {
        seq![]
    }));
}

fn push_amm_rows(p: &AmmPosition, filter_lower: &String, out: &mut Vec<PositionRow>)
    requires
        amm_position_ok(*p, filter_lower@),
    ensures
        row_views(final(out)@) == row_views(old(out)@) + amm_rows(*p, filter_lower@),
{
    let status = text_or_exec(&p.status, "AMM");
    if status_passes(filter_lower.as_str(), status.as_str()) {
        let title = text_or_exec(&p.title, "?");
        let row = PositionRow {
            market: truncate(title.as_str(), 45),
            status: status,
            side: string_of("-"),
            shares: string_of("-"),
            fill_price: string_of("-"),
            market_value: string_of("-"),
            cost: string_of("-"),
            pnl: string_of("-"),
            deadline: string_of("-"),
        };
        out.push(row);
        assert(row_views(out@) =~= row_views(old(out)@) + amm_rows(*p, filter_lower@));
    } else {
        assert(row_views(out@) =~= row_views(out@) + amm_rows(*p, filter_lower@));
    }
}

/// The rows of the positions table: the order-book positions that the
/// status filter keeps, one row per side held (YES first), then the AMM
/// positions that it keeps, one row each. The filter is compared in lower
/// case: "funded", "open" or "active" keep funded markets, "resolved" or
/// "closed" resolved ones, anything else keeps all.
pub fn position_rows(clob: &Vec<ClobPosition>, amm: &Vec<AmmPosition>, status_filter: &str) -> (res:
    Vec<PositionRow>)
    requires
        forall|i: int|
            0 <= i < clob@.len() ==> clob_position_ok(
                #[trigger] clob@[i],
                unicode_lowercase(status_filter@),
            ),
        forall|i: int|
            0 <= i < amm@.len() ==> amm_position_ok(
                #[trigger] amm@[i],
                unicode_lowercase(status_filter@),
            ),
    ensures
        row_views(res@) == all_clob_rows(clob@, unicode_lowercase(status_filter@)) + all_amm_rows(
            amm@,
            unicode_lowercase(status_filter@),
        ),
{
    let f = to_lowercase(status_filter);
    let mut out: Vec<PositionRow> = Vec::new();
    let mut i: usize = 0;
    while i < clob.len()
        invariant
            0 <= i <= clob.len(),
            f@ == unicode_lowercase(status_filter@),
            forall|k: int| 0 <= k < clob@.len() ==> clob_position_ok(#[trigger] clob@[k], f@),
            row_views(out@) == all_clob_rows(clob@.subrange(0, i as int), f@),
        decreases clob.len() - i,
    {
        push_clob_rows(&clob[i], &f, &mut out);
        assert(clob@.subrange(0, i + 1).drop_last() =~= clob@.subrange(0, i as int));
        i = i + 1;
    }
    assert(clob@.subrange(0, clob@.len() as int) =~= clob@);
    let ghost clob_part = row_views(out@);
    let mut j: usize = 0;
    while j < amm.len()
        invariant
            0 <= j <= amm.len(),
            f@ == unicode_lowercase(status_filter@),
            forall|k: int| 0 <= k < amm@.len() ==> amm_position_ok(#[trigger] amm@[k], f@),
            row_views(out@) == clob_part + all_amm_rows(amm@.subrange(0, j as int), f@),
        decreases amm.len() - j,
    {
        push_amm_rows(&amm[j], &f, &mut out);
        assert(amm@.subrange(0, j + 1).drop_last() =~= amm@.subrange(0, j as int));
        assert(row_views(out@) =~= clob_part + all_amm_rows(amm@.subrange(0, j + 1), f@));
        j = j + 1;
    }
    assert(amm@.subrange(0, amm@.len() as int) =~= amm@);
    out
}

/// Whether `truncate` can shorten the text to `max` bytes.
pub fn can_shorten_text(t: &str, max: usize) -> (res: bool)
    ensures
        res == can_shorten(t@, max),
{
    let n = t.as_bytes().len();
    let k: usize = if max >= 3 {
        max - 3
    } else {
        0
    };
    n <= max || t.is_char_boundary(k)
}

/// Whether a time text can be cut after its first 19 bytes.
pub fn can_cut_19(t: &str) -> (res: bool)
    ensures
        res == cut_19_ok(t@),
{
    let n = t.as_bytes().len();
    n < 19 || t.is_char_boundary(19)
}

/// Whether the profit and loss of a side fits an `i64`.
fn side_pnl_fits(s: &PositionSide) -> (res: bool)
    ensures
        res == (i64::MIN <= side_pnl(*s) <= i64::MAX),
{
    let realised = text_or_exec(&s.realised_pnl, "0");
    let unrealised = text_or_exec(&s.unrealized_pnl, "0");
    let total: i128 = i64_or_zero_exec(realised.as_str()) as i128 + i64_or_zero_exec(unrealised.as_str()) as i128;
    i64::MIN as i128 <= total && total <= i64::MAX as i128
}

/// Whether the positions table can show an order-book position under the
/// filter (already in lower case).
fn clob_position_shows(p: &ClobPosition, filter_lower: &String) -> (res: bool)
    ensures
        res == clob_position_ok(*p, filter_lower@),
{
    let status = text_or_exec(&p.status, "-");
    if !status_passes(filter_lower.as_str(), status.as_str()) {
        return true;
    }
    let yes = i64_or_zero_exec(text_or_exec(&p.yes_balance, "0").as_str()) > 0;
    let no = i64_or_zero_exec(text_or_exec(&p.no_balance, "0").as_str()) > 0;
    if yes || no {
        let title = text_or_exec(&p.title, "?");
        let deadline = text_or_exec(&p.deadline, "-");
        if !can_shorten_text(title.as_str(), 45) || !can_cut_19(deadline.as_str()) {
            return false;
        }
    }
    if yes && !side_pnl_fits(&p.yes) {
        return false;
    }
    if no && !side_pnl_fits(&p.no) {
        return false;
    }
    true
}

/// The rows of the positions table, as `position_rows` makes them, or
/// `None` where a position that the table shows has a title that cannot be
/// shortened, a deadline that cannot be cut or a profit and loss beyond an
/// `i64` (the command-line program stops there).
pub fn position_rows_checked(clob: &Vec<ClobPosition>, amm: &Vec<AmmPosition>, status_filter: &str) -> (res:
    Option<Vec<PositionRow>>)
    ensures
        res is Some <==> (forall|i: int|
            0 <= i < clob@.len() ==> clob_position_ok(
                #[trigger] clob@[i],
                unicode_lowercase(status_filter@),
            )) && (forall|i: int|
            0 <= i < amm@.len() ==> amm_position_ok(
                #[trigger] amm@[i],
                unicode_lowercase(status_filter@),
            )),
        res matches Some(rows) ==> row_views(rows@) == all_clob_rows(
            clob@,
            unicode_lowercase(status_filter@),
        ) + all_amm_rows(amm@, unicode_lowercase(status_filter@)),
{
    let f = to_lowercase(status_filter);
    let mut i: usize = 0;
    while i < clob.len()
        invariant
            0 <= i <= clob.len(),
            f@ == unicode_lowercase(status_filter@),
            forall|k: int| 0 <= k < i ==> clob_position_ok(#[trigger] clob@[k], f@),
        decreases clob.len() - i,
    {
        if !clob_position_shows(&clob[i], &f) {
            return None;
        }
        i = i + 1;
    }
    let mut j: usize = 0;
    while j < amm.len()
        invariant
            0 <= j <= amm.len(),
            f@ == unicode_lowercase(status_filter@),
            forall|k: int| 0 <= k < clob@.len() ==> clob_position_ok(#[trigger] clob@[k], f@),
            forall|k: int| 0 <= k < j ==> amm_position_ok(#[trigger] amm@[k], f@),
        decreases amm.len() - j,
    {
        let status = text_or_exec(&amm[j].status, "AMM");
        if status_passes(f.as_str(), status.as_str()) {
            let title = text_or_exec(&amm[j].title, "?");
            if !can_shorten_text(title.as_str(), 45) {
                return None;
            }
        }
        j = j + 1;
    }
    Some(position_rows(clob, amm, status_filter))
}

/// A time field as the API sends it: a Unix timestamp (seconds or
/// milliseconds), text, or something else.
#[derive(Clone, Debug)]
pub enum TimeField {
    Unix(u64),
    Text(String),
    Other,
}

/// A time field as the tables show it; a dash where it is missing or
/// neither a number nor text.
pub open spec fn time_field_text(t: Option<TimeField>) -> Seq<char> {
    match t {
        Some(TimeField::Unix(ts)) => unix_time_text(ts as nat),
        Some(TimeField::Text(s)) => deadline_text(s@),
        Some(TimeField::Other) => "-"@,
        None => "-"@,
    }
}

/// A time in milliseconds shows as the same time in seconds: where the field
/// holds such a timestamp, `shown` is the text of its thousandth.
pub open spec fn millis_shown_as_seconds(t: Option<TimeField>, shown: Seq<char>) -> bool {
    match t {
        Some(TimeField::Unix(ts)) => is_millisecond_time(ts as nat) ==> shown == unix_time_text(
            ts as nat / 1000,
        ),
        _ => true,
    }
}

/// Whether a time field can be shown (text must be cuttable).
pub open spec fn time_field_ok(t: Option<TimeField>) -> bool {
    match t {
        Some(TimeField::Text(s)) => cut_19_ok(s@),
        _ => true,
    }
}

fn time_field_exec(t: &Option<TimeField>) -> (res: String)
    requires
        time_field_ok(*t),
    ensures
        res@ == time_field_text(*t),
        millis_shown_as_seconds(*t, res@),
{
    match t {
        Some(TimeField::Unix(ts)) => format_unix_time(*ts),
        Some(TimeField::Text(s)) => format_deadline_with_time(s.as_str()),
        Some(TimeField::Other) => string_of("-"),
        None => string_of("-"),
    }
}

/// The outcome column of the trades and history tables: outcome index 0 is
/// YES, 1 is NO, anything else shows `other`.
pub open spec fn outcome_text(index: Option<u64>, other: Seq<char>) -> Seq<char> {
    match index {
        Some(i) => if i == 0 {
            "YES"@
        } else if i == 1 {
            "NO"@
        } else {
            other
        },
        None => other,
    }
}

fn outcome_exec(index: Option<u64>, other: String) -> (res: String)
    ensures
        res@ == outcome_text(index, other@),
{
    match index {
        Some(0) => string_of("YES"),
        Some(1) => string_of("NO"),
        _ => other,
    }
}

/// A raw amount as the tables show it, or a dash where it is missing.
pub open spec fn amount_or_dash(a: Option<String>) -> Seq<char> {
    match a {
        Some(t) => raw_usdc_text(t@),
        None => "-"@,
    }
}

/// A trade as the trades table reads it: its market's title (or slug), its
/// side, outcome index, outcome, raw amount and time. The price, a float,
/// is the table's own.
#[derive(Clone, Debug)]
pub struct TradeEntry {
    pub title: Option<String>,
    pub side: Option<String>,
    pub outcome_index: Option<u64>,
    pub outcome: Option<String>,
    pub amount: Option<String>,
    pub time: Option<TimeField>,
}

/// A row of the trades table (without its price).
#[derive(Clone, Debug)]
pub struct TradeRow {
    pub market: String,
    pub side: String,
    pub outcome: String,
    pub amount: String,
    pub time: String,
}

/// The row of a trade: the title shortened to 40 bytes, the side in upper
/// case, the outcome, the amount with two decimals and the time.
pub open spec fn trade_row_ok(e: TradeEntry, r: TradeRow) -> bool {
    &&& r.market@ == shortened(text_or(e.title, "?"@), 40)
    &&& r.side@ == unicode_uppercase(text_or(e.side, "-"@))
    &&& r.outcome@ == outcome_text(e.outcome_index, text_or(e.outcome, "-"@))
    &&& r.amount@ == amount_or_dash(e.amount)
    &&& r.time@ == time_field_text(e.time)
    &&& millis_shown_as_seconds(e.time, r.time@)
}

/// What the trades table needs of a trade (the command-line program stops on other input).
pub open spec fn trade_entry_ok(e: TradeEntry) -> bool {
    can_shorten(text_or(e.title, "?"@), 40) && time_field_ok(e.time)
}

fn amount_or_dash_exec(a: &Option<String>) -> (res: String)
    ensures
        res@ == amount_or_dash(*a),
{
    match a {
        Some(t) => raw_to_usdc(t.as_str()),
        None => string_of("-"),
    }
}

/// The rows of the trades table, one per trade in order.
pub fn trade_rows(trades: &Vec<TradeEntry>) -> (res: Vec<TradeRow>)
    requires
        forall|i: int| 0 <= i < trades@.len() ==> trade_entry_ok(#[trigger] trades@[i]),
    ensures
        res@.len() == trades@.len(),
        forall|i: int| 0 <= i < trades@.len() ==> trade_row_ok(trades@[i], #[trigger] res@[i]),
{
    let mut out: Vec<TradeRow> = Vec::new();
    let mut i: usize = 0;
    while i < trades.len()
        invariant
            0 <= i <= trades.len(),
            out@.len() == i,
            forall|k: int| 0 <= k < trades@.len() ==> trade_entry_ok(#[trigger] trades@[k]),
            forall|k: int| 0 <= k < i ==> trade_row_ok(trades@[k], #[trigger] out@[k]),
        decreases trades.len() - i,
    {
        let e = &trades[i];
        assert(trade_entry_ok(trades@[i as int]));
        let title = text_or_exec(&e.title, "?");
        let side = text_or_exec(&e.side, "-");
        let row = TradeRow {
            market: truncate(title.as_str(), 40),
            side: to_uppercase(side.as_str()),
            outcome: outcome_exec(e.outcome_index, text_or_exec(&e.outcome, "-")),
            amount: amount_or_dash_exec(&e.amount),
            time: time_field_exec(&e.time),
        };
        out.push(row);
        i = i + 1;
    }
    out
}

/// A history entry as the history table reads it: its strategy, its
/// market's title, outcome index, raw token and collateral amounts and
/// block timestamp. The price, a float, is the table's own.
#[derive(Clone, Debug)]
pub struct HistoryEntry {
    pub strategy: Option<String>,
    pub title: Option<String>,
    pub outcome_index: Option<u64>,
    pub token_amount: Option<String>,
    pub collateral: Option<String>,
    pub block_timestamp: Option<u64>,
}

/// A row of the history table (without its price).
#[derive(Clone, Debug)]
pub struct HistoryRow {
    pub strategy: String,
    pub market: String,
    pub outcome: String,
    pub shares: String,
    pub collateral: String,
    pub time: String,
}

/// The row of a history entry.
pub open spec fn history_row_ok(e: HistoryEntry, r: HistoryRow) -> bool {
    &&& r.strategy@ == text_or(e.strategy, "?"@)
    &&& r.market@ == shortened(text_or(e.title, "?"@), 40)
    &&& r.outcome@ == outcome_text(e.outcome_index, "-"@)
    &&& r.shares@ == amount_or_dash(e.token_amount)
    &&& r.collateral@ == amount_or_dash(e.collateral)
    &&& r.time@ == match e.block_timestamp {
        Some(ts) => unix_time_text(ts as nat),
        None => "-"@,
    }
    &&& match e.block_timestamp {
        Some(ts) => is_millisecond_time(ts as nat) ==> r.time@ == unix_time_text(ts as nat / 1000),
        None => true,
    }
}

/// The rows of the history table, one per entry in order.
pub fn history_rows(entries: &Vec<HistoryEntry>) -> (res: Vec<HistoryRow>)
    requires
        forall|i: int|
            0 <= i < entries@.len() ==> can_shorten(text_or(#[trigger] entries@[i].title, "?"@), 40),
    ensures
        res@.len() == entries@.len(),
        forall|i: int| 0 <= i < entries@.len() ==> history_row_ok(entries@[i], #[trigger] res@[i]),
{
    let mut out: Vec<HistoryRow> = Vec::new();
    let mut i: usize = 0;
    while i < entries.len()
        invariant
            0 <= i <= entries.len(),
            out@.len() == i,
            forall|k: int|
                0 <= k < entries@.len() ==> can_shorten(text_or(#[trigger] entries@[k].title, "?"@), 40),
            forall|k: int| 0 <= k < i ==> history_row_ok(entries@[k], #[trigger] out@[k]),
        decreases entries.len() - i,
    {
        let e = &entries[i];
        let title = text_or_exec(&e.title, "?");
        assert(can_shorten(text_or(entries@[i as int].title, "?"@), 40));
        let shares = match &e.token_amount {
            Some(a) => raw_to_shares(a.as_str()),
            None => string_of("-"),
        };
        let time = match e.block_timestamp {
            Some(ts) => format_unix_time(ts),
            None => string_of("-"),
        };
        let row = HistoryRow {
            strategy: text_or_exec(&e.strategy, "?"),
            market: truncate(title.as_str(), 40),
            outcome: outcome_exec(e.outcome_index, string_of("-")),
            shares,
            collateral: amount_or_dash_exec(&e.collateral),
            time,
        };
        out.push(row);
        i = i + 1;
    }
    out
}

/// The line above the history table: "N entries (showing M):" where the
/// API gave a total, else "M entries:".
pub open spec fn history_header_text(total: Option<u64>, shown: nat) -> Seq<char> {
    match total {
        Some(t) => nat_digits(t as nat) + " entries (showing "@ + nat_digits(shown) + "):"@,
        None => nat_digits(shown) + " entries:"@,
    }
}

/// The line above the history table.
pub fn history_header(total: Option<u64>, shown: usize) -> (res: String)
    ensures
        res@ == history_header_text(total, shown as nat),
{
    match total {
        Some(t) => {
            let mut out = u128_to_string(t as u128);
            out.append(" entries (showing ");
            out.append(u128_to_string(shown as u128).as_str());
            out.append("):");
            out
        },
        None => {
            let mut out = u128_to_string(shown as u128);
            out.append(" entries:");
            out
        },
    }
}

/// Whether the positions summary shows the points line: only for points
/// other than "0" and "0.00000000".
pub fn points_shown(points: &str) -> (res: bool)
    ensures
        res == (points@ != "0"@ && points@ != "0.00000000"@),
{
    let cs = chars_of(points);
    !chars_equal(&cs, "0") && !chars_equal(&cs, "0.00000000")
}

/// What the positions command prints when no row is left: a note naming
/// the filter, or "No open positions." for the filter "all".
pub open spec fn no_positions_text(filter: Seq<char>) -> Seq<char> {
    if filter != "all"@ {
        "No positions matching status '"@ + filter + "'."@
    } else {
        "No open positions."@
    }
}

/// What the positions command prints when no row is left.
pub fn no_positions_message(filter: &str) -> (res: String)
    ensures
        res@ == no_positions_text(filter@),
{
    let cs = chars_of(filter);
    if !chars_equal(&cs, "all") {
        let mut out = string_of("No positions matching status '");
        out.append(filter);
        out.append("'.");
        out
    } else {
        string_of("No open positions.")
    }
}

/// Each side's row of an order-book position is built from that side's own
/// balance and figures: the NO row does not change when only the YES side
/// changes, nor the YES row when only the NO side changes, and swapping the
/// two sides of a position swaps the figures of its two rows.
pub proof fn law_side_rows_use_their_own_side(p: ClobPosition, q: ClobPosition)
    ensures
        q.title == p.title && q.status == p.status && q.deadline == p.deadline && q.no_balance
            == p.no_balance && q.no == p.no ==> side_row(q, false) == side_row(p, false),
        q.title == p.title && q.status == p.status && q.deadline == p.deadline && q.yes_balance
            == p.yes_balance && q.yes == p.yes ==> side_row(q, true) == side_row(p, true),
        q.title == p.title && q.status == p.status && q.deadline == p.deadline && q.yes_balance
            == p.no_balance && q.no_balance == p.yes_balance && q.yes == p.no && q.no == p.yes
            ==> side_row(q, false) == (PositionRowView { side: "NO"@, ..side_row(p, true) }),
        side_row(p, false).shares == raw_usdc_text(text_or(p.no_balance, "0"@)),
        side_row(p, false).market_value == raw_usdc_text(text_or(p.no.market_value, "0"@)),
        side_row(p, false).cost == raw_usdc_text(text_or(p.no.cost, "0"@)),
        side_row(p, true).market_value == raw_usdc_text(text_or(p.yes.market_value, "0"@)),
{
}

} // verus!
