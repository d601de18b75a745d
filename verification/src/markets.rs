//! Market data as the exchange describes it, and what the client derives
//! from it for display.

use vstd::prelude::*;
use std::collections::HashMap;
use crate::chars::{chars_of, chars_equal, string_of};
use crate::numtext::{nat_digits, parse_int_spec, parse_u32, u128_to_string};
use crate::description::{clean_description, description_text};

verus! {

/// The token ids of a market's two outcomes, as decimal text.
#[derive(Clone, Debug)]
pub struct MarketTokens {
    pub yes: Option<String>,
    pub no: Option<String>,
}

/// The contracts that settle a market.
#[derive(Clone, Debug)]
pub struct Venue {
    pub exchange: String,
    pub adapter: Option<String>,
}

/// The token that a market is collateralised in.
#[derive(Clone, Debug)]
pub struct CollateralToken {
    pub symbol: String,
    pub address: String,
    pub decimals: u32,
}

/// An active market's slug with its ticker details.
#[derive(Clone, Debug)]
pub struct MarketSlug {
    pub slug: String,
    pub ticker: Option<String>,
    pub strike_price: Option<String>,
    pub deadline: Option<String>,
}

/// Market counts per category id, and the total.
#[derive(Clone, Debug)]
pub struct CategoriesCountResponse {
    pub category: HashMap<String, u32>,
    pub total_count: Option<u32>,
}

/// A category with its name and its number of markets.
#[derive(Clone, Debug)]
pub struct CategoryWithCount {
    pub id: u32,
    pub name: String,
    pub count: u32,
}

/// A row of the slugs table: slug, ticker, strike and deadline.
#[derive(Clone, Debug)]
pub struct SlugRow {
    pub slug: String,
    pub ticker: String,
    pub strike: String,
    pub deadline: String,
}

/// The text shown for a missing value in tables.
pub open spec fn dash() -> Seq<char> {
    "\u{2014}"@
}

/// An optional text, or the dash where it is missing.
pub open spec fn text_or_dash(t: Option<String>) -> Seq<char> {
    match t {
        Some(s) => s@,
        None => dash(),
    }
}

fn text_or_dash_exec(t: &Option<String>) -> (res: String)
    ensures
        res@ == text_or_dash(*t),
{
    match t {
        Some(s) => s.clone(),
        None => string_of("\u{2014}"),
    }
}

/// The rows of the slugs table, one per slug in order, with a dash for each
/// missing detail.
pub fn slug_rows(slugs: &Vec<MarketSlug>) -> (res: Vec<SlugRow>)
    ensures
        res@.len() == slugs@.len(),
        forall|i: int|
            0 <= i < slugs@.len() ==> {
                &&& (#[trigger] res@[i]).slug@ == slugs@[i].slug@
                &&& res@[i].ticker@ == text_or_dash(slugs@[i].ticker)
                &&& res@[i].strike@ == text_or_dash(slugs@[i].strike_price)
                &&& res@[i].deadline@ == text_or_dash(slugs@[i].deadline)
            },
{
    let mut rows: Vec<SlugRow> = Vec::new();
    let mut i: usize = 0;
    while i < slugs.len()
        invariant
            0 <= i <= slugs.len(),
            rows@.len() == i,
            forall|j: int|
                0 <= j < i ==> {
                    &&& (#[trigger] rows@[j]).slug@ == slugs@[j].slug@
                    &&& rows@[j].ticker@ == text_or_dash(slugs@[j].ticker)
                    &&& rows@[j].strike@ == text_or_dash(slugs@[j].strike_price)
                    &&& rows@[j].deadline@ == text_or_dash(slugs@[j].deadline)
                },
        decreases slugs.len() - i,
    {
        let s = &slugs[i];
        rows.push(
            SlugRow {
                slug: s.slug.clone(),
                ticker: text_or_dash_exec(&s.ticker),
                strike: text_or_dash_exec(&s.strike_price),
                deadline: text_or_dash_exec(&s.deadline),
            },
        );
        i = i + 1;
    }
    rows
}

/// The status column of the markets table: "Active" for a funded market,
/// "Resolved" for a resolved one, any other status as it is, a dash for none.
pub open spec fn status_text(status: Option<Seq<char>>) -> Seq<char> {
    match status {
        Some(s) => if s == "FUNDED"@ {
            "Active"@
        } else if s == "RESOLVED"@ {
            "Resolved"@
        } else {
            s
        },
        None => dash(),
    }
}

/// The status column of the markets table.
pub fn format_status(status: &Option<String>) -> (res: String)
    ensures
        res@ == status_text(
            match status {
                Some(s) => Some(s@),
                None => None,
            },
        ),
{
    match status {
        Some(s) => {
            let v = chars_of(s.as_str());
            if chars_equal(&v, "FUNDED") {
                string_of("Active")
            } else if chars_equal(&v, "RESOLVED") {
                string_of("Resolved")
            } else {
                s.clone()
            }
        },
        None => string_of("\u{2014}"),
    }
}


/// The view of a category with its count: id, name and count.
pub open spec fn cwc_view(c: CategoryWithCount) -> (u32, Seq<char>, u32) {
    (c.id, c.name@, c.count)
}

/// The name of the category whose id is written `key`: the last category
/// with that id, as collecting them into a map keeps the last.
pub open spec fn category_name(cats: Seq<(u32, Seq<char>)>, key: Seq<char>) -> Option<Seq<char>>
    decreases cats.len(),
{
    if cats.len() == 0 {
        None
    } else if nat_digits(cats.last().0 as nat) == key {
        Some(cats.last().1)
    } else {
        category_name(cats.drop_last(), key)
    }
}

/// The name shown for a category id that no category has.
pub open spec fn unknown_category(key: Seq<char>) -> Seq<char> {
    "Unknown ("@ + key + ")"@
}

/// A count entry joined with its category: the id read from the key (0
/// where it is no `u32`), the category's name (or "Unknown (key)"), the count.
pub open spec fn joined_entry(cats: Seq<(u32, Seq<char>)>, key: Seq<char>, count: u32) -> (
    u32,
    Seq<char>,
    u32,
) {
    (
        match parse_int_spec(key, false, 0, u32::MAX as int) {
            Some(v) => v as u32,
            None => 0,
        },
        match category_name(cats, key) {
            Some(n) => n,
            None => unknown_category(key),
        },
        count,
    )
}

/// `out` holds the entries of `input`, listed by count from most to
/// fewest, entries with equal counts in the order of `input`; `p` maps each
/// place of `out` to the place of `input` that it came from.
pub open spec fn is_stable_desc_sort_by(
    input: Seq<(u32, Seq<char>, u32)>,
    out: Seq<(u32, Seq<char>, u32)>,
    p: Seq<int>,
) -> bool {
    &&& p.len() == out.len()
    &&& out.len() == input.len()
    &&& forall|k: int| 0 <= k < p.len() ==> 0 <= #[trigger] p[k] < input.len() && out[k] == input[p[k]]
    &&& forall|a: int, b: int| 0 <= a < b < p.len() ==> #[trigger] p[a] != #[trigger] p[b]
    &&& forall|a: int, b: int| 0 <= a < b < out.len() ==> (#[trigger] out[a]).2 >= (#[trigger] out[b]).2
    &&& forall|a: int, b: int|
        0 <= a < b < out.len() && (#[trigger] out[a]).2 == (#[trigger] out[b]).2 ==> p[a] < p[b]
}

/// `out` is `input` sorted by count, most first, stably.
pub open spec fn is_stable_desc_sort(input: Seq<(u32, Seq<char>, u32)>, out: Seq<(u32, Seq<char>, u32)>) -> bool {
    exists|p: Seq<int>| is_stable_desc_sort_by(input, out, p)
}

/// Placing `input[i]` at place `j` of a stable sort of the first `i`
/// entries, after every entry that counts at least as much and before every
/// entry that counts less, gives a stable sort of the first `i + 1` entries.
proof fn lemma_insert_keeps_stable_sort(
    input: Seq<(u32, Seq<char>, u32)>,
    i: int,
    old_out: Seq<(u32, Seq<char>, u32)>,
    p: Seq<int>,
    j: int,
)
    requires
        0 <= i < input.len(),
        is_stable_desc_sort_by(input.subrange(0, i), old_out, p),
        0 <= j <= old_out.len(),
        forall|k: int| 0 <= k < j ==> (#[trigger] old_out[k]).2 >= input[i].2,
        forall|k: int| j <= k < old_out.len() ==> (#[trigger] old_out[k]).2 < input[i].2,
    ensures
        is_stable_desc_sort_by(
            input.subrange(0, i + 1),
            old_out.insert(j, input[i]),
            p.insert(j, i),
        ),
{
    let new_out = old_out.insert(j, input[i]);
    let np = p.insert(j, i);
    let inp = input.subrange(0, i + 1);
    let pre = input.subrange(0, i);
    assert forall|k: int| 0 <= k < np.len() implies 0 <= #[trigger] np[k] < inp.len()
        && new_out[k] == inp[np[k]] by {
        if k < j {
            assert(np[k] == p[k]);
            assert(new_out[k] == old_out[k]);
            assert(pre[p[k]] == inp[p[k]]);
        } else if k > j {
            assert(np[k] == p[k - 1]);
            assert(new_out[k] == old_out[k - 1]);
            assert(pre[p[k - 1]] == inp[p[k - 1]]);
        }
    }
    assert forall|a: int, b: int| 0 <= a < b < np.len() implies #[trigger] np[a]
        != #[trigger] np[b] by {
        if a != j && b != j {
            let pa = if a < j { a } else { a - 1 };
            let pb = if b < j { b } else { b - 1 };
            assert(np[a] == p[pa]);
            assert(np[b] == p[pb]);
            assert(p[pa] != p[pb]);
        } else if a == j {
            assert(np[b] == p[b - 1]);
        } else {
            assert(np[a] == p[a]);
        }
    }
    assert forall|a: int, b: int| 0 <= a < b < new_out.len() implies (
    #[trigger] new_out[a]).2 >= (#[trigger] new_out[b]).2 by {
        if a != j && b != j {
            let pa = if a < j { a } else { a - 1 };
            let pb = if b < j { b } else { b - 1 };
            assert(new_out[a] == old_out[pa]);
            assert(new_out[b] == old_out[pb]);
        } else if a == j {
            assert(new_out[b] == old_out[b - 1]);
        } else {
            assert(new_out[a] == old_out[a]);
        }
    }
    assert forall|a: int, b: int|
        0 <= a < b < new_out.len() && (#[trigger] new_out[a]).2 == (#[trigger] new_out[b]).2
        implies np[a] < np[b] by {
        if a != j && b != j {
            let pa = if a < j { a } else { a - 1 };
            let pb = if b < j { b } else { b - 1 };
            assert(new_out[a] == old_out[pa]);
            assert(new_out[b] == old_out[pb]);
            assert(np[a] == p[pa]);
            assert(np[b] == p[pb]);
        } else if a == j {
            assert(new_out[b] == old_out[b - 1]);
        } else {
            assert(new_out[a] == old_out[a]);
            assert(np[a] == p[a]);
        }
    }
}

/// The name of the category whose id is written `key`.
fn find_category_name(cats: &Vec<(u32, String)>, key: &str) -> (res: Option<String>)
    ensures
        match res {
            Some(n) => category_name(cats@.map_values(|c: (u32, String)| (c.0, c.1@)), key@)
                == Some(n@),
            None => category_name(cats@.map_values(|c: (u32, String)| (c.0, c.1@)), key@) is None,
        },
{
    let ghost all = cats@.map_values(|c: (u32, String)| (c.0, c.1@));
    let kc = chars_of(key);
    let mut i: usize = cats.len();
    assert(all.subrange(0, cats.len() as int) =~= all);
    while i > 0
        invariant
            0 <= i <= cats.len(),
            all == cats@.map_values(|c: (u32, String)| (c.0, c.1@)),
            kc@ == key@,
            category_name(all, key@) == category_name(all.subrange(0, i as int), key@),
        decreases i,
    {
        let id_text = u128_to_string(cats[i - 1].0 as u128);
        let ghost pre = all.subrange(0, i as int);
        assert(pre.last() == (cats@[i - 1].0, cats@[i - 1].1@));
        assert(pre.drop_last() =~= all.subrange(0, i - 1));
        if chars_equal(&kc, id_text.as_str()) {
            return Some(cats[i - 1].1.clone());
        }
        i = i - 1;
    }
    None
}

/// The categories with their market counts, most markets first (equal
/// counts in the order of `counts`). Each count entry's key is a category
/// id written in decimal; its name comes from `categories`.
pub fn join_category_counts(counts: &Vec<(String, u32)>, categories: &Vec<(u32, String)>) -> (res:
    Vec<CategoryWithCount>)
    ensures
        is_stable_desc_sort(
            counts@.map_values(
                |e: (String, u32)|
                    joined_entry(
                        categories@.map_values(|c: (u32, String)| (c.0, c.1@)),
                        e.0@,
                        e.1,
                    ),
            ),
            res@.map_values(|c: CategoryWithCount| cwc_view(c)),
        ),
{
    let ghost cats = categories@.map_values(|c: (u32, String)| (c.0, c.1@));
    let ghost input = counts@.map_values(|e: (String, u32)| joined_entry(cats, e.0@, e.1));
    let mut out: Vec<CategoryWithCount> = Vec::new();
    let ghost mut p: Seq<int> = Seq::empty();
    let mut i: usize = 0;
    while i < counts.len()
        invariant
            0 <= i <= counts.len(),
            cats == categories@.map_values(|c: (u32, String)| (c.0, c.1@)),
            input == counts@.map_values(|e: (String, u32)| joined_entry(cats, e.0@, e.1)),
            is_stable_desc_sort_by(
                input.subrange(0, i as int),
                out@.map_values(|c: CategoryWithCount| cwc_view(c)),
                p,
            ),
        decreases counts.len() - i,
    {
        let key = &counts[i].0;
        let count = counts[i].1;
        let id: u32 = match parse_u32(key.as_str()) {
            Some(v) => v,
            None => 0,
        };
        let name = match find_category_name(categories, key.as_str()) {
            Some(n) => n,
            None => {
                let mut u = string_of("Unknown (");
                u.append(key.as_str());
                u.append(")");
                u
            },
        };
        let entry = CategoryWithCount { id, name, count };
        assert(cwc_view(entry) == input[i as int]);
        let ghost old_out = out@.map_values(|c: CategoryWithCount| cwc_view(c));
        let mut j: usize = 0;
        while j < out.len() && out[j].count >= count
            invariant
                0 <= j <= out.len(),
                old_out == out@.map_values(|c: CategoryWithCount| cwc_view(c)),
                forall|k: int| 0 <= k < j ==> (#[trigger] old_out[k]).2 >= count,
            decreases out.len() - j,
        {
            j = j + 1;
        }
        proof {
            // all entries from j on count less than the new entry
            assert forall|k: int| j <= k < old_out.len() implies (#[trigger] old_out[k]).2 < count by {
                if j < old_out.len() {
                    assert(old_out[j as int].2 < count);
                    if k > j {
                        assert(old_out[j as int].2 >= old_out[k].2);
                    }
                }
            }
        }
        out.insert(j, entry);
        proof {
            let new_out = out@.map_values(|c: CategoryWithCount| cwc_view(c));
            assert(new_out =~= old_out.insert(j as int, input[i as int]));
            lemma_insert_keeps_stable_sort(input, i as int, old_out, p, j as int);
            p = p.insert(j as int, i as int);
        }
        i = i + 1;
    }
    assert(input.subrange(0, counts.len() as int) =~= input);
    out
}

/// The page (from 0) and page size that the markets list shows: the given
/// ones, else page 0 and 20 markets.
pub open spec fn page_or_first(page: Option<u32>) -> nat {
    match page {
        Some(p) => p as nat,
        None => 0,
    }
}

/// The page size of the markets list.
pub open spec fn limit_or_default(limit: Option<u32>) -> nat {
    match limit {
        Some(l) => l as nat,
        None => 20,
    }
}

/// Whether the pagination lines can be written (the command-line program
/// stops on other input): the page number plus one fits a `u32`, and where a total is
/// known the page size is positive and the total plus the page size fits a
/// `u32` (the rounded-up division adds them first).
pub open spec fn pagination_ok(page: Option<u32>, limit: Option<u32>, total: Option<u32>) -> bool {
    &&& page_or_first(page) + 1 <= u32::MAX
    &&& total matches Some(t) ==> limit_or_default(limit) > 0 && t + limit_or_default(limit)
        <= u32::MAX
}

/// The lines below the markets table: the page among the pages (the total
/// divided by the page size, rounded up) where the API gave a total, else
/// the count shown and the page; then, where there is a next page, the flag
/// that shows it.
pub open spec fn pagination_text(
    page: Option<u32>,
    limit: Option<u32>,
    total: Option<u32>,
    showing: nat,
    has_next: bool,
) -> Seq<Seq<char>> {
    let p = page_or_first(page);
    let first = match total {
        Some(t) => "\nPage "@ + nat_digits(p + 1) + " of "@ + nat_digits(
            ((t + limit_or_default(limit) - 1) / (limit_or_default(limit) as int)) as nat,
        ) + " ("@ + nat_digits(t as nat) + " markets total, showing "@ + nat_digits(showing) + ")"@,
        None => "\nShowing "@ + nat_digits(showing) + " markets (page "@ + nat_digits(p + 1) + ")"@,
    };
    if has_next {
        seq![first, "Next: --page "@ + nat_digits(p + 1)]
    } else {
        seq![first]
    }
}

/// The lines below the markets table.
pub fn pagination_lines(
    page: Option<u32>,
    limit: Option<u32>,
    total: Option<u32>,
    showing: usize,
    has_next: bool,
) -> (res: Vec<String>)
    requires
        pagination_ok(page, limit, total),
    ensures
        res@.map_values(|l: String| l@) == pagination_text(page, limit, total, showing as nat, has_next),
{
    let limit_val: u32 = match limit {
        Some(l) => l,
        None => 20,
    };
    let current: u32 = match page {
        Some(p) => p,
        None => 0,
    };
    let next_page = u128_to_string((current + 1) as u128);
    let first = match total {
        Some(t) => {
            let total_pages: u32 = (t + limit_val - 1) / limit_val;
            let mut l = string_of("\nPage ");
            l.append(next_page.as_str());
            l.append(" of ");
            l.append(u128_to_string(total_pages as u128).as_str());
            l.append(" (");
            l.append(u128_to_string(t as u128).as_str());
            l.append(" markets total, showing ");
            l.append(u128_to_string(showing as u128).as_str());
            l.append(")");
            l
        },
        None => {
            let mut l = string_of("\nShowing ");
            l.append(u128_to_string(showing as u128).as_str());
            l.append(" markets (page ");
            l.append(next_page.as_str());
            l.append(")");
            l
        },
    };
    let mut lines: Vec<String> = Vec::new();
    lines.push(first);
    if has_next {
        let mut n = string_of("Next: --page ");
        n.append(next_page.as_str());
        lines.push(n);
    }
    assert(lines@.map_values(|l: String| l@) =~= pagination_text(
        page,
        limit,
        total,
        showing as nat,
        has_next,
    ));
    lines
}

/// What the market detail view shows of a market: its fields, with the
/// volume, liquidity and deadline already written, and the two prices
/// written by the caller (the API sends them as floats).
#[derive(Clone, Debug)]
pub struct MarketDetail {
    pub slug: String,
    pub title: String,
    pub description: Option<String>,
    pub trade_type: Option<String>,
    pub market_type: Option<String>,
    pub status: Option<String>,
    pub volume: Option<String>,
    pub liquidity: Option<String>,
    pub yes_price: String,
    pub no_price: String,
    pub deadline: Option<String>,
    pub resolution_source: Option<String>,
    pub automation_type: Option<String>,
    pub venue: Option<Venue>,
    pub tokens: Option<MarketTokens>,
    pub collateral_token: Option<CollateralToken>,
    pub categories: Option<Vec<String>>,
    pub tags: Option<Vec<String>>,
    pub created_at: Option<String>,
    pub sub_markets: Option<Vec<String>>,
}

/// A row of the detail view: a label and a value.
pub type DetailRow = (Seq<char>, Seq<char>);

/// A row for an optional value, or none.
pub open spec fn opt_row(label: Seq<char>, v: Option<String>) -> Seq<DetailRow> {
    match v {
        Some(x) => seq![(label, x@)],
        None => seq![],
    }
}

/// Texts joined with a separator between them.
pub open spec fn joined(items: Seq<Seq<char>>, sep: Seq<char>) -> Seq<char>
    decreases items.len(),
{
    if items.len() == 0 {
        seq![]
    } else if items.len() == 1 {
        items[0]
    } else {
        joined(items.drop_last(), sep) + sep + items.last()
    }
}

/// The texts of a list of strings.
pub open spec fn texts(v: Seq<String>) -> Seq<Seq<char>> {
    v.map_values(|s: String| s@)
}

/// A row listing texts joined by ", ", where there is at least one.
pub open spec fn list_row(label: Seq<char>, v: Option<Vec<String>>) -> Seq<DetailRow> {
    match v {
        Some(items) => if items@.len() > 0 {
            seq![(label, joined(texts(items@), ", "@))]
        } else {
            seq![]
        },
        None => seq![],
    }
}

/// The rows of the sub-markets: one row ("  [i] title") per sub-market.
pub open spec fn sub_market_rows(titles: Seq<Seq<char>>) -> Seq<DetailRow>
    decreases titles.len(),
{
    if titles.len() == 0 {
        seq![]
    } else {
        sub_market_rows(titles.drop_last()) + seq![
            (
                ""@,
                "  ["@ + nat_digits((titles.len() - 1) as nat) + "] "@ + titles.last(),
            ),
        ]
    }
}

/// The identifying rows: slug, title, description, trade type, market type
/// and status.
pub open spec fn detail_rows_ident(d: MarketDetail) -> Seq<DetailRow> {
    seq![("Slug"@, d.slug@), ("Title"@, d.title@)] + match d.description {
        Some(t) => seq![("Description"@, description_text(t@))],
        None => seq![],
    } + opt_row("Trade Type"@, d.trade_type) + opt_row("Market Type"@, d.market_type) + opt_row(
        "Status"@,
        d.status,
    )
}

/// The trading rows: volume, liquidity, prices, deadline, resolution source
/// and automation.
pub open spec fn detail_rows_trading(d: MarketDetail) -> Seq<DetailRow> {
    (match d.volume {
        Some(v) => seq![("Volume"@, v@ + " USDC"@)],
        None => seq![],
    }) + opt_row("Liquidity"@, d.liquidity) + seq![
        ("YES Price"@, d.yes_price@),
        ("NO Price"@, d.no_price@),
    ] + opt_row("Deadline"@, d.deadline) + opt_row("Resolution"@, d.resolution_source) + opt_row(
        "Automation"@,
        d.automation_type,
    )
}

/// The contract rows: exchange and adapter, token ids and collateral.
pub open spec fn detail_rows_contracts(d: MarketDetail) -> Seq<DetailRow> {
    (match d.venue {
        Some(v) => seq![("Exchange"@, v.exchange@)] + opt_row("Adapter"@, v.adapter),
        None => seq![],
    }) + match d.tokens {
        Some(t) => opt_row("YES Token ID"@, t.yes) + opt_row("NO Token ID"@, t.no),
        None => seq![],
    } + match d.collateral_token {
        Some(c) => seq![("Collateral"@, c.symbol@ + " ("@ + c.address@ + ")"@)],
        None => seq![],
    }
}

/// The listing rows: categories, tags, creation and sub-markets.
pub open spec fn detail_rows_lists(d: MarketDetail) -> Seq<DetailRow> {
    list_row("Categories"@, d.categories) + list_row("Tags"@, d.tags) + opt_row(
        "Created"@,
        d.created_at,
    ) + match d.sub_markets {
        Some(subs) => seq![("Sub-Markets"@, nat_digits(subs@.len()))] + sub_market_rows(texts(subs@)),
        None => seq![],
    }
}

/// The rows of the market detail view, in order.
pub open spec fn detail_rows_spec(d: MarketDetail) -> Seq<DetailRow> {
    detail_rows_ident(d) + detail_rows_trading(d) + detail_rows_contracts(d) + detail_rows_lists(d)
}

/// The views of the rows.
pub open spec fn row_texts(rows: Seq<(String, String)>) -> Seq<DetailRow> {
    rows.map_values(|r: (String, String)| (r.0@, r.1@))
}

fn push_row(rows: &mut Vec<(String, String)>, label: &str, value: String)
    ensures
        row_texts(final(rows)@) == row_texts(old(rows)@) + seq![(label@, value@)],
{
    let ghost before = rows@;
    rows.push((string_of(label), value));
    assert(row_texts(rows@) =~= row_texts(before) + seq![(label@, value@)]);
}

fn push_opt_row(rows: &mut Vec<(String, String)>, label: &str, value: &Option<String>)
    ensures
        row_texts(final(rows)@) == row_texts(old(rows)@) + opt_row(label@, *value),
{
    match value {
        Some(v) => push_row(rows, label, v.clone()),
        None => {
            assert(row_texts(rows@) =~= row_texts(rows@) + opt_row(label@, *value));
        },
    }
}

/// Texts joined by ", ".
fn join_texts(items: &Vec<String>) -> (res: String)
    ensures
        res@ == joined(texts(items@), ", "@),
{
    let mut out = string_of("");
    proof {
        reveal_strlit("");
    }
    let mut i: usize = 0;
    while i < items.len()
        invariant
            0 <= i <= items.len(),
            out@ == joined(texts(items@.subrange(0, i as int)), ", "@),
        decreases items.len() - i,
    {
        let ghost sub = items@.subrange(0, i + 1);
        assert(texts(sub).drop_last() =~= texts(items@.subrange(0, i as int)));
        assert(texts(sub).last() == items@[i as int]@);
        if i > 0 {
            out.append(", ");
        }
        out.append(items[i].as_str());
        proof {
            if i == 0 {
                assert(texts(sub) =~= seq![items@[0]@]);
            }
        }
        i = i + 1;
    }
    assert(items@.subrange(0, items@.len() as int) =~= items@);
    out
}

fn push_list_row(rows: &mut Vec<(String, String)>, label: &str, value: &Option<Vec<String>>)
    ensures
        row_texts(final(rows)@) == row_texts(old(rows)@) + list_row(label@, *value),
{
    match value {
        Some(items) => {
            if items.len() > 0 {
                push_row(rows, label, join_texts(items));
            } else {
                assert(row_texts(rows@) =~= row_texts(rows@) + list_row(label@, *value));
            }
        },
        None => {
            assert(row_texts(rows@) =~= row_texts(rows@) + list_row(label@, *value));
        },
    }
}

fn push_sub_market_rows(rows: &mut Vec<(String, String)>, subs: &Vec<String>)
    ensures
        row_texts(final(rows)@) == row_texts(old(rows)@) + sub_market_rows(texts(subs@)),
{
    let ghost start = row_texts(rows@);
    let mut i: usize = 0;
    assert(texts(subs@.subrange(0, 0)) =~= Seq::<Seq<char>>::empty());
    assert(row_texts(rows@) =~= start + sub_market_rows(texts(subs@.subrange(0, 0))));
    while i < subs.len()
        invariant
            0 <= i <= subs.len(),
            row_texts(rows@) == start + sub_market_rows(texts(subs@.subrange(0, i as int))),
        decreases subs.len() - i,
    {
        let ghost sub = texts(subs@.subrange(0, i + 1));
        assert(sub.drop_last() =~= texts(subs@.subrange(0, i as int)));
        assert(sub.last() == subs@[i as int]@);
        let mut line = string_of("  [");
        line.append(u128_to_string(i as u128).as_str());
        line.append("] ");
        line.append(subs[i].as_str());
        push_row(rows, "", line);
        proof {
            reveal_strlit("");
        }
        i = i + 1;
        assert(row_texts(rows@) =~= start + sub_market_rows(texts(subs@.subrange(0, i as int))));
    }
    assert(subs@.subrange(0, subs@.len() as int) =~= subs@);
}

fn push_ident_rows(d: &MarketDetail, rows: &mut Vec<(String, String)>)
    ensures
        row_texts(final(rows)@) == row_texts(old(rows)@) + detail_rows_ident(*d),
{
    let ghost start = row_texts(rows@);
    push_row(rows, "Slug", d.slug.clone());
    push_row(rows, "Title", d.title.clone());
    let ghost a = row_texts(rows@);
    match &d.description {
        Some(t) => push_row(rows, "Description", clean_description(t.as_str())),
        None => {},
    }
    assert(row_texts(rows@) =~= a + match d.description {
        Some(t) => seq![("Description"@, description_text(t@))],
        None => seq![],
    });
    push_opt_row(rows, "Trade Type", &d.trade_type);
    push_opt_row(rows, "Market Type", &d.market_type);
    push_opt_row(rows, "Status", &d.status);
    assert(row_texts(rows@) =~= start + detail_rows_ident(*d));
}

fn push_trading_rows(d: &MarketDetail, rows: &mut Vec<(String, String)>)
    ensures
        row_texts(final(rows)@) == row_texts(old(rows)@) + detail_rows_trading(*d),
{
    let ghost start = row_texts(rows@);
    match &d.volume {
        Some(v) => {
            let mut t = v.clone();
            t.append(" USDC");
            push_row(rows, "Volume", t);
        },
        None => {},
    }
    assert(row_texts(rows@) =~= start + match d.volume {
        Some(v) => seq![("Volume"@, v@ + " USDC"@)],
        None => seq![],
    });
    push_opt_row(rows, "Liquidity", &d.liquidity);
    push_row(rows, "YES Price", d.yes_price.clone());
    push_row(rows, "NO Price", d.no_price.clone());
    push_opt_row(rows, "Deadline", &d.deadline);
    push_opt_row(rows, "Resolution", &d.resolution_source);
    push_opt_row(rows, "Automation", &d.automation_type);
    assert(row_texts(rows@) =~= start + detail_rows_trading(*d));
}

fn push_contract_rows(d: &MarketDetail, rows: &mut Vec<(String, String)>)
    ensures
        row_texts(final(rows)@) == row_texts(old(rows)@) + detail_rows_contracts(*d),
{
    let ghost start = row_texts(rows@);
    match &d.venue {
        Some(v) => {
            push_row(rows, "Exchange", v.exchange.clone());
            push_opt_row(rows, "Adapter", &v.adapter);
        },
        None => {},
    }
    let ghost c = row_texts(rows@);
    assert(c =~= start + match d.venue {
        Some(v) => seq![("Exchange"@, v.exchange@)] + opt_row("Adapter"@, v.adapter),
        None => seq![],
    });
    match &d.tokens {
        Some(t) => {
            push_opt_row(rows, "YES Token ID", &t.yes);
            push_opt_row(rows, "NO Token ID", &t.no);
        },
        None => {},
    }
    let ghost e = row_texts(rows@);
    assert(e =~= c + match d.tokens {
        Some(t) => opt_row("YES Token ID"@, t.yes) + opt_row("NO Token ID"@, t.no),
        None => seq![],
    });
    match &d.collateral_token {
        Some(ct) => {
            let mut t = ct.symbol.clone();
            t.append(" (");
            t.append(ct.address.as_str());
            t.append(")");
            push_row(rows, "Collateral", t);
        },
        None => {},
    }
    assert(row_texts(rows@) =~= e + match d.collateral_token {
        Some(c) => seq![("Collateral"@, c.symbol@ + " ("@ + c.address@ + ")"@)],
        None => seq![],
    });
    assert(row_texts(rows@) =~= start + detail_rows_contracts(*d));
}

fn push_list_rows(d: &MarketDetail, rows: &mut Vec<(String, String)>)
    ensures
        row_texts(final(rows)@) == row_texts(old(rows)@) + detail_rows_lists(*d),
{
    let ghost start = row_texts(rows@);
    push_list_row(rows, "Categories", &d.categories);
    push_list_row(rows, "Tags", &d.tags);
    push_opt_row(rows, "Created", &d.created_at);
    let ghost h = row_texts(rows@);
    match &d.sub_markets {
        Some(subs) => {
            push_row(rows, "Sub-Markets", u128_to_string(subs.len() as u128));
            push_sub_market_rows(rows, subs);
        },
        None => {},
    }
    assert(row_texts(rows@) =~= h + match d.sub_markets {
        Some(subs) => seq![("Sub-Markets"@, nat_digits(subs@.len()))] + sub_market_rows(texts(subs@)),
        None => seq![],
    });
    assert(row_texts(rows@) =~= start + detail_rows_lists(*d));
}

/// The rows of the market detail view: slug and title, then each field that
/// the market has, in a fixed order, with the prices always shown and the
/// sub-markets of a group listed one per row.
pub fn market_detail_rows(d: &MarketDetail) -> (res: Vec<(String, String)>)
    ensures
        row_texts(res@) == detail_rows_spec(*d),
{
    let mut rows: Vec<(String, String)> = Vec::new();
    assert(row_texts(rows@) =~= Seq::<DetailRow>::empty());
    push_ident_rows(d, &mut rows);
    push_trading_rows(d, &mut rows);
    push_contract_rows(d, &mut rows);
    push_list_rows(d, &mut rows);
    assert(row_texts(rows@) =~= detail_rows_spec(*d));
    rows
}

/// A market's detail rows show each token id it has under its own label:
/// the YES token's id in the "YES Token ID" row and the NO token's id in
/// the "NO Token ID" row.
pub proof fn law_detail_rows_show_each_token(d: MarketDetail)
    ensures
        match d.tokens {
            Some(t) => match t.yes {
                Some(y) => detail_rows_spec(d).contains(("YES Token ID"@, y@)),
                None => true,
            },
            None => true,
        },
        match d.tokens {
            Some(t) => match t.no {
                Some(n) => detail_rows_spec(d).contains(("NO Token ID"@, n@)),
                None => true,
            },
            None => true,
        },
{
    match d.tokens {
        Some(t) => {
            let before = detail_rows_ident(d) + detail_rows_trading(d);
            let v = match d.venue {
                Some(v) => seq![("Exchange"@, v.exchange@)] + opt_row("Adapter"@, v.adapter),
                None => seq![],
            };
            let tk = opt_row("YES Token ID"@, t.yes) + opt_row("NO Token ID"@, t.no);
            let col = match d.collateral_token {
                Some(c) => seq![("Collateral"@, c.symbol@ + " ("@ + c.address@ + ")"@)],
                None => seq![],
            };
            let rows = detail_rows_spec(d);
            assert(detail_rows_contracts(d) == v + tk + col);
            assert(rows == before + (v + tk + col) + detail_rows_lists(d));
            let base: int = (before.len() + v.len()) as int;
            match t.yes {
                Some(y) => {
                    assert(tk[0] == ("YES Token ID"@, y@));
                    assert(rows[base] == ("YES Token ID"@, y@));
                },
                None => {},
            }
            match t.no {
                Some(n) => {
                    let k: int = opt_row("YES Token ID"@, t.yes).len() as int;
                    assert(tk[k] == ("NO Token ID"@, n@));
                    assert(rows[base + k] == ("NO Token ID"@, n@));
                },
                None => {},
            }
        },
        None => {},
    }
}

} // verus!
