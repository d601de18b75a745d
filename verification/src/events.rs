//! The rows of the market events table.

use vstd::prelude::*;
use crate::chars::string_of;
use crate::numtext::{nat_digits, u128_to_string};
use crate::profiles::{event_trader, trader_name, EventProfile};
use crate::text::{can_short_address, short_address, truncate_address};
use crate::timefmt::{cut_19_ok, event_time_text, format_event_time};
use crate::usdc::{format_raw_usdc, raw_plain_usdc_text};

verus! {

/// A market event as the events table reads it: side (0 buy, 1 sell), raw
/// matched size and taker amount, the trader and the time. The price, a
/// float, is the table's own.
#[derive(Clone, Debug)]
pub struct EventEntry {
    pub side: Option<u64>,
    pub matched_size: Option<String>,
    pub taker_amount: Option<String>,
    pub profile: Option<EventProfile>,
    pub created_at: Option<String>,
}

/// The side column of an event, which the table colours.
#[derive(Clone, Copy, Debug, PartialEq, Eq, Structural)]
pub enum EventSide {
    Buy,
    Sell,
    Unknown,
}

/// A row of the events table (without its price).
#[derive(Clone, Debug)]
pub struct EventRow {
    pub side: EventSide,
    pub size: String,
    pub cost: String,
    pub trader: String,
    pub time: String,
}

/// The side of an event: 0 is a buy, 1 a sell, anything else unknown.
pub open spec fn event_side_of(side: Option<u64>) -> EventSide {
    match side {
        Some(s) => if s == 0 {
            EventSide::Buy
        } else if s == 1 {
            EventSide::Sell
        } else {
            EventSide::Unknown
        },
        None => EventSide::Unknown,
    }
}

/// A raw amount of an event as the table shows it, or a dash.
pub open spec fn event_amount_text(a: Option<String>) -> Seq<char> {
    match a {
        Some(t) => raw_plain_usdc_text(t@),
        None => "-"@,
    }
}

/// The row of an event: its side, size and cost with two decimals, the
/// trader's name (an address shortened) and the time.
pub open spec fn event_row_ok(e: EventEntry, r: EventRow) -> bool {
    &&& r.side == event_side_of(e.side)
    &&& r.size@ == event_amount_text(e.matched_size)
    &&& r.cost@ == event_amount_text(e.taker_amount)
    &&& r.trader@ == match trader_name(e.profile) {
        Some(n) => short_address(n),
        None => "-"@,
    }
    &&& r.time@ == match e.created_at {
        Some(t) => event_time_text(t@),
        None => "-"@,
    }
}

/// What the events table needs of an event (the command-line program stops on other input).
pub open spec fn event_entry_ok(e: EventEntry) -> bool {
    &&& match trader_name(e.profile) {
        Some(n) => can_short_address(n),
        None => true,
    }
    &&& match e.created_at {
        Some(t) => cut_19_ok(t@),
        None => true,
    }
}

fn event_amount_exec(a: &Option<String>) -> (res: String)
    ensures
        res@ == event_amount_text(*a),
{
    match a {
        Some(t) => format_raw_usdc(t.as_str()),
        None => string_of("-"),
    }
}

/// The rows of the events table, one per event in order.
pub fn event_rows(events: &Vec<EventEntry>) -> (res: Vec<EventRow>)
    requires
        forall|i: int| 0 <= i < events@.len() ==> event_entry_ok(#[trigger] events@[i]),
    ensures
        res@.len() == events@.len(),
        forall|i: int| 0 <= i < events@.len() ==> event_row_ok(events@[i], #[trigger] res@[i]),
{
    let mut out: Vec<EventRow> = Vec::new();
    let mut i: usize = 0;
    while i < events.len()
        invariant
            0 <= i <= events.len(),
            out@.len() == i,
            forall|k: int| 0 <= k < events@.len() ==> event_entry_ok(#[trigger] events@[k]),
            forall|k: int| 0 <= k < i ==> event_row_ok(events@[k], #[trigger] out@[k]),
        decreases events.len() - i,
    {
        let e = &events[i];
        assert(event_entry_ok(events@[i as int]));
        let side = match e.side {
            Some(0) => EventSide::Buy,
            Some(1) => EventSide::Sell,
            _ => EventSide::Unknown,
        };
        let trader = match event_trader(&e.profile) {
            Some(n) => truncate_address(n.as_str()),
            None => string_of("-"),
        };
        let time = match &e.created_at {
            Some(t) => format_event_time(t.as_str()),
            None => string_of("-"),
        };
        let row = EventRow {
            side,
            size: event_amount_exec(&e.matched_size),
            cost: event_amount_exec(&e.taker_amount),
            trader,
            time,
        };
        out.push(row);
        i = i + 1;
    }
    out
}

/// The line above the events table: "N events (page P of T, R total):"
/// where the API gave the page, the page count and the row count, else
/// "N events:".
pub open spec fn events_header_text(
    shown: nat,
    page: Option<u32>,
    total_pages: Option<u32>,
    total_rows: Option<u32>,
) -> Seq<char> {
    match (page, total_pages, total_rows) {
        (Some(p), Some(tp), Some(tr)) => nat_digits(shown) + " events (page "@ + nat_digits(p as nat)
            + " of "@ + nat_digits(tp as nat) + ", "@ + nat_digits(tr as nat) + " total):"@,
        _ => nat_digits(shown) + " events:"@,
    }
}

/// The line above the events table.
pub fn events_header(shown: usize, page: Option<u32>, total_pages: Option<u32>, total_rows: Option<u32>) -> (res:
    String)
    ensures
        res@ == events_header_text(shown as nat, page, total_pages, total_rows),
{
    let mut out = u128_to_string(shown as u128);
    match (page, total_pages, total_rows) {
        (Some(p), Some(tp), Some(tr)) => {
            out.append(" events (page ");
            out.append(u128_to_string(p as u128).as_str());
            out.append(" of ");
            out.append(u128_to_string(tp as u128).as_str());
            out.append(", ");
            out.append(u128_to_string(tr as u128).as_str());
            out.append(" total):");
        },
        _ => {
            out.append(" events:");
        },
    }
    out
}

} // verus!
