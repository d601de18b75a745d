//! The decisions of the live orderbook monitor's event loop: which keys
//! quit it, and how feed notices change the connection status line.

use vstd::prelude::*;
use crate::chars::string_of;

verus! {

/// A key press, as far as the monitor tells keys apart.
#[derive(Clone, Copy, Debug, PartialEq, Eq, Structural)]
pub enum KeyPress {
    Char(char),
    Esc,
    Other,
}

/// Whether a key press ends the monitor: 'q', Esc, or Ctrl+C.
pub open spec fn quits(key: KeyPress, control: bool) -> bool {
    match key {
        KeyPress::Char(c) => c == 'q' || (c == 'c' && control),
        KeyPress::Esc => true,
        KeyPress::Other => false,
    }
}

/// Whether a key press ends the monitor.
pub fn key_quits(key: KeyPress, control: bool) -> (res: bool)
    ensures
        res == quits(key, control),
{
    match key {
        KeyPress::Char(c) => c == 'q' || (c == 'c' && control),
        KeyPress::Esc => true,
        KeyPress::Other => false,
    }
}

/// What the feed reports to the monitor, besides book updates.
#[derive(Clone, Debug)]
pub enum FeedNotice {
    Connected,
    Disconnected(String),
    Error(String),
}

/// Whether the feed is connected, and the status line.
#[derive(Clone, Debug)]
pub struct LinkStatus {
    pub connected: bool,
    pub message: String,
}

/// The status after a notice: connected with "Connected"; disconnected
/// with "Disconnected: " and the reason; an error keeps the connection flag
/// and shows "Error: " and the error.
pub open spec fn status_after(connected: bool, notice: FeedNotice) -> (bool, Seq<char>) {
    match notice {
        FeedNotice::Connected => (true, "Connected"@),
        FeedNotice::Disconnected(r) => (false, "Disconnected: "@ + r@),
        FeedNotice::Error(e) => (connected, "Error: "@ + e@),
    }
}

/// The status after a notice.
pub fn apply_notice(status: LinkStatus, notice: FeedNotice) -> (res: LinkStatus)
    ensures
        (res.connected, res.message@) == status_after(status.connected, notice),
{
    match notice {
        FeedNotice::Connected => LinkStatus { connected: true, message: string_of("Connected") },
        FeedNotice::Disconnected(r) => {
            let mut m = string_of("Disconnected: ");
            m.append(r.as_str());
            LinkStatus { connected: false, message: m }
        },
        FeedNotice::Error(e) => {
            let mut m = string_of("Error: ");
            m.append(e.as_str());
            LinkStatus { connected: status.connected, message: m }
        },
    }
}

/// The status before the feed has reported anything.
pub fn initial_status() -> (res: LinkStatus)
    ensures
        !res.connected,
        res.message@ == "Connecting..."@,
{
    LinkStatus { connected: false, message: string_of("Connecting...") }
}

/// How many levels each side of the book shows in a panel of this height:
/// the height less the two borders and the header row (none below that).
pub fn max_orderbook_rows(height: u16) -> (res: usize)
    ensures
        res == if height >= 3 {
            height - 3
        } else {
            0
        },
{
    if height >= 3 {
        (height - 3) as usize
    } else {
        0
    }
}

} // verus!
