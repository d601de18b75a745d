//! Key handling of the wallet and setup commands, and which approvals a
//! market's venue needs.

use vstd::prelude::*;
use vstd::string::StringSliceAdditionalSpecFns;
use crate::chars::{chars_equal, chars_of, string_of};
use crate::config::ZERO_ADDRESS;
use crate::markets::Venue;

verus! {

/// Whether text starts with "0x".
pub open spec fn has_0x(t: Seq<char>) -> bool {
    t.len() >= 2 && t[0] == '0' && t[1] == 'x'
}

/// The text under which an imported key is stored: as given where it starts
/// with "0x", else with "0x" put before it.
pub open spec fn stored_key(key: Seq<char>) -> Seq<char> {
    if has_0x(key) {
        key
    } else {
        seq!['0', 'x'] + key
    }
}

/// Whether the characters start with "0x".
fn starts_0x(cs: &Vec<char>) -> (res: bool)
    ensures
        res == has_0x(cs@),
{
    cs.len() >= 2 && cs[0] == '0' && cs[1] == 'x'
}

/// The text under which an imported key is stored.
pub fn stored_key_text(key: &str) -> (res: String)
    ensures
        res@ == stored_key(key@),
{
    let cs = chars_of(key);
    proof {
        reveal_strlit("0x");
    }
    if starts_0x(&cs) {
        string_of(key)
    } else {
        let mut out = string_of("0x");
        out.append(key);
        assert(out@ =~= seq!['0', 'x'] + key@);
        out
    }
}

/// Whether a key entered in the setup wizard has the expected form: "0x"
/// and 64 more characters (66 bytes); other keys are saved only after a
/// confirmation.
pub fn key_format_ok(pk: &str) -> (res: bool)
    ensures
        res == (has_0x(pk@) && pk.spec_bytes().len() == 66),
{
    let cs = chars_of(pk);
    let n = pk.as_bytes().len();
    starts_0x(&cs) && n == 66
}

/// Whether a venue's adapter needs its own approval: it is set, not empty,
/// and not the zero address.
pub open spec fn adapter_needs_approval_spec(adapter: Option<String>) -> bool {
    match adapter {
        Some(a) => a@.len() > 0 && a@ != ZERO_ADDRESS@,
        None => false,
    }
}

/// Whether a venue's adapter needs its own approval.
pub fn adapter_needs_approval(venue: &Venue) -> (res: bool)
    ensures
        res == adapter_needs_approval_spec(venue.adapter),
{
    match &venue.adapter {
        Some(a) => {
            let cs = chars_of(a.as_str());
            cs.len() > 0 && !chars_equal(&cs, ZERO_ADDRESS)
        },
        None => false,
    }
}

} // verus!
