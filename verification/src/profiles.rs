//! Public profiles of traders.

use vstd::prelude::*;

verus! {

/// A trader's public profile; its id is the owner id of the trader's orders.
#[derive(Clone, Debug)]
pub struct Profile {
    pub id: u64,
    pub account: Option<String>,
    pub display_name: Option<String>,
    pub username: Option<String>,
    pub rank: Option<ProfileRank>,
}

/// A trader's rank, with the fee rate that it grants.
#[derive(Clone, Copy, Debug)]
pub struct ProfileRank {
    pub fee_rate_bps: Option<u64>,
}

/// The trader behind a market event.
#[derive(Clone, Debug)]
pub struct EventProfile {
    pub account: Option<String>,
    pub display_name: Option<String>,
    pub username: Option<String>,
}

/// The fee rate that orders carry when the profile states none.
pub const DEFAULT_FEE_RATE_BPS: u64 = 300;

/// The fee rate of a profile's orders in basis points: its rank's rate, or
/// 300 where the profile has no rank or the rank no rate.
pub open spec fn fee_rate_of(p: Profile) -> u64 {
    match p.rank {
        Some(r) => match r.fee_rate_bps {
            Some(f) => f,
            None => DEFAULT_FEE_RATE_BPS,
        },
        None => DEFAULT_FEE_RATE_BPS,
    }
}

/// The fee rate of a profile's orders in basis points.
pub fn fee_rate_bps(p: &Profile) -> (res: u64)
    ensures
        res == fee_rate_of(*p),
{
    match &p.rank {
        Some(r) => match r.fee_rate_bps {
            Some(f) => f,
            None => DEFAULT_FEE_RATE_BPS,
        },
        None => DEFAULT_FEE_RATE_BPS,
    }
}

/// The name under which an event's trader is shown: the username, else the
/// display name, else the account.
pub open spec fn trader_name(p: Option<EventProfile>) -> Option<Seq<char>> {
    match p {
        Some(q) => match q.username {
            Some(u) => Some(u@),
            None => match q.display_name {
                Some(d) => Some(d@),
                None => match q.account {
                    Some(a) => Some(a@),
                    None => None,
                },
            },
        },
        None => None,
    }
}

/// The name under which an event's trader is shown.
pub fn event_trader(p: &Option<EventProfile>) -> (res: Option<String>)
    ensures
        match res {
            Some(s) => trader_name(*p) == Some(s@),
            None => trader_name(*p) is None,
        },
{
    match p {
        Some(q) => match &q.username {
            Some(u) => Some(u.clone()),
            None => match &q.display_name {
                Some(d) => Some(d.clone()),
                None => match &q.account {
                    Some(a) => Some(a.clone()),
                    None => None,
                },
            },
        },
        None => None,
    }
}

} // verus!
