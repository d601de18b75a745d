//! The commands of the client, as data: what each subcommand carries.

use vstd::prelude::*;
use crate::chars::string_of;
use crate::decimal::DecimalValue;

verus! {

/// How results are printed.
#[derive(Clone, Copy, Debug, PartialEq, Eq, Structural)]
pub enum OutputFormat {
    Table,
    Json,
}

impl OutputFormat {
    /// The name of the format, as the `--output` flag takes it.
    pub open spec fn spec_name(self) -> Seq<char> {
        match self {
            OutputFormat::Table => "table"@,
            OutputFormat::Json => "json"@,
        }
    }

    /// The name of the format, as the `--output` flag takes it.
    pub fn name(&self) -> (res: String)
        ensures
            res@ == self.spec_name(),
    {
        match self {
            OutputFormat::Table => string_of("table"),
            OutputFormat::Json => string_of("json"),
        }
    }
}

/// The orders in which markets can be listed.
#[derive(Clone, Copy, Debug, PartialEq, Eq, Structural)]
pub enum SortBy {
    EndingSoon,
    HighValue,
    LpRewards,
    Newest,
    Trending,
}

impl SortBy {
    /// The order as the API names it.
    pub open spec fn spec_name(self) -> Seq<char> {
        match self {
            SortBy::EndingSoon => "ending_soon"@,
            SortBy::HighValue => "high_value"@,
            SortBy::LpRewards => "lp_rewards"@,
            SortBy::Newest => "newest"@,
            SortBy::Trending => "trending"@,
        }
    }

    /// The order as the API names it.
    pub fn name(&self) -> (res: String)
        ensures
            res@ == self.spec_name(),
    {
        match self {
            SortBy::EndingSoon => string_of("ending_soon"),
            SortBy::HighValue => string_of("high_value"),
            SortBy::LpRewards => string_of("lp_rewards"),
            SortBy::Newest => string_of("newest"),
            SortBy::Trending => string_of("trending"),
        }
    }
}

/// `markets`: browse and search markets.
#[derive(Clone, Debug)]
pub enum MarketsCommand {
    List {
        page: Option<u32>,
        limit: Option<u32>,
        sort_by: Option<SortBy>,
        trade_type: Option<String>,
        category: Option<String>,
    },
    Get { slug: String },
    Search { query: String, limit: Option<u32> },
    Slugs,
    Categories,
}

/// `orderbook`: books, prices and spreads of a market.
#[derive(Clone, Debug)]
pub enum OrderbookCommand {
    Book { slug: String },
    Price { slug: String },
    Midpoint { slug: String },
    Spread { slug: String },
    LastTrade { slug: String },
    History {
        slug: String,
        from: Option<String>,
        to: Option<String>,
        interval: Option<String>,
    },
    Events { slug: String, page: Option<u32>, limit: Option<u32> },
    Monitor { slug: String },
}

/// `trading`: place and manage orders.
#[derive(Clone, Debug)]
pub enum TradingCommand {
    Create {
        slug: String,
        side: String,
        outcome: String,
        price: Option<DecimalValue>,
        size: DecimalValue,
        order_type: String,
        nonce: u64,
    },
    Orders { slug: String, status: Option<Vec<String>>, limit: Option<u32> },
    LockedBalance { slug: String },
    Cancel { order_id: String },
    CancelBatch { order_ids: Vec<String> },
    CancelAll { slug: String },
}

/// `portfolio`: the key's positions, trades and PnL.
#[derive(Clone, Debug)]
pub enum PortfolioCommand {
    Positions { status: String },
    Trades,
    Pnl { timeframe: Option<String> },
    History { page: Option<u32>, limit: Option<u32> },
    Points,
    Allowance { trading_type: Option<String>, spender: Option<String> },
}

/// `profiles`: public data of any address.
#[derive(Clone, Debug)]
pub enum ProfilesCommand {
    Positions { address: String },
    Volume { address: String },
    Pnl { address: String, timeframe: Option<String> },
}

/// `approve`: token approvals for a market's exchange.
#[derive(Clone, Debug)]
pub enum ApproveCommand {
    Check { slug: String },
    SetApprovals { slug: String },
}

/// `wallet`: key management.
#[derive(Clone, Debug)]
pub enum WalletCommand {
    Create,
    Import { private_key: String },
    Show,
    Address,
    Reset,
}

/// The top-level commands.
#[derive(Clone, Debug)]
pub enum Commands {
    Markets { command: MarketsCommand },
    Orderbook { command: OrderbookCommand },
    Trading { command: TradingCommand },
    Portfolio { command: PortfolioCommand },
    Profiles { command: ProfilesCommand },
    Approve { command: ApproveCommand },
    Wallet { command: WalletCommand },
    Shell,
    Setup,
}

/// A command line: the output format, the credentials given as flags, and
/// the command.
#[derive(Clone, Debug)]
pub struct Cli {
    pub output: OutputFormat,
    pub api_key: Option<String>,
    pub private_key: Option<String>,
    pub command: Option<Commands>,
}

} // verus!
