//! The client's configuration, its defaults and where it is kept.

use vstd::prelude::*;
use crate::chars::{chars_of, string_of};
use crate::signing::CHAIN_ID;

verus! {

/// The JSON-RPC endpoint of Base.
pub const DEFAULT_RPC_URL: &'static str = "https://mainnet.base.org";

/// The exchange's REST API.
pub const API_BASE_URL: &'static str = "https://api.limitless.exchange";

/// The exchange's WebSocket endpoint.
pub const WS_URL: &'static str = "wss://ws.limitless.exchange";

/// The USDC token on Base.
pub const USDC_ADDRESS: &'static str = "0x833589fCD6eDb6E08f4c7C32D4f71b54bdA02913";

/// The Conditional Tokens contract on Base.
pub const CT_ADDRESS: &'static str = "0xC9c98965297Bc527861c898329Ee280632B76e18";

/// The zero address.
pub const ZERO_ADDRESS: &'static str = "0x0000000000000000000000000000000000000000";

/// The stored configuration: credentials and endpoints.
#[derive(Clone, Debug)]
pub struct Config {
    pub api_key: Option<String>,
    pub private_key: Option<String>,
    pub chain_id: u64,
    pub rpc_url: String,
    pub api_url: String,
    pub ws_url: String,
}

/// The chain id of a configuration that names none.
pub fn default_chain_id() -> (res: u64)
    ensures
        res == CHAIN_ID,
{
    CHAIN_ID
}

/// The RPC endpoint of a configuration that names none.
pub fn default_rpc_url() -> (res: String)
    ensures
        res@ == DEFAULT_RPC_URL@,
{
    string_of(DEFAULT_RPC_URL)
}

/// The API endpoint of a configuration that names none.
pub fn default_api_url() -> (res: String)
    ensures
        res@ == API_BASE_URL@,
{
    string_of(API_BASE_URL)
}

/// The WebSocket endpoint of a configuration that names none.
pub fn default_ws_url() -> (res: String)
    ensures
        res@ == WS_URL@,
{
    string_of(WS_URL)
}

impl Config {
    /// No credentials, and the default chain and endpoints.
    pub open spec fn is_default(self) -> bool {
        &&& self.api_key is None
        &&& self.private_key is None
        &&& self.chain_id == CHAIN_ID
        &&& self.rpc_url@ == DEFAULT_RPC_URL@
        &&& self.api_url@ == API_BASE_URL@
        &&& self.ws_url@ == WS_URL@
    }
}

impl Default for Config {
    fn default() -> (res: Config)
        ensures
            res.is_default(),
    {
        Config {
            api_key: None,
            private_key: None,
            chain_id: default_chain_id(),
            rpc_url: default_rpc_url(),
            api_url: default_api_url(),
            ws_url: default_ws_url(),
        }
    }
}

/// A path with one more component, as `PathBuf::join` writes it on Unix for
/// a relative component: a '/' between the two unless the base is empty or
/// already ends in '/'.
pub open spec fn join_path(base: Seq<char>, name: Seq<char>) -> Seq<char> {
    if base.len() == 0 {
        name
    } else if base.last() == '/' {
        base + name
    } else {
        base + seq!['/'] + name
    }
}

/// Appends a relative component to a path.
fn join(base: &str, name: &str) -> (res: String)
    ensures
        res@ == join_path(base@, name@),
{
    let cs = chars_of(base);
    let mut out = string_of(base);
    if cs.len() > 0 && cs[cs.len() - 1] != '/' {
        out.append("/");
        proof {
            reveal_strlit("/");
        }
    }
    out.append(name);
    assert(out@ =~= join_path(base@, name@));
    out
}

/// The client's configuration directory: "limitless" in the user's
/// configuration directory, or in the current directory where there is none.
pub fn config_dir(user_config_dir: Option<&str>) -> (res: String)
    ensures
        user_config_dir matches Some(d) ==> res@ == join_path(d@, "limitless"@),
        user_config_dir is None ==> res@ == join_path("."@, "limitless"@),
{
    match user_config_dir {
        Some(d) => join(d, "limitless"),
        None => join(".", "limitless"),
    }
}

/// The configuration file, "config.json" in the configuration directory.
pub fn config_path(config_dir: &str) -> (res: String)
    ensures
        res@ == join_path(config_dir@, "config.json"@),
{
    join(config_dir, "config.json")
}

} // verus!
