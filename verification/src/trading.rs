//! Placing an order: the checks on the request, the key, the market's token
//! and venue, and the payload that carries the signed order.

use vstd::prelude::*;
use crate::chars::{chars_equal, chars_of, string_from_chars, string_of, to_uppercase, unicode_uppercase};
use crate::decimal::DecimalValue;
use crate::markets::{MarketTokens, Venue};
use crate::numtext::{nat_digits, u128_to_string};
use crate::decimal::product_of;
use crate::order::{
    build_fok_order,
    build_gtc_order_checked,
    fok_maker_amount_checked,
    fok_maker_amount_outcome,
    gtc_inputs_valid,
    gtc_order_outcome,
    gtc_products_defined,
    order_fields_match,
    usdc_scale,
    Order,
    OrderError,
    Outcome,
    Side,
};
use crate::signing::{
    address_of_key,
    address_to_hex,
    checksum_text,
    hex_decode,
    hex_decode_spec,
    hex_encode,
    hex_lower,
    key_address,
};

verus! {

/// How an order executes.
#[derive(Clone, Copy, Debug, PartialEq, Eq, Structural)]
pub enum OrderType {
    /// Good till cancelled: a limit order that rests on the book.
    Gtc,
    /// Fill or kill: a market order that fills at once or not at all.
    Fok,
}

impl OrderType {
    /// The order type as the API names it.
    pub open spec fn spec_name(self) -> Seq<char> {
        match self {
            OrderType::Gtc => "GTC"@,
            OrderType::Fok => "FOK"@,
        }
    }

    /// The order type as the API names it.
    pub fn name(&self) -> (res: String)
        ensures
            res@ == self.spec_name(),
    {
        match self {
            OrderType::Gtc => string_of("GTC"),
            OrderType::Fok => string_of("FOK"),
        }
    }
}

/// Why an order request could not be turned into a signed order.
#[derive(Clone, Debug)]
pub enum TradingError {
    /// The order type is neither GTC nor FOK (in any case).
    InvalidOrderType(String),
    /// A GTC order came without a price.
    PriceRequired,
    /// The private key is not hex text.
    InvalidKeyHex,
    /// The private key's bytes are not a secp256k1 key.
    InvalidPrivateKey,
    /// The market has no venue.
    NoVenue,
    /// The market has no token ids.
    NoTokenIds,
    /// The market has no token id for this outcome.
    NoTokenForOutcome(Outcome),
    /// The token id is not a decimal `U256`.
    InvalidTokenId(String),
    /// The venue's exchange is not an address.
    InvalidAddress(String),
}

/// The order type that a request names, ignoring case, and the check that a
/// GTC order has a price.
pub open spec fn order_type_outcome(order_type: Seq<char>, has_price: bool) -> Option<OrderType> {
    let u = unicode_uppercase(order_type);
    if u == "FOK"@ {
        Some(OrderType::Fok)
    } else if u == "GTC"@ && has_price {
        Some(OrderType::Gtc)
    } else {
        None
    }
}

/// Checks the order type of a request: "GTC" or "FOK" in any case; a GTC
/// order needs a price.
pub fn parse_order_type(order_type: &str, price: Option<DecimalValue>) -> (res: Result<
    OrderType,
    TradingError,
>)
    ensures
        order_type_outcome(order_type@, price is Some) matches Some(t) ==> res == Ok::<
            OrderType,
            TradingError,
        >(t),
        unicode_uppercase(order_type@) != "FOK"@ && unicode_uppercase(order_type@) != "GTC"@ ==> (
        res matches Err(TradingError::InvalidOrderType(t)) && t@ == order_type@),
        unicode_uppercase(order_type@) == "GTC"@ && price is None ==> (res matches Err(
            TradingError::PriceRequired,
        )),
{
    proof {
        reveal_strlit("GTC");
        reveal_strlit("FOK");
        assert("GTC"@[0] != "FOK"@[0]);
        assert("GTC"@ != "FOK"@);
    }
    let upper = to_uppercase(order_type);
    let v = chars_of(upper.as_str());
    let is_fok = chars_equal(&v, "FOK");
    if !chars_equal(&v, "GTC") && !is_fok {
        return Err(TradingError::InvalidOrderType(string_of(order_type)));
    }
    if !is_fok && price.is_none() {
        return Err(TradingError::PriceRequired);
    }
    if is_fok {
        Ok(OrderType::Fok)
    } else {
        Ok(OrderType::Gtc)
    }
}

/// The order part of a built order and its price.
pub open spec fn order_part(r: Result<(Order, Option<DecimalValue>), OrderError>) -> Result<
    Order,
    OrderError,
> {
    match r {
        Ok((o, _)) => Ok(o),
        Err(e) => Err(e),
    }
}

/// What placing an order of a type builds, with the price that it sends. A
/// FOK order's maker amount is `size` in millionths (the USDC to spend for a
/// buy, the shares to sell for a sell), its taker amount is 1 and it sends
/// no price; a GTC order is what `build_gtc_order` gives, and it sends its
/// price. Either may instead fail where the random source gave no salt.
pub open spec fn placed_order_outcome(
    kind: OrderType,
    maker: Seq<u8>,
    token_id: Seq<u8>,
    side: Side,
    price: Option<DecimalValue>,
    size: DecimalValue,
    fee_rate_bps: u64,
    nonce: u64,
    res: Result<(Order, Option<DecimalValue>), OrderError>,
) -> bool {
    match kind {
        OrderType::Fok => match fok_maker_amount_outcome(size) {
            Err(_) => res matches Err(OrderError::MakerAmountOverflow),
            Ok(m) => {
                ||| res matches Ok((o, p)) && p is None && order_fields_match(
                    o,
                    maker,
                    token_id,
                    side,
                    m,
                    1,
                    fee_rate_bps,
                    nonce,
                )
                ||| res matches Err(OrderError::RandomSourceFailed)
            },
        },
        OrderType::Gtc => {
            &&& gtc_order_outcome(
                maker,
                token_id,
                side,
                price->0,
                size,
                fee_rate_bps,
                nonce,
                order_part(res),
            )
            &&& res matches Ok((_, p)) ==> p == price
        },
    }
}

/// Builds the order that a request of type `kind` places, and the price
/// that it sends: see `placed_order_outcome`. `None` where one of the decimal
/// products overflows (the command-line program stops there).
pub fn build_order(
    kind: OrderType,
    maker: &Vec<u8>,
    token_id: &Vec<u8>,
    side: Side,
    price: Option<DecimalValue>,
    size: DecimalValue,
    fee_rate_bps: u64,
    nonce: u64,
) -> (res: Option<Result<(Order, Option<DecimalValue>), OrderError>>)
    requires
        maker@.len() == 20,
        token_id@.len() == 32,
        size.wf(),
        price matches Some(p) ==> p.wf(),
        kind is Gtc ==> price is Some,
    ensures
        res is None <==> ((kind is Fok && product_of(size, usdc_scale()) is None) || (kind is Gtc
            && gtc_inputs_valid(price->0, size) && !gtc_products_defined(price->0, size))),
        res matches Some(r) ==> placed_order_outcome(
            kind,
            maker@,
            token_id@,
            side,
            price,
            size,
            fee_rate_bps,
            nonce,
            r,
        ),
{
    match kind {
        OrderType::Fok => match fok_maker_amount_checked(size) {
            None => None,
            Some(Err(e)) => Some(Err(e)),
            Some(Ok(m)) => match build_fok_order(maker, token_id, side, m, 1, fee_rate_bps, nonce) {
                Ok(o) => Some(Ok((o, None))),
                Err(e) => Some(Err(e)),
            },
        },
        OrderType::Gtc => {
            let p = price.unwrap();
            match build_gtc_order_checked(maker, token_id, side, p, size, fee_rate_bps, nonce) {
                None => None,
                Some(Ok(o)) => Some(Ok((o, Some(p)))),
                Some(Err(e)) => Some(Err(e)),
            }
        },
    }
}

/// The key text without a leading "0x".
pub open spec fn strip_0x(s: Seq<char>) -> Seq<char> {
    if s.len() >= 2 && s[0] == '0' && s[1] == 'x' {
        s.skip(2)
    } else {
        s
    }
}

/// Reads a private key: hex digits after an optional "0x".
pub fn decode_private_key(key: &str) -> (res: Result<Vec<u8>, TradingError>)
    ensures
        hex_decode_spec(strip_0x(key@)) matches Some(b) ==> (res matches Ok(v) && v@ == b),
        hex_decode_spec(strip_0x(key@)) is None ==> (res matches Err(TradingError::InvalidKeyHex)),
{
    let cs = chars_of(key);
    let digits: String = if cs.len() >= 2 && cs[0] == '0' && cs[1] == 'x' {
        let mut rest: Vec<char> = Vec::new();
        let mut i: usize = 2;
        while i < cs.len()
            invariant
                2 <= i <= cs.len(),
                rest@ == cs@.subrange(2, i as int),
            decreases cs.len() - i,
        {
            rest.push(cs[i]);
            i = i + 1;
            assert(rest@ =~= cs@.subrange(2, i as int));
        }
        assert(rest@ =~= key@.skip(2));
        string_from_chars(rest.as_slice())
    } else {
        string_of(key)
    };
    match hex_decode(digits.as_str()) {
        Some(v) => Ok(v),
        None => Err(TradingError::InvalidKeyHex),
    }
}

/// The maker address of a private key's bytes.
pub fn signer_address(key: &Vec<u8>) -> (res: Result<Vec<u8>, TradingError>)
    ensures
        address_of_key(key@) matches Some(a) ==> (res matches Ok(v) && v@ == a && v@.len() == 20),
        address_of_key(key@) is None ==> (res matches Err(TradingError::InvalidPrivateKey)),
{
    match key_address(key.as_slice()) {
        Some(a) => Ok(a),
        None => Err(TradingError::InvalidPrivateKey),
    }
}

/// The token id text of an outcome in a market's tokens.
pub fn select_token_id(tokens: &Option<MarketTokens>, outcome: Outcome) -> (res: Result<
    String,
    TradingError,
>)
    ensures
        match tokens {
            None => res matches Err(TradingError::NoTokenIds),
            Some(t) => {
                let chosen = match outcome {
                    Outcome::Yes => t.yes,
                    Outcome::No => t.no,
                };
                match chosen {
                    Some(id) => res matches Ok(s) && s@ == id@,
                    None => res matches Err(TradingError::NoTokenForOutcome(o)) && o == outcome,
                }
            },
        },
{
    match tokens {
        None => Err(TradingError::NoTokenIds),
        Some(t) => {
            let chosen = match outcome {
                Outcome::Yes => &t.yes,
                Outcome::No => &t.no,
            };
            match chosen {
                Some(id) => Ok(id.clone()),
                None => Err(TradingError::NoTokenForOutcome(outcome)),
            }
        },
    }
}

/// The venue of a market, which orders need.
pub fn require_venue(venue: &Option<Venue>) -> (res: Result<Venue, TradingError>)
    ensures
        match venue {
            Some(v) => res matches Ok(w) && w.exchange@ == v.exchange@ && w.adapter == v.adapter,
            None => res matches Err(TradingError::NoVenue),
        },
{
    match venue {
        Some(v) => Ok(Venue { exchange: v.exchange.clone(), adapter: v.adapter.clone() }),
        None => Err(TradingError::NoVenue),
    }
}

/// "0x" and the lowercase hex of a signature.
pub open spec fn signature_hex_text(sig: Seq<u8>) -> Seq<char> {
    seq!['0', 'x'] + hex_lower(sig)
}

/// "0x" and the lowercase hex of a signature.
pub fn signature_hex(sig: &[u8]) -> (res: String)
    ensures
        res@ == signature_hex_text(sig@),
{
    let h = hex_encode(sig);
    let mut out = string_of("0x");
    out.append(h.as_str());
    proof {
        reveal_strlit("0x");
    }
    assert(out@ =~= signature_hex_text(sig@));
    out
}

/// The order as the API takes it: numbers where it wants numbers, addresses
/// as checksum text, the token id as the request wrote it, and the price of
/// a GTC order.
#[derive(Clone, Debug)]
pub struct OrderPayload {
    pub salt: u64,
    pub maker: String,
    pub signer: String,
    pub taker: String,
    pub token_id: String,
    pub maker_amount: u64,
    pub taker_amount: u64,
    pub expiration: String,
    pub nonce: u64,
    pub fee_rate_bps: u64,
    pub side: u64,
    pub signature_type: u64,
    pub signature: String,
    pub price: Option<DecimalValue>,
}

/// The payload of a signed order.
pub fn order_payload(
    order: &Order,
    token_id_text: &str,
    signature: &Vec<u8>,
    price: Option<DecimalValue>,
) -> (res: OrderPayload)
    requires
        order.wf(),
        order.maker_amount <= u64::MAX,
        order.taker_amount <= u64::MAX,
    ensures
        res.salt == order.salt,
        res.maker@ == checksum_text(order.maker@),
        res.signer@ == checksum_text(order.signer@),
        res.taker@ == checksum_text(order.taker@),
        res.token_id@ == token_id_text@,
        res.maker_amount == order.maker_amount,
        res.taker_amount == order.taker_amount,
        res.expiration@ == nat_digits(order.expiration as nat),
        res.nonce == order.nonce,
        res.fee_rate_bps == order.fee_rate_bps,
        res.side == order.side,
        res.signature_type == order.signature_type,
        res.signature@ == signature_hex_text(signature@),
        res.price == price,
{
    OrderPayload {
        salt: order.salt,
        maker: address_to_hex(order.maker.as_slice()),
        signer: address_to_hex(order.signer.as_slice()),
        taker: address_to_hex(order.taker.as_slice()),
        token_id: string_of(token_id_text),
        maker_amount: order.maker_amount as u64,
        taker_amount: order.taker_amount as u64,
        expiration: u128_to_string(order.expiration as u128),
        nonce: order.nonce,
        fee_rate_bps: order.fee_rate_bps,
        side: order.side as u64,
        signature_type: order.signature_type as u64,
        signature: signature_hex(signature.as_slice()),
        price,
    }
}

/// The body of the request that places an order.
#[derive(Clone, Debug)]
pub struct CreateOrderRequest {
    pub order: OrderPayload,
    pub order_type: String,
    pub market_slug: String,
    pub owner_id: u64,
}

/// The request that places a signed order on a market for its owner.
pub fn create_order_request(
    order: OrderPayload,
    order_type: OrderType,
    market_slug: &str,
    owner_id: u64,
) -> (res: CreateOrderRequest)
    ensures
        res.order == order,
        res.order_type@ == order_type.spec_name(),
        res.market_slug@ == market_slug@,
        res.owner_id == owner_id,
{
    CreateOrderRequest {
        order,
        order_type: order_type.name(),
        market_slug: string_of(market_slug),
        owner_id,
    }
}

} // verus!
