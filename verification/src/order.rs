//! Orders of the Limitless CTF Exchange: sides and outcomes, and the
//! construction of GTC (limit) and FOK (market) orders.

use vstd::prelude::*;
use crate::chars::{chars_equal, chars_of, string_of, to_lowercase, unicode_lowercase};
use crate::decimal::{
    decimal_mul,
    decimal_to_u128,
    lemma_pow10_add,
    lemma_pow10_monotone,
    pow10,
    product_of,
    DecimalValue,
    MAX_MANTISSA,
    MAX_SCALE,
};

verus! {

/// Which side of the book an order is on.
#[derive(Clone, Copy, Debug, PartialEq, Eq, Structural)]
pub enum Side {
    Buy,
    Sell,
}

impl Side {
    /// The side as the order's `uint8 side` field: 0 for buy, 1 for sell.
    pub open spec fn spec_as_u8(self) -> u8 {
        match self {
            Side::Buy => 0,
            Side::Sell => 1,
        }
    }

    /// The side as the order's `uint8 side` field: 0 for buy, 1 for sell.
    pub fn as_u8(&self) -> (res: u8)
        ensures
            res == self.spec_as_u8(),
    {
        match self {
            Side::Buy => 0,
            Side::Sell => 1,
        }
    }
}

/// The outcome token of a binary market.
#[derive(Clone, Copy, Debug, PartialEq, Eq, Structural)]
pub enum Outcome {
    Yes,
    No,
}

/// Why an order could not be built.
#[derive(Clone, Debug)]
pub enum OrderError {
    /// The side text named no side.
    InvalidSide(String),
    /// The outcome text named no outcome.
    InvalidOutcome(String),
    /// A GTC price outside 0.01 to 0.99.
    PriceOutOfRange(DecimalValue),
    /// A size that is not positive.
    SizeNotPositive(DecimalValue),
    /// The maker amount is not a non-negative integer of 128 bits.
    MakerAmountOverflow,
    /// The taker amount is not a non-negative integer of 128 bits.
    TakerAmountOverflow,
    /// The operating system's random source failed, so no salt was drawn.
    RandomSourceFailed,
}

/// The side that a text names, ignoring case: "buy", "b" or "0" for buy,
/// "sell", "s" or "1" for sell.
pub open spec fn side_of_text(s: Seq<char>) -> Option<Side> {
    let l = unicode_lowercase(s);
    if l == "buy"@ || l == "b"@ || l == "0"@ {
        Some(Side::Buy)
    } else if l == "sell"@ || l == "s"@ || l == "1"@ {
        Some(Side::Sell)
    } else {
        None
    }
}

/// The outcome that a text names, ignoring case: "yes", "y" or "0" for yes,
/// "no", "n" or "1" for no.
pub open spec fn outcome_of_text(s: Seq<char>) -> Option<Outcome> {
    let l = unicode_lowercase(s);
    if l == "yes"@ || l == "y"@ || l == "0"@ {
        Some(Outcome::Yes)
    } else if l == "no"@ || l == "n"@ || l == "1"@ {
        Some(Outcome::No)
    } else {
        None
    }
}

/// Reads a side: "buy", "b" or "0", or "sell", "s" or "1", in any case.
pub fn parse_side(s: &str) -> (res: Result<Side, OrderError>)
    ensures
        side_of_text(s@) matches Some(side) ==> res == Ok::<Side, OrderError>(side),
        side_of_text(s@) is None ==> (res matches Err(OrderError::InvalidSide(t)) && t@ == s@),
{
    let l = to_lowercase(s);
    let v = chars_of(l.as_str());
    if chars_equal(&v, "buy") || chars_equal(&v, "b") || chars_equal(&v, "0") {
        Ok(Side::Buy)
    } else if chars_equal(&v, "sell") || chars_equal(&v, "s") || chars_equal(&v, "1") {
        Ok(Side::Sell)
    } else {
        Err(OrderError::InvalidSide(string_of(s)))
    }
}

/// Reads an outcome: "yes", "y" or "0", or "no", "n" or "1", in any case.
pub fn parse_outcome(s: &str) -> (res: Result<Outcome, OrderError>)
    ensures
        outcome_of_text(s@) matches Some(o) ==> res == Ok::<Outcome, OrderError>(o),
        outcome_of_text(s@) is None ==> (res matches Err(OrderError::InvalidOutcome(t)) && t@
            == s@),
{
    let l = to_lowercase(s);
    let v = chars_of(l.as_str());
    if chars_equal(&v, "yes") || chars_equal(&v, "y") || chars_equal(&v, "0") {
        Ok(Outcome::Yes)
    } else if chars_equal(&v, "no") || chars_equal(&v, "n") || chars_equal(&v, "1") {
        Ok(Outcome::No)
    } else {
        Err(OrderError::InvalidOutcome(string_of(s)))
    }
}

impl std::str::FromStr for Side {
    type Err = OrderError;

    fn from_str(s: &str) -> (res: Result<Side, OrderError>)
        ensures
            side_of_text(s@) matches Some(side) ==> res == Ok::<Side, OrderError>(side),
            side_of_text(s@) is None ==> (res matches Err(OrderError::InvalidSide(t)) && t@
                == s@),
    {
        parse_side(s)
    }
}

impl std::str::FromStr for Outcome {
    type Err = OrderError;

    fn from_str(s: &str) -> (res: Result<Outcome, OrderError>)
        ensures
            outcome_of_text(s@) matches Some(o) ==> res == Ok::<Outcome, OrderError>(o),
            outcome_of_text(s@) is None ==> (res matches Err(OrderError::InvalidOutcome(t))
                && t@ == s@),
    {
        parse_outcome(s)
    }
}

/// An exchange order, with the fields of the signed `Order` struct. Addresses
/// are 20 bytes and the token id is 32 bytes, big-endian.
#[derive(Clone, Debug)]
pub struct Order {
    pub salt: u64,
    pub maker: Vec<u8>,
    pub signer: Vec<u8>,
    pub taker: Vec<u8>,
    pub token_id: Vec<u8>,
    pub maker_amount: u128,
    pub taker_amount: u128,
    pub expiration: u64,
    pub nonce: u64,
    pub fee_rate_bps: u64,
    pub side: u8,
    pub signature_type: u8,
}

impl Order {
    /// Addresses of 20 bytes and a token id of 32 bytes.
    pub open spec fn wf(self) -> bool {
        &&& self.maker@.len() == 20
        &&& self.signer@.len() == 20
        &&& self.taker@.len() == 20
        &&& self.token_id@.len() == 32
    }
}

/// The salt bound: salts fit in a JavaScript-safe integer, below 2^53.
pub open spec fn salt_bound() -> int {
    0x20_0000_0000_0000
}

/// 64 bits from the operating system's random source (`getrandom::fill` on
/// 8 bytes, read big-endian), or `None` where the source reports an error.
/// Nothing is stated of the value, nor of when the source fails.
#[verifier::external_body]
fn random_u64() -> Option<u64> {
    let mut bytes = [0u8; 8];
    match getrandom::fill(&mut bytes) {
        Ok(()) => Some(u64::from_be_bytes(bytes)),
        Err(_) => None,
    }
}

/// The salt made of 64 random bits: their low 53 bits.
pub fn salt_from_bits(bits: u64) -> (res: u64)
    ensures
        res == bits % (salt_bound() as u64),
        res < salt_bound(),
{
    // (1 << 53) - 1: the largest integer that a JavaScript number holds exactly.
    let mask: u64 = 0x1F_FFFF_FFFF_FFFF;
    let r = bits & mask;
    assert(r == bits % 0x20_0000_0000_0000u64 && r < 0x20_0000_0000_0000u64) by (bit_vector)
        requires
            mask == 0x1F_FFFF_FFFF_FFFFu64,
            r == bits & mask,
    ;
    r
}

/// A random salt below 2^53, so that it fits a JSON number: the low 53 bits
/// of 64 random bits (`salt_from_bits`), or `None` where the random source
/// failed.
pub fn random_salt() -> (res: Option<u64>)
    ensures
        res matches Some(s) ==> s < salt_bound(),
{
    match random_u64() {
        Some(bits) => Some(salt_from_bits(bits)),
        None => None,
    }
}

/// The zero address, the taker of every order.
pub fn zero_address() -> (res: Vec<u8>)
    ensures
        res@ == Seq::new(20, |i: int| 0u8),
{
    let mut v: Vec<u8> = Vec::new();
    while v.len() < 20
        invariant
            v.len() <= 20,
            forall|i: int| 0 <= i < v.len() ==> v@[i] == 0u8,
        decreases 20 - v.len(),
    {
        v.push(0u8);
    }
    assert(v@ =~= Seq::new(20, |i: int| 0u8));
    v
}

/// USDC's scale: amounts travel in millionths.
pub open spec fn usdc_scale() -> DecimalValue {
    DecimalValue { mantissa: 1_000_000, scale: 0 }
}

/// The price and size of a GTC order pass its checks: the price lies between
/// 0.01 and 0.99 (both included) and the size is positive.
pub open spec fn gtc_inputs_valid(price: DecimalValue, size: DecimalValue) -> bool {
    &&& price.spec_in_cent_range()
    &&& size.spec_is_positive()
}

/// The three products that a GTC order multiplies are defined (none
/// overflows): price * size, that times 10^6, and size * 10^6.
pub open spec fn gtc_products_defined(price: DecimalValue, size: DecimalValue) -> bool {
    &&& product_of(price, size) is Some
    &&& product_of(product_of(price, size)->0, usdc_scale()) is Some
    &&& product_of(size, usdc_scale()) is Some
}

/// The USDC side of a GTC order in millionths: price * size * 10^6, truncated.
pub open spec fn gtc_usdc_amount(price: DecimalValue, size: DecimalValue) -> Option<u128> {
    product_of(product_of(price, size)->0, usdc_scale())->0.spec_to_u128()
}

/// The share side of a GTC order in millionths: size * 10^6, truncated.
pub open spec fn gtc_share_amount(size: DecimalValue) -> Option<u128> {
    product_of(size, usdc_scale())->0.spec_to_u128()
}

/// The maker and taker amounts of a GTC order: a buyer pays USDC and receives
/// shares, a seller pays shares and receives USDC.
pub open spec fn gtc_amounts(side: Side, price: DecimalValue, size: DecimalValue) -> (
    Option<u128>,
    Option<u128>,
) {
    match side {
        Side::Buy => (gtc_usdc_amount(price, size), gtc_share_amount(size)),
        Side::Sell => (gtc_share_amount(size), gtc_usdc_amount(price, size)),
    }
}

/// The fields that every order built here shares.
pub open spec fn order_fields_match(
    o: Order,
    maker: Seq<u8>,
    token_id: Seq<u8>,
    side: Side,
    maker_amount: u128,
    taker_amount: u128,
    fee_rate_bps: u64,
    nonce: u64,
) -> bool {
    &&& o.wf()
    &&& o.salt < salt_bound()
    &&& o.maker@ == maker
    &&& o.signer@ == maker
    &&& o.taker@ == Seq::new(20, |i: int| 0u8)
    &&& o.token_id@ == token_id
    &&& o.maker_amount == maker_amount
    &&& o.taker_amount == taker_amount
    &&& o.expiration == 0
    &&& o.nonce == nonce
    &&& o.fee_rate_bps == fee_rate_bps
    &&& o.side == side.spec_as_u8()
    &&& o.signature_type == 0
}

/// An order with these fields was built, unless the random source failed
/// and no salt could be drawn.
pub open spec fn order_built(
    res: Result<Order, OrderError>,
    maker: Seq<u8>,
    token_id: Seq<u8>,
    side: Side,
    maker_amount: u128,
    taker_amount: u128,
    fee_rate_bps: u64,
    nonce: u64,
) -> bool {
    ||| res matches Ok(o) && order_fields_match(
        o,
        maker,
        token_id,
        side,
        maker_amount,
        taker_amount,
        fee_rate_bps,
        nonce,
    )
    ||| res matches Err(OrderError::RandomSourceFailed)
}

/// The order with these fields and the drawn salt, or the random-source
/// error where no salt was drawn.
pub fn order_from_salt(
    maker: &Vec<u8>,
    token_id: &Vec<u8>,
    side: Side,
    maker_amount: u128,
    taker_amount: u128,
    fee_rate_bps: u64,
    nonce: u64,
    salt: Option<u64>,
) -> (res: Result<Order, OrderError>)
    requires
        maker@.len() == 20,
        token_id@.len() == 32,
        salt matches Some(s) ==> s < salt_bound(),
    ensures
        salt is None ==> res matches Err(OrderError::RandomSourceFailed),
        salt matches Some(s) ==> res matches Ok(o) && o.salt == s && order_fields_match(
            o,
            maker@,
            token_id@,
            side,
            maker_amount,
            taker_amount,
            fee_rate_bps,
            nonce,
        ),
{
    match salt {
        None => Err(OrderError::RandomSourceFailed),
        Some(s) => Ok(
            Order {
                salt: s,
                maker: maker.clone(),
                signer: maker.clone(),
                taker: zero_address(),
                token_id: token_id.clone(),
                maker_amount,
                taker_amount,
                expiration: 0,
                nonce,
                fee_rate_bps,
                side: side.as_u8(),
                signature_type: 0,
            },
        ),
    }
}

/// What building a GTC order gives: the price error, then the size error,
/// then an order with the amounts of `gtc_amounts`.
pub open spec fn gtc_order_outcome(
    maker: Seq<u8>,
    token_id: Seq<u8>,
    side: Side,
    price: DecimalValue,
    size: DecimalValue,
    fee_rate_bps: u64,
    nonce: u64,
    res: Result<Order, OrderError>,
) -> bool {
    if !price.spec_in_cent_range() {
        res matches Err(OrderError::PriceOutOfRange(p)) && p == price
    } else if !size.spec_is_positive() {
        res matches Err(OrderError::SizeNotPositive(s)) && s == size
    } else {
        &&& gtc_amounts(side, price, size).0 is Some
        &&& gtc_amounts(side, price, size).1 is Some
        &&& order_built(
            res,
            maker,
            token_id,
            side,
            gtc_amounts(side, price, size).0->0,
            gtc_amounts(side, price, size).1->0,
            fee_rate_bps,
            nonce,
        )
    }
}

/// Builds a GTC limit order for `size` shares at `price` USDC per share.
/// Where one of the decimal products would overflow (the command-line
/// program stops there), see `build_gtc_order_checked`.
pub fn build_gtc_order(
    maker: &Vec<u8>,
    token_id: &Vec<u8>,
    side: Side,
    price: DecimalValue,
    size: DecimalValue,
    fee_rate_bps: u64,
    nonce: u64,
) -> (res: Result<Order, OrderError>)
    requires
        maker@.len() == 20,
        token_id@.len() == 32,
        price.wf(),
        size.wf(),
        gtc_inputs_valid(price, size) ==> gtc_products_defined(price, size),
    ensures
        gtc_order_outcome(maker@, token_id@, side, price, size, fee_rate_bps, nonce, res),
{
    if !price.in_cent_range() {
        return Err(OrderError::PriceOutOfRange(price));
    }
    if !size.is_positive() {
        return Err(OrderError::SizeNotPositive(size));
    }
    let scale = DecimalValue::from_u64(1_000_000);
    let price_size = decimal_mul(price, size).unwrap();
    let usdc = decimal_mul(price_size, scale).unwrap();
    let shares = decimal_mul(size, scale).unwrap();
    let (maker_amount, taker_amount) = match side {
        Side::Buy => {
            let usdc_amount = match decimal_to_u128(usdc) {
                Some(v) => v,
                None => {
                    return Err(OrderError::MakerAmountOverflow);
                },
            };
            let share_amount = match decimal_to_u128(shares) {
                Some(v) => v,
                None => {
                    return Err(OrderError::TakerAmountOverflow);
                },
            };
            (usdc_amount, share_amount)
        },
        Side::Sell => {
            let share_amount = match decimal_to_u128(shares) {
                Some(v) => v,
                None => {
                    return Err(OrderError::MakerAmountOverflow);
                },
            };
            let usdc_amount = match decimal_to_u128(usdc) {
                Some(v) => v,
                None => {
                    return Err(OrderError::TakerAmountOverflow);
                },
            };
            (share_amount, usdc_amount)
        },
    };
    order_from_salt(
        maker,
        token_id,
        side,
        maker_amount,
        taker_amount,
        fee_rate_bps,
        nonce,
        random_salt(),
    )
}

/// `build_gtc_order` for any decimals: `None` where one of its products would
/// overflow (the command-line program stops there), its result otherwise.
pub fn build_gtc_order_checked(
    maker: &Vec<u8>,
    token_id: &Vec<u8>,
    side: Side,
    price: DecimalValue,
    size: DecimalValue,
    fee_rate_bps: u64,
    nonce: u64,
) -> (res: Option<Result<Order, OrderError>>)
    requires
        maker@.len() == 20,
        token_id@.len() == 32,
        price.wf(),
        size.wf(),
    ensures
        res is None <==> gtc_inputs_valid(price, size) && !gtc_products_defined(price, size),
        res matches Some(r) ==> gtc_order_outcome(
            maker@,
            token_id@,
            side,
            price,
            size,
            fee_rate_bps,
            nonce,
            r,
        ),
{
    if price.in_cent_range() && size.is_positive() {
        let scale = DecimalValue::from_u64(1_000_000);
        match decimal_mul(price, size) {
            None => {
                return None;
            },
            Some(price_size) => {
                if decimal_mul(price_size, scale).is_none() {
                    return None;
                }
            },
        }
        if decimal_mul(size, scale).is_none() {
            return None;
        }
    }
    Some(build_gtc_order(maker, token_id, side, price, size, fee_rate_bps, nonce))
}

/// The maker amount of a FOK order in millionths: size * 10^6 truncated, or
/// the overflow error for a negative size.
pub open spec fn fok_maker_amount_outcome(size: DecimalValue) -> Result<u128, OrderError> {
    match product_of(size, usdc_scale())->0.spec_to_u128() {
        Some(v) => Ok(v),
        None => Err(OrderError::MakerAmountOverflow),
    }
}

/// The maker amount of a FOK order: for a buy the USDC to spend, for a sell
/// the shares to sell, in millionths. Where size * 10^6 would overflow
/// (the command-line program stops there), see `fok_maker_amount_checked`.
pub fn fok_maker_amount(size: DecimalValue) -> (res: Result<u128, OrderError>)
    requires
        size.wf(),
        product_of(size, usdc_scale()) is Some,
    ensures
        res matches Ok(v) ==> fok_maker_amount_outcome(size) == Ok::<u128, OrderError>(v),
        res is Err ==> (res matches Err(OrderError::MakerAmountOverflow)
            && fok_maker_amount_outcome(size) is Err),
{
    let scale = DecimalValue::from_u64(1_000_000);
    let scaled = decimal_mul(size, scale).unwrap();
    match decimal_to_u128(scaled) {
        Some(v) => Ok(v),
        None => Err(OrderError::MakerAmountOverflow),
    }
}

/// `fok_maker_amount` for any decimal: `None` where size * 10^6 overflows.
pub fn fok_maker_amount_checked(size: DecimalValue) -> (res: Option<Result<u128, OrderError>>)
    requires
        size.wf(),
    ensures
        res is None <==> product_of(size, usdc_scale()) is None,
        res matches Some(Ok(v)) ==> fok_maker_amount_outcome(size) == Ok::<u128, OrderError>(v),
        res matches Some(Err(e)) ==> e is MakerAmountOverflow && fok_maker_amount_outcome(
            size,
        ) is Err,
{
    let scale = DecimalValue::from_u64(1_000_000);
    if decimal_mul(size, scale).is_none() {
        return None;
    }
    Some(fok_maker_amount(size))
}

/// Builds a FOK market order with the given amounts, or the random-source
/// error where no salt could be drawn.
pub fn build_fok_order(
    maker: &Vec<u8>,
    token_id: &Vec<u8>,
    side: Side,
    maker_amount: u128,
    taker_amount: u128,
    fee_rate_bps: u64,
    nonce: u64,
) -> (res: Result<Order, OrderError>)
    requires
        maker@.len() == 20,
        token_id@.len() == 32,
    ensures
        order_built(res, maker@, token_id@, side, maker_amount, taker_amount, fee_rate_bps, nonce),
{
    order_from_salt(
        maker,
        token_id,
        side,
        maker_amount,
        taker_amount,
        fee_rate_bps,
        nonce,
        random_salt(),
    )
}

/// A sell order trades the two amounts of the buy order at the same price
/// and size: what a buyer pays a seller receives, and the other way round.
pub proof fn law_gtc_sell_mirrors_buy(price: DecimalValue, size: DecimalValue)
    ensures
        gtc_amounts(Side::Sell, price, size).0 == gtc_amounts(Side::Buy, price, size).1,
        gtc_amounts(Side::Sell, price, size).1 == gtc_amounts(Side::Buy, price, size).0,
{
}

/// A buy at a price below one never pays more USDC than the shares it
/// buys: where the decimal products are exact (no rounding by
/// rust_decimal), the maker amount of a GTC buy is at most its taker amount.
pub proof fn law_gtc_buy_pays_at_most_its_shares(price: DecimalValue, size: DecimalValue)
    requires
        price.wf(),
        size.wf(),
        gtc_inputs_valid(price, size),
        price.scale + size.scale <= MAX_SCALE,
        price.mantissa * size.mantissa * 1_000_000 <= MAX_MANTISSA,
        size.mantissa * 1_000_000 <= MAX_MANTISSA,
        product_of(price, size) == Some(
            DecimalValue {
                mantissa: (price.mantissa * size.mantissa) as i128,
                scale: (price.scale + size.scale) as u32,
            },
        ),
        product_of(product_of(price, size)->0, usdc_scale()) == Some(
            DecimalValue {
                mantissa: (price.mantissa * size.mantissa * 1_000_000) as i128,
                scale: (price.scale + size.scale) as u32,
            },
        ),
        product_of(size, usdc_scale()) == Some(
            DecimalValue { mantissa: (size.mantissa * 1_000_000) as i128, scale: size.scale },
        ),
    ensures
        gtc_amounts(Side::Buy, price, size).0 matches Some(maker) && gtc_amounts(
            Side::Buy,
            price,
            size,
        ).1 matches Some(taker) && maker <= taker,
{
    let mp = price.mantissa as int;
    let ms = size.mantissa as int;
    let a = ms * 1_000_000;
    let ps: int = pow10(price.scale as nat) as int;
    let ss: int = pow10(size.scale as nat) as int;
    lemma_pow10_add(price.scale as nat, size.scale as nat);
    lemma_pow10_monotone(0, price.scale as nat);
    lemma_pow10_monotone(0, size.scale as nat);
    assert(mp < ps);
    assert(mp * ms * 1_000_000 == mp * a) by (nonlinear_arith)
        requires
            a == ms * 1_000_000,
    ;
    assert(0 <= mp * a) by (nonlinear_arith)
        requires
            mp > 0,
            a >= 0,
    ;
    assert(mp * a <= ps * a) by (nonlinear_arith)
        requires
            mp < ps,
            a >= 0,
    ;
    assert((mp * a) / (ps * ss) <= (ps * a) / (ps * ss)) by (nonlinear_arith)
        requires
            0 <= mp * a <= ps * a,
            ps > 0,
            ss > 0,
    ;
    assert((ps * a) / (ps * ss) == a / ss) by (nonlinear_arith)
        requires
            ps > 0,
            ss > 0,
            a >= 0,
    ;
    assert(a / ss <= a) by (nonlinear_arith)
        requires
            ss > 0,
            a >= 0,
    ;
    assert(ps * ss > 0) by (nonlinear_arith)
        requires
            ps > 0,
            ss > 0,
    ;
    assert((mp * a) / (ps * ss) >= 0) by (nonlinear_arith)
        requires
            mp * a >= 0,
            ps * ss > 0,
    ;
    assert(a <= MAX_MANTISSA);
    let usdc = product_of(product_of(price, size)->0, usdc_scale())->0;
    let shares = product_of(size, usdc_scale())->0;
    assert(usdc.mantissa == mp * a);
    assert(usdc.scale == price.scale + size.scale);
    assert(pow10(usdc.scale as nat) == ps * ss);
    assert(shares.mantissa == a);
    assert(usdc.spec_to_u128() == Some(((mp * a) / (ps * ss)) as u128));
    assert(shares.spec_to_u128() == Some((a / ss) as u128));
}

} // verus!
