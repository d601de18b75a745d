use alloy::primitives::{keccak256, Address, Signature, B256, U256};
use limitless_cli::decimal::DecimalValue;
use limitless_cli::eip712::{domain_hash, order_hash, order_signing_hash, DOMAIN_TYPE, ORDER_TYPE};
use limitless_cli::order::{
    build_fok_order, build_gtc_order, build_gtc_order_checked, fok_maker_amount, fok_maker_amount_checked,
    order_from_salt, parse_outcome, parse_side, random_salt, salt_from_bits, zero_address, Order, OrderError, Outcome, Side,
};
use limitless_cli::signing::{address_to_hex, eip712_domain, parse_address, parse_u256, sign_order, signature_to_bytes, CHAIN_ID};
use limitless_cli::markets::{MarketTokens, Venue};
use limitless_cli::trading::{
    build_order, create_order_request, decode_private_key, order_payload, parse_order_type, require_venue, select_token_id,
    signature_hex, signer_address, OrderType, TradingError,
};

const KEY: &str = "0x4c0883a69102937d6231471b5dbb6204fe5129617082792ae468d01a3f362318";
const KEY_ADDRESS: &str = "0x2c7536E3605D9C16a7a3D7b1898e529396a65c23";
const EXCHANGE: &str = "0xa4409d988ca2218d956beefd3874100f444f0dc3";

fn dec(mantissa: i128, scale: u32) -> DecimalValue {
    DecimalValue { mantissa, scale }
}

fn maker() -> Vec<u8> {
    (1u8..=20).collect()
}

fn token() -> Vec<u8> {
    let mut t = vec![0u8; 32];
    t[31] = 7;
    t
}

#[test]
fn sides_and_outcomes_parse_in_any_case() {
    assert_eq!(parse_side("buy").unwrap(), Side::Buy);
    assert_eq!(parse_side("B").unwrap(), Side::Buy);
    assert_eq!(parse_side("0").unwrap(), Side::Buy);
    assert_eq!(parse_side("SELL").unwrap(), Side::Sell);
    assert_eq!(parse_side("s").unwrap(), Side::Sell);
    assert_eq!("1".parse::<Side>().unwrap(), Side::Sell);
    assert!(matches!(parse_side("hold"), Err(OrderError::InvalidSide(s)) if s == "hold"));
    assert_eq!(parse_outcome("Yes").unwrap(), Outcome::Yes);
    assert_eq!(parse_outcome("n").unwrap(), Outcome::No);
    assert_eq!("0".parse::<Outcome>().unwrap(), Outcome::Yes);
    assert!(matches!(parse_outcome("maybe"), Err(OrderError::InvalidOutcome(s)) if s == "maybe"));
    assert_eq!(Side::Buy.as_u8(), 0);
    assert_eq!(Side::Sell.as_u8(), 1);
}

#[test]
fn gtc_buy_pays_price_times_size() {
    let o = build_gtc_order(&maker(), &token(), Side::Buy, dec(65, 2), dec(100, 0), 300, 5).unwrap();
    assert_eq!(o.maker_amount, 65_000_000);
    assert_eq!(o.taker_amount, 100_000_000);
    assert_eq!(o.maker, maker());
    assert_eq!(o.signer, maker());
    assert_eq!(o.taker, vec![0u8; 20]);
    assert_eq!(o.token_id, token());
    assert_eq!(o.fee_rate_bps, 300);
    assert_eq!(o.nonce, 5);
    assert_eq!(o.expiration, 0);
    assert_eq!(o.side, 0);
    assert_eq!(o.signature_type, 0);
    assert!(o.salt < (1u64 << 53));
}

#[test]
fn gtc_sell_mirrors_buy() {
    let o = build_gtc_order(&maker(), &token(), Side::Sell, dec(65, 2), dec(100, 0), 0, 0).unwrap();
    assert_eq!(o.maker_amount, 100_000_000);
    assert_eq!(o.taker_amount, 65_000_000);
    assert_eq!(o.side, 1);
    let o = build_gtc_order(&maker(), &token(), Side::Buy, dec(5, 1), dec(15, 1), 0, 0).unwrap();
    assert_eq!(o.maker_amount, 750_000);
    assert_eq!(o.taker_amount, 1_500_000);
}

#[test]
fn gtc_amounts_cut_fractions_of_a_unit() {
    let o = build_gtc_order(&maker(), &token(), Side::Buy, dec(333, 3), dec(1, 7), 0, 0).unwrap();
    assert_eq!(o.maker_amount, 0);
    assert_eq!(o.taker_amount, 0);
}

#[test]
fn gtc_rejects_bad_price_and_size() {
    assert!(matches!(
        build_gtc_order(&maker(), &token(), Side::Buy, dec(1, 0), dec(10, 0), 0, 0),
        Err(OrderError::PriceOutOfRange(_))
    ));
    assert!(matches!(
        build_gtc_order(&maker(), &token(), Side::Buy, dec(0, 0), dec(10, 0), 0, 0),
        Err(OrderError::PriceOutOfRange(_))
    ));
    assert!(matches!(
        build_gtc_order(&maker(), &token(), Side::Buy, dec(-5, 1), dec(10, 0), 0, 0),
        Err(OrderError::PriceOutOfRange(_))
    ));
    assert!(matches!(
        build_gtc_order(&maker(), &token(), Side::Buy, dec(5, 1), dec(0, 0), 0, 0),
        Err(OrderError::SizeNotPositive(_))
    ));
    assert!(matches!(
        build_gtc_order(&maker(), &token(), Side::Buy, dec(5, 3), dec(100, 0), 0, 0),
        Err(OrderError::PriceOutOfRange(_))
    ));
    assert!(matches!(
        build_gtc_order(&maker(), &token(), Side::Sell, dec(995, 3), dec(100, 0), 0, 0),
        Err(OrderError::PriceOutOfRange(_))
    ));
    assert!(matches!(
        build_gtc_order(&maker(), &token(), Side::Buy, dec(5, 1), dec(-3, 0), 0, 0),
        Err(OrderError::SizeNotPositive(_))
    ));
}

#[test]
fn gtc_checked_reports_overflowing_products() {
    let huge = dec(79_228_162_514_264_337_593_543_950_335, 0);
    assert!(build_gtc_order_checked(&maker(), &token(), Side::Buy, dec(5, 1), huge, 0, 0).is_none());
    let ok = build_gtc_order_checked(&maker(), &token(), Side::Buy, dec(5, 1), dec(2, 0), 0, 0);
    assert_eq!(ok.unwrap().unwrap().maker_amount, 1_000_000);
}

#[test]
fn fok_amount_is_size_in_millionths() {
    assert_eq!(fok_maker_amount(dec(125, 1)).unwrap(), 12_500_000);
    assert_eq!(fok_maker_amount(dec(5, 7)).unwrap(), 0);
    assert!(matches!(fok_maker_amount(dec(-1, 0)), Err(OrderError::MakerAmountOverflow)));
    assert!(fok_maker_amount_checked(dec(79_228_162_514_264_337_593_543_950_335, 0)).is_none());
    assert_eq!(fok_maker_amount_checked(dec(2, 0)).unwrap().unwrap(), 2_000_000);
}

#[test]
fn fok_order_carries_the_given_amounts() {
    let o = build_fok_order(&maker(), &token(), Side::Sell, 12_500_000, 1, 300, 9).unwrap();
    assert_eq!(o.maker_amount, 12_500_000);
    assert_eq!(o.taker_amount, 1);
    assert_eq!(o.side, 1);
    assert_eq!(o.signer, o.maker);
    assert_eq!(o.taker, zero_address());
    assert!(o.salt < (1u64 << 53));
}

#[test]
fn salts_stay_below_two_to_the_53() {
    assert_eq!(salt_from_bits(u64::MAX), (1u64 << 53) - 1);
    assert_eq!(salt_from_bits(1u64 << 53), 0);
    assert_eq!(salt_from_bits(12345), 12345);
    for _ in 0..16 {
        assert!(random_salt().unwrap() < (1u64 << 53));
    }
}

#[test]
fn addresses_are_written_with_checksums() {
    let a = parse_address("0xd8da6bf26964af9d7eed9e03e53415d37aa96045").unwrap();
    assert_eq!(address_to_hex(&a), "0xd8dA6BF26964aF9D7eEd9e03E53415D37aA96045");
    assert_eq!(address_to_hex(&[0u8; 20]), "0x0000000000000000000000000000000000000000");
    assert!(parse_address("not an address").is_none());
    assert!(parse_address("0x1234").is_none());
}

#[test]
fn token_ids_parse_as_u256() {
    let t = parse_u256("123").unwrap();
    assert_eq!(t.len(), 32);
    assert_eq!(t[31], 123);
    assert!(t[..31].iter().all(|b| *b == 0));
    let big = "115792089237316195423570985008687907853269984665640564039457584007913129639935";
    assert_eq!(parse_u256(big).unwrap(), vec![0xffu8; 32]);
    assert!(parse_u256("-1").is_none());
    assert!(parse_u256("0x10").is_none());
    assert_eq!(parse_u256("1_000").unwrap()[30..], [0x03u8, 0xe8]);
    assert_eq!(parse_u256("").unwrap(), vec![0u8; 32]);
    let limit = "115792089237316195423570985008687907853269984665640564039457584007913129639936";
    assert!(parse_u256(limit).is_none());
    assert!(parse_u256("12a").is_none());
}

#[test]
fn private_keys_give_their_address() {
    let key = decode_private_key(KEY).unwrap();
    assert_eq!(key.len(), 32);
    let addr = signer_address(&key).unwrap();
    assert_eq!(address_to_hex(&addr), KEY_ADDRESS);
    let same = decode_private_key(&KEY[2..]).unwrap();
    assert_eq!(same, key);
    assert!(matches!(decode_private_key("0xzz"), Err(TradingError::InvalidKeyHex)));
    assert!(matches!(signer_address(&vec![0u8; 32]), Err(TradingError::InvalidPrivateKey)));
}

fn word(v: u128) -> [u8; 32] {
    U256::from(v).to_be_bytes::<32>()
}

fn address_word(a: &[u8]) -> [u8; 32] {
    let mut w = [0u8; 32];
    w[12..].copy_from_slice(a);
    w
}

fn sample_order() -> Order {
    build_gtc_order(&maker(), &token(), Side::Buy, dec(65, 2), dec(100, 0), 300, 0).unwrap()
}

fn expected_struct_hash(o: &Order) -> B256 {
    let mut buf = Vec::new();
    buf.extend_from_slice(keccak256(ORDER_TYPE.as_bytes()).as_slice());
    buf.extend_from_slice(&word(o.salt as u128));
    buf.extend_from_slice(&address_word(&o.maker));
    buf.extend_from_slice(&address_word(&o.signer));
    buf.extend_from_slice(&address_word(&o.taker));
    buf.extend_from_slice(&o.token_id);
    buf.extend_from_slice(&word(o.maker_amount));
    buf.extend_from_slice(&word(o.taker_amount));
    buf.extend_from_slice(&word(o.expiration as u128));
    buf.extend_from_slice(&word(o.nonce as u128));
    buf.extend_from_slice(&word(o.fee_rate_bps as u128));
    buf.extend_from_slice(&word(o.side as u128));
    buf.extend_from_slice(&word(o.signature_type as u128));
    keccak256(&buf)
}

fn expected_domain_hash(exchange: &[u8]) -> B256 {
    let mut buf = Vec::new();
    buf.extend_from_slice(keccak256(DOMAIN_TYPE.as_bytes()).as_slice());
    buf.extend_from_slice(keccak256("Limitless CTF Exchange".as_bytes()).as_slice());
    buf.extend_from_slice(keccak256("1".as_bytes()).as_slice());
    buf.extend_from_slice(&word(8453));
    buf.extend_from_slice(&address_word(exchange));
    keccak256(&buf)
}

#[test]
fn eip712_hashes_follow_the_standard() {
    assert_eq!(CHAIN_ID, 8453);
    let exchange = parse_address(EXCHANGE).unwrap();
    let o = sample_order();
    assert_eq!(order_hash(&o), expected_struct_hash(&o).to_vec());
    let domain = eip712_domain(&exchange);
    assert_eq!(domain.name, "Limitless CTF Exchange");
    assert_eq!(domain.version, "1");
    assert_eq!(domain.chain_id, 8453);
    assert_eq!(domain_hash(&domain), expected_domain_hash(&exchange).to_vec());
    let mut buf = vec![0x19u8, 0x01u8];
    buf.extend_from_slice(expected_domain_hash(&exchange).as_slice());
    buf.extend_from_slice(expected_struct_hash(&o).as_slice());
    assert_eq!(order_signing_hash(&o, &domain), keccak256(&buf).to_vec());
}

#[test]
fn signatures_recover_to_the_signer() {
    let key = decode_private_key(KEY).unwrap();
    let exchange = parse_address(EXCHANGE).unwrap();
    let o = sample_order();
    let sig = sign_order(&key, &o, &exchange).unwrap();
    assert_eq!(sig.len(), 65);
    assert!(sig[64] == 27 || sig[64] == 28);
    let digest = order_signing_hash(&o, &eip712_domain(&exchange));
    let parsed = Signature::from_raw(&sig).unwrap();
    let recovered = parsed.recover_address_from_prehash(&B256::from_slice(&digest)).unwrap();
    let expected: Address = KEY_ADDRESS.parse().unwrap();
    assert_eq!(recovered, expected);
    let hex = signature_hex(&sig);
    assert!(hex.starts_with("0x"));
    assert_eq!(hex.len(), 132);
}

#[test]
fn signature_bytes_end_in_27_or_28() {
    let r = vec![1u8; 32];
    let s = vec![2u8; 32];
    let b = signature_to_bytes(&r, &s, false);
    assert_eq!(b.len(), 65);
    assert_eq!(b[64], 27);
    assert_eq!(signature_to_bytes(&r, &s, true)[64], 28);
    assert_eq!(signature_hex(&[0xab, 0x01]), "0xab01");
}

#[test]
fn order_types_ignore_case_and_gtc_needs_a_price() {
    assert_eq!(parse_order_type("gtc", Some(dec(65, 2))).unwrap(), OrderType::Gtc);
    assert_eq!(parse_order_type("FOK", None).unwrap(), OrderType::Fok);
    assert_eq!(parse_order_type("fok", Some(dec(65, 2))).unwrap(), OrderType::Fok);
    assert!(matches!(parse_order_type("GTC", None), Err(TradingError::PriceRequired)));
    assert!(matches!(parse_order_type("limit", None), Err(TradingError::InvalidOrderType(t)) if t == "limit"));
    assert_eq!(OrderType::Gtc.name(), "GTC");
    assert_eq!(OrderType::Fok.name(), "FOK");
}

#[test]
fn token_and_venue_selection() {
    let tokens = Some(MarketTokens { yes: Some("111".to_string()), no: None });
    assert_eq!(select_token_id(&tokens, Outcome::Yes).unwrap(), "111");
    assert!(matches!(select_token_id(&tokens, Outcome::No), Err(TradingError::NoTokenForOutcome(Outcome::No))));
    assert!(matches!(select_token_id(&None, Outcome::Yes), Err(TradingError::NoTokenIds)));
    let v = require_venue(&Some(Venue { exchange: "0xex".to_string(), adapter: None })).unwrap();
    assert_eq!(v.exchange, "0xex");
    assert!(matches!(require_venue(&None), Err(TradingError::NoVenue)));
}

#[test]
fn order_payload_carries_the_signed_order() {
    let key = decode_private_key(KEY).unwrap();
    let maker = signer_address(&key).unwrap();
    let o = build_gtc_order(&maker, &token(), Side::Buy, dec(65, 2), dec(100, 0), 300, 0).unwrap();
    let sig = sign_order(&key, &o, &parse_address(EXCHANGE).unwrap()).unwrap();
    let p = order_payload(&o, "7", &sig, Some(dec(65, 2)));
    assert_eq!(p.salt, o.salt);
    assert_eq!(p.maker, KEY_ADDRESS);
    assert_eq!(p.signer, KEY_ADDRESS);
    assert_eq!(p.taker, "0x0000000000000000000000000000000000000000");
    assert_eq!(p.token_id, "7");
    assert_eq!(p.maker_amount, 65_000_000);
    assert_eq!(p.taker_amount, 100_000_000);
    assert_eq!(p.expiration, "0");
    assert_eq!(p.fee_rate_bps, 300);
    assert_eq!(p.side, 0);
    assert_eq!(p.signature, signature_hex(&sig));
    let req = create_order_request(p, OrderType::Gtc, "btc", 42);
    assert_eq!(req.order_type, "GTC");
    assert_eq!(req.market_slug, "btc");
    assert_eq!(req.owner_id, 42);
}

#[test]
fn buy_never_pays_more_than_its_shares() {
    for (m, s) in [(1i128, 2u32), (65, 2), (99, 2), (989_999, 6), (5, 1)] {
        for (sm, ss) in [(1i128, 0u32), (100, 0), (25, 1), (123_456, 3)] {
            let o = build_gtc_order(&maker(), &token(), Side::Buy, dec(m, s), dec(sm, ss), 0, 0).unwrap();
            assert!(o.maker_amount <= o.taker_amount);
        }
    }
}

#[test]
fn gtc_accepts_prices_from_one_cent_to_ninety_nine() {
    let low = build_gtc_order(&maker(), &token(), Side::Buy, dec(1, 2), dec(100, 0), 0, 0).unwrap();
    assert_eq!(low.maker_amount, 1_000_000);
    let high = build_gtc_order(&maker(), &token(), Side::Buy, dec(990, 3), dec(100, 0), 0, 0).unwrap();
    assert_eq!(high.maker_amount, 99_000_000);
    assert_eq!(high.taker_amount, 100_000_000);
}

#[test]
fn order_from_salt_uses_the_drawn_salt() {
    let o = order_from_salt(&maker(), &token(), Side::Buy, 5, 6, 0, 1, Some(7)).unwrap();
    assert_eq!(o.salt, 7);
    assert_eq!(o.maker_amount, 5);
    assert_eq!(o.taker_amount, 6);
    assert_eq!(o.nonce, 1);
    assert!(matches!(
        order_from_salt(&maker(), &token(), Side::Buy, 5, 6, 0, 1, None),
        Err(OrderError::RandomSourceFailed)
    ));
}

#[test]
fn fok_request_asks_for_one_and_sends_no_price() {
    let (o, price) =
        build_order(OrderType::Fok, &maker(), &token(), Side::Buy, Some(dec(5, 1)), dec(25, 0), 300, 2)
            .unwrap()
            .unwrap();
    assert_eq!(o.maker_amount, 25_000_000);
    assert_eq!(o.taker_amount, 1);
    assert_eq!(o.side, 0);
    assert_eq!(o.expiration, 0);
    assert!(price.is_none());
    let (sell, _) =
        build_order(OrderType::Fok, &maker(), &token(), Side::Sell, None, dec(3, 0), 0, 0).unwrap().unwrap();
    assert_eq!(sell.maker_amount, 3_000_000);
    assert_eq!(sell.taker_amount, 1);
    assert_eq!(sell.side, 1);
}

#[test]
fn gtc_request_sends_its_price() {
    let (o, price) =
        build_order(OrderType::Gtc, &maker(), &token(), Side::Buy, Some(dec(65, 2)), dec(100, 0), 300, 0)
            .unwrap()
            .unwrap();
    assert_eq!(o.maker_amount, 65_000_000);
    assert_eq!(o.taker_amount, 100_000_000);
    assert_eq!(price.unwrap().mantissa, 65);
    assert!(matches!(
        build_order(OrderType::Gtc, &maker(), &token(), Side::Buy, Some(dec(5, 3)), dec(1, 0), 0, 0),
        Some(Err(OrderError::PriceOutOfRange(_)))
    ));
}
