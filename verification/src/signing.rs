//! Keys, addresses and signatures: reading a private key, deriving its
//! address, writing addresses and signatures as text, and signing an order.

use vstd::prelude::*;
use crate::chars::{digit_value, is_digit, string_of};
use crate::eip712::{keccak256_spec, order_digest, order_signing_hash, uint_word, Eip712Domain};
use crate::order::Order;

verus! {

/// The chain id of Base, where the exchange runs.
pub const CHAIN_ID: u64 = 8453;

/// Whether `c` is a hexadecimal digit, in either case.
pub open spec fn is_hex_char(c: char) -> bool {
    ('0' <= c && c <= '9') || ('a' <= c && c <= 'f') || ('A' <= c && c <= 'F')
}

/// The value of a hexadecimal digit.
pub open spec fn hex_char_value(c: char) -> nat {
    if '0' <= c && c <= '9' {
        (c as u32 - '0' as u32) as nat
    } else if 'a' <= c && c <= 'f' {
        (c as u32 - 'a' as u32 + 10) as nat
    } else {
        (c as u32 - 'A' as u32 + 10) as nat
    }
}

/// The bytes that hex text encodes: an even number of hex digits, two per
/// byte, high digit first; `None` for anything else.
pub open spec fn hex_decode_spec(s: Seq<char>) -> Option<Seq<u8>> {
    if s.len() % 2 == 0 && forall|i: int| 0 <= i < s.len() ==> #[trigger] is_hex_char(s[i]) {
        Some(
            Seq::new(
                s.len() / 2,
                |i: int| (16 * hex_char_value(s[2 * i]) + hex_char_value(s[2 * i + 1])) as u8,
            ),
        )
    } else {
        None
    }
}

/// The lowercase hex digit of `n < 16`.
pub open spec fn hex_digit_lower(n: nat) -> char {
    if n < 10 {
        ((n + 48) as u32) as char
    } else {
        ((n + 87) as u32) as char
    }
}

/// The lowercase hex text of bytes, two digits per byte.
pub open spec fn hex_lower(b: Seq<u8>) -> Seq<char>
    decreases b.len(),
{
    if b.len() == 0 {
        seq![]
    } else {
        hex_lower(b.drop_last()) + seq![
            hex_digit_lower((b.last() / 16) as nat),
            hex_digit_lower((b.last() % 16) as nat),
        ]
    }
}

/// `s` without a leading "0x" or "0X".
pub open spec fn strip_hex_prefix(s: Seq<char>) -> Seq<char> {
    if s.len() >= 2 && s[0] == '0' && (s[1] == 'x' || s[1] == 'X') {
        s.skip(2)
    } else {
        s
    }
}

/// The address that text names: 40 hex digits, after an optional "0x".
pub open spec fn address_of_text(s: Seq<char>) -> Option<Seq<u8>> {
    match hex_decode_spec(strip_hex_prefix(s)) {
        Some(b) => if b.len() == 20 {
            Some(b)
        } else {
            None
        },
        None => None,
    }
}

/// `hex::decode`: the bytes of even-length hex text in either case, `None`
/// for odd length or any other character.
#[verifier::external_body]
pub(crate) fn hex_decode(s: &str) -> (res: Option<Vec<u8>>)
    ensures
        res matches Some(v) ==> hex_decode_spec(s@) == Some(v@),
        res is None ==> hex_decode_spec(s@) is None,
{
    hex::decode(s).ok()
}

/// `hex::encode`: the lowercase hex text of bytes.
#[verifier::external_body]
pub(crate) fn hex_encode(b: &[u8]) -> (res: String)
    ensures
        res@ == hex_lower(b@),
{
    hex::encode(b)
}

/// Parsing an `alloy_primitives::Address` from text (`str::parse`): 40 hex
/// digits in any case, after an optional "0x" or "0X"; no checksum check.
#[verifier::external_body]
pub fn parse_address(s: &str) -> (res: Option<Vec<u8>>)
    ensures
        res matches Some(v) ==> address_of_text(s@) == Some(v@),
        res is None ==> address_of_text(s@) is None,
{
    match s.parse::<alloy::primitives::Address>() {
        Ok(a) => Some(a.to_vec()),
        Err(_) => None,
    }
}

/// Text that `U256::from_str_radix(s, 10)` reads as digits: ASCII digits
/// and underscores, which it skips.
pub open spec fn is_u256_digit_text(s: Seq<char>) -> bool {
    forall|i: int| 0 <= i < s.len() ==> is_digit(#[trigger] s[i]) || s[i] == '_'
}

/// The number that such text writes, underscores skipped (0 for text with
/// no digit).
pub open spec fn underscored_digits_value(s: Seq<char>) -> nat
    decreases s.len(),
{
    if s.len() == 0 {
        0
    } else if s.last() == '_' {
        underscored_digits_value(s.drop_last())
    } else {
        underscored_digits_value(s.drop_last()) * 10 + digit_value(s.last())
    }
}

/// 2^256, the first number that a `U256` cannot hold.
pub open spec fn u256_limit() -> nat {
    115792089237316195423570985008687907853269984665640564039457584007913129639936nat
}

/// The 32 big-endian bytes of the `U256` that `U256::from_str_radix(s, 10)`
/// reads from `s`: digits and underscores only, with a value below 2^256;
/// `None` otherwise.
pub open spec fn u256_of_decimal_text(s: Seq<char>) -> Option<Seq<u8>> {
    if is_u256_digit_text(s) && underscored_digits_value(s) < u256_limit() {
        Some(uint_word(underscored_digits_value(s)))
    } else {
        None
    }
}

/// `alloy_primitives::U256::from_str_radix(s, 10)`, as 32 big-endian bytes:
/// it reads ASCII digits, skips underscores, fails on any other byte, and
/// fails where the number reaches 2^256 (every partial value it holds is at
/// most the whole).
#[verifier::external_body]
pub fn parse_u256(s: &str) -> (res: Option<Vec<u8>>)
    ensures
        res matches Some(v) ==> u256_of_decimal_text(s@) == Some(v@) && v@.len() == 32,
        res is None ==> u256_of_decimal_text(s@) is None,
{
    match alloy::primitives::U256::from_str_radix(s, 10) {
        Ok(v) => Some(v.to_be_bytes::<32>().to_vec()),
        Err(_) => None,
    }
}

/// The Ethereum address of a secp256k1 private key given as bytes, as
/// `SigningKey::from_slice` and `Address::from_private_key` compute it, or
/// `None` where the bytes are not a valid key.
pub uninterp spec fn address_of_key(key: Seq<u8>) -> Option<Seq<u8>>;

/// The address of a private key (`k256::ecdsa::SigningKey::from_slice`, then
/// `alloy_primitives::Address::from_private_key`): 20 bytes, or `None` for
/// bytes that are not a key.
#[verifier::external_body]
pub(crate) fn key_address(key: &[u8]) -> (res: Option<Vec<u8>>)
    ensures
        res matches Some(a) ==> address_of_key(key@) == Some(a@) && a@.len() == 20,
        res is None ==> address_of_key(key@) is None,
{
    match alloy::signers::k256::ecdsa::SigningKey::from_slice(key) {
        Ok(k) => Some(alloy::primitives::Address::from_private_key(&k).to_vec()),
        Err(_) => None,
    }
}

/// The (r, s, y-parity) of the recoverable ECDSA signature that a private key
/// gives a 32-byte digest, or `None` where the key is invalid or signing fails.
pub uninterp spec fn ecdsa_signature(key: Seq<u8>, digest: Seq<u8>) -> Option<(Seq<u8>, Seq<u8>, bool)>;

/// Signs a 32-byte digest with a private key given as bytes
/// (`SigningKey::from_slice`, then `sign_prehash_recoverable`, read as an
/// `alloy_primitives::Signature`): r and s as 32 big-endian bytes and the
/// parity of y. The signature itself is only named.
#[verifier::external_body]
pub(crate) fn sign_digest(key: &[u8], digest: &[u8]) -> (res: Option<(Vec<u8>, Vec<u8>, bool)>)
    ensures
        res matches Some((r, s, v)) ==> ecdsa_signature(key@, digest@) == Some((r@, s@, v))
            && r@.len() == 32 && s@.len() == 32,
        res is None ==> ecdsa_signature(key@, digest@) is None,
{
    let k = match alloy::signers::k256::ecdsa::SigningKey::from_slice(key) {
        Ok(k) => k,
        Err(_) => return None,
    };
    match k.sign_prehash_recoverable(digest) {
        Ok(pair) => {
            let sig = alloy::primitives::Signature::from(pair);
            Some((sig.r().to_be_bytes::<32>().to_vec(), sig.s().to_be_bytes::<32>().to_vec(), sig.v()))
        },
        Err(_) => None,
    }
}

/// The EIP-55 checksum text of an address: "0x", then its lowercase hex,
/// where the `i`th letter is raised to uppercase when the `i`th hex digit of
/// the Keccak-256 digest of that lowercase text is 8 or more.
pub open spec fn checksum_text(a: Seq<u8>) -> Seq<char> {
    let h = hex_lower(a);
    let k = keccak256_spec(h.map_values(|c: char| c as u8));
    seq!['0', 'x'] + Seq::new(
        h.len(),
        |i: int|
            {
                let nibble = if i % 2 == 0 {
                    k[i / 2] / 16
                } else {
                    k[i / 2] % 16
                };
                if 'a' <= h[i] && h[i] <= 'f' && nibble >= 8 {
                    ((h[i] as u32) - 32) as char
                } else {
                    h[i]
                }
            },
    )
}

/// `Address::to_checksum(None)`: the EIP-55 checksum text of an address.
#[verifier::external_body]
pub fn address_to_hex(a: &[u8]) -> (res: String)
    requires
        a@.len() == 20,
    ensures
        res@ == checksum_text(a@),
{
    alloy::primitives::Address::from_slice(a).to_checksum(None)
}

/// The exchange's signing domain: "Limitless CTF Exchange", version "1", on
/// Base, verified by the venue's exchange contract.
pub fn eip712_domain(venue_exchange: &Vec<u8>) -> (res: Eip712Domain)
    ensures
        res.name@ == "Limitless CTF Exchange"@,
        res.version@ == "1"@,
        res.chain_id == CHAIN_ID,
        res.verifying_contract@ == venue_exchange@,
{
    Eip712Domain {
        name: string_of("Limitless CTF Exchange"),
        version: string_of("1"),
        chain_id: CHAIN_ID,
        verifying_contract: venue_exchange.clone(),
    }
}

/// The 65 signature bytes that the exchange expects: r, s, then v as 27 or 28.
pub open spec fn signature_bytes_spec(r: Seq<u8>, s: Seq<u8>, y_parity: bool) -> Seq<u8> {
    r + s + seq![
        if y_parity {
            28u8
        } else {
            27u8
        },
    ]
}

/// The bytes of a signature: r, s and v (27, or 28 for an odd y).
pub fn signature_to_bytes(r: &Vec<u8>, s: &Vec<u8>, y_parity: bool) -> (res: Vec<u8>)
    ensures
        res@ == signature_bytes_spec(r@, s@, y_parity),
{
    let mut bytes: Vec<u8> = Vec::new();
    crate::eip712::extend_bytes(&mut bytes, r.as_slice());
    crate::eip712::extend_bytes(&mut bytes, s.as_slice());
    bytes.push(if y_parity {
        28u8
    } else {
        27u8
    });
    bytes
}

/// Why an order could not be signed.
#[derive(Clone, Copy, Debug, PartialEq, Eq, Structural)]
pub enum SigningError {
    /// The key is not a valid private key, or signing failed.
    SigningFailed,
}

/// The digest that signs an order for a venue: the EIP-712 digest of the
/// order in the exchange's domain.
pub open spec fn exchange_order_digest(o: Order, venue_exchange: Seq<u8>) -> Seq<u8> {
    order_digest(o, "Limitless CTF Exchange"@, "1"@, CHAIN_ID, venue_exchange)
}

/// Signs an order for the venue's exchange: the 65 signature bytes of the
/// EIP-712 digest of the order in the exchange's domain.
pub fn sign_order(key: &Vec<u8>, order: &Order, venue_exchange: &Vec<u8>) -> (res: Result<
    Vec<u8>,
    SigningError,
>)
    ensures
        ecdsa_signature(key@, exchange_order_digest(*order, venue_exchange@)) matches Some(
            (r, s, v),
        ) ==> (res matches Ok(b) && b@ == signature_bytes_spec(r, s, v)),
        ecdsa_signature(key@, exchange_order_digest(*order, venue_exchange@)) is None ==> res
            == Err::<Vec<u8>, SigningError>(SigningError::SigningFailed),
{
    let domain = eip712_domain(venue_exchange);
    let digest = order_signing_hash(order, &domain);
    match sign_digest(key.as_slice(), digest.as_slice()) {
        Some((r, s, v)) => Ok(signature_to_bytes(&r, &s, v)),
        None => Err(SigningError::SigningFailed),
    }
}

} // verus!
