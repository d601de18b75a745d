//! EIP-712 typed-data hashing of exchange orders: the 32-byte words of each
//! field, the struct hash of an order, the domain separator of the exchange
//! and the digest that the maker signs.

use vstd::prelude::*;
use vstd::string::StringSliceAdditionalSpecFns;
use vstd::utf8::encode_utf8;
use crate::order::Order;

verus! {

/// The Keccak-256 digest of `data`, as `alloy_primitives::keccak256` computes it.
pub uninterp spec fn keccak256_spec(data: Seq<u8>) -> Seq<u8>;

/// `alloy_primitives::keccak256`: the Keccak-256 digest of `data`, 32 bytes
/// long. The digest itself is only named.
#[verifier::external_body]
pub(crate) fn keccak256(data: &[u8]) -> (res: Vec<u8>)
    ensures
        res@ == keccak256_spec(data@),
        res@.len() == 32,
{
    alloy::primitives::keccak256(data).to_vec()
}

/// The `n` bytes of `v` in big-endian order (the low `n` bytes where `v` is
/// larger).
pub open spec fn be_bytes(v: nat, n: nat) -> Seq<u8>
    decreases n,
{
    if n == 0 {
        seq![]
    } else {
        be_bytes(v / 256, (n - 1) as nat).push((v % 256) as u8)
    }
}

/// The 32-byte word of an unsigned integer (`uint8` to `uint256`).
pub open spec fn uint_word(v: nat) -> Seq<u8> {
    be_bytes(v, 32)
}

/// The 32-byte word of an address: twelve zero bytes, then the 20 bytes.
pub open spec fn address_word(a: Seq<u8>) -> Seq<u8> {
    Seq::new(12, |i: int| 0u8) + a
}

/// The type of the signed order struct.
pub const ORDER_TYPE: &'static str = "Order(uint256 salt,address maker,address signer,address taker,uint256 tokenId,uint256 makerAmount,uint256 takerAmount,uint256 expiration,uint256 nonce,uint256 feeRateBps,uint8 side,uint8 signatureType)";

/// The type of the domain, with the four fields that the exchange's domain sets.
pub const DOMAIN_TYPE: &'static str = "EIP712Domain(string name,string version,uint256 chainId,address verifyingContract)";

/// The encoded fields of an order, one 32-byte word each, in declaration order.
pub open spec fn order_encoding(o: Order) -> Seq<u8> {
    uint_word(o.salt as nat) + address_word(o.maker@) + address_word(o.signer@) + address_word(
        o.taker@,
    ) + o.token_id@ + uint_word(o.maker_amount as nat) + uint_word(o.taker_amount as nat)
        + uint_word(o.expiration as nat) + uint_word(o.nonce as nat) + uint_word(
        o.fee_rate_bps as nat,
    ) + uint_word(o.side as nat) + uint_word(o.signature_type as nat)
}

/// `hashStruct(order)`: the digest of the type hash followed by the encoded fields.
pub open spec fn order_struct_hash(o: Order) -> Seq<u8> {
    keccak256_spec(keccak256_spec(ORDER_TYPE.spec_bytes()) + order_encoding(o))
}

/// The EIP-712 domain of a contract: name, version, chain and contract.
#[derive(Clone, Debug)]
pub struct Eip712Domain {
    pub name: String,
    pub version: String,
    pub chain_id: u64,
    pub verifying_contract: Vec<u8>,
}

/// The domain separator of the domain with these fields: its struct hash,
/// where the strings are encoded as the digests of their UTF-8 bytes.
pub open spec fn domain_separator(
    name: Seq<char>,
    version: Seq<char>,
    chain_id: u64,
    verifying_contract: Seq<u8>,
) -> Seq<u8> {
    keccak256_spec(
        keccak256_spec(DOMAIN_TYPE.spec_bytes()) + keccak256_spec(encode_utf8(name))
            + keccak256_spec(encode_utf8(version)) + uint_word(chain_id as nat) + address_word(
            verifying_contract,
        ),
    )
}

/// The digest that signs an order in the domain with these fields:
/// keccak256(0x19 0x01 || domainSeparator || hashStruct(order)).
pub open spec fn order_digest(
    o: Order,
    name: Seq<char>,
    version: Seq<char>,
    chain_id: u64,
    verifying_contract: Seq<u8>,
) -> Seq<u8> {
    keccak256_spec(
        seq![0x19u8, 0x01u8] + domain_separator(name, version, chain_id, verifying_contract)
            + order_struct_hash(o),
    )
}

/// Appends the bytes of `src` to `buf`.
pub fn extend_bytes(buf: &mut Vec<u8>, src: &[u8])
    ensures
        final(buf)@ == old(buf)@ + src@,
{
    let mut i: usize = 0;
    while i < src.len()
        invariant
            0 <= i <= src.len(),
            buf@ == old(buf)@ + src@.subrange(0, i as int),
        decreases src.len() - i,
    {
        buf.push(src[i]);
        i = i + 1;
        assert(buf@ =~= old(buf)@ + src@.subrange(0, i as int));
    }
    assert(src@.subrange(0, src@.len() as int) =~= src@);
}

/// Appends the `n` big-endian bytes of `v`.
fn push_be_bytes(v: u128, n: usize, buf: &mut Vec<u8>)
    ensures
        final(buf)@ == old(buf)@ + be_bytes(v as nat, n as nat),
    decreases n,
{
    if n > 0 {
        push_be_bytes(v / 256, n - 1, buf);
        buf.push((v % 256) as u8);
        assert(buf@ =~= old(buf)@ + be_bytes(v as nat, n as nat));
    } else {
        assert(buf@ =~= old(buf)@ + be_bytes(v as nat, n as nat));
    }
}

/// Appends the 32-byte word of an unsigned integer.
pub fn push_uint_word(v: u128, buf: &mut Vec<u8>)
    ensures
        final(buf)@ == old(buf)@ + uint_word(v as nat),
{
    push_be_bytes(v, 32, buf);
}

/// Appends the 32-byte word of an address.
pub fn push_address_word(a: &Vec<u8>, buf: &mut Vec<u8>)
    ensures
        final(buf)@ == old(buf)@ + address_word(a@),
{
    let ghost start = buf@;
    let mut i: usize = 0;
    while i < 12
        invariant
            0 <= i <= 12,
            buf@ == start + Seq::new(i as nat, |j: int| 0u8),
        decreases 12 - i,
    {
        buf.push(0u8);
        i = i + 1;
        assert(buf@ =~= start + Seq::new(i as nat, |j: int| 0u8));
    }
    extend_bytes(buf, a.as_slice());
    assert(buf@ =~= start + address_word(a@));
}

/// The struct hash of an order.
pub fn order_hash(o: &Order) -> (res: Vec<u8>)
    ensures
        res@ == order_struct_hash(*o),
{
    let type_hash = keccak256(ORDER_TYPE.as_bytes());
    let mut buf: Vec<u8> = Vec::new();
    extend_bytes(&mut buf, type_hash.as_slice());
    push_uint_word(o.salt as u128, &mut buf);
    push_address_word(&o.maker, &mut buf);
    push_address_word(&o.signer, &mut buf);
    push_address_word(&o.taker, &mut buf);
    extend_bytes(&mut buf, o.token_id.as_slice());
    push_uint_word(o.maker_amount, &mut buf);
    push_uint_word(o.taker_amount, &mut buf);
    push_uint_word(o.expiration as u128, &mut buf);
    push_uint_word(o.nonce as u128, &mut buf);
    push_uint_word(o.fee_rate_bps as u128, &mut buf);
    push_uint_word(o.side as u128, &mut buf);
    push_uint_word(o.signature_type as u128, &mut buf);
    assert(buf@ =~= keccak256_spec(ORDER_TYPE.spec_bytes()) + order_encoding(*o));
    keccak256(buf.as_slice())
}

/// The domain separator of a domain.
pub fn domain_hash(d: &Eip712Domain) -> (res: Vec<u8>)
    ensures
        res@ == domain_separator(d.name@, d.version@, d.chain_id, d.verifying_contract@),
{
    let type_hash = keccak256(DOMAIN_TYPE.as_bytes());
    let name_hash = keccak256(d.name.as_str().as_bytes());
    let version_hash = keccak256(d.version.as_str().as_bytes());
    let mut buf: Vec<u8> = Vec::new();
    extend_bytes(&mut buf, type_hash.as_slice());
    extend_bytes(&mut buf, name_hash.as_slice());
    extend_bytes(&mut buf, version_hash.as_slice());
    push_uint_word(d.chain_id as u128, &mut buf);
    push_address_word(&d.verifying_contract, &mut buf);
    assert(buf@ =~= keccak256_spec(DOMAIN_TYPE.spec_bytes()) + keccak256_spec(
        encode_utf8(d.name@),
    ) + keccak256_spec(encode_utf8(d.version@)) + uint_word(d.chain_id as nat) + address_word(
        d.verifying_contract@,
    ));
    keccak256(buf.as_slice())
}

/// The digest that the maker signs for an order in a domain.
pub fn order_signing_hash(o: &Order, d: &Eip712Domain) -> (res: Vec<u8>)
    ensures
        res@ == order_digest(*o, d.name@, d.version@, d.chain_id, d.verifying_contract@),
        res@.len() == 32,
{
    let domain = domain_hash(d);
    let hash = order_hash(o);
    let mut buf: Vec<u8> = Vec::new();
    buf.push(0x19u8);
    buf.push(0x01u8);
    extend_bytes(&mut buf, domain.as_slice());
    extend_bytes(&mut buf, hash.as_slice());
    assert(buf@ =~= seq![0x19u8, 0x01u8] + domain_separator(
        d.name@,
        d.version@,
        d.chain_id,
        d.verifying_contract@,
    ) + order_struct_hash(*o));
    keccak256(buf.as_slice())
}

/// `be_bytes(v, n)` has `n` bytes.
proof fn lemma_be_bytes_len(v: nat, n: nat)
    ensures
        be_bytes(v, n).len() == n,
    decreases n,
{
    if n > 0 {
        lemma_be_bytes_len(v / 256, (n - 1) as nat);
    }
}

/// Words written one after the other.
pub open spec fn concat_words(ws: Seq<Seq<u8>>) -> Seq<u8>
    decreases ws.len(),
{
    if ws.len() == 0 {
        seq![]
    } else {
        concat_words(ws.drop_last()) + ws.last()
    }
}

/// In words of 32 bytes written one after the other, word `i` starts at
/// byte `32 * i`.
proof fn lemma_concat_words(ws: Seq<Seq<u8>>)
    requires
        forall|i: int| 0 <= i < ws.len() ==> (#[trigger] ws[i]).len() == 32,
    ensures
        concat_words(ws).len() == 32 * ws.len(),
        forall|i: int| 0 <= i < ws.len() ==> word_at(concat_words(ws), i) == #[trigger] ws[i],
    decreases ws.len(),
{
    if ws.len() > 0 {
        let p = ws.drop_last();
        assert forall|i: int| 0 <= i < p.len() implies (#[trigger] p[i]).len() == 32 by {
            assert(p[i] == ws[i]);
        }
        lemma_concat_words(p);
        let c = concat_words(ws);
        assert(c == concat_words(p) + ws.last());
        assert(ws.last() == ws[ws.len() - 1]);
        assert forall|i: int| 0 <= i < ws.len() implies word_at(c, i) == #[trigger] ws[i] by {
            if i < p.len() {
                assert(p[i] == ws[i]);
                assert(word_at(c, i) =~= word_at(concat_words(p), i));
            } else {
                assert(word_at(c, i) =~= ws.last());
            }
        }
    }
}

/// The 32-byte word that starts at byte `32 * i` of an encoding.
pub open spec fn word_at(e: Seq<u8>, i: int) -> Seq<u8> {
    e.subrange(32 * i, 32 * i + 32)
}

/// An order is encoded as twelve 32-byte words, one per field of
/// `ORDER_TYPE` in its declared order: salt, maker, signer, taker, tokenId,
/// makerAmount, takerAmount, expiration, nonce, feeRateBps, side,
/// signatureType. Its struct hash is the digest of the type hash followed
/// by those words.
pub proof fn law_order_words_follow_the_type(o: Order)
    requires
        o.wf(),
    ensures
        order_encoding(o).len() == 384,
        word_at(order_encoding(o), 0) == uint_word(o.salt as nat),
        word_at(order_encoding(o), 1) == address_word(o.maker@),
        word_at(order_encoding(o), 2) == address_word(o.signer@),
        word_at(order_encoding(o), 3) == address_word(o.taker@),
        word_at(order_encoding(o), 4) == o.token_id@,
        word_at(order_encoding(o), 5) == uint_word(o.maker_amount as nat),
        word_at(order_encoding(o), 6) == uint_word(o.taker_amount as nat),
        word_at(order_encoding(o), 7) == uint_word(o.expiration as nat),
        word_at(order_encoding(o), 8) == uint_word(o.nonce as nat),
        word_at(order_encoding(o), 9) == uint_word(o.fee_rate_bps as nat),
        word_at(order_encoding(o), 10) == uint_word(o.side as nat),
        word_at(order_encoding(o), 11) == uint_word(o.signature_type as nat),
        order_struct_hash(o) == keccak256_spec(
            keccak256_spec(ORDER_TYPE.spec_bytes()) + order_encoding(o),
        ),
{
    let w = seq![
        uint_word(o.salt as nat),
        address_word(o.maker@),
        address_word(o.signer@),
        address_word(o.taker@),
        o.token_id@,
        uint_word(o.maker_amount as nat),
        uint_word(o.taker_amount as nat),
        uint_word(o.expiration as nat),
        uint_word(o.nonce as nat),
        uint_word(o.fee_rate_bps as nat),
        uint_word(o.side as nat),
        uint_word(o.signature_type as nat),
    ];
    lemma_be_bytes_len(o.salt as nat, 32);
    lemma_be_bytes_len(o.maker_amount as nat, 32);
    lemma_be_bytes_len(o.taker_amount as nat, 32);
    lemma_be_bytes_len(o.expiration as nat, 32);
    lemma_be_bytes_len(o.nonce as nat, 32);
    lemma_be_bytes_len(o.fee_rate_bps as nat, 32);
    lemma_be_bytes_len(o.side as nat, 32);
    lemma_be_bytes_len(o.signature_type as nat, 32);
    assert forall|i: int| 0 <= i < 12 implies (#[trigger] w[i]).len() == 32 by {}
    lemma_concat_words(w);
    reveal_with_fuel(concat_words, 13);
    assert(w.drop_last().drop_last().drop_last().drop_last().drop_last().drop_last().drop_last()
        .drop_last().drop_last().drop_last().drop_last().drop_last() =~= Seq::<Seq<u8>>::empty());
    assert(order_encoding(o) =~= concat_words(w));
}

} // verus!
