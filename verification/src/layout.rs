//! How the records are stored: a tag of eight bytes, then the fields in
//! order, integers with the lowest byte first.

use vstd::prelude::*;
use vstd::bytes::{
    lemma_auto_spec_u16_to_from_le_bytes,
    lemma_auto_spec_u64_to_from_le_bytes,
    spec_u16_to_le_bytes,
    spec_u64_to_le_bytes,
    u16_from_le_bytes,
    u16_to_le_bytes,
    u64_from_le_bytes,
    u64_to_le_bytes,
};
use vstd::slice::slice_subrange;
use crate::address::{lemma_same_bytes, Address};
use crate::records::{GlobalConfig, LimitOrder};

verus! {

/// The number of bytes of a stored configuration, tag included.
pub const CONFIG_LEN: usize = 203;

/// The number of bytes of a stored order, tag included.
pub const ORDER_LEN: usize = 201;

/// The tag of a stored configuration.
pub open spec fn config_tag() -> Seq<u8> {
    seq![149u8, 8u8, 156u8, 202u8, 160u8, 252u8, 176u8, 217u8]
}

/// The tag of a stored order.
pub open spec fn order_tag() -> Seq<u8> {
    seq![137u8, 183u8, 212u8, 91u8, 115u8, 29u8, 141u8, 227u8]
}

/// The byte that stands for a flag.
pub open spec fn flag_byte(b: bool) -> u8 {
    if b {
        1
    } else {
        0
    }
}

/// The bytes of a stored configuration.
pub open spec fn config_bytes(c: GlobalConfig) -> Seq<u8> {
    config_tag() + c.owner@ + spec_u16_to_le_bytes(c.platform_fee) + c.treasury@ + seq![
        flag_byte(c.paused),
    ] + c.reserved@
}

/// The bytes of a stored order.
pub open spec fn order_bytes(o: LimitOrder) -> Seq<u8> {
    order_tag() + o.from_token@ + spec_u64_to_le_bytes(o.from_chain_id) + spec_u64_to_le_bytes(
        o.amount_in,
    ) + spec_u64_to_le_bytes(o.to_chain_id) + o.to_token@ + o.recipient@ + o.sender@
        + spec_u64_to_le_bytes(o.expiry as u64) + o.amount_out@ + seq![o.bump]
}

/// Whether the bytes are a stored configuration: the length, the tag, and a
/// flag that is zero or one.
pub open spec fn is_config_bytes(s: Seq<u8>) -> bool {
    s.len() == 203 && s.subrange(0, 8) == config_tag() && s[74] <= 1
}

/// Whether the bytes are a stored order: the length and the tag.
pub open spec fn is_order_bytes(s: Seq<u8>) -> bool {
    s.len() == 201 && s.subrange(0, 8) == order_tag()
}

/// Where each field of a stored configuration lies.
pub proof fn lemma_config_fields(c: GlobalConfig)
    ensures
        is_config_bytes(config_bytes(c)),
        config_bytes(c).subrange(8, 40) == c.owner@,
        config_bytes(c).subrange(40, 42) == spec_u16_to_le_bytes(c.platform_fee),
        config_bytes(c).subrange(42, 74) == c.treasury@,
        config_bytes(c)[74] == flag_byte(c.paused),
        config_bytes(c).subrange(75, 203) == c.reserved@,
{
    lemma_auto_spec_u16_to_from_le_bytes();
    let s = config_bytes(c);
    assert(s.len() == 203);
    assert(s.subrange(0, 8) =~= config_tag());
    assert(s.subrange(8, 40) =~= c.owner@);
    assert(s.subrange(40, 42) =~= spec_u16_to_le_bytes(c.platform_fee));
    assert(s.subrange(42, 74) =~= c.treasury@);
    assert(s.subrange(75, 203) =~= c.reserved@);
}

/// Two configurations that are stored under the same bytes are the same.
pub proof fn lemma_config_bytes_distinct(a: GlobalConfig, b: GlobalConfig)
    requires
        config_bytes(a) == config_bytes(b),
    ensures
        a == b,
{
    lemma_config_fields(a);
    lemma_config_fields(b);
    lemma_auto_spec_u16_to_from_le_bytes();
    lemma_same_bytes(a.owner, b.owner);
    lemma_same_bytes(a.treasury, b.treasury);
    assert(a.platform_fee == b.platform_fee);
    assert(a.paused == b.paused);
    assert forall|i: int| 0 <= i < 128 implies a.reserved[i] == b.reserved[i] by {
        assert(a.reserved@[i] == b.reserved@[i]);
    }
    assert(a.reserved =~= b.reserved);
}

/// Where each field of a stored order lies.
pub proof fn lemma_order_fields(o: LimitOrder)
    ensures
        is_order_bytes(order_bytes(o)),
        order_bytes(o).subrange(8, 40) == o.from_token@,
        order_bytes(o).subrange(40, 48) == spec_u64_to_le_bytes(o.from_chain_id),
        order_bytes(o).subrange(48, 56) == spec_u64_to_le_bytes(o.amount_in),
        order_bytes(o).subrange(56, 64) == spec_u64_to_le_bytes(o.to_chain_id),
        order_bytes(o).subrange(64, 96) == o.to_token@,
        order_bytes(o).subrange(96, 128) == o.recipient@,
        order_bytes(o).subrange(128, 160) == o.sender@,
        order_bytes(o).subrange(160, 168) == spec_u64_to_le_bytes(o.expiry as u64),
        order_bytes(o).subrange(168, 200) == o.amount_out@,
        order_bytes(o)[200] == o.bump,
{
    lemma_auto_spec_u64_to_from_le_bytes();
    let s = order_bytes(o);
    assert(s.len() == 201);
    assert(s.subrange(0, 8) =~= order_tag());
    assert(s.subrange(8, 40) =~= o.from_token@);
    assert(s.subrange(40, 48) =~= spec_u64_to_le_bytes(o.from_chain_id));
    assert(s.subrange(48, 56) =~= spec_u64_to_le_bytes(o.amount_in));
    assert(s.subrange(56, 64) =~= spec_u64_to_le_bytes(o.to_chain_id));
    assert(s.subrange(64, 96) =~= o.to_token@);
    assert(s.subrange(96, 128) =~= o.recipient@);
    assert(s.subrange(128, 160) =~= o.sender@);
    assert(s.subrange(160, 168) =~= spec_u64_to_le_bytes(o.expiry as u64));
    assert(s.subrange(168, 200) =~= o.amount_out@);
}

/// Arrays of 32 bytes with the same bytes are the same.
proof fn lemma_same_array(a: [u8; 32], b: [u8; 32])
    requires
        a@ == b@,
    ensures
        a == b,
{
    assert forall|i: int| 0 <= i < 32 implies a[i] == b[i] by {
        assert(a@[i] == b@[i]);
    }
    assert(a =~= b);
}

/// Two orders that are stored under the same bytes are the same.
pub proof fn lemma_order_bytes_distinct(a: LimitOrder, b: LimitOrder)
    requires
        order_bytes(a) == order_bytes(b),
    ensures
        a == b,
{
    lemma_order_fields(a);
    lemma_order_fields(b);
    lemma_auto_spec_u64_to_from_le_bytes();
    lemma_same_bytes(a.from_token, b.from_token);
    lemma_same_bytes(a.sender, b.sender);
    lemma_same_array(a.to_token, b.to_token);
    lemma_same_array(a.recipient, b.recipient);
    lemma_same_array(a.amount_out, b.amount_out);
    assert(a.from_chain_id == b.from_chain_id);
    assert(a.amount_in == b.amount_in);
    assert(a.to_chain_id == b.to_chain_id);
    let x = a.expiry;
    let y = b.expiry;
    assert(x as u64 == y as u64);
    assert(x == y) by (bit_vector)
        requires
            x as u64 == y as u64,
    ;
    assert(a.bump == b.bump);
}

/// Appends bytes to a vector.
fn append(out: &mut Vec<u8>, bytes: &[u8])
    ensures
        final(out)@ == old(out)@ + bytes@,
{
    let mut i: usize = 0;
    while i < bytes.len()
        invariant
            i <= bytes@.len(),
            out@ == old(out)@ + bytes@.subrange(0, i as int),
        decreases bytes@.len() - i,
    {
        out.push(bytes[i]);
        i += 1;
        assert(out@ =~= old(out)@ + bytes@.subrange(0, i as int));
    }
    assert(bytes@.subrange(0, i as int) =~= bytes@);
}

/// The `N` bytes that start at a place.
fn take<const N: usize>(bytes: &[u8], at: usize) -> (r: [u8; N])
    requires
        at + N <= bytes@.len(),
    ensures
        r@ == bytes@.subrange(at as int, at + N),
{
    let total = bytes.len();
    let mut r = [0u8;N];
    let mut i: usize = 0;
    while i < N
        invariant
            i <= N,
            at + N <= total,
            total == bytes@.len(),
            forall|j: int| 0 <= j < i ==> r@[j] == bytes@[at + j],
        decreases N - i,
    {
        r[i] = bytes[at + i];
        i += 1;
    }
    assert(r@ =~= bytes@.subrange(at as int, at + N));
    r
}

/// The integer of 64 bits whose eight bytes start at a place.
fn take_u64(bytes: &[u8], at: usize) -> (r: u64)
    requires
        at + 8 <= bytes@.len(),
    ensures
        spec_u64_to_le_bytes(r) == bytes@.subrange(at as int, at + 8),
{
    proof {
        lemma_auto_spec_u64_to_from_le_bytes();
    }
    let total = bytes.len();
    u64_from_le_bytes(slice_subrange(bytes, at, at + 8))
}

/// Whether the bytes start with the tag.
fn has_tag(bytes: &[u8], tag: &[u8; 8]) -> (r: bool)
    requires
        bytes@.len() >= 8,
    ensures
        r == (bytes@.subrange(0, 8) == tag@),
{
    let mut i: usize = 0;
    while i < 8
        invariant
            i <= 8,
            bytes@.len() >= 8,
            forall|j: int| 0 <= j < i ==> bytes@[j] == tag@[j],
        decreases 8 - i,
    {
        if bytes[i] != tag[i] {
            assert(bytes@.subrange(0, 8)[i as int] != tag@[i as int]);
            return false;
        }
        i += 1;
    }
    assert(bytes@.subrange(0, 8) =~= tag@);
    true
}

/// The bytes under which a configuration is stored.
pub fn encode_config(c: &GlobalConfig) -> (out: Vec<u8>)
    ensures
        out@ == config_bytes(*c),
        out@.len() == 203,
{
    proof {
        lemma_auto_spec_u16_to_from_le_bytes();
    }
    let tag: [u8; 8] = [149, 8, 156, 202, 160, 252, 176, 217];
    assert(tag@ =~= config_tag());
    let mut out: Vec<u8> = Vec::new();
    append(&mut out, &tag);
    append(&mut out, &c.owner.bytes);
    let fee = u16_to_le_bytes(c.platform_fee);
    append(&mut out, fee.as_slice());
    append(&mut out, &c.treasury.bytes);
    out.push(if c.paused { 1 } else { 0 });
    append(&mut out, &c.reserved);
    assert(out@ =~= config_bytes(*c));
    out
}

/// The configuration that the bytes store, where they store one.
pub fn decode_config(bytes: &[u8]) -> (r: Option<GlobalConfig>)
    ensures
        r is Some <==> is_config_bytes(bytes@),
        r matches Some(c) ==> config_bytes(c) == bytes@,
{
    if bytes.len() != CONFIG_LEN {
        return None;
    }
    let tag: [u8; 8] = [149, 8, 156, 202, 160, 252, 176, 217];
    assert(tag@ =~= config_tag());
    if !has_tag(bytes, &tag) {
        return None;
    }
    if bytes[74] > 1 {
        return None;
    }
    proof {
        lemma_auto_spec_u16_to_from_le_bytes();
    }
    let c = GlobalConfig {
        owner: Address { bytes: take::<32>(bytes, 8) },
        platform_fee: u16_from_le_bytes(slice_subrange(bytes, 40, 42)),
        treasury: Address { bytes: take::<32>(bytes, 42) },
        paused: bytes[74] == 1,
        reserved: take::<128>(bytes, 75),
    };
    assert(config_bytes(c) =~= bytes@);
    Some(c)
}

/// The bytes under which an order is stored.
pub fn encode_order(o: &LimitOrder) -> (out: Vec<u8>)
    ensures
        out@ == order_bytes(*o),
        out@.len() == 201,
{
    proof {
        lemma_auto_spec_u64_to_from_le_bytes();
    }
    let tag: [u8; 8] = [137, 183, 212, 91, 115, 29, 141, 227];
    assert(tag@ =~= order_tag());
    let mut out: Vec<u8> = Vec::new();
    append(&mut out, &tag);
    append(&mut out, &o.from_token.bytes);
    let from_chain = u64_to_le_bytes(o.from_chain_id);
    append(&mut out, from_chain.as_slice());
    let amount = u64_to_le_bytes(o.amount_in);
    append(&mut out, amount.as_slice());
    let to_chain = u64_to_le_bytes(o.to_chain_id);
    append(&mut out, to_chain.as_slice());
    append(&mut out, &o.to_token);
    append(&mut out, &o.recipient);
    append(&mut out, &o.sender.bytes);
    let expiry = u64_to_le_bytes(#[verifier::truncate] (o.expiry as u64));
    append(&mut out, expiry.as_slice());
    append(&mut out, &o.amount_out);
    out.push(o.bump);
    assert(out@ =~= order_bytes(*o));
    out
}

/// The order that the bytes store, where they store one.
pub fn decode_order(bytes: &[u8]) -> (r: Option<LimitOrder>)
    ensures
        r is Some <==> is_order_bytes(bytes@),
        r matches Some(o) ==> order_bytes(o) == bytes@,
{
    if bytes.len() != ORDER_LEN {
        return None;
    }
    let tag: [u8; 8] = [137, 183, 212, 91, 115, 29, 141, 227];
    assert(tag@ =~= order_tag());
    if !has_tag(bytes, &tag) {
        return None;
    }
    proof {
        lemma_auto_spec_u64_to_from_le_bytes();
    }
    let bits = take_u64(bytes, 160);
    let expiry: i64 = #[verifier::truncate] (bits as i64);
    assert((bits as i64) as u64 == bits) by (bit_vector);
    let o = LimitOrder {
        from_token: Address { bytes: take::<32>(bytes, 8) },
        from_chain_id: take_u64(bytes, 40),
        amount_in: take_u64(bytes, 48),
        to_chain_id: take_u64(bytes, 56),
        to_token: take::<32>(bytes, 64),
        recipient: take::<32>(bytes, 96),
        sender: Address { bytes: take::<32>(bytes, 128) },
        expiry,
        amount_out: take::<32>(bytes, 168),
        bump: bytes[200],
    };
    assert(order_bytes(o) =~= bytes@);
    Some(o)
}

} // verus!
