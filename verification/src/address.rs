//! Account addresses: 32 bytes, compared byte by byte.

use vstd::prelude::*;
use anchor_lang::prelude::Pubkey;
use std::str::FromStr;

verus! {

/// The address of an account, an asset or a program.
#[derive(Clone, Copy, Debug, PartialEq, Eq)]
pub struct Address {
    pub bytes: [u8; 32],
}

impl View for Address {
    type V = Seq<u8>;

    open spec fn view(&self) -> Seq<u8> {
        self.bytes@
    }
}

impl Address {
    /// The address made of the given bytes.
    pub fn new(bytes: [u8; 32]) -> (r: Address)
        ensures
            r@ == bytes@,
    {
        Address { bytes }
    }

    /// Whether two addresses hold the same bytes.
    pub fn same(&self, other: &Address) -> (r: bool)
        ensures
            r == (self@ == other@),
    {
        let mut i: usize = 0;
        while i < 32
            invariant
                i <= 32,
                forall|j: int| 0 <= j < i ==> self.bytes[j] == other.bytes[j],
            decreases 32 - i,
        {
            if self.bytes[i] != other.bytes[i] {
                return false;
            }
            i += 1;
        }
        assert(self@ =~= other@);
        true
    }
}

/// The bytes that a base58 text stands for, where it stands for 32 bytes.
pub uninterp spec fn decoded_base58(text: Seq<char>) -> Option<Seq<u8>>;

/// The address and bump seed that a program derives from a list of seeds,
/// where it can derive one.
pub uninterp spec fn program_address(seeds: Seq<Seq<u8>>, program: Seq<u8>) -> Option<(Seq<u8>, u8)>;

/// The view of an address that may be absent.
pub open spec fn option_view(a: Option<Address>) -> Option<Seq<u8>> {
    match a {
        Some(x) => Some(x@),
        None => None,
    }
}

/// The view of a derived address and its bump seed, where there is one.
pub open spec fn derived_view(d: Option<(Address, u8)>) -> Option<(Seq<u8>, u8)> {
    match d {
        Some((a, bump)) => Some((a@, bump)),
        None => None,
    }
}

/// Calls `Pubkey::from_str`: the 32 bytes that the base58 text decodes to, or
/// `None` where the text is no base58 form of 32 bytes. Nothing is claimed of
/// the bytes but that they depend on the text alone.
#[verifier::external_body]
fn parse_address(text: &str) -> (r: Option<Address>)
    ensures
        option_view(r) == decoded_base58(text@),
{
    match Pubkey::from_str(text) {
        Ok(key) => Some(Address { bytes: key.to_bytes() }),
        Err(_) => None,
    }
}

/// Calls `Pubkey::try_find_program_address`: the first address off the curve
/// that the seeds, a bump seed counted down from 255, and the program give,
/// with that bump seed; `None` where no bump seed gives one or the seeds are
/// too many or too long. Nothing is claimed of the result but that it depends
/// on the seeds and the program alone.
#[verifier::external_body]
fn find_program_address(seeds: &Vec<Vec<u8>>, program: &Address) -> (r: Option<(Address, u8)>)
    ensures
        derived_view(r) == program_address(seeds.deep_view(), program@),
{
    let parts: Vec<&[u8]> = seeds.iter().map(|s| s.as_slice()).collect();
    match Pubkey::try_find_program_address(&parts, &Pubkey::new_from_array(program.bytes)) {
        Some((key, bump)) => Some((Address { bytes: key.to_bytes() }, bump)),
        None => None,
    }
}

/// Thirty-two zero bytes.
pub open spec fn zero_bytes() -> Seq<u8> {
    Seq::new(32, |i: int| 0u8)
}

/// The address with the given bytes.
pub open spec fn address_with(bytes: Seq<u8>) -> Address {
    choose|a: Address| a@ == bytes
}

/// Addresses with the same bytes are the same address.
pub proof fn lemma_same_bytes(a: Address, b: Address)
    requires
        a@ == b@,
    ensures
        a == b,
{
    assert forall|i: int| 0 <= i < 32 implies a.bytes[i] == b.bytes[i] by {
        assert(a@[i] == b@[i]);
    }
    assert(a.bytes =~= b.bytes);
}

/// An address is the address with its bytes.
pub proof fn lemma_address_with(a: Address)
    ensures
        address_with(a@) == a,
{
    lemma_same_bytes(address_with(a@), a);
}

/// Whether the 32 bytes are all zero.
pub fn is_zero(bytes: &[u8; 32]) -> (r: bool)
    ensures
        r == (bytes@ == zero_bytes()),
{
    let mut i: usize = 0;
    while i < 32
        invariant
            i <= 32,
            forall|j: int| 0 <= j < i ==> bytes[j] == 0,
        decreases 32 - i,
    {
        if bytes[i] != 0 {
            assert(zero_bytes()[i as int] == 0);
            return false;
        }
        i += 1;
    }
    assert(bytes@ =~= zero_bytes());
    true
}

/// The base58 text of the native asset's address.
pub open spec fn native_text() -> Seq<char> {
    "So11111111111111111111111111111111111111112"@
}

/// The native asset's address: what the text of it decodes to, if anything.
pub open spec fn native_asset() -> Option<Address> {
    match decoded_base58(native_text()) {
        Some(bytes) => Some(address_with(bytes)),
        None => None,
    }
}

/// The address that stands for the chain's own asset. `None` where its text
/// does not decode, in which case no asset is the native one.
pub fn native_token() -> (r: Option<Address>)
    ensures
        r == native_asset(),
{
    let r = parse_address("So11111111111111111111111111111111111111112");
    proof {
        if let Some(a) = r {
            lemma_address_with(a);
        }
    }
    r
}

/// The tag that starts the seeds of every order's address: `limit_order`.
pub open spec fn order_tag() -> Seq<u8> {
    seq![108u8, 105u8, 109u8, 105u8, 116u8, 95u8, 111u8, 114u8, 100u8, 101u8, 114u8]
}

/// The eight bytes of an expiry, lowest first.
pub open spec fn expiry_bytes(expiry: i64) -> Seq<u8> {
    vstd::bytes::spec_u64_to_le_bytes(expiry as u64)
}

/// The seeds of an order's address: the tag, the sender, the expiry.
pub open spec fn order_seeds_of(sender: Seq<u8>, expiry: i64) -> Seq<Seq<u8>> {
    seq![order_tag(), sender, expiry_bytes(expiry)]
}

/// The address and bump seed of the order that a sender opens with an
/// expiry, under a program; `None` where the program derives none.
pub open spec fn order_address(program: Seq<u8>, sender: Seq<u8>, expiry: i64) -> Option<
    (Address, u8),
> {
    match program_address(order_seeds_of(sender, expiry), program) {
        Some((bytes, bump)) => Some((address_with(bytes), bump)),
        None => None,
    }
}

/// The bytes of an address, as a vector.
fn address_bytes(a: &Address) -> (v: Vec<u8>)
    ensures
        v@ == a@,
{
    let mut v: Vec<u8> = Vec::new();
    let mut i: usize = 0;
    while i < 32
        invariant
            i <= 32,
            v@.len() == i,
            forall|j: int| 0 <= j < i ==> v@[j] == a.bytes[j],
        decreases 32 - i,
    {
        v.push(a.bytes[i]);
        i += 1;
    }
    assert(v@ =~= a@);
    v
}

/// Builds the seeds of an order's address.
pub fn order_seeds(sender: &Address, expiry: i64) -> (seeds: Vec<Vec<u8>>)
    ensures
        seeds.deep_view() == order_seeds_of(sender@, expiry),
{
    let tag: Vec<u8> = vec![108u8, 105u8, 109u8, 105u8, 116u8, 95u8, 111u8, 114u8, 100u8, 101u8, 114u8];
    assert(tag@ =~= order_tag());
    let who = address_bytes(sender);
    let when = vstd::bytes::u64_to_le_bytes(#[verifier::truncate] (expiry as u64));
    let mut seeds: Vec<Vec<u8>> = Vec::new();
    seeds.push(tag);
    seeds.push(who);
    seeds.push(when);
    proof {
        let deep = seeds.deep_view();
        let want = order_seeds_of(sender@, expiry);
        assert(deep.len() == 3);
        assert(deep[0] =~= want[0]);
        assert(deep[1] =~= want[1]);
        assert(deep[2] =~= want[2]);
        assert(deep =~= want);
    }
    seeds
}

/// Derives the address under which the order of a sender and an expiry is
/// kept, and its bump seed.
pub fn derive_order_address(program: &Address, sender: &Address, expiry: i64) -> (r: Option<
    (Address, u8),
>)
    ensures
        r == order_address(program@, sender@, expiry),
{
    let seeds = order_seeds(sender, expiry);
    let r = find_program_address(&seeds, program);
    proof {
        if let Some((a, bump)) = r {
            lemma_address_with(a);
        }
    }
    r
}

} // verus!
