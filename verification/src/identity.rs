//! Identity derivation: the deterministic 4-byte campaign identifier and the
//! derived custody-authority addresses, both computed by hashing a fixed
//! domain tag or timestamp together with the uniqueness tuple
//! (creator identity, registry counter).

use vstd::prelude::*;
use vstd::bytes::spec_u32_to_le_bytes;
use vstd::bytes::spec_u64_to_le_bytes;
use vstd::bytes::u32_to_le_bytes;
use vstd::bytes::u64_to_le_bytes;
use vstd::slice::slice_to_vec;
use crate::address::Address;

verus! {

/// The SHA-256 digest of a byte sequence: a fixed function of the bytes
/// alone, named here and computed only by the trusted wrapper below.
pub uninterp spec fn sha256_of(data: Seq<u8>) -> Seq<u8>;

/// Relies on `anchor_lang::solana_program::hash::hash`: the SHA-256 digest of
/// `data`, 32 bytes long and a function of the input bytes alone.
#[verifier::external_body]
fn sha256_digest(data: &Vec<u8>) -> (r: Vec<u8>)
    ensures
        r@ == sha256_of(data@),
        r@.len() == 32,
{
    anchor_lang::solana_program::hash::hash(data.as_slice()).to_bytes().to_vec()
}

/// The two's-complement bit pattern of `x`, read as an unsigned value; the
/// little-endian bytes of a timestamp are the bytes of this.
pub open spec fn spec_i64_bits(x: i64) -> u64 {
    if x >= 0 {
        x as u64
    } else {
        (x as int + 0x1_0000_0000_0000_0000) as u64
    }
}

/// The unsigned value whose little-endian bytes are those of `x`.
pub fn i64_bits(x: i64) -> (r: u64)
    ensures
        r == spec_i64_bits(x),
{
    if x >= 0 {
        x as u64
    } else {
        u64::MAX - ((-(x + 1)) as u64)
    }
}

/// The bytes hashed into a campaign identifier: the little-endian timestamp
/// bytes, then the creator's 32 identity bytes, then the little-endian
/// counter bytes.
pub open spec fn spec_id_input(timestamp: i64, creator: Seq<u8>, counter: u32) -> Seq<u8> {
    spec_u64_to_le_bytes(spec_i64_bits(timestamp)) + creator + spec_u32_to_le_bytes(counter)
}

/// A campaign's 4-byte identifier: the first four bytes of the digest of its
/// identity tuple. A fixed function of (timestamp, creator, counter).
pub open spec fn spec_campaign_id(timestamp: i64, creator: Seq<u8>, counter: u32) -> Seq<u8> {
    sha256_of(spec_id_input(timestamp, creator, counter)).take(4)
}

/// Identifier derivation is deterministic: equal identity tuples give equal
/// identifiers, in every call.
pub proof fn lemma_campaign_id_deterministic(
    t1: i64,
    c1: Seq<u8>,
    n1: u32,
    t2: i64,
    c2: Seq<u8>,
    n2: u32,
)
    requires
        t1 == t2,
        c1 == c2,
        n1 == n2,
    ensures
        spec_campaign_id(t1, c1, n1) == spec_campaign_id(t2, c2, n2),
{
}

/// Computes the display identifier of the campaign created at `timestamp` by
/// `creator` under registry counter value `counter`.
pub fn derive_campaign_id(timestamp: i64, creator: &Address, counter: u32) -> (id: [u8; 4])
    ensures
        id@ == spec_campaign_id(timestamp, creator@, counter),
{
    let mut data = u64_to_le_bytes(i64_bits(timestamp));
    let mut creator_bytes = slice_to_vec(creator.bytes.as_slice());
    data.append(&mut creator_bytes);
    let mut counter_bytes = u32_to_le_bytes(counter);
    data.append(&mut counter_bytes);
    assert(data@ == spec_id_input(timestamp, creator@, counter));
    let digest = sha256_digest(&data);
    let id = [digest[0], digest[1], digest[2], digest[3]];
    proof {
        assert(id@ =~= spec_campaign_id(timestamp, creator@, counter));
    }
    id
}

/// The domain tag of a campaign record and its custody authority: the ASCII
/// bytes of "campaign".
pub open spec fn spec_campaign_tag() -> Seq<u8> {
    seq![0x63u8, 0x61u8, 0x6du8, 0x70u8, 0x61u8, 0x69u8, 0x67u8, 0x6eu8]
}

/// The domain tag of an open-campaign record and its custody authority: the
/// ASCII bytes of "open_campaign".
pub open spec fn spec_open_campaign_tag() -> Seq<u8> {
    seq![
        0x6fu8,
        0x70u8,
        0x65u8,
        0x6eu8,
        0x5fu8,
        0x63u8,
        0x61u8,
        0x6du8,
        0x70u8,
        0x61u8,
        0x69u8,
        0x67u8,
        0x6eu8,
    ]
}

/// The campaign domain tag as a value.
pub fn campaign_tag() -> (t: Vec<u8>)
    ensures
        t@ == spec_campaign_tag(),
{
    let mut t: Vec<u8> = Vec::new();
    t.push(0x63);
    t.push(0x61);
    t.push(0x6d);
    t.push(0x70);
    t.push(0x61);
    t.push(0x69);
    t.push(0x67);
    t.push(0x6e);
    proof {
        assert(t@ =~= spec_campaign_tag());
    }
    t
}

/// The open-campaign domain tag as a value.
pub fn open_campaign_tag() -> (t: Vec<u8>)
    ensures
        t@ == spec_open_campaign_tag(),
{
    let mut t: Vec<u8> = Vec::new();
    t.push(0x6f);
    t.push(0x70);
    t.push(0x65);
    t.push(0x6e);
    t.push(0x5f);
    let mut tail = campaign_tag();
    t.append(&mut tail);
    proof {
        assert(t@ =~= spec_open_campaign_tag());
    }
    t
}

/// The address derived from a domain tag and the uniqueness tuple: the digest
/// of tag bytes, creator bytes and little-endian counter bytes. One-way and
/// deterministic, it both locates the record and names the only authority
/// that may move funds out of the record's custody account.
pub open spec fn spec_derived_address(tag: Seq<u8>, creator: Seq<u8>, counter: u32) -> Seq<u8> {
    sha256_of(tag + creator + spec_u32_to_le_bytes(counter))
}

/// Computes the derived address for `tag` and the tuple (creator, counter).
pub fn derive_address(tag: &Vec<u8>, creator: &Address, counter: u32) -> (a: Address)
    ensures
        a@ == spec_derived_address(tag@, creator@, counter),
{
    let mut data = slice_to_vec(tag.as_slice());
    let mut creator_bytes = slice_to_vec(creator.bytes.as_slice());
    data.append(&mut creator_bytes);
    let mut counter_bytes = u32_to_le_bytes(counter);
    data.append(&mut counter_bytes);
    assert(data@ == tag@ + creator@ + spec_u32_to_le_bytes(counter));
    let digest = sha256_digest(&data);
    let mut bytes = [0u8; 32];
    let mut i: usize = 0;
    while i < 32
        invariant
            0 <= i <= 32,
            digest@ == spec_derived_address(tag@, creator@, counter),
            digest@.len() == 32,
            forall|j: int| 0 <= j < i ==> bytes@[j] == digest@[j],
        decreases 32 - i,
    {
        bytes[i] = digest[i];
        i = i + 1;
    }
    let a = Address::new(bytes);
    proof {
        assert(a@ =~= spec_derived_address(tag@, creator@, counter));
    }
    a
}

} // verus!
