//! Seed byte derivation for deterministically addressed ledger accounts.
//!
//! Accounts touched by the launch workflow are not referenced by stored
//! pointers: their addresses are computed from ordered byte concatenations of
//! a fixed tag, account keys, and big-endian encoded tick indices. This
//! module builds those exact byte strings; hashing a seed string into an
//! address is the host ledger's job and stays outside the library.

use vstd::prelude::*;

verus! {

/// Byte length of a ledger account key.
pub const KEY_LEN: usize = 32;

/// Tag opening the seed string of a pool account: the bytes of `pool`.
pub open spec fn pool_tag() -> Seq<u8> {
    seq![112u8, 111u8, 111u8, 108u8]
}

/// Tag opening the seed string of a protocol or personal position account:
/// the bytes of `position`.
pub open spec fn position_tag() -> Seq<u8> {
    seq![112u8, 111u8, 115u8, 105u8, 116u8, 105u8, 111u8, 110u8]
}

/// Tag opening the seed string of a tick array account: the bytes of
/// `tick_array`.
pub open spec fn tick_array_tag() -> Seq<u8> {
    seq![116u8, 105u8, 99u8, 107u8, 95u8, 97u8, 114u8, 114u8, 97u8, 121u8]
}

/// Big-endian byte decomposition of a 32-bit value.
pub open spec fn u32_be_bytes(x: u32) -> Seq<u8> {
    seq![
        (x / 0x1000000) as u8,
        ((x / 0x10000) % 0x100) as u8,
        ((x / 0x100) % 0x100) as u8,
        (x % 0x100) as u8,
    ]
}

/// Two's-complement 32-bit reading of a tick index.
pub open spec fn i32_as_u32(x: i32) -> u32 {
    if x >= 0 {
        x as u32
    } else {
        (x + 0x100000000) as u32
    }
}

/// Big-endian encoding of a tick index, as it enters derivation inputs.
pub open spec fn i32_be_bytes(x: i32) -> Seq<u8> {
    u32_be_bytes(i32_as_u32(x))
}

/// Encodes a tick index as the four big-endian bytes used in seed strings.
pub fn tick_be_bytes(x: i32) -> (r: Vec<u8>)
    ensures
        r@ == i32_be_bytes(x),
        r@.len() == 4,
{
    let wide: i64 = x as i64;
    let v: u32 = if wide >= 0 {
        wide as u32
    } else {
        (wide + 0x100000000) as u32
    };
    proof {
        assert(v == i32_as_u32(x));
    }
    let mut r: Vec<u8> = Vec::new();
    r.push((v / 0x1000000) as u8);
    r.push(((v / 0x10000) % 0x100) as u8);
    r.push(((v / 0x100) % 0x100) as u8);
    r.push((v % 0x100) as u8);
    proof {
        assert(r@ =~= i32_be_bytes(x));
    }
    r
}

/// Appends a byte string to a seed string under construction.
fn append_bytes(dst: &mut Vec<u8>, src: &Vec<u8>)
    ensures
        final(dst)@ == old(dst)@ + src@,
{
    let mut i: usize = 0;
    while i < src.len()
        invariant
            i <= src.len(),
            dst@ == old(dst)@ + src@.subrange(0, i as int),
        decreases src.len() - i,
    {
        let b: u8 = src[i];
        dst.push(b);
        i = i + 1;
        proof {
            assert(dst@ =~= old(dst)@ + src@.subrange(0, i as int));
        }
    }
    proof {
        assert(src@.subrange(0, src@.len() as int) =~= src@);
    }
}

/// Seed string from which a pool account's address is derived: the pool
/// tag, then the fee-config key and the two mint keys, in that order.
pub fn pool_seed_bytes(amm_config: &Vec<u8>, token_mint_0: &Vec<u8>, token_mint_1: &Vec<u8>) -> (r:
    Vec<u8>)
    requires
        amm_config@.len() == KEY_LEN,
        token_mint_0@.len() == KEY_LEN,
        token_mint_1@.len() == KEY_LEN,
    ensures
        r@ == pool_tag() + amm_config@ + token_mint_0@ + token_mint_1@,
        r@.len() == 100,
{
    let mut r: Vec<u8> = Vec::new();
    r.push(112);
    r.push(111);
    r.push(111);
    r.push(108);
    proof {
        assert(r@ =~= pool_tag());
    }
    append_bytes(&mut r, amm_config);
    append_bytes(&mut r, token_mint_0);
    append_bytes(&mut r, token_mint_1);
    r
}

/// Seed string of the protocol position shared by every depositor over one
/// tick range: the position tag, the pool key, then both tick indices in
/// big-endian form.
pub fn protocol_position_seed_bytes(pool_state: &Vec<u8>, tick_lower: i32, tick_upper: i32) -> (r:
    Vec<u8>)
    requires
        pool_state@.len() == KEY_LEN,
    ensures
        r@ == position_tag() + pool_state@ + i32_be_bytes(tick_lower) + i32_be_bytes(tick_upper),
        r@.len() == 48,
{
    let mut r: Vec<u8> = Vec::new();
    r.push(112);
    r.push(111);
    r.push(115);
    r.push(105);
    r.push(116);
    r.push(105);
    r.push(111);
    r.push(110);
    proof {
        assert(r@ =~= position_tag());
    }
    append_bytes(&mut r, pool_state);
    let lower = tick_be_bytes(tick_lower);
    append_bytes(&mut r, &lower);
    let upper = tick_be_bytes(tick_upper);
    append_bytes(&mut r, &upper);
    r
}

/// Seed string of a depositor's personal position: the position tag
/// followed by the key of the uniquely minted ownership token.
pub fn personal_position_seed_bytes(position_nft_mint: &Vec<u8>) -> (r: Vec<u8>)
    requires
        position_nft_mint@.len() == KEY_LEN,
    ensures
        r@ == position_tag() + position_nft_mint@,
        r@.len() == 40,
{
    let mut r: Vec<u8> = Vec::new();
    r.push(112);
    r.push(111);
    r.push(115);
    r.push(105);
    r.push(116);
    r.push(105);
    r.push(111);
    r.push(110);
    proof {
        assert(r@ =~= position_tag());
    }
    append_bytes(&mut r, position_nft_mint);
    r
}

/// Seed string of a tick array: the tick-array tag, the pool key, then the
/// array's start index in big-endian form.
pub fn tick_array_seed_bytes(pool_state: &Vec<u8>, start_index: i32) -> (r: Vec<u8>)
    requires
        pool_state@.len() == KEY_LEN,
    ensures
        r@ == tick_array_tag() + pool_state@ + i32_be_bytes(start_index),
        r@.len() == 46,
{
    let mut r: Vec<u8> = Vec::new();
    r.push(116);
    r.push(105);
    r.push(99);
    r.push(107);
    r.push(95);
    r.push(97);
    r.push(114);
    r.push(114);
    r.push(97);
    r.push(121);
    proof {
        assert(r@ =~= tick_array_tag());
    }
    append_bytes(&mut r, pool_state);
    let start = tick_be_bytes(start_index);
    append_bytes(&mut r, &start);
    r
}

} // verus!
