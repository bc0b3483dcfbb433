//! The hashes by which a registry tells descriptors apart.
//!
//! The `prometheus` crate gives each descriptor an id: it feeds the
//! descriptor's name, and then one separator byte, to the hasher of the `fnv`
//! crate, which starts from a fixed basis. A registry refuses a descriptor
//! whose id it already holds, so whether two gauges can stand in one registry
//! is a question about this hash. The dimension hash of a descriptor without
//! labels is made in the same way from its help text.

use vstd::prelude::*;

verus! {

/// The state in which the hasher starts.
pub const FNV_BASIS: u64 = 0xcbf29ce484222325;

/// The number by which the hasher multiplies.
pub const FNV_PRIME: u64 = 0x100000001b3;

/// The byte that is hashed after the name.
pub const SEPARATOR: u8 = 0xFF;

/// The hasher's state after one more byte: the byte is combined into the
/// state by exclusive or, and the state is multiplied by the prime, wrapping.
pub open spec fn fnv_step(hash: u64, byte: u8) -> u64 {
    (hash ^ (byte as u64)).wrapping_mul(FNV_PRIME)
}

/// The hasher's state after the first `n` bytes of `bytes`.
pub open spec fn fnv_prefix(bytes: Seq<u8>, n: nat) -> u64
    decreases n,
{
    if n == 0 {
        FNV_BASIS
    } else {
        fnv_step(fnv_prefix(bytes, (n - 1) as nat), bytes[n - 1])
    }
}

/// The hash of `bytes`.
pub open spec fn fnv_hash(bytes: Seq<u8>) -> u64 {
    fnv_prefix(bytes, bytes.len())
}

/// The hash of a text's bytes and the separator.
pub open spec fn separated_hash(text: Seq<char>) -> u64 {
    fnv_step(fnv_hash(vstd::utf8::encode_utf8(text)), SEPARATOR)
}

/// The id of a descriptor that has the given name and no labels.
pub open spec fn descriptor_id(name: Seq<char>) -> u64 {
    separated_hash(name)
}

/// The dimension hash of a descriptor that has the given help text and no
/// labels.
pub open spec fn dimension_hash(help: Seq<char>) -> u64 {
    separated_hash(help)
}

/// How many of the first `n` bytes of `bytes` are odd.
pub open spec fn odd_bytes(bytes: Seq<u8>, n: nat) -> nat
    decreases n,
{
    if n == 0 {
        0
    } else {
        odd_bytes(bytes, (n - 1) as nat) + (bytes[n - 1] % 2) as nat
    }
}

/// A step changes the lowest bit of the state exactly when the byte is odd.
pub proof fn lemma_step_parity(hash: u64, byte: u8)
    ensures
        fnv_step(hash, byte) % 2 == (hash % 2 + byte % 2) % 2,
{
    let wide = byte as u64;
    let mixed = hash ^ wide;
    assert(mixed % 2 == (hash % 2 + wide % 2) % 2) by (bit_vector)
        requires
            mixed == hash ^ wide,
    ;
    let product = mixed as nat * FNV_PRIME as nat;
    assert((product % 0x1_0000_0000_0000_0000) % 2 == mixed % 2) by (nonlinear_arith)
        requires
            product == mixed as nat * 0x100000001b3,
    ;
}

/// The lowest bit of a hash is that of the basis, changed once for each odd
/// byte.
pub proof fn lemma_hash_parity(bytes: Seq<u8>, n: nat)
    ensures
        fnv_prefix(bytes, n) % 2 == (1 + odd_bytes(bytes, n)) % 2,
    decreases n,
{
    if n > 0 {
        lemma_hash_parity(bytes, (n - 1) as nat);
        lemma_step_parity(fnv_prefix(bytes, (n - 1) as nat), bytes[n - 1]);
    }
}

/// The lowest bit of an id tells whether the name has an odd number of odd
/// bytes: the basis and the separator are both odd, and cancel.
pub proof fn lemma_id_parity(name: Seq<char>)
    ensures
        descriptor_id(name) % 2 == odd_bytes(
            vstd::utf8::encode_utf8(name),
            vstd::utf8::encode_utf8(name).len(),
        ) % 2,
{
    let bytes = vstd::utf8::encode_utf8(name);
    let hash = fnv_hash(bytes);
    let odd = odd_bytes(bytes, bytes.len());
    lemma_hash_parity(bytes, bytes.len());
    lemma_step_parity(hash, SEPARATOR);
    assert(hash % 2 == (1 + odd) % 2);
    assert(fnv_step(hash, SEPARATOR) % 2 == (hash % 2 + 1) % 2);
}

/// Two names of which one has an odd number of odd bytes and the other an
/// even number have different ids.
pub proof fn lemma_ids_differ_by_parity(first: Seq<char>, second: Seq<char>)
    requires
        odd_bytes(vstd::utf8::encode_utf8(first), vstd::utf8::encode_utf8(first).len()) % 2
            != odd_bytes(vstd::utf8::encode_utf8(second), vstd::utf8::encode_utf8(second).len())
            % 2,
    ensures
        descriptor_id(first) != descriptor_id(second),
{
    lemma_id_parity(first);
    lemma_id_parity(second);
}

/// Computes the hash of a text's bytes and the separator.
fn separated_hash_of(text: &str) -> (r: u64)
    ensures
        r == separated_hash(text@),
{
    let bytes = text.as_bytes();
    let mut hash: u64 = FNV_BASIS;
    let mut i: usize = 0;
    while i < bytes.len()
        invariant
            i <= bytes.len(),
            hash == fnv_prefix(bytes@, i as nat),
        decreases bytes.len() - i,
    {
        hash = (hash ^ (bytes[i] as u64)).wrapping_mul(FNV_PRIME);
        i += 1;
    }
    (hash ^ (SEPARATOR as u64)).wrapping_mul(FNV_PRIME)
}

/// Computes the id of a descriptor that has the given name and no labels.
pub fn descriptor_id_of(name: &str) -> (r: u64)
    ensures
        r == descriptor_id(name@),
{
    separated_hash_of(name)
}

/// Computes the dimension hash of a descriptor that has the given help text
/// and no labels.
pub fn dimension_hash_of(help: &str) -> (r: u64)
    ensures
        r == dimension_hash(help@),
{
    separated_hash_of(help)
}

} // verus!
