//! Byte-level encodings shared by the protocol: little-endian and big-endian
//! integer encodings, and appending byte runs to buffers.

use vstd::prelude::*;
use vstd::arithmetic::div_mod::{lemma_breakdown, lemma_fundamental_div_mod, lemma_small_mod};

verus! {

/// `256^n`, the number of values of an `n`-byte string.
pub open spec fn pow256(n: nat) -> nat
    decreases n,
{
    if n == 0 {
        1
    } else {
        256 * pow256((n - 1) as nat)
    }
}

/// The `n`-byte little-endian encoding of `x mod 256^n`.
pub open spec fn le_bytes(x: nat, n: nat) -> Seq<u8>
    decreases n,
{
    if n == 0 {
        Seq::empty()
    } else {
        seq![(x % 256) as u8] + le_bytes(x / 256, (n - 1) as nat)
    }
}

/// The integer a byte string encodes in little-endian order.
pub open spec fn le_val(s: Seq<u8>) -> nat
    decreases s.len(),
{
    if s.len() == 0 {
        0
    } else {
        s[0] as nat + 256 * le_val(s.skip(1))
    }
}

/// The integer a byte string encodes in big-endian order.
pub open spec fn be_val(s: Seq<u8>) -> nat
    decreases s.len(),
{
    if s.len() == 0 {
        0
    } else {
        256 * be_val(s.drop_last()) + s.last() as nat
    }
}

/// The 4-byte big-endian encoding of `x`, for `x < 2^32`.
pub open spec fn be32_bytes(x: nat) -> Seq<u8> {
    seq![
        ((x / 0x1000000) % 256) as u8,
        ((x / 0x10000) % 256) as u8,
        ((x / 0x100) % 256) as u8,
        (x % 256) as u8,
    ]
}

/// The integer encoded by a 4-byte big-endian string.
pub open spec fn be32_val(s: Seq<u8>) -> nat
    recommends
        s.len() == 4,
{
    s[0] as nat * 0x1000000 + s[1] as nat * 0x10000 + s[2] as nat * 0x100 + s[3] as nat
}

pub proof fn lemma_pow256_pos(n: nat)
    ensures
        pow256(n) > 0,
    decreases n,
{
    if n > 0 {
        lemma_pow256_pos((n - 1) as nat);
    }
}

pub proof fn lemma_le_bytes_len(x: nat, n: nat)
    ensures
        le_bytes(x, n).len() == n,
    decreases n,
{
    if n > 0 {
        lemma_le_bytes_len(x / 256, (n - 1) as nat);
    }
}

/// Decoding the little-endian encoding of `x` gives back `x mod 256^n`.
pub proof fn lemma_le_round_trip(x: nat, n: nat)
    ensures
        le_val(le_bytes(x, n)) == x % pow256(n),
    decreases n,
{
    if n == 0 {
        assert(x % 1 == 0) by {
            lemma_small_mod(0, 1);
            lemma_fundamental_div_mod(x as int, 1);
        }
    } else {
        let tail = le_bytes(x / 256, (n - 1) as nat);
        let whole = seq![(x % 256) as u8] + tail;
        assert(whole.skip(1) =~= tail);
        assert(whole[0] == (x % 256) as u8);
        lemma_le_round_trip(x / 256, (n - 1) as nat);
        lemma_pow256_pos((n - 1) as nat);
        assert(x % (256 * pow256((n - 1) as nat)) == 256 * ((x / 256) % pow256((n - 1) as nat)) + x
            % 256) by {
            lemma_breakdown(x as int, 256, pow256((n - 1) as nat) as int);
        }
    }
}

/// `2^256` is above the scalar-field order, so 32 little-endian bytes decode
/// any field element exactly.
pub proof fn lemma_le_round_trip_32(x: nat)
    requires
        x < pow256(32),
    ensures
        le_val(le_bytes(x, 32)) == x,
{
    lemma_le_round_trip(x, 32);
    lemma_pow256_pos(32);
    lemma_small_mod(x, pow256(32));
}

pub proof fn lemma_pow256_32_value()
    ensures
        pow256(32) == 0x10000000000000000000000000000000000000000000000000000000000000000,
{
    reveal_with_fuel(pow256, 33);
}

/// Appends every byte of `data` to `out`.
pub fn append_bytes(out: &mut Vec<u8>, data: &[u8])
    ensures
        final(out)@ == old(out)@ + data@,
{
    let mut i: usize = 0;
    while i < data.len()
        invariant
            i <= data@.len(),
            out@ == old(out)@ + data@.take(i as int),
        decreases data@.len() - i,
    {
        out.push(data[i]);
        proof {
            assert(data@.take(i + 1) =~= data@.take(i as int).push(data@[i as int]));
        }
        i = i + 1;
    }
    proof {
        assert(data@.take(data@.len() as int) =~= data@);
    }
}

/// Whether two byte strings hold the same bytes.
pub fn bytes_eq(a: &[u8], b: &[u8]) -> (r: bool)
    ensures
        r == (a@ == b@),
{
    if a.len() != b.len() {
        proof {
            assert(a@ != b@);
        }
        return false;
    }
    let mut i: usize = 0;
    while i < a.len()
        invariant
            a@.len() == b@.len(),
            i <= a@.len(),
            forall|j: int| 0 <= j < i ==> a@[j] == b@[j],
        decreases a@.len() - i,
    {
        if a[i] != b[i] {
            proof {
                assert(a@ != b@);
            }
            return false;
        }
        i = i + 1;
    }
    proof {
        assert(a@ =~= b@);
    }
    true
}

/// The 4-byte big-endian form of a 32-bit length, as the framing layer sends it.
pub fn u32_to_be_bytes(x: u32) -> (r: Vec<u8>)
    ensures
        r@ == be32_bytes(x as nat),
        r@.len() == 4,
{
    let mut v: Vec<u8> = Vec::new();
    v.push(((x / 0x1000000) % 256) as u8);
    v.push(((x / 0x10000) % 256) as u8);
    v.push(((x / 0x100) % 256) as u8);
    v.push((x % 256) as u8);
    proof {
        assert(v@ =~= be32_bytes(x as nat));
    }
    v
}

/// The 32-bit length a 4-byte big-endian prefix declares.
pub fn be_bytes_to_u32(b: &[u8]) -> (r: u32)
    requires
        b@.len() == 4,
    ensures
        r as nat == be32_val(b@),
{
    let b0 = b[0] as u32;
    let b1 = b[1] as u32;
    let b2 = b[2] as u32;
    let b3 = b[3] as u32;
    b0 * 0x1000000 + b1 * 0x10000 + b2 * 0x100 + b3
}

/// Encoding a 32-bit value big-endian and decoding the four bytes gives it back.
pub proof fn lemma_be32_round_trip(x: nat)
    requires
        x < 0x100000000,
    ensures
        be32_val(be32_bytes(x)) == x,
{
    let b = be32_bytes(x);
    lemma_fundamental_div_mod(x as int, 0x1000000);
    lemma_fundamental_div_mod((x as int) / 0x1000000, 0x100);
    lemma_fundamental_div_mod(x as int, 0x10000);
    lemma_fundamental_div_mod((x as int) / 0x10000, 0x100);
    lemma_fundamental_div_mod(x as int, 0x100);
    assert(x / 0x1000000 < 0x100);
    lemma_small_mod(x / 0x1000000, 256);
    assert(b[0] as nat == x / 0x1000000);
    assert(b[1] as nat == (x / 0x10000) % 0x100);
    assert(b[2] as nat == (x / 0x100) % 0x100);
    assert(b[3] as nat == x % 0x100);
    assert((x / 0x10000) == (x / 0x1000000) * 0x100 + (x / 0x10000) % 0x100) by {
        lemma_div_denominator_chain(x as nat);
    }
    assert((x / 0x100) == (x / 0x10000) * 0x100 + (x / 0x100) % 0x100) by {
        lemma_div_denominator_chain_low(x as nat);
    }
    assert(x == (x / 0x100) * 0x100 + x % 0x100) by {
        lemma_fundamental_div_mod(x as int, 0x100);
    }
}

proof fn lemma_div_denominator_chain(x: nat)
    ensures
        x / 0x10000 == (x / 0x1000000) * 0x100 + (x / 0x10000) % 0x100,
        x / 0x10000 / 0x100 == x / 0x1000000,
{
    vstd::arithmetic::div_mod::lemma_div_denominator(x as int, 0x10000, 0x100);
    lemma_fundamental_div_mod((x as int) / 0x10000, 0x100);
}

proof fn lemma_div_denominator_chain_low(x: nat)
    ensures
        x / 0x100 == (x / 0x10000) * 0x100 + (x / 0x100) % 0x100,
        x / 0x100 / 0x100 == x / 0x10000,
{
    vstd::arithmetic::div_mod::lemma_div_denominator(x as int, 0x100, 0x100);
    lemma_fundamental_div_mod((x as int) / 0x100, 0x100);
}

} // verus!
