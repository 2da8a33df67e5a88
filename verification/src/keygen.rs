//! Derivation of the cipher key hidden in an obfuscated 256-byte block.
//!
//! The first four bytes of the block are the little-endian seed of the
//! legacy generator. The generator rebuilds a 256-byte obfuscation pad in
//! runs (a fill byte, then a run length of 1 to 16, truncated at the
//! boundary); XORing the pad against the block recovers the plaintext, and
//! the 16-byte cipher key starts at offset `(seed & 0xF) + 4`.

use vstd::prelude::*;
use vstd::bytes::spec_u32_from_le_bytes;
use vstd::bytes::spec_u32_to_le_bytes;
use vstd::bytes::lemma_auto_spec_u32_to_from_le_bytes;
use crate::random::SRand;
use crate::random::srand_next;
use crate::random::srand_out;
use crate::endian::read_le_u32_at;

verus! {

/// The pad bytes still to be generated when the generator state is `state`
/// and `remaining` slots are left: a run of the next fill byte, truncated at
/// the boundary, followed by the rest.
#[verifier::opaque]
pub open spec fn pad_from(state: u32, remaining: nat) -> Seq<u8>
    decreases remaining,
{
    if remaining == 0 {
        Seq::empty()
    } else {
        let fill = (srand_out(state) & 0xFF) as u8;
        let s1 = srand_next(state);
        let times = ((srand_out(s1) & 0xF) + 1) as nat;
        let s2 = srand_next(s1);
        let run = run_len(times, remaining);
        Seq::new(run, |j: int| fill) + pad_from(s2, (remaining - run) as nat)
    }
}

/// How many slots a run actually fills: its drawn length, truncated to the
/// slots remaining.
pub open spec fn run_len(times: nat, remaining: nat) -> nat {
    if times <= remaining {
        times
    } else {
        remaining
    }
}

/// The whole 256-byte obfuscation pad for a seed.
pub open spec fn pad_of(seed: u32) -> Seq<u8> {
    pad_from(seed, 256)
}

/// The generator seed stored little-endian in the first four block bytes.
pub open spec fn seed_of(block: Seq<u8>) -> u32 {
    spec_u32_from_le_bytes(block.subrange(0, 4))
}

/// Where the key material starts inside the recovered block.
pub open spec fn offset_of(seed: u32) -> int {
    (seed & 0xF) + 4
}

/// The plaintext recovered by XORing the block against its pad.
pub open spec fn recovered_of(block: Seq<u8>) -> Seq<u8> {
    Seq::new(256, |i: int| block[i] ^ pad_of(seed_of(block))[i])
}

/// The 16-byte cipher key hidden in an obfuscated 256-byte block: the
/// recovered bytes at the seed's offset.
pub open spec fn key_of(block: Seq<u8>) -> Seq<u8> {
    recovered_of(block).subrange(
        offset_of(seed_of(block)),
        offset_of(seed_of(block)) + 16,
    )
}

/// An obfuscated block as a reference obfuscator builds it: the seed stored
/// little-endian in the first four bytes, every later byte of the key
/// material XOR-masked with the seed's pad.
pub open spec fn obfuscated_block_of(material: Seq<u8>, seed: u32) -> Seq<u8> {
    Seq::new(
        256,
        |i: int|
            if i < 4 {
                spec_u32_to_le_bytes(seed)[i]
            } else {
                material[i] ^ pad_of(seed)[i]
            },
    )
}

/// Pad generation fills exactly `remaining` bytes however the run lengths
/// fall: truncating the last run lands exactly on the boundary.
pub proof fn lemma_pad_from_len(state: u32, remaining: nat)
    ensures
        pad_from(state, remaining).len() == remaining,
    decreases remaining,
{
    reveal(pad_from);
    if remaining != 0 {
        let s1 = srand_next(state);
        let times = ((srand_out(s1) & 0xF) + 1) as nat;
        let s2 = srand_next(s1);
        let run = run_len(times, remaining);
        lemma_pad_from_len(s2, (remaining - run) as nat);
    }
}

/// The obfuscation pad of any seed is exactly 256 bytes long.
pub proof fn lemma_pad_len(seed: u32)
    ensures
        pad_of(seed).len() == 256,
{
    lemma_pad_from_len(seed, 256);
}

/// The derived offset lies in [4, 19] for every 32-bit seed, so the 80-byte
/// key-material window starting there never leaves a 256-byte block.
pub proof fn lemma_offset_in_range(seed: u32)
    ensures
        4 <= offset_of(seed),
        offset_of(seed) <= 19,
        offset_of(seed) + 80 <= 256,
{
    assert(seed & 0xF < 16) by (bit_vector);
}

/// Round trip with the reference obfuscator: from a block built out of any
/// 256 bytes of key material and any seed, key derivation recovers exactly
/// the 16 material bytes at the seed's offset.
pub proof fn lemma_key_round_trip(material: Seq<u8>, seed: u32)
    requires
        material.len() == 256,
    ensures
        key_of(obfuscated_block_of(material, seed)) == material.subrange(
            offset_of(seed),
            offset_of(seed) + 16,
        ),
{
    let b = obfuscated_block_of(material, seed);
    lemma_auto_spec_u32_to_from_le_bytes();
    assert(b.subrange(0, 4) =~= spec_u32_to_le_bytes(seed));
    assert(seed_of(b) == seed);
    lemma_offset_in_range(seed);
    let off = offset_of(seed);
    assert forall|i: int| off <= i < off + 16 implies recovered_of(b)[i] == material[i] by {
        let m = material[i];
        let p = pad_of(seed)[i];
        assert((m ^ p) ^ p == m) by (bit_vector);
    }
    assert(key_of(b) =~= material.subrange(off, off + 16));
}

/// Write `fill` into the next `times` pad slots, truncating the run at the
/// 256-byte boundary.
fn push_run(pad: &mut Vec<u8>, fill: u8, times: u32)
    requires
        old(pad)@.len() <= 256,
    ensures
        final(pad)@ == old(pad)@ + Seq::new(
            run_len(times as nat, (256 - old(pad)@.len()) as nat),
            |j: int| fill,
        ),
{
    let ghost base = pad@;
    let ghost run = run_len(times as nat, (256 - base.len()) as nat);
    let mut j: u32 = 0;
    while j < times && pad.len() < 256
        invariant
            base.len() <= 256,
            j <= times,
            j as int <= run,
            run == run_len(times as nat, (256 - base.len()) as nat),
            pad@ == base + Seq::new(j as nat, |k: int| fill),
        decreases times - j,
    {
        pad.push(fill);
        j = j + 1;
        proof {
            assert(pad@ =~= base + Seq::new(j as nat, |k: int| fill));
        }
    }
    proof {
        assert(j as int == run);
    }
}

/// One generation round, as the recursive pad model sees it: the pad still
/// owed from `state` is the truncated run of the next fill byte, then the
/// pad owed from the state two draws later.
proof fn lemma_pad_from_unfold(state: u32, remaining: nat)
    requires
        remaining > 0,
    ensures
        ({
            let fill = (srand_out(state) & 0xFF) as u8;
            let s2 = srand_next(srand_next(state));
            let times = ((srand_out(srand_next(state)) & 0xF) + 1) as nat;
            let run = run_len(times, remaining);
            &&& pad_from(state, remaining) == Seq::new(run, |j: int| fill) + pad_from(
                s2,
                (remaining - run) as nat,
            )
            &&& 1 <= run <= remaining
        }),
{
    reveal(pad_from);
}

/// Regenerate the obfuscation pad of a seed: repeatedly draw a fill byte
/// and a run length in 1..=16, and write the fill into that many slots,
/// truncating the final run at the 256-byte boundary.
pub fn generate_pad(seed: u32) -> (pad: Vec<u8>)
    ensures
        pad@ == pad_of(seed),
        pad@.len() == 256,
{
    let mut gen = SRand::new(seed);
    let mut pad: Vec<u8> = Vec::new();
    proof {
        assert(pad_of(seed) =~= pad@ + pad_from(gen.seed, 256));
    }
    while pad.len() < 256
        invariant
            pad@.len() <= 256,
            pad_of(seed) == pad@ + pad_from(gen.seed, (256 - pad@.len()) as nat),
        decreases 256 - pad@.len(),
    {
        let ghost rem: nat = (256 - pad@.len()) as nat;
        let ghost s0 = gen.seed;
        let ghost base = pad@;
        let fill_draw = gen.rand();
        proof {
            assert(fill_draw & 0xFF < 256) by (bit_vector);
        }
        let fill: u8 = (fill_draw & 0xFF) as u8;
        let times_draw = gen.rand();
        proof {
            assert(times_draw & 0x0F < 16) by (bit_vector);
        }
        let times: u32 = (times_draw & 0x0F) + 1;
        let ghost run = run_len(times as nat, rem);
        proof {
            lemma_pad_from_unfold(s0, rem);
        }
        push_run(&mut pad, fill, times);
        proof {
            let fillseq = Seq::new(run, |j: int| fill);
            let tail = pad_from(gen.seed, (rem - run) as nat);
            assert(pad@ == base + fillseq);
            assert(base + (fillseq + tail) =~= (base + fillseq) + tail);
            assert(pad_of(seed) == pad@ + tail);
        }
    }
    proof {
        lemma_pad_len(seed);
    }
    pad
}

/// Derive the 16-byte cipher key from an obfuscated 256-byte block: read the
/// seed, regenerate the pad, XOR-recover the plaintext, and slice the key
/// out at the seed-dependent offset.
#[verifier::loop_isolation(false)]
pub fn derive_key(block: &Vec<u8>) -> (key: Vec<u8>)
    requires
        block@.len() == 256,
    ensures
        key@ == key_of(block@),
        key@.len() == 16,
{
    let seed = read_le_u32_at(block, 0);
    proof {
        assert(seed == seed_of(block@));
        lemma_offset_in_range(seed);
        lemma_pad_len(seed);
    }
    let pad = generate_pad(seed);
    let offset: usize = ((seed & 0xF) + 4) as usize;
    let mut key: Vec<u8> = Vec::new();
    let mut i: usize = 0;
    while i < 16
        invariant
            i <= 16,
            key@.len() == i,
            forall|k: int| 0 <= k < i ==> key@[k] == recovered_of(block@)[offset + k],
        decreases 16 - i,
    {
        key.push(block[offset + i] ^ pad[offset + i]);
        i = i + 1;
    }
    proof {
        assert(key@ =~= key_of(block@));
    }
    key
}

/// Build an obfuscated block from 256 bytes of key material and a seed, as
/// the reference obfuscator does: the inverse of key derivation.
#[verifier::loop_isolation(false)]
pub fn obfuscate_block(material: &Vec<u8>, seed: u32) -> (r: Vec<u8>)
    requires
        material@.len() == 256,
    ensures
        r@ == obfuscated_block_of(material@, seed),
{
    proof {
        lemma_pad_len(seed);
    }
    let pad = generate_pad(seed);
    let mut out: Vec<u8> = vstd::bytes::u32_to_le_bytes(seed);
    proof {
        lemma_auto_spec_u32_to_from_le_bytes();
    }
    let mut i: usize = 4;
    while i < 256
        invariant
            4 <= i <= 256,
            out@.len() == i,
            forall|k: int| 0 <= k < i ==> out@[k] == obfuscated_block_of(material@, seed)[k],
        decreases 256 - i,
    {
        out.push(material[i] ^ pad[i]);
        i = i + 1;
    }
    proof {
        assert(out@ =~= obfuscated_block_of(material@, seed));
    }
    out
}

} // verus!
