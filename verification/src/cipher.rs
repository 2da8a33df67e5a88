//! Decryption of the section stream: AES-128 in electronic-codebook mode.
//!
//! The block cipher itself is a black box supplied by the aes crate; only
//! the mode — splitting block-aligned ciphertext into 16-byte blocks and
//! decrypting each independently — is this library's logic.

use vstd::prelude::*;
use crate::buffer::copy_range;
use aes::cipher::generic_array::GenericArray;

verus! {

/// What the AES-128 primitive returns for one 16-byte block under a 16-byte
/// key. The cipher is a black box to this library, so its result is named,
/// not restated.
pub uninterp spec fn aes128_decrypted_block(key: Seq<u8>, block: Seq<u8>) -> Seq<u8>;

/// Relies on the aes crate's `Aes128` (`KeyInit::new` and
/// `BlockDecrypt::decrypt_block`): block decryption is a function of the key
/// and the block alone, and maps a 16-byte block to a 16-byte block.
#[verifier::external_body]
fn decrypt_block(key: &Vec<u8>, block: &Vec<u8>) -> (r: Vec<u8>)
    requires
        key@.len() == 16,
        block@.len() == 16,
    ensures
        r@ == aes128_decrypted_block(key@, block@),
        r@.len() == 16,
{
    let cipher = <aes::Aes128 as aes::cipher::KeyInit>::new(GenericArray::from_slice(
        key.as_slice(),
    ));
    let mut buf = GenericArray::clone_from_slice(block.as_slice());
    aes::cipher::BlockDecrypt::decrypt_block(&cipher, &mut buf);
    buf.to_vec()
}

/// The ECB decryption of block-aligned ciphertext: each 16-byte block
/// decrypted independently, in input order.
pub open spec fn ecb_decrypted_of(key: Seq<u8>, ct: Seq<u8>) -> Seq<u8>
    decreases ct.len(),
{
    if ct.len() < 16 {
        Seq::empty()
    } else {
        aes128_decrypted_block(key, ct.subrange(0, 16)) + ecb_decrypted_of(key, ct.skip(16))
    }
}

/// Decrypt block-aligned ciphertext with a 16-byte key using AES-128 in
/// electronic-codebook mode: no initialization vector, no padding.
pub fn decrypt_aes_128_ecb(key: &Vec<u8>, data: &Vec<u8>) -> (r: Vec<u8>)
    requires
        key@.len() == 16,
        data@.len() % 16 == 0,
    ensures
        r@ == ecb_decrypted_of(key@, data@),
{
    let mut out: Vec<u8> = Vec::new();
    let mut pos: usize = 0;
    proof {
        assert(data@.skip(0) =~= data@);
        assert(ecb_decrypted_of(key@, data@) =~= out@ + ecb_decrypted_of(key@, data@.skip(0)));
    }
    while pos < data.len()
        invariant
            key@.len() == 16,
            data@.len() % 16 == 0,
            pos % 16 == 0,
            pos <= data@.len(),
            ecb_decrypted_of(key@, data@) == out@ + ecb_decrypted_of(key@, data@.skip(pos as int)),
        decreases data@.len() - pos,
    {
        proof {
            assert(pos + 16 <= data@.len()) by (nonlinear_arith)
                requires
                    pos % 16 == 0,
                    data@.len() % 16 == 0,
                    pos < data@.len(),
            ;
        }
        let block = copy_range(data, pos, pos + 16);
        let mut dec = decrypt_block(key, &block);
        let ghost pre_out = out@;
        out.append(&mut dec);
        proof {
            let rest = data@.skip(pos as int);
            assert(rest.subrange(0, 16) =~= data@.subrange(pos as int, pos as int + 16));
            assert(rest.skip(16) =~= data@.skip(pos as int + 16));
            assert(ecb_decrypted_of(key@, rest) == aes128_decrypted_block(
                key@,
                rest.subrange(0, 16),
            ) + ecb_decrypted_of(key@, rest.skip(16)));
            assert(pre_out + (aes128_decrypted_block(key@, rest.subrange(0, 16))
                + ecb_decrypted_of(key@, rest.skip(16))) =~= out@ + ecb_decrypted_of(
                key@,
                rest.skip(16),
            ));
        }
        pos = pos + 16;
    }
    out
}

} // verus!
