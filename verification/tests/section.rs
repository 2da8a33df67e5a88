//! End-to-end tests for the plain and distributed decoding paths.

use aes::cipher::BlockEncrypt;
use aes::cipher::KeyInit;
use aes::cipher::generic_array::GenericArray;
use std::io::Write;

use hwp_section::Flags;
use hwp_section::HWPTAG_DISTRIBUTE_DOC_DATA;
use hwp_section::Header;
use hwp_section::Section;
use hwp_section::SectionError;
use hwp_section::Version;
use hwp_section::keygen::obfuscate_block;

fn version() -> Version {
    Version { major: 5, minor: 0, build: 3, revision: 0 }
}

fn header(compressed: bool, distributed: bool) -> Header {
    Header { version: version(), flags: Flags { compressed, distributed } }
}

/// Frame one record: the 32-bit header word, the extended size word when the
/// payload is 0xFFF bytes or more, then the payload.
fn make_record(tag: u32, level: u32, payload: &[u8]) -> Vec<u8> {
    let mut out = Vec::new();
    let size = payload.len() as u32;
    if size >= 0xFFF {
        let word: u32 = tag | (level << 10) | (0xFFF << 20);
        out.extend_from_slice(&word.to_le_bytes());
        out.extend_from_slice(&size.to_le_bytes());
    } else {
        let word: u32 = tag | (level << 10) | (size << 20);
        out.extend_from_slice(&word.to_le_bytes());
    }
    out.extend_from_slice(payload);
    out
}

fn deflate(data: &[u8]) -> Vec<u8> {
    let mut encoder =
        flate2::write::DeflateEncoder::new(Vec::new(), flate2::Compression::default());
    encoder.write_all(data).unwrap();
    encoder.finish().unwrap()
}

/// ECB-encrypt, zero-padding the final block; the legacy streams are always
/// handed over block-aligned.
fn ecb_encrypt(key: &[u8], data: &[u8]) -> Vec<u8> {
    let cipher = aes::Aes128::new(GenericArray::from_slice(key));
    let mut out = Vec::new();
    for chunk in data.chunks(16) {
        let mut block = [0u8; 16];
        block[..chunk.len()].copy_from_slice(chunk);
        let mut ga = GenericArray::clone_from_slice(&block);
        cipher.encrypt_block(&mut ga);
        out.extend_from_slice(&ga);
    }
    out
}

/// A distributed stream: the distributed-document-data record holding the
/// obfuscated block, then the ciphertext.
fn make_distributed_stream(seed: u32, key: &[u8; 16], ciphertext: &[u8]) -> Vec<u8> {
    let offset = ((seed & 0xF) + 4) as usize;
    let mut material = vec![0u8; 256];
    material[offset..offset + 16].copy_from_slice(key);
    let block = obfuscate_block(&material, seed);
    let mut stream = make_record(HWPTAG_DISTRIBUTE_DOC_DATA, 0, &block);
    stream.extend_from_slice(ciphertext);
    stream
}

#[test]
fn empty_stream_gives_empty_section() {
    let data = Vec::new();
    let section = Section::from_reader(&data, &version()).unwrap();
    assert_eq!(section.paragraphs.len(), 0);
}

#[test]
fn plain_uncompressed_two_records_in_order() {
    let mut data = make_record(66, 0, &[1, 2, 3]);
    data.extend_from_slice(&make_record(67, 1, &[9, 8, 7, 6]));
    let section = Section::from_stream(&data, &header(false, false)).unwrap();
    assert_eq!(section.paragraphs.len(), 2);
    assert_eq!(section.paragraphs[0].tag_id, 66);
    assert_eq!(section.paragraphs[0].level, 0);
    assert_eq!(section.paragraphs[0].content, vec![1, 2, 3]);
    assert_eq!(section.paragraphs[1].tag_id, 67);
    assert_eq!(section.paragraphs[1].level, 1);
    assert_eq!(section.paragraphs[1].content, vec![9, 8, 7, 6]);
}

#[test]
fn plain_compressed_round_trip() {
    let mut plain = make_record(66, 0, b"first paragraph");
    plain.extend_from_slice(&make_record(66, 0, b"second paragraph"));
    let data = deflate(&plain);
    let section = Section::from_stream(&data, &header(true, false)).unwrap();
    assert_eq!(section.paragraphs.len(), 2);
    assert_eq!(section.paragraphs[0].content, b"first paragraph".to_vec());
    assert_eq!(section.paragraphs[1].content, b"second paragraph".to_vec());
}

#[test]
fn extended_size_record_round_trip() {
    let payload: Vec<u8> = (0..5000u32).map(|i| (i % 251) as u8).collect();
    let data = make_record(66, 2, &payload);
    let section = Section::from_reader(&data, &version()).unwrap();
    assert_eq!(section.paragraphs.len(), 1);
    assert_eq!(section.paragraphs[0].tag_id, 66);
    assert_eq!(section.paragraphs[0].level, 2);
    assert_eq!(section.paragraphs[0].content, payload);
}

#[test]
fn truncated_record_is_rejected() {
    // Declares ten payload bytes but carries only two.
    let mut data = make_record(66, 0, &[0u8; 10]);
    data.truncate(6);
    assert_eq!(
        Section::from_reader(&data, &version()).unwrap_err(),
        SectionError::TruncatedStream,
    );
}

#[test]
fn invalid_deflate_stream_is_rejected() {
    let data = vec![0xFFu8, 0xFF, 0xFF, 0xFF, 0xFF, 0xFF];
    assert_eq!(
        Section::from_stream(&data, &header(true, false)).unwrap_err(),
        SectionError::DecompressionFailure,
    );
}

#[test]
fn distributed_wrong_size_is_malformed() {
    // A distributed-data record whose declared size is 255, not 256.
    let data = make_record(HWPTAG_DISTRIBUTE_DOC_DATA, 0, &[0u8; 255]);
    assert_eq!(
        Section::from_distributed(&data, &header(false, true)).unwrap_err(),
        SectionError::MalformedRecord,
    );
}

#[test]
fn distributed_wrong_tag_is_malformed() {
    let data = make_record(27, 0, &[0u8; 256]);
    assert_eq!(
        Section::from_distributed(&data, &header(false, true)).unwrap_err(),
        SectionError::MalformedRecord,
    );
}

#[test]
fn distributed_short_stream_is_truncated() {
    let data = vec![0x1Cu8, 0x00];
    assert_eq!(
        Section::from_distributed(&data, &header(false, true)).unwrap_err(),
        SectionError::TruncatedStream,
    );
}

#[test]
fn distributed_unaligned_ciphertext_is_decryption_failure() {
    // Fifteen ciphertext bytes: not a multiple of the 16-byte block size.
    let key = *b"0123456789ABCDEF";
    let stream = make_distributed_stream(7, &key, &[0u8; 15]);
    assert_eq!(
        Section::from_distributed(&stream, &header(false, true)).unwrap_err(),
        SectionError::DecryptionFailure,
    );
}

#[test]
fn distributed_uncompressed_round_trip() {
    // Two records of twelve payload bytes each: 32 bytes, block-aligned.
    let key = *b"0123456789ABCDEF";
    let mut plain = make_record(66, 0, b"paragraph 1!");
    plain.extend_from_slice(&make_record(66, 1, b"paragraph 2!"));
    assert_eq!(plain.len() % 16, 0);
    let ciphertext = ecb_encrypt(&key, &plain);
    let stream = make_distributed_stream(0x5EED_0001, &key, &ciphertext);
    let section = Section::from_distributed(&stream, &header(false, true)).unwrap();
    assert_eq!(section.paragraphs.len(), 2);
    assert_eq!(section.paragraphs[0].content, b"paragraph 1!".to_vec());
    assert_eq!(section.paragraphs[0].level, 0);
    assert_eq!(section.paragraphs[1].content, b"paragraph 2!".to_vec());
    assert_eq!(section.paragraphs[1].level, 1);
}

#[test]
fn distributed_compressed_round_trip() {
    // Deflate-compress a known paragraph list, ECB-encrypt it with a known
    // key, and feed it back through the pipeline with the matching key.
    let key = *b"FEDCBA9876543210";
    let mut plain = make_record(66, 0, b"the first known paragraph");
    plain.extend_from_slice(&make_record(66, 0, b"the second known paragraph"));
    plain.extend_from_slice(&make_record(67, 1, b"the third known paragraph"));
    let compressed = deflate(&plain);
    let ciphertext = ecb_encrypt(&key, &compressed);
    let stream = make_distributed_stream(0xABCD_1234, &key, &ciphertext);
    let section = Section::from_distributed(&stream, &header(true, true)).unwrap();
    assert_eq!(section.paragraphs.len(), 3);
    assert_eq!(section.paragraphs[0].content, b"the first known paragraph".to_vec());
    assert_eq!(section.paragraphs[1].content, b"the second known paragraph".to_vec());
    assert_eq!(section.paragraphs[2].content, b"the third known paragraph".to_vec());
}

#[test]
fn distributed_wrong_key_does_not_round_trip() {
    let key = *b"0123456789ABCDEF";
    let plain = make_record(66, 0, b"twelve bytes");
    let ciphertext = ecb_encrypt(&key, &plain);
    // Build the stream around a block that hides a different key.
    let other = *b"0123456789ABCDEG";
    let stream = make_distributed_stream(3, &other, &ciphertext);
    let decoded = Section::from_distributed(&stream, &header(false, true));
    match decoded {
        Ok(section) => {
            let same = section.paragraphs.len() == 1
                && section.paragraphs[0].content == b"twelve bytes".to_vec();
            assert!(!same);
        }
        Err(_) => {}
    }
}
