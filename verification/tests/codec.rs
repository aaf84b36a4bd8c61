use lzma_frame::codec::compress;
use lzma_frame::codec::decompress;
use lzma_frame::codec::CodecError;
use lzma_frame::frame::fix_header_size;
use std::io::Read;

fn le_value(bytes: &[u8]) -> u64 {
    let mut v: u64 = 0;
    let mut i: usize = bytes.len();
    while i > 0 {
        i -= 1;
        v = v * 256 + bytes[i] as u64;
    }
    v
}

#[test]
fn round_trip_empty() {
    let data: Vec<u8> = Vec::new();
    let compressed = compress(&data).unwrap();
    assert!(compressed.len() >= 18);
    assert_eq!(&compressed[0..5], &[0u8; 5]);
    assert_eq!(&compressed[10..18], &[0u8; 8]);
    let decompressed = decompress(&compressed).unwrap();
    assert_eq!(decompressed.len(), 0);
}

#[test]
fn round_trip_single_byte() {
    let data = vec![42u8];
    let compressed = compress(&data).unwrap();
    assert!(!compressed.is_empty());
    let decompressed = decompress(&compressed).unwrap();
    assert!(!decompressed.is_empty());
    assert_eq!(decompressed, data);
}

#[test]
fn round_trip_small_buffer() {
    let data: Vec<u8> = b"a small buffer with some text in it".to_vec();
    let compressed = compress(&data).unwrap();
    let decompressed = decompress(&compressed).unwrap();
    assert_eq!(decompressed, data);
}

#[test]
fn round_trip_varied_bytes() {
    let data: Vec<u8> = (0..10_000u32).map(|i| (i * 31 % 251) as u8).collect();
    let compressed = compress(&data).unwrap();
    let decompressed = decompress(&compressed).unwrap();
    assert_eq!(decompressed, data);
}

#[test]
fn round_trip_million_identical_bytes() {
    let data = vec![0xABu8; 1_000_000];
    let compressed = compress(&data).unwrap();
    assert!(compressed.len() < 100_000);
    let decompressed = decompress(&compressed).unwrap();
    assert_eq!(decompressed.len(), 1_000_000);
    assert_eq!(decompressed, data);
}

#[test]
fn header_holds_original_size() {
    let data: Vec<u8> = (0..300u32).map(|i| (i % 256) as u8).collect();
    let compressed = compress(&data).unwrap();
    assert_eq!(le_value(&compressed[0..5]), 300);
    assert_eq!(le_value(&compressed[10..18]), 300);
}

#[test]
fn prefix_value_is_never_read_by_decoder() {
    let data: Vec<u8> = b"the five-byte prefix does not matter when decoding".to_vec();
    let compressed = compress(&data).unwrap();
    let mut scrambled = compressed.clone();
    for byte in scrambled[0..5].iter_mut() {
        *byte = 0xFF;
    }
    let decompressed = decompress(&scrambled).unwrap();
    assert_eq!(decompressed, data);
}

#[test]
fn payload_is_a_standard_lzma_stream() {
    let data: Vec<u8> = b"bytes from offset five on form a plain .lzma stream".to_vec();
    let compressed = compress(&data).unwrap();
    let stream = xz2::stream::Stream::new_lzma_decoder(u64::MAX).unwrap();
    let mut decoder = xz2::read::XzDecoder::new_stream(&compressed[5..], stream);
    let mut out = Vec::new();
    decoder.read_to_end(&mut out).unwrap();
    assert_eq!(out, data);
}

#[test]
fn truncated_input_is_rejected() {
    assert_eq!(decompress(&Vec::new()), Err(CodecError::TruncatedInput));
    assert_eq!(decompress(&vec![1u8, 2, 3, 4]), Err(CodecError::TruncatedInput));
}

#[test]
fn corrupt_stream_is_rejected() {
    let garbage = vec![0xFFu8; 32];
    assert_eq!(decompress(&garbage), Err(CodecError::ReadFailure));
}

#[test]
fn fix_header_size_inserts_prefix_and_patches_field() {
    let original: Vec<u8> = (0..20u8).collect();
    let mut data = original.clone();
    fix_header_size(0x0102030405060708, &mut data);
    assert_eq!(data.len(), original.len() + 5);
    assert_eq!(&data[0..5], &[0x08, 0x07, 0x06, 0x05, 0x04]);
    assert_eq!(&data[5..10], &original[0..5]);
    assert_eq!(&data[10..18], &[0x08, 0x07, 0x06, 0x05, 0x04, 0x03, 0x02, 0x01]);
    assert_eq!(&data[18..], &original[13..]);
}

#[test]
fn fix_header_size_of_zero_writes_zero_bytes() {
    let mut data = vec![0xEEu8; 13];
    fix_header_size(0, &mut data);
    assert_eq!(&data[0..5], &[0u8; 5]);
    assert_eq!(&data[5..10], &[0xEEu8; 5]);
    assert_eq!(&data[10..18], &[0u8; 8]);
}

#[test]
fn compression_is_deterministic() {
    let data: Vec<u8> = (0..5_000u32).map(|i| (i * 7 % 250) as u8).collect();
    let first = compress(&data).unwrap();
    let second = compress(&data).unwrap();
    assert_eq!(first, second);
}

#[test]
fn compressed_output_differs_from_input() {
    let data: Vec<u8> = b"compression must transform, not copy".to_vec();
    let compressed = compress(&data).unwrap();
    assert_ne!(&compressed[5..], &data[..]);
}
