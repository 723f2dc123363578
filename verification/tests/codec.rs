use gzcodec::codec::{compress, decompress, transform, CodecError, Operation};

#[test]
fn round_trip_hello_world() {
    let input: Vec<u8> = b"hello world".to_vec();
    let compressed = compress(&input).unwrap();
    assert_eq!(compressed[0], 0x1f);
    assert_eq!(compressed[1], 0x8b);
    let restored = decompress(&compressed).unwrap();
    assert_eq!(restored, input);
}

#[test]
fn empty_input_round_trip() {
    let input: Vec<u8> = Vec::new();
    let compressed = compress(&input).unwrap();
    assert!(!compressed.is_empty());
    assert!(compressed.len() >= 18);
    assert_eq!(compressed[0], 0x1f);
    assert_eq!(compressed[1], 0x8b);
    let restored = decompress(&compressed).unwrap();
    assert_eq!(restored, Vec::<u8>::new());
}

#[test]
fn compressed_bytes_differ_from_input() {
    let input: Vec<u8> = b"hello world".to_vec();
    let compressed = compress(&input).unwrap();
    assert_ne!(compressed, input);
}

#[test]
fn plain_text_is_invalid_format() {
    let input: Vec<u8> = b"not gzip data".to_vec();
    let result = decompress(&input);
    assert_eq!(result, Err(CodecError::InvalidFormat));
}

#[test]
fn truncated_stream_is_invalid_format() {
    let input: Vec<u8> = b"some data that will be cut short".to_vec();
    let compressed = compress(&input).unwrap();
    let truncated: Vec<u8> = compressed[..5].to_vec();
    assert_eq!(decompress(&truncated), Err(CodecError::InvalidFormat));
}

#[test]
fn empty_input_to_decompress_is_invalid_format() {
    let input: Vec<u8> = Vec::new();
    assert_eq!(decompress(&input), Err(CodecError::InvalidFormat));
}

#[test]
fn corrupted_checksum_is_invalid_format() {
    let input: Vec<u8> = b"checksummed payload".to_vec();
    let mut compressed = compress(&input).unwrap();
    let last = compressed.len() - 1;
    compressed[last] = compressed[last].wrapping_add(1);
    let next = compressed.len() - 5;
    compressed[next] = compressed[next].wrapping_add(1);
    assert_eq!(decompress(&compressed), Err(CodecError::InvalidFormat));
}

#[test]
fn compress_is_deterministic() {
    let input: Vec<u8> = b"the same bytes, twice over".to_vec();
    let first = compress(&input).unwrap();
    let second = compress(&input).unwrap();
    assert_eq!(first, second);
}

#[test]
fn decompress_is_deterministic() {
    let input: Vec<u8> = b"the same bytes, twice over".to_vec();
    let compressed = compress(&input).unwrap();
    assert_eq!(
        decompress(&compressed).unwrap(),
        decompress(&compressed).unwrap()
    );
    let junk: Vec<u8> = b"junk".to_vec();
    assert_eq!(decompress(&junk), decompress(&junk));
}

#[test]
fn transform_dispatches_by_operation() {
    let input: Vec<u8> = b"dispatch me".to_vec();
    let compressed = transform(Operation::Compress, &input).unwrap();
    assert_eq!(compressed, compress(&input).unwrap());
    let restored = transform(Operation::Decompress, &compressed).unwrap();
    assert_eq!(restored, input);
    assert_eq!(
        transform(Operation::Decompress, &input),
        Err(CodecError::InvalidFormat)
    );
}

#[test]
fn large_buffer_round_trip() {
    let mut input: Vec<u8> = Vec::new();
    for i in 0..100_000u32 {
        input.push((i % 251) as u8);
    }
    let compressed = compress(&input).unwrap();
    assert!(compressed.len() < input.len());
    let restored = decompress(&compressed).unwrap();
    assert_eq!(restored, input);
}

#[test]
fn error_messages() {
    assert_eq!(
        CodecError::Io.message(),
        "failure reading or writing the codec stream"
    );
    assert_eq!(
        CodecError::InvalidFormat.message(),
        "input is not valid gzip data"
    );
}
