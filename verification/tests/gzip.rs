use epic_backend::failure::Failure;
use epic_backend::gzip::{compress, expand, same_bytes, seal};
use std::io::Read;
use std::io::Write;

fn gunzip(stream: &[u8]) -> Vec<u8> {
    let mut out = Vec::new();
    flate2::read::GzDecoder::new(stream)
        .read_to_end(&mut out)
        .unwrap();
    out
}

#[test]
fn empty_input_gives_a_valid_empty_stream() {
    let c = compress(&[]).unwrap();
    assert_eq!(c.source_len, 0);
    assert_eq!(c.target_len, c.bytes.len() as u64);
    assert!(c.bytes.len() >= 18);
    assert_eq!(&c.bytes[0..3], &[0x1f, 0x8b, 0x08]);
    // trailer: CRC32 of nothing, then a length of zero
    assert_eq!(&c.bytes[c.bytes.len() - 8..], &[0u8; 8]);
    assert_eq!(gunzip(&c.bytes), Vec::<u8>::new());
}

#[test]
fn hello_world_round_trips() {
    let c = compress(b"hello world").unwrap();
    assert_eq!(c.source_len, 11);
    assert_eq!(c.target_len, c.bytes.len() as u64);
    assert_ne!(c.bytes, b"hello world".to_vec());
    assert_eq!(gunzip(&c.bytes), b"hello world".to_vec());
    assert_eq!(expand(&c.bytes), Ok(b"hello world".to_vec()));
}

#[test]
fn trailer_holds_the_source_length() {
    let data = vec![7u8; 1000];
    let c = compress(&data).unwrap();
    let n = c.bytes.len();
    assert_eq!(&c.bytes[n - 4..], &[0xe8, 0x03, 0x00, 0x00]);
    assert_eq!(c.source_len, 1000);
    assert!(c.target_len < 1000);
}

#[test]
fn every_byte_value_round_trips() {
    let mut data = Vec::new();
    for round in 0..4u32 {
        for b in 0..=255u8 {
            data.push(b.wrapping_mul(round as u8 + 1));
        }
    }
    let c = compress(&data).unwrap();
    assert_eq!(gunzip(&c.bytes), data);
    assert_eq!(expand(&c.bytes).unwrap(), data);
}

#[test]
fn compression_is_repeatable() {
    let a = compress(b"the same input").unwrap();
    let b = compress(b"the same input").unwrap();
    assert_eq!(a, b);
}

#[test]
fn expand_rejects_what_is_no_gzip_stream() {
    assert_eq!(expand(b"hello world"), Err(Failure::CorruptArchive));
    assert_eq!(expand(&[]), Err(Failure::CorruptArchive));
}

#[test]
fn expand_rejects_a_damaged_trailer() {
    let mut bytes = compress(b"hello world").unwrap().bytes;
    let n = bytes.len();
    bytes[n - 8] ^= 0xff;
    assert_eq!(expand(&bytes), Err(Failure::CorruptArchive));
}

#[test]
fn expand_reads_a_foreign_stream() {
    let mut enc = flate2::write::GzEncoder::new(Vec::new(), flate2::Compression::best());
    enc.write_all(b"written elsewhere").unwrap();
    let stream = enc.finish().unwrap();
    assert_eq!(expand(&stream), Ok(b"written elsewhere".to_vec()));
}

#[test]
fn seal_accepts_only_the_source() {
    let sealed = seal(b"abc", vec![1, 2, 3, 4], Some(b"abc".to_vec())).unwrap();
    assert_eq!(sealed.bytes, vec![1, 2, 3, 4]);
    assert_eq!(sealed.source_len, 3);
    assert_eq!(sealed.target_len, 4);
    assert_eq!(
        seal(b"abc", vec![1, 2, 3, 4], Some(b"abd".to_vec())),
        Err(Failure::CorruptArchive)
    );
    assert_eq!(
        seal(b"abc", vec![1, 2, 3, 4], Some(b"ab".to_vec())),
        Err(Failure::CorruptArchive)
    );
    assert_eq!(
        seal(b"abc", vec![1, 2, 3, 4], None),
        Err(Failure::CorruptArchive)
    );
}

#[test]
fn same_bytes_compares_content() {
    assert!(same_bytes(&[], &[]));
    assert!(same_bytes(&[1, 2, 3], &[1, 2, 3]));
    assert!(!same_bytes(&[1, 2, 3], &[1, 2, 4]));
    assert!(!same_bytes(&[1, 2, 3], &[1, 2]));
    assert!(!same_bytes(&[], &[0]));
}
