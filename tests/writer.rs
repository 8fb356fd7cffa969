use crc::{Crc, CRC_32_BZIP2};
use multibufferedfile::{from_le_bytes, to_le_bytes, BufferedFileWriter, ChecksumEngine};

fn bzip2(bytes: &[u8]) -> u32 {
    Crc::<u32>::new(&CRC_32_BZIP2).checksum(bytes)
}

#[test]
fn writer_simple() {
    const DATA: &[u8] = b"hello world";
    let engine = ChecksumEngine::new();
    let mut buffer: Vec<u8> = Vec::new();
    let mut writer = BufferedFileWriter::new(&engine, 1);
    buffer.push(writer.generation());
    buffer.extend_from_slice(DATA);
    writer.record(DATA);
    buffer.extend_from_slice(&writer.finish());

    let mut covered = vec![1u8];
    covered.extend_from_slice(DATA);
    let checksum = bzip2(&covered);
    let mut expected = Vec::new();
    expected.push(1u8);
    expected.extend_from_slice(DATA);
    expected.extend_from_slice(&checksum.to_le_bytes());
    assert_eq!(buffer, expected);
}

#[test]
fn trailer_covers_generation_and_every_chunk() {
    let engine = ChecksumEngine::new();
    let mut writer = BufferedFileWriter::new(&engine, 42);
    assert_eq!(writer.generation(), 42);
    writer.record(b"Hello");
    writer.record(b"");
    writer.record(b" World");
    let trailer = writer.finish();
    assert_eq!(trailer, bzip2(b"\x2aHello World").to_le_bytes());
}

#[test]
fn empty_payload_trailer_covers_the_generation() {
    let engine = ChecksumEngine::new();
    let writer = BufferedFileWriter::new(&engine, 1);
    let trailer = writer.finish();
    assert_eq!(trailer, bzip2(&[1u8]).to_le_bytes());
    assert_ne!(trailer, [0u8; 4]);
}

#[test]
fn checksum_stream_matches_the_crc_crate() {
    let engine = ChecksumEngine::new();
    let mut stream = engine.stream();
    stream.update(b"1234");
    stream.update(b"56789");
    assert_eq!(stream.finalize(), 0xfc89_1918);
    assert_eq!(engine.stream().finalize(), bzip2(b""));
}

#[test]
fn little_endian_encoding() {
    assert_eq!(to_le_bytes(0x065c_89da), [0xda, 0x89, 0x5c, 0x06]);
    assert_eq!(to_le_bytes(0), [0, 0, 0, 0]);
    assert_eq!(to_le_bytes(u32::MAX), [0xff; 4]);
    assert_eq!(from_le_bytes(0xda, 0x89, 0x5c, 0x06), 0x065c_89da);
    assert_eq!(from_le_bytes(1, 0, 0, 0), 1);
    assert_eq!(from_le_bytes(0, 0, 0, 0x80), 0x8000_0000);
}
