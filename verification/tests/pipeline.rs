use std::io::Write;

use gzip_size::counters::{ReadSize, WriteSize};
use gzip_size::pipeline::{measure_slice, measure_stream, select_input, InputSelection, RunError};

/// The gzip size of `data` computed straight through flate2, for comparison.
fn reference_gzip_len(data: &[u8], level: u32) -> usize {
    let mut enc = flate2::write::GzEncoder::new(Vec::new(), flate2::Compression::new(level));
    enc.write_all(data).unwrap();
    enc.finish().unwrap().len()
}

/// A reader that hands out a fixed number of patterned bytes.
struct PatternReader {
    remaining: usize,
}

impl std::io::Read for PatternReader {
    fn read(&mut self, buf: &mut [u8]) -> std::io::Result<usize> {
        if self.remaining == 0 {
            return Ok(0);
        }
        let n = buf.len().min(self.remaining);
        for (i, b) in buf[..n].iter_mut().enumerate() {
            *b = (i % 251) as u8;
        }
        self.remaining -= n;
        Ok(n)
    }
}

/// A writer that accepts at most two bytes per call.
struct TwoByteSink;

impl std::io::Write for TwoByteSink {
    fn write(&mut self, buf: &[u8]) -> std::io::Result<usize> {
        Ok(buf.len().min(2))
    }
    fn flush(&mut self) -> std::io::Result<()> {
        Ok(())
    }
}

/// A reader that always fails.
struct BrokenReader;

impl std::io::Read for BrokenReader {
    fn read(&mut self, _buf: &mut [u8]) -> std::io::Result<usize> {
        Err(std::io::Error::from(std::io::ErrorKind::BrokenPipe))
    }
}

#[test]
fn original_size_is_exact() {
    for len in [0usize, 1, 13, 4096, 70_000] {
        let data = vec![b'x'; len];
        let res = measure_slice(&data, 9).unwrap();
        assert_eq!(res.original, len);
    }
}

#[test]
fn empty_input_is_a_valid_run() {
    let res = measure_slice(&[], 9).unwrap();
    assert_eq!(res.original, 0);
    assert!(res.compressed > 0);
    assert_eq!(res.compressed, reference_gzip_len(&[], 9));
}

#[test]
fn compressed_size_matches_the_encoder() {
    let data: Vec<u8> = (0..100_000u32).map(|i| (i % 7) as u8).collect();
    for level in [0u32, 1, 5, 9] {
        let res = measure_slice(&data, level).unwrap();
        assert_eq!(res.compressed, reference_gzip_len(&data, level));
        assert_eq!(res.original, data.len());
    }
}

#[test]
fn compressed_size_is_deterministic() {
    let data = b"the quick brown fox jumps over the lazy dog".repeat(100);
    let a = measure_slice(&data, 6).unwrap();
    let b = measure_slice(&data, 6).unwrap();
    assert_eq!(a.compressed, b.compressed);
    assert_eq!(a.original, b.original);
}

#[test]
fn level_boundaries() {
    let data = b"boundary";
    let low = measure_slice(data, 0).unwrap();
    let high = measure_slice(data, 9).unwrap();
    assert!(low.compressed >= 18);
    assert!(high.compressed >= 18);
    assert!(matches!(measure_slice(data, 10), Err(RunError::InvalidLevel)));
    assert!(matches!(
        measure_stream(&data[..], 10),
        Err(RunError::InvalidLevel)
    ));
}

#[test]
fn no_input_detection() {
    assert!(matches!(select_input(false, true), Err(RunError::NoInput)));
    assert!(matches!(
        select_input(false, false),
        Ok(InputSelection::StandardInput)
    ));
    assert!(matches!(
        select_input(true, true),
        Ok(InputSelection::NamedFile)
    ));
    assert!(matches!(
        select_input(true, false),
        Ok(InputSelection::NamedFile)
    ));
}

#[test]
fn stream_matches_slice() {
    let data: Vec<u8> = (0..200_000u32).map(|i| (i * 31 % 256) as u8).collect();
    let streamed = measure_stream(&data[..], 9).unwrap();
    let sliced = measure_slice(&data, 9).unwrap();
    assert_eq!(streamed.original, data.len());
    assert_eq!(streamed.compressed, sliced.compressed);
}

#[test]
fn large_stream_completes() {
    let total = 32 * 1024 * 1024;
    let res = measure_stream(PatternReader { remaining: total }, 9).unwrap();
    assert_eq!(res.original, total);
    assert!(res.compressed > 18);
    assert!(res.compressed < total);
}

#[test]
fn stream_read_error_is_surfaced() {
    assert!(matches!(
        measure_stream(BrokenReader, 9),
        Err(RunError::Io(_))
    ));
}

#[test]
fn read_size_counts_reads() {
    let mut rs = ReadSize::new(&b"hello"[..]);
    assert_eq!(rs.size(), 0);
    let mut buf = vec![0u8; 8];
    let k = rs.read(&mut buf).unwrap();
    assert_eq!(k, 5);
    assert_eq!(&buf[..5], b"hello");
    assert_eq!(rs.size(), 5);
    let k = rs.read(&mut buf).unwrap();
    assert_eq!(k, 0);
    assert_eq!(rs.size(), 5);
}

#[test]
fn read_size_does_not_count_failures() {
    let mut rs = ReadSize::new(BrokenReader);
    let mut buf = vec![0u8; 8];
    assert!(rs.read(&mut buf).is_err());
    assert_eq!(rs.size(), 0);
}

#[test]
fn write_size_counts_short_writes() {
    let mut ws = WriteSize::new(TwoByteSink);
    assert_eq!(ws.size(), 0);
    let k = ws.write(b"hello").unwrap();
    assert_eq!(k, 2);
    assert_eq!(ws.size(), 2);
    ws.flush().unwrap();
    assert_eq!(ws.size(), 2);
}

#[test]
fn write_size_counts_full_writes() {
    let mut ws = WriteSize::new(std::io::sink());
    let k = ws.write(b"hello").unwrap();
    assert_eq!(k, 5);
    assert_eq!(ws.size(), 5);
}
