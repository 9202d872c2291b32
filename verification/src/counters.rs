//! Byte-counting pass-through wrappers around readable and writable streams.
//!
//! `ReadSize` forwards reads and accumulates how many bytes were produced;
//! `WriteSize` forwards writes and accumulates how many bytes the wrapped
//! writer accepted. Neither alters, buffers, nor reorders the bytes that
//! pass through it.

use vstd::prelude::*;

verus! {

/// Declares `std::io::Error`, the error type that the wrapped streams report.
#[verifier::external_type_specification]
#[verifier::external_body]
pub struct ExIoError(std::io::Error);

/// Declares `std::io::Sink`, the discard writer that accepts and drops all bytes.
#[verifier::external_type_specification]
#[verifier::external_body]
pub struct ExSink(std::io::Sink);

/// Relies on `std::io::sink`: returns the writer that accepts every byte and
/// retains none.
#[verifier::external_body]
pub(crate) fn new_sink() -> std::io::Sink {
    std::io::sink()
}

/// Relies on `std::io::Read::read`: on `Ok(k)`, exactly `k` bytes were read
/// into the front of `buf`, with `0 <= k <= buf.len()`; the buffer keeps its
/// length. The copy loop takes `Ok(0)` on a non-empty buffer as end of
/// stream, as the standard library's own copy does.
#[verifier::external_body]
fn io_read<R: std::io::Read>(reader: &mut R, buf: &mut Vec<u8>) -> (r: Result<
    usize,
    std::io::Error,
>)
    ensures
        final(buf)@.len() == old(buf)@.len(),
        r matches Ok(k) ==> k <= old(buf)@.len(),
{
    reader.read(buf.as_mut_slice())
}

/// Relies on `std::io::Write::write`: on `Ok(k)`, the wrapped writer accepted
/// exactly the first `k` bytes of `buf`, with `0 <= k <= buf.len()`.
#[verifier::external_body]
fn io_write<W: std::io::Write>(writer: &mut W, buf: &[u8]) -> (r: Result<usize, std::io::Error>)
    ensures
        r matches Ok(k) ==> k <= buf@.len(),
{
    writer.write(buf)
}

/// Relies on `std::io::Write::flush`: forwards the flush; it moves no counted
/// bytes.
#[verifier::external_body]
fn io_flush<W: std::io::Write>(writer: &mut W) -> (r: Result<(), std::io::Error>) {
    writer.flush()
}

/// Relies on `std::io::Write::write` on `std::io::Sink`: the standard library
/// documents that every write to the sink returns `Ok(buf.len())` without
/// inspecting the buffer.
#[verifier::external_body]
fn sink_write(writer: &mut std::io::Sink, buf: &[u8]) -> (k: usize)
    ensures
        k == buf@.len(),
{
    std::io::Write::write(writer, buf).unwrap_or(buf.len())
}

/// A reader wrapper that counts how many bytes were read through it.
pub struct ReadSize<R> {
    inner: R,
    size: usize,
}

impl<R> ReadSize<R> {
    /// The number of bytes counted so far.
    pub closed spec fn counted(&self) -> nat {
        self.size as nat
    }

    /// Wrap a readable stream; the count starts at zero.
    pub fn new(inner: R) -> (r: Self)
        ensures
            r.counted() == 0,
    {
        ReadSize { inner, size: 0 }
    }

    /// Return the number of bytes that were read so far.
    pub fn size(&self) -> (n: usize)
        ensures
            n == self.counted(),
    {
        self.size
    }
}

impl<R: std::io::Read> ReadSize<R> {
    /// Forward one read to the wrapped stream. On `Ok(k)` the first `k`
    /// bytes of `buf` hold what was read and the count grows by exactly `k`;
    /// a failed read leaves the count unchanged. The count never decreases.
    pub fn read(&mut self, buf: &mut Vec<u8>) -> (r: Result<usize, std::io::Error>)
        requires
            old(self).counted() + old(buf)@.len() <= usize::MAX,
        ensures
            final(buf)@.len() == old(buf)@.len(),
            final(self).counted() >= old(self).counted(),
            r matches Ok(k) ==> k <= old(buf)@.len() && final(self).counted() == old(self).counted()
                + k,
            r is Err ==> final(self).counted() == old(self).counted(),
    {
        match io_read(&mut self.inner, buf) {
            Ok(k) => {
                self.size = self.size + k;
                Ok(k)
            },
            Err(e) => Err(e),
        }
    }
}

/// A writer wrapper that counts how many bytes were written through it.
pub struct WriteSize<W> {
    inner: W,
    size: usize,
}

impl<W> WriteSize<W> {
    /// The number of bytes counted so far.
    pub closed spec fn counted(&self) -> nat {
        self.size as nat
    }

    /// Wrap a writable stream; the count starts at zero.
    pub fn new(inner: W) -> (r: Self)
        ensures
            r.counted() == 0,
    {
        WriteSize { inner, size: 0 }
    }

    /// Return the number of bytes that were written so far.
    pub fn size(&self) -> (n: usize)
        ensures
            n == self.counted(),
    {
        self.size
    }
}

impl<W: std::io::Write> WriteSize<W> {
    /// Forward one write to the wrapped stream. On `Ok(k)` the wrapped
    /// stream accepted the first `k` bytes and the count grows by exactly
    /// `k`: a short write counts only the accepted part. A failed write
    /// leaves the count unchanged. The count never decreases.
    pub fn write(&mut self, buf: &[u8]) -> (r: Result<usize, std::io::Error>)
        requires
            old(self).counted() + buf@.len() <= usize::MAX,
        ensures
            final(self).counted() >= old(self).counted(),
            r matches Ok(k) ==> k <= buf@.len() && final(self).counted() == old(self).counted()
                + k,
            r is Err ==> final(self).counted() == old(self).counted(),
    {
        match io_write(&mut self.inner, buf) {
            Ok(k) => {
                self.size = self.size + k;
                Ok(k)
            },
            Err(e) => Err(e),
        }
    }

    /// Forward a flush to the wrapped stream; flushing never changes the count.
    pub fn flush(&mut self) -> (r: Result<(), std::io::Error>)
        ensures
            final(self).counted() == old(self).counted(),
    {
        io_flush(&mut self.inner)
    }
}

impl WriteSize<std::io::Sink> {
    /// Forward one write to the wrapped discard sink, which accepts every
    /// byte immediately: the count grows by exactly the buffer's length.
    pub fn write_discard(&mut self, buf: &[u8])
        requires
            old(self).counted() + buf@.len() <= usize::MAX,
        ensures
            final(self).counted() == old(self).counted() + buf@.len(),
    {
        let k = sink_write(&mut self.inner, buf);
        self.size = self.size + k;
    }
}

} // verus!
