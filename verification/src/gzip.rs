//! The streaming gzip compressor, driven chunk by chunk.
//!
//! `Meter` owns a `flate2` gzip encoder whose sink is a `Vec<u8>`. After every
//! chunk pushed in, the bytes the encoder has emitted so far are taken out of
//! that sink and run through a counting writer that discards them, so the
//! full compressed output is never held in memory. The encoder's state is
//! described by uninterpreted views: the bytes fed in, the bytes emitted to
//! the sink over its lifetime, the bytes currently pending in the sink, and
//! the configured compression level.

use vstd::prelude::*;

use crate::counters::{new_sink, WriteSize};
use crate::pipeline::RunError;

verus! {

/// The total size, in bytes, of the finished gzip stream that the encoder
/// produces for `data` at compression level `level`. The encoder writes a
/// fixed ten-byte header (it sets the timestamp to zero and a constant
/// operating-system byte, for reproducible streams) and an eight-byte
/// trailer, so this is a function of the input bytes and the level alone.
pub uninterp spec fn gzip_size(data: Seq<u8>, level: int) -> nat;

/// The bytes accepted by the encoder through `write` so far.
pub uninterp spec fn enc_fed(e: GzStream) -> Seq<u8>;

/// The bytes the encoder has emitted into its sink over its whole lifetime.
pub uninterp spec fn enc_emitted(e: GzStream) -> nat;

/// The bytes currently sitting in the encoder's sink vector.
pub uninterp spec fn enc_pending(e: GzStream) -> nat;

/// The compression level the encoder was created with.
pub uninterp spec fn enc_level(e: GzStream) -> int;

/// Holds the streaming gzip encoder, whose sink is a byte vector. The type
/// is opaque to the verifier; the uninterpreted views above describe it.
#[verifier::external_body]
pub struct GzStream {
    enc: flate2::write::GzEncoder<Vec<u8>>,
}

/// Relies on `flate2::write::GzEncoder::new` with a fresh, empty `Vec<u8>`
/// sink: nothing has been fed or emitted yet, and the level is the one given.
#[verifier::external_body]
pub(crate) fn gz_new(level: u32) -> (e: GzStream)
    requires
        level <= 9,
    ensures
        enc_fed(e) == Seq::<u8>::empty(),
        enc_emitted(e) == 0,
        enc_pending(e) == 0,
        enc_level(e) == level as int,
{
    GzStream { enc: flate2::write::GzEncoder::new(Vec::new(), flate2::Compression::new(level)) }
}

/// Relies on `flate2::write::GzEncoder::write`. Its sink is a growable byte
/// vector, which accepts every write, and the compressor runs with valid
/// parameters, so the call succeeds; it loops internally until it has
/// consumed at least one byte of a non-empty buffer. The return is the count
/// of bytes consumed, in order from the front of `buf`; every byte emitted
/// goes into the sink vector, so the emitted and pending counts grow by the
/// same amount, and the level never changes. The bytes emitted so far are a
/// prefix of the stream that finishing now would complete, and finishing
/// only appends, so the emitted count never exceeds the finished size of
/// what has been fed.
#[verifier::external_body]
pub(crate) fn gz_write(e: &mut GzStream, buf: &[u8]) -> (r: Result<usize, std::io::Error>)
    ensures
        r is Ok,
        r matches Ok(k) ==> k <= buf@.len() && (buf@.len() > 0 ==> 1 <= k),
        r matches Ok(k) ==> enc_fed(*final(e)) == enc_fed(*old(e)) + buf@.take(k as int),
        enc_level(*final(e)) == enc_level(*old(e)),
        enc_emitted(*final(e)) >= enc_emitted(*old(e)),
        enc_emitted(*final(e)) + enc_pending(*old(e)) == enc_emitted(*old(e)) + enc_pending(
            *final(e),
        ),
        enc_emitted(*final(e)) <= gzip_size(enc_fed(*final(e)), enc_level(*final(e))),
{
    std::io::Write::write(&mut e.enc, buf)
}

/// Relies on `flate2::write::GzEncoder::get_mut` and `std::mem::take`:
/// replaces the sink vector with an empty one and hands back its contents,
/// which hold exactly the pending bytes. The encoder documents that the sink
/// may be replaced this way while forwarding the stream incrementally; the
/// compressor state, hence the bytes fed, emitted, and the level, stay as
/// they were.
#[verifier::external_body]
pub(crate) fn gz_take(e: &mut GzStream) -> (v: Vec<u8>)
    ensures
        v@.len() == enc_pending(*old(e)),
        enc_pending(*final(e)) == 0,
        enc_fed(*final(e)) == enc_fed(*old(e)),
        enc_emitted(*final(e)) == enc_emitted(*old(e)),
        enc_level(*final(e)) == enc_level(*old(e)),
{
    std::mem::take(e.enc.get_mut())
}

/// Relies on `flate2::write::GzEncoder::finish`: flushes all buffered state,
/// writes the ten-byte header if it is still unwritten, and the eight-byte
/// trailer, then returns the sink. All of that lands in the sink vector,
/// which accepts every write, so the call succeeds. The sink then holds
/// everything emitted since the last take — the pending bytes plus the
/// finishing bytes; over the whole lifetime the encoder emits exactly
/// `gzip_size(fed, level)` bytes, and header plus trailer alone are eighteen
/// of them.
#[verifier::external_body]
pub(crate) fn gz_finish(e: GzStream) -> (r: Result<Vec<u8>, std::io::Error>)
    ensures
        r is Ok,
        r matches Ok(v) ==> enc_emitted(e) + v@.len() == gzip_size(enc_fed(e), enc_level(e))
            + enc_pending(e) && gzip_size(enc_fed(e), enc_level(e)) >= 18,
{
    e.enc.finish()
}

/// A streaming gzip size meter: a gzip encoder together with the counting
/// writer, wrapped around a discard sink, that counts the compressed bytes.
pub struct Meter {
    enc: GzStream,
    out: WriteSize<std::io::Sink>,
}

impl Meter {
    /// The bytes fed into the compressor so far.
    pub closed spec fn fed(&self) -> Seq<u8> {
        enc_fed(self.enc)
    }

    /// The compression level this meter was built with.
    pub closed spec fn level(&self) -> int {
        enc_level(self.enc)
    }

    /// The compressed bytes already counted by the discard writer.
    pub closed spec fn drained(&self) -> nat {
        self.out.counted()
    }

    /// Every emitted byte was either counted by the discard writer or is
    /// still pending in the encoder's sink, and the emitted bytes are a
    /// prefix of the finished stream for what has been fed so far.
    pub closed spec fn wf(&self) -> bool {
        &&& self.out.counted() + enc_pending(self.enc) == enc_emitted(self.enc)
        &&& enc_emitted(self.enc) <= gzip_size(enc_fed(self.enc), enc_level(self.enc))
    }

    /// Build a meter for the given effort level. Levels above nine are a
    /// configuration error, rejected before any byte moves.
    pub fn new(level: u32) -> (r: Result<Meter, RunError>)
        ensures
            r is Ok <==> level <= 9,
            r matches Ok(m) ==> m.wf() && m.fed() == Seq::<u8>::empty() && m.level() == level as int
                && m.drained() == 0,
            r matches Err(e) ==> e is InvalidLevel,
    {
        if level > 9 {
            Err(RunError::InvalidLevel)
        } else {
            Ok(Meter { enc: gz_new(level), out: WriteSize::new(new_sink()) })
        }
    }

    /// Take whatever the encoder has emitted out of its sink and run it
    /// through the counting discard writer. This fails only when the counter
    /// itself would overflow the machine's word, which requires the finished
    /// size of the bytes fed so far to exceed it.
    fn drain(&mut self) -> (r: Result<(), RunError>)
        requires
            old(self).wf(),
        ensures
            r is Ok ==> final(self).wf() && final(self).fed() == old(self).fed()
                && final(self).level() == old(self).level(),
            gzip_size(old(self).fed(), old(self).level()) <= usize::MAX ==> r is Ok,
            r matches Err(e) ==> e is SizeOverflow && gzip_size(old(self).fed(), old(self).level())
                > usize::MAX,
    {
        let v = gz_take(&mut self.enc);
        let total = self.out.size();
        if v.len() > usize::MAX - total {
            return Err(RunError::SizeOverflow);
        }
        self.out.write_discard(v.as_slice());
        Ok(())
    }

    /// Feed a whole chunk into the compressor, retrying short accepts, and
    /// count everything the encoder emits meanwhile. The push fails only
    /// with a counter overflow, and only when the finished size of some
    /// prefix of what was fed exceeds the machine's word.
    pub fn push(&mut self, buf: &[u8]) -> (r: Result<(), RunError>)
        requires
            old(self).wf(),
        ensures
            r is Ok ==> final(self).wf() && final(self).fed() == old(self).fed() + buf@
                && final(self).level() == old(self).level(),
            buf@.len() == 0 ==> r is Ok && *final(self) == *old(self),
            (forall|i: int|
                0 <= i <= buf@.len() ==> #[trigger] gzip_size(
                    old(self).fed() + buf@.take(i),
                    old(self).level(),
                ) <= usize::MAX) ==> r is Ok,
            r matches Err(e) ==> e is SizeOverflow && (exists|i: int|
                0 <= i <= buf@.len() && #[trigger] gzip_size(
                    old(self).fed() + buf@.take(i),
                    old(self).level(),
                ) > usize::MAX),
    {
        if buf.len() == 0 {
            proof {
                assert(old(self).fed() + buf@ =~= old(self).fed());
            }
            return Ok(());
        }
        let mut off: usize = 0;
        while off < buf.len()
            invariant
                off <= buf@.len(),
                self.wf(),
                self.fed() == old(self).fed() + buf@.take(off as int),
                self.level() == old(self).level(),
            decreases buf@.len() - off,
        {
            let piece = vstd::slice::slice_subrange(buf, off, buf.len());
            let k = match gz_write(&mut self.enc, piece) {
                Ok(k) => k,
                // The sink is a vector, which accepts every write, so this
                // arm is unreachable; it stands for match exhaustiveness.
                Err(e) => {
                    return Err(RunError::Io(e));
                },
            };
            proof {
                assert(old(self).fed() + buf@.take(off as int) + buf@.subrange(
                    off as int,
                    off as int + k,
                ) =~= old(self).fed() + buf@.take(off as int + k));
                assert(piece@.take(k as int) =~= buf@.subrange(off as int, off as int + k));
            }
            off = off + k;
            match self.drain() {
                Ok(()) => (),
                Err(e) => {
                    proof {
                        assert(gzip_size(old(self).fed() + buf@.take(off as int), old(self).level())
                            > usize::MAX);
                    }
                    return Err(e);
                },
            }
        }
        proof {
            assert(buf@.take(buf@.len() as int) =~= buf@);
        }
        Ok(())
    }

    /// Finalize the compressor: flush its buffered tail and trailer, count
    /// those last bytes, and return the complete compressed size. Only after
    /// this is the count the true size of the compressed stream. Succeeds
    /// whenever that size fits the machine's word; in particular a meter
    /// that has counted nothing yet cannot overflow.
    pub fn finish(self) -> (r: Result<usize, RunError>)
        requires
            self.wf(),
        ensures
            r matches Ok(n) ==> n as nat == gzip_size(self.fed(), self.level()) && n >= 18,
            gzip_size(self.fed(), self.level()) <= usize::MAX ==> r is Ok,
            self.drained() == 0 ==> r is Ok,
            r matches Err(e) ==> e is SizeOverflow && gzip_size(self.fed(), self.level())
                > usize::MAX,
    {
        let Meter { enc, mut out } = self;
        let ghost fed = enc_fed(enc);
        let ghost lvl = enc_level(enc);
        let ghost emitted = enc_emitted(enc);
        let ghost pending = enc_pending(enc);
        match gz_finish(enc) {
            Ok(v) => {
                let total = out.size();
                if v.len() > usize::MAX - total {
                    return Err(RunError::SizeOverflow);
                }
                out.write_discard(v.as_slice());
                Ok(out.size())
            },
            // The sink is a vector, which accepts every write, so this arm
            // is unreachable; it stands for match exhaustiveness.
            Err(e) => Err(RunError::Io(e)),
        }
    }
}

} // verus!
