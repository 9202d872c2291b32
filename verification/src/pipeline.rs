//! The pipeline driver: selects the input source, pumps every byte through
//! the counting source, the streaming compressor and the counting discard
//! sink, and produces the final pair of counts.

use vstd::prelude::*;

use crate::counters::ReadSize;
use crate::gzip::{gzip_size, Meter};

verus! {

/// How many bytes the copy loop moves per read: a bounded intermediate
/// buffer, so the input is streamed and never held whole in memory.
pub const CHUNK_LEN: usize = 65536;

/// The pair of final counts produced by exactly one completed pipeline run.
#[derive(Clone, Copy, Debug, PartialEq, Eq, Structural)]
pub struct RunResult {
    /// Bytes the input stream produced.
    pub original: usize,
    /// Bytes the compressed form of the input occupies.
    pub compressed: usize,
}

/// A fatal error: the run aborts and no partial result is reported.
#[derive(Debug)]
pub enum RunError {
    /// The compression level lies outside zero through nine.
    InvalidLevel,
    /// No file was named and standard input is an unredirected terminal.
    NoInput,
    /// A read or write failed; holds the underlying error.
    Io(std::io::Error),
    /// A byte count would not fit the machine's counter.
    SizeOverflow,
}

/// The input source of one run: exactly one of a named file or standard input.
#[derive(Clone, Copy, Debug, PartialEq, Eq, Structural)]
pub enum InputSelection {
    NamedFile,
    StandardInput,
}

/// Resolve where the input comes from. A named file always wins; without
/// one, standard input is used only when it carries piped or redirected
/// data — an interactive terminal with nothing piped is the no-input error,
/// detected before any read is attempted.
pub fn select_input(has_file: bool, stdin_is_terminal: bool) -> (r: Result<
    InputSelection,
    RunError,
>)
    ensures
        has_file ==> (r matches Ok(s) && s is NamedFile),
        !has_file && !stdin_is_terminal ==> (r matches Ok(s) && s is StandardInput),
        !has_file && stdin_is_terminal ==> (r matches Err(e) && e is NoInput),
{
    if has_file {
        Ok(InputSelection::NamedFile)
    } else if !stdin_is_terminal {
        Ok(InputSelection::StandardInput)
    } else {
        Err(RunError::NoInput)
    }
}

/// Measure bytes already in memory: feed them through the streaming
/// compressor and report their count and the compressed count. The run
/// succeeds whenever the level is valid and the compressed size of every
/// prefix fed fits the machine's counter — in particular always for empty
/// input; the only failures are the invalid level and a counter overflow.
pub fn measure_slice(data: &[u8], level: u32) -> (r: Result<RunResult, RunError>)
    ensures
        r matches Ok(res) ==> res.original == data@.len() && res.compressed as nat == gzip_size(
            data@,
            level as int,
        ) && res.compressed >= 18,
        (r matches Err(e) && e is InvalidLevel) <==> level > 9,
        r matches Err(e) ==> e is InvalidLevel || e is SizeOverflow,
        r matches Err(e) && e is SizeOverflow ==> exists|i: int|
            0 <= i <= data@.len() && #[trigger] gzip_size(data@.take(i), level as int)
                > usize::MAX,
        level <= 9 && (forall|i: int|
            0 <= i <= data@.len() ==> #[trigger] gzip_size(data@.take(i), level as int)
                <= usize::MAX) ==> r is Ok,
        level <= 9 && data@.len() == 0 ==> r is Ok,
{
    let mut m = match Meter::new(level) {
        Ok(m) => m,
        Err(e) => {
            return Err(e);
        },
    };
    match m.push(data) {
        Ok(()) => (),
        Err(e) => {
            proof {
                if e is SizeOverflow {
                    let i = choose|i: int|
                        0 <= i <= data@.len() && gzip_size(
                            Seq::<u8>::empty() + data@.take(i),
                            level as int,
                        ) > usize::MAX;
                    assert(Seq::<u8>::empty() + data@.take(i) =~= data@.take(i));
                    assert(gzip_size(data@.take(i), level as int) > usize::MAX);
                }
            }
            return Err(e);
        },
    }
    proof {
        assert(Seq::<u8>::empty() + data@ =~= data@);
        assert(data@.take(data@.len() as int) =~= data@);
    }
    let original = data.len();
    match m.finish() {
        Ok(compressed) => Ok(RunResult { original, compressed }),
        Err(e) => {
            proof {
                assert(gzip_size(data@.take(data@.len() as int), level as int) == gzip_size(
                    data@,
                    level as int,
                ));
            }
            Err(e)
        },
    }
}

/// Measure a readable stream: wrap it in the counting source and run the
/// copy loop with a bounded chunk buffer until end of stream, then finalize
/// the compressor. The reported original size is exactly the number of bytes
/// the stream produced, and the compressed size is the gzip size of those
/// bytes.
pub fn measure_stream<R: std::io::Read>(inner: R, level: u32) -> (r: Result<RunResult, RunError>)
    ensures
        (r matches Err(e) && e is InvalidLevel) <==> level > 9,
        r matches Err(e) ==> e is InvalidLevel || e is Io || e is SizeOverflow,
        r matches Ok(res) ==> res.compressed >= 18 && exists|data: Seq<u8>|
            data.len() == res.original && #[trigger] gzip_size(data, level as int)
                == res.compressed as nat,
{
    let mut m = match Meter::new(level) {
        Ok(m) => m,
        Err(e) => {
            return Err(e);
        },
    };
    let mut src = ReadSize::new(inner);
    let mut buf: Vec<u8> = chunk_buffer();
    loop
        invariant
            level <= 9,
            m.wf(),
            src.counted() == m.fed().len(),
            m.level() == level as int,
            buf@.len() == CHUNK_LEN as nat,
        ensures
            m.wf(),
            src.counted() == m.fed().len(),
            m.level() == level as int,
        decreases usize::MAX - src.counted(),
    {
        let total = src.size();
        if usize::MAX - total < CHUNK_LEN {
            return Err(RunError::SizeOverflow);
        }
        let k = match src.read(&mut buf) {
            Ok(k) => k,
            Err(e) => {
                return Err(RunError::Io(e));
            },
        };
        if k == 0 {
            break;
        }
        let piece = vstd::slice::slice_subrange(buf.as_slice(), 0, k);
        match m.push(piece) {
            Ok(()) => (),
            Err(e) => {
                return Err(e);
            },
        }
    }
    let original = src.size();
    let ghost fed = m.fed();
    match m.finish() {
        Ok(compressed) => {
            proof {
                assert(fed.len() == original as nat);
                assert(gzip_size(fed, level as int) == compressed as nat);
            }
            Ok(RunResult { original, compressed })
        },
        Err(e) => Err(e),
    }
}

/// Build the bounded intermediate buffer the copy loop reads into.
fn chunk_buffer() -> (v: Vec<u8>)
    ensures
        v@.len() == CHUNK_LEN as nat,
{
    let mut v: Vec<u8> = Vec::new();
    let mut i: usize = 0;
    while i < CHUNK_LEN
        invariant
            v@.len() == i as nat,
            i <= CHUNK_LEN,
        decreases CHUNK_LEN - i,
    {
        v.push(0u8);
        i = i + 1;
    }
    v
}

/// The total number of bytes in a run of chunks, the sizes of the reads a
/// counting wrapper saw.
pub open spec fn total_count(chunks: Seq<nat>) -> nat
    decreases chunks.len(),
{
    if chunks.len() == 0 {
        0
    } else {
        total_count(chunks.drop_last()) + chunks.last()
    }
}

/// One step of counting: reading one more chunk adds exactly its size.
pub proof fn lemma_count_step(chunks: Seq<nat>, j: int)
    requires
        0 < j <= chunks.len(),
    ensures
        total_count(chunks.take(j)) == total_count(chunks.take(j - 1)) + chunks[j - 1],
{
    assert(chunks.take(j).drop_last() =~= chunks.take(j - 1));
}

/// Law: counting is monotonic. After any prefix of the copy loop's reads the
/// accumulated count is no larger than after any longer prefix.
pub proof fn lemma_count_monotonic(chunks: Seq<nat>, i: int, j: int)
    requires
        0 <= i <= j <= chunks.len(),
    ensures
        total_count(chunks.take(i)) <= total_count(chunks.take(j)),
    decreases j - i,
{
    if i < j {
        lemma_count_step(chunks, j);
        lemma_count_monotonic(chunks, i, j - 1);
    } else {
        assert(chunks.take(i) =~= chunks.take(j));
    }
}

/// Law: counting never overshoots. At every point of the copy loop the
/// accumulated count is at most the total number of bytes the input holds.
pub proof fn lemma_count_bounded(chunks: Seq<nat>, i: int)
    requires
        0 <= i <= chunks.len(),
    ensures
        total_count(chunks.take(i)) <= total_count(chunks),
{
    lemma_count_monotonic(chunks, i, chunks.len() as int);
    assert(chunks.take(chunks.len() as int) =~= chunks);
}

/// Law: the compressed size is deterministic. Two completed runs over the
/// same input bytes with the same level report the same compressed size.
pub proof fn lemma_compressed_size_deterministic(
    data: Seq<u8>,
    level: int,
    a: RunResult,
    b: RunResult,
)
    requires
        a.compressed as nat == gzip_size(data, level),
        b.compressed as nat == gzip_size(data, level),
    ensures
        a.compressed == b.compressed,
{
}

} // verus!
