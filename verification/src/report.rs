//! Rendering of a finished run: one line holding the compressed size,
//! optionally preceded by the original size, each either as a plain decimal
//! byte count or in human-readable binary (IEC, 1024-based) units.

use vstd::prelude::*;
use vstd::string::StringExecFns;

use crate::pipeline::RunResult;

verus! {

/// The character of one decimal digit.
pub open spec fn digit_char(d: nat) -> char {
    if d == 0 {
        '0'
    } else if d == 1 {
        '1'
    } else if d == 2 {
        '2'
    } else if d == 3 {
        '3'
    } else if d == 4 {
        '4'
    } else if d == 5 {
        '5'
    } else if d == 6 {
        '6'
    } else if d == 7 {
        '7'
    } else if d == 8 {
        '8'
    } else {
        '9'
    }
}

/// The decimal rendering of a number: its digits, most significant first,
/// with no leading zero except for the number zero itself.
pub open spec fn dec_digits(n: nat) -> Seq<char>
    decreases n,
{
    if n < 10 {
        seq![digit_char(n)]
    } else {
        dec_digits(n / 10).push(digit_char(n % 10))
    }
}

/// The human-readable rendering of a byte count in binary (IEC, 1024-based)
/// units, as the size formatter produces it; a function of the value alone.
pub uninterp spec fn human_binary(n: nat) -> Seq<char>;

/// Relies on `humansize::format_size` with the binary options: renders the
/// count in IEC units, deterministically from the value alone.
#[verifier::external_body]
fn human_size(n: usize) -> (s: String)
    ensures
        s@ == human_binary(n as nat),
{
    humansize::format_size(n, humansize::BINARY)
}

/// The string of a single decimal digit.
fn digit_str(d: usize) -> (s: &'static str)
    requires
        d < 10,
    ensures
        s@ == seq![digit_char(d as nat)],
{
    proof {
        reveal_strlit("0");
        reveal_strlit("1");
        reveal_strlit("2");
        reveal_strlit("3");
        reveal_strlit("4");
        reveal_strlit("5");
        reveal_strlit("6");
        reveal_strlit("7");
        reveal_strlit("8");
        reveal_strlit("9");
    }
    if d == 0 {
        "0"
    } else if d == 1 {
        "1"
    } else if d == 2 {
        "2"
    } else if d == 3 {
        "3"
    } else if d == 4 {
        "4"
    } else if d == 5 {
        "5"
    } else if d == 6 {
        "6"
    } else if d == 7 {
        "7"
    } else if d == 8 {
        "8"
    } else {
        "9"
    }
}

/// Render a byte count as its plain decimal digits.
pub fn decimal_string(n: usize) -> (s: String)
    ensures
        s@ == dec_digits(n as nat),
    decreases n,
{
    if n < 10 {
        String::from_str(digit_str(n))
    } else {
        let mut s = decimal_string(n / 10);
        s.append(digit_str(n % 10));
        proof {
            assert(dec_digits((n / 10) as nat) + seq![digit_char((n % 10) as nat)] =~= dec_digits(
                n as nat,
            ));
        }
        s
    }
}

/// The separator between the original and the compressed size.
pub open spec fn arrow_sep() -> Seq<char> {
    " → "@
}

/// Render one run as exactly one line, per the two output options: `raw`
/// prints plain byte integers instead of human-readable binary units, and
/// `include_original` puts the original size, an arrow, then the compressed
/// size; otherwise the compressed size stands alone.
pub fn report(res: &RunResult, raw: bool, include_original: bool) -> (line: String)
    ensures
        raw && !include_original ==> line@ == dec_digits(res.compressed as nat),
        raw && include_original ==> line@ == dec_digits(res.original as nat) + arrow_sep()
            + dec_digits(res.compressed as nat),
        !raw && !include_original ==> line@ == human_binary(res.compressed as nat),
        !raw && include_original ==> line@ == human_binary(res.original as nat) + arrow_sep()
            + human_binary(res.compressed as nat),
{
    let compressed = if raw {
        decimal_string(res.compressed)
    } else {
        human_size(res.compressed)
    };
    if include_original {
        let mut line = if raw {
            decimal_string(res.original)
        } else {
            human_size(res.original)
        };
        line.append(" → ");
        line.append(compressed.as_str());
        line
    } else {
        compressed
    }
}

} // verus!
