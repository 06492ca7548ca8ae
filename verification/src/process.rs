//! How a program went that was run to its end.

use vstd::prelude::*;
use vstd::utf8::*;

use crate::text::cat2;

verus! {

/// A program that was run to its end.
#[derive(Debug)]
pub struct Finished {
    /// Whether the program reports success.
    pub success: bool,
    /// The exit code; none where the program was ended by a signal.
    pub code: Option<i32>,
    /// How the system describes the program's end.
    pub status: String,
    pub stdout: Vec<u8>,
    pub stderr: Vec<u8>,
}

/// The text that bytes stand for in UTF-8, with a replacement character for
/// what is not UTF-8.
pub uninterp spec fn lossy_text(bytes: Seq<u8>) -> Seq<char>;

/// Calls `String::from_utf8_lossy`. Its result is named [`lossy_text`] of the
/// bytes; where the bytes are UTF-8 it is the text that they encode.
#[verifier::external_body]
pub(crate) fn read_lossy(bytes: &[u8]) -> (r: String)
    ensures
        r@ == lossy_text(bytes@),
        valid_utf8(bytes@) ==> r@ == decode_utf8(bytes@),
{
    String::from_utf8_lossy(bytes).into_owned()
}

/// What a program wrote: its output, then its complaints.
pub open spec fn output_of(f: Finished) -> Seq<char> {
    lossy_text(f.stdout@) + lossy_text(f.stderr@)
}

/// The exit code of a program, or -1 where it has none.
pub open spec fn code_of(code: Option<i32>) -> i32 {
    match code {
        Some(code) => code,
        None => -1i32,
    }
}

/// The exit code of a program, or -1 where it has none.
pub fn exit_code(code: Option<i32>) -> (r: i32)
    ensures
        r == code_of(code),
{
    match code {
        Some(code) => code,
        None => -1,
    }
}

/// What a program wrote: its output, then its complaints.
pub fn combined_output(f: &Finished) -> (r: String)
    ensures
        r@ == output_of(*f),
{
    cat2(read_lossy(f.stdout.as_slice()).as_str(), read_lossy(f.stderr.as_slice()).as_str())
}

} // verus!
