//! Judging how a subprocess ended.

use vstd::prelude::*;
use vstd::utf8::{decode_utf8, valid_utf8};

verus! {

/// The text that `String::from_utf8_lossy` makes of a run of bytes.
pub uninterp spec fn lossy_text(bytes: Seq<u8>) -> Seq<char>;

/// `String::from_utf8_lossy`: the bytes as text, each invalid sequence
/// replaced by U+FFFD. Bytes that are valid UTF-8 come back as the text they
/// encode.
#[verifier::external_body]
pub(crate) fn text_of_bytes(bytes: &[u8]) -> (text: String)
    ensures
        text@ == lossy_text(bytes@),
        valid_utf8(bytes@) ==> text@ == decode_utf8(bytes@),
{
    String::from_utf8_lossy(bytes).into_owned()
}

/// Accepts a subprocess that exited with success; any other is an error whose
/// text is what the subprocess wrote to its error stream, verbatim.
pub fn check_exit_status(success: bool, stderr: &[u8]) -> (outcome: Result<(), String>)
    ensures
        match outcome {
            Ok(()) => success,
            Err(text) => !success && text@ == lossy_text(stderr@),
        },
{
    if !success {
        return Err(text_of_bytes(stderr));
    }
    Ok(())
}

} // verus!
