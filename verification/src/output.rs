//! What came back from the child process, and the text made of it.

use vstd::prelude::*;
use vstd::utf8::{decode_utf8, valid_utf8};

use crate::error::BridgeError;

verus! {

/// What a child process left behind when it ended.
#[derive(Clone, Debug, PartialEq, Eq)]
pub struct ProcessOutput {
    /// The exit code, where the process ended with one.
    pub status: Option<i32>,
    /// Everything the process wrote to its standard output.
    pub stdout: Vec<u8>,
    /// Everything the process wrote to its standard error.
    pub stderr: Vec<u8>,
}

/// How the attempt to run the child process ended.
#[derive(Clone, Debug, PartialEq, Eq)]
pub enum SpawnOutcome {
    /// The process could not be started.
    NotStarted,
    /// The process ran until it ended.
    Exited(ProcessOutput),
}

/// The text that `String::from_utf8_lossy` makes of `bytes`: their decoding,
/// with U+FFFD in place of each sequence that is not valid UTF-8.
pub uninterp spec fn utf8_lossy(bytes: Seq<u8>) -> Seq<char>;

/// `text` is the lossy decoding of `bytes`. Where the bytes are valid UTF-8
/// nothing is replaced, and the text is their plain decoding.
pub open spec fn decodes_to(bytes: Seq<u8>, text: Seq<char>) -> bool {
    &&& text == utf8_lossy(bytes)
    &&& valid_utf8(bytes) ==> text == decode_utf8(bytes)
}

/// Calls `String::from_utf8_lossy`. Trusted: the result is what std makes of
/// the bytes, and for valid UTF-8 it is the string that the bytes encode.
#[verifier::external_body]
fn decode_lossy(bytes: &[u8]) -> (text: String)
    ensures
        text@ == utf8_lossy(bytes@),
        valid_utf8(bytes@) ==> text@ == decode_utf8(bytes@),
{
    String::from_utf8_lossy(bytes).into_owned()
}

/// The text that the process wrote to its standard output. Neither the exit
/// code nor the standard error has a part in it.
pub fn stdout_text(out: &ProcessOutput) -> (text: String)
    ensures
        decodes_to(out.stdout@, text@),
{
    decode_lossy(out.stdout.as_slice())
}

/// `r` is what a call returns after the attempt `outcome`.
pub open spec fn concluded(outcome: SpawnOutcome, r: Result<Seq<char>, BridgeError>) -> bool {
    match outcome {
        SpawnOutcome::NotStarted => r == Err::<Seq<char>, BridgeError>(BridgeError::ProcessLaunch),
        SpawnOutcome::Exited(out) => r is Ok && decodes_to(out.stdout@, r->Ok_0),
    }
}

/// Mathematical content of a call's result.
pub open spec fn result_text(r: Result<String, BridgeError>) -> Result<Seq<char>, BridgeError> {
    match r {
        Ok(text) => Ok(text@),
        Err(e) => Err(e),
    }
}

/// Turns the attempt to run the child into the call's result: a process that
/// did not start is a failed launch; one that ran gives its standard output
/// as text, however it ended.
pub fn conclude(outcome: SpawnOutcome) -> (r: Result<String, BridgeError>)
    ensures
        concluded(outcome, result_text(r)),
{
    match outcome {
        SpawnOutcome::NotStarted => Err(BridgeError::ProcessLaunch),
        SpawnOutcome::Exited(out) => Ok(stdout_text(&out)),
    }
}

} // verus!
