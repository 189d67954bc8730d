//! The bridge to Windows for Linux on a Windows kernel: reading the answer of
//! the path converter.

use vstd::prelude::*;
use vstd::utf8::{decode_utf8, valid_utf8};

verus! {

/// What a command that ran to its end left behind.
#[derive(Debug, Clone, PartialEq, Eq)]
pub struct CommandOutput {
    /// Whether the command ended with exit code zero.
    pub success: bool,
    /// What the command wrote to its output stream.
    pub stdout: Vec<u8>,
}

/// The mathematical value of a [`CommandOutput`].
pub struct CommandOutputView {
    pub success: bool,
    pub stdout: Seq<u8>,
}

impl View for CommandOutput {
    type V = CommandOutputView;

    open spec fn view(&self) -> CommandOutputView {
        CommandOutputView { success: self.success, stdout: self.stdout@ }
    }
}

impl DeepView for CommandOutput {
    type V = CommandOutputView;

    open spec fn deep_view(&self) -> CommandOutputView {
        self@
    }
}

/// How many bytes of `bytes` are left once `bstr` has taken the whitespace
/// off its end.
pub uninterp spec fn trimmed_end_len(bytes: Seq<u8>) -> nat;

/// `bytes` without the whitespace at its end.
pub open spec fn trimmed_end(bytes: Seq<u8>) -> Seq<u8> {
    bytes.take(trimmed_end_len(bytes) as int)
}

/// The Windows path in the answer of the path converter: none where the
/// converter ended unsuccessfully or its answer, once the whitespace at its
/// end is gone, is not UTF-8; else the text of that answer.
pub open spec fn windows_path_in(success: bool, answer: Seq<u8>) -> Option<Seq<char>> {
    if success && valid_utf8(answer) {
        Some(decode_utf8(answer))
    } else {
        None
    }
}

/// The Windows path that a run of the path converter gave: none where the
/// converter could not be run at all, else what its answer holds.
pub open spec fn windows_path(output: Option<CommandOutputView>) -> Option<Seq<char>> {
    match output {
        Some(output) => windows_path_in(output.success, trimmed_end(output.stdout)),
        None => None,
    }
}

/// `bstr::ByteSlice::trim_end` on a byte slice. The result is the start of
/// the input, up to where the trailing whitespace (the Unicode property
/// `White_Space`, read from UTF-8) begins; its length is the one that
/// `trimmed_end_len` names.
#[verifier::external_body]
fn trim_end(bytes: &[u8]) -> (r: Vec<u8>)
    ensures
        r@.len() == trimmed_end_len(bytes@),
        r@.len() <= bytes@.len(),
        r@ == bytes@.take(r@.len() as int),
{
    bstr::ByteSlice::trim_end(bytes).to_vec()
}

/// `String::from_utf8`: the text that the bytes encode, where they are
/// well-formed UTF-8, and nothing where they are not.
#[verifier::external_body]
fn text_of_utf8(bytes: Vec<u8>) -> (r: Option<String>)
    ensures
        r is Some <==> valid_utf8(bytes@),
        r matches Some(text) ==> text@ == decode_utf8(bytes@),
{
    match String::from_utf8(bytes) {
        Ok(text) => Some(text),
        Err(_) => None,
    }
}

/// Reads the Windows path out of the converter's answer, given whether the
/// converter succeeded and its output without the trailing whitespace.
pub fn windows_path_from_answer(success: bool, answer: Vec<u8>) -> (r: Option<String>)
    ensures
        r.deep_view() == windows_path_in(success, answer@),
{
    if !success {
        return None;
    }
    text_of_utf8(answer)
}

/// Reads the Windows path out of a run of the path converter. `None` for
/// `output` says that the converter could not be run. No conversion is no
/// failure: the caller goes on with the path it has.
pub fn wsl_to_windows_path(output: Option<CommandOutput>) -> (r: Option<String>)
    ensures
        r.deep_view() == windows_path(output.deep_view()),
{
    match output {
        Some(output) => {
            let answer = trim_end(output.stdout.as_slice());
            windows_path_from_answer(output.success, answer)
        },
        None => None,
    }
}

} // verus!
