use vstd::prelude::*;
use vstd::utf8::{decode_utf8, valid_utf8};

use crate::error::ListError;

verus! {

/// What a mounted binary hands back: its exit code, the host's error text, and
/// the raw bytes it wrote to stdout and stderr.
#[derive(Clone, Debug)]
pub struct BinaryOutput {
    /// The exit code; zero means success.
    pub ret_code: i32,
    /// The host's description of a failure.
    pub error: String,
    /// What the binary wrote to stdout.
    pub stdout: Vec<u8>,
    /// What the binary wrote to stderr.
    pub stderr: Vec<u8>,
}

/// The exit code that marks success.
pub const SUCCESS_CODE: i32 = 0;

/// The output as text: on success the decoded stdout, on failure a text made
/// of the host's error and the decoded stderr; `None` when the stream it reads
/// is not valid UTF-8.
pub open spec fn std_form(out: BinaryOutput) -> Option<Result<Seq<char>, Seq<char>>> {
    if out.ret_code == SUCCESS_CODE {
        if valid_utf8(out.stdout@) {
            Some(Ok(decode_utf8(out.stdout@)))
        } else {
            None
        }
    } else if valid_utf8(out.stderr@) {
        Some(Err("error: "@ + out.error@ + ", stderr: "@ + decode_utf8(out.stderr@)))
    } else {
        None
    }
}

/// An optional text outcome as character sequences.
pub open spec fn std_view(r: Option<Result<String, String>>) -> Option<Result<Seq<char>, Seq<char>>> {
    match r {
        Some(Ok(s)) => Some(Ok(s@)),
        Some(Err(e)) => Some(Err(e@)),
        None => None,
    }
}

/// Relies on marine_rs_sdk's MountedBinaryResult::into_std: on exit code 0 it
/// decodes stdout; otherwise it decodes stderr and formats
/// "error: {error}, stderr: {stderr}"; it gives None when that decoding fails.
#[verifier::external_body]
fn into_std(out: BinaryOutput) -> (r: Option<Result<String, String>>)
    ensures
        std_view(r) == std_form(out),
{
    let mounted = marine_rs_sdk::MountedBinaryResult {
        ret_code: out.ret_code,
        error: out.error,
        stdout: out.stdout,
        stderr: out.stderr,
    };
    mounted.into_std()
}

/// The arguments for `ls` that list `path` one entry per line.
pub open spec fn ls_args(path: Seq<char>) -> Seq<Seq<char>> {
    seq!["-1"@, path]
}

/// The arguments for `ls` that list `path` one entry per line.
pub fn ls_arguments(path: &String) -> (r: Vec<String>)
    ensures
        r.deep_view() == ls_args(path@),
{
    let mut flag = String::new();
    flag.append("-1");
    let mut r: Vec<String> = Vec::new();
    r.push(flag);
    r.push(path.clone());
    proof {
        assert(r.deep_view() =~= ls_args(path@));
    }
    r
}

/// What `{:?}` writes for a string: the text in double quotes, with std's escapes.
pub uninterp spec fn debug_text_of(s: Seq<char>) -> Seq<char>;

/// Relies on std's `Debug` for `str`: the quoted and escaped form of `s`,
/// which depends on the characters of `s` alone.
#[verifier::external_body]
fn debug_text(s: &str) -> (r: String)
    ensures
        r@ == debug_text_of(s@),
{
    format!("{:?}", s)
}

/// The command line of an `ls` call on `path`, as its arguments joined by spaces.
pub open spec fn ls_command_line(path: Seq<char>) -> Seq<char> {
    "-1 "@ + path
}

/// The text that reports a failed `ls` call, given the quoted command line and
/// the binary's own description of the failure.
pub open spec fn failure_text(quoted_command: Seq<char>, e: Seq<char>) -> Seq<char> {
    "ls call failed \n"@ + quoted_command + ": "@ + e
}

/// The text that reports a failed `ls` call on `path`.
pub open spec fn ls_failure_message(path: Seq<char>, e: Seq<char>) -> Seq<char> {
    failure_text(debug_text_of(ls_command_line(path)), e)
}

/// The text that reports a failed `ls` call, given the quoted command line and
/// the binary's own description of the failure.
pub fn failure_message(quoted_command: &String, e: &String) -> (r: String)
    ensures
        r@ == failure_text(quoted_command@, e@),
{
    let mut m = String::new();
    m.append("ls call failed \n");
    m.append(quoted_command.as_str());
    m.append(": ");
    m.append(e.as_str());
    m
}

/// Relies on String::from_utf8: it succeeds exactly on valid UTF-8, and then
/// holds the characters that the bytes encode.
#[verifier::external_body]
fn decode_text(bytes: Vec<u8>) -> (r: Option<String>)
    ensures
        r is Some <==> valid_utf8(bytes@),
        r is Some ==> r->0@ == decode_utf8(bytes@),
{
    String::from_utf8(bytes).ok()
}

/// What an `ls` call on `path` printed, or why it gave nothing to read: on a
/// failed call the decoded stderr, or, where stderr is empty, a text made of
/// the command line and the host's error.
pub open spec fn ls_outcome(path: Seq<char>, out: BinaryOutput) -> Result<Seq<char>, Seq<char>> {
    match std_form(out) {
        None => Err(ListError::NonUtf8Output.message_spec()),
        Some(Ok(text)) => Ok(text),
        Some(Err(e)) => if decode_utf8(out.stderr@).len() > 0 {
            Err(decode_utf8(out.stderr@))
        } else {
            Err(ls_failure_message(path, e))
        },
    }
}

/// Reads the output of an `ls` call on `path`: the text it printed, or the
/// error that describes its failure.
pub fn ls_output(path: &String, out: BinaryOutput) -> (r: Result<String, ListError>)
    ensures
        match ls_outcome(path@, out) {
            Ok(text) => r is Ok && r->Ok_0@ == text,
            Err(m) => r is Err && r->Err_0.message_spec() == m,
        },
        std_form(out) is None ==> r == Err::<String, ListError>(ListError::NonUtf8Output),
{
    let stderr = out.stderr.clone();
    proof {
        assert(stderr@ =~= out.stderr@);
    }
    match into_std(out) {
        None => Err(ListError::NonUtf8Output),
        Some(Ok(text)) => Ok(text),
        Some(Err(e)) => match decode_text(stderr) {
            Some(text) if text.as_str().unicode_len() > 0 => Err(ListError::CallFailed(text)),
            _ => {
                let mut command = String::new();
                command.append("-1 ");
                command.append(path.as_str());
                let quoted = debug_text(command.as_str());
                Err(ListError::CallFailed(failure_message(&quoted, &e)))
            },
        },
    }
}

} // verus!
