use vstd::prelude::*;
use vstd::utf8::{valid_utf8, decode_utf8};

verus! {

/// The text that lossy UTF-8 decoding makes of a byte sequence.
pub uninterp spec fn lossy_text(b: Seq<u8>) -> Seq<char>;

/// Relies on `String::from_utf8_lossy`: the text depends on the bytes alone,
/// and valid UTF-8 comes back decoded with nothing replaced.
#[verifier::external_body]
fn decode_lossy(b: &[u8]) -> (r: String)
    ensures
        r@ == lossy_text(b@),
        valid_utf8(b@) ==> r@ == decode_utf8(b@),
{
    String::from_utf8_lossy(b).into_owned()
}

/// Whether an executed program succeeded.
#[derive(Debug, Clone, Copy, PartialEq, Eq, Structural)]
pub enum Status {
    Success,
    Error,
}

/// A program succeeded exactly when it exited normally with code zero; a
/// program stopped by a signal has no code and did not succeed.
pub open spec fn status_of(code: Option<i32>) -> Status {
    if code == Some(0i32) {
        Status::Success
    } else {
        Status::Error
    }
}

impl Status {
    /// The status of a program that terminated with `code`.
    pub fn of_exit(code: Option<i32>) -> (r: Status)
        ensures
            r == status_of(code),
    {
        match code {
            Some(c) => if c == 0 {
                Status::Success
            } else {
                Status::Error
            },
            None => Status::Error,
        }
    }

    /// The status as the caller reads it: "success" or "error".
    pub fn as_str(&self) -> (r: &'static str)
        ensures
            r@ == (if *self == Status::Success { "success"@ } else { "error"@ }),
    {
        match self {
            Status::Success => "success",
            Status::Error => "error",
        }
    }
}

/// What one execution reports: both captured streams as text, the status,
/// and the raw exit code when the program terminated normally.
#[derive(Debug, Clone, PartialEq, Eq)]
pub struct ExecutionResult {
    pub stdout: String,
    pub stderr: String,
    pub status: Status,
    pub code: Option<i32>,
}

impl ExecutionResult {
    /// Builds the report of a program that wrote `stdout` and `stderr` and
    /// terminated with `code`.
    pub fn from_output(stdout: &[u8], stderr: &[u8], code: Option<i32>) -> (r: ExecutionResult)
        ensures
            r.stdout@ == lossy_text(stdout@),
            r.stderr@ == lossy_text(stderr@),
            valid_utf8(stdout@) ==> r.stdout@ == decode_utf8(stdout@),
            valid_utf8(stderr@) ==> r.stderr@ == decode_utf8(stderr@),
            r.status == status_of(code),
            r.code == code,
    {
        ExecutionResult {
            stdout: decode_lossy(stdout),
            stderr: decode_lossy(stderr),
            status: Status::of_exit(code),
            code,
        }
    }
}

/// A runtime is available exactly when its binary could be launched and
/// reported its version with exit code zero.
pub open spec fn available(launched: bool, code: Option<i32>) -> bool {
    launched && code == Some(0i32)
}

/// Decides a runtime probe from what launching the version query gave:
/// whether the binary could be launched at all, and its exit code. A binary
/// that cannot be launched means the runtime is absent, which is no error.
pub fn probe_verdict(launched: bool, code: Option<i32>) -> (r: bool)
    ensures
        r == available(launched, code),
        !launched ==> !r,
{
    launched && Status::of_exit(code) == Status::Success
}

} // verus!
