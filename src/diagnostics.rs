use vstd::prelude::*;
use vstd::string::*;

use crate::request::CropError;
use crate::text::{joined, texts};

verus! {

/// How many trailing lines of the encoder's error output a failure reports.
pub const DIAGNOSTIC_LINES: usize = 12;

/// The lines of a text, as `str::lines` gives them.
pub uninterp spec fn lines_of(text: Seq<char>) -> Seq<Seq<char>>;

/// The text that `String::from_utf8_lossy` decodes from bytes.
pub uninterp spec fn lossy_text(bytes: Seq<u8>) -> Seq<char>;

/// Relies on `str::lines`: splits at `\n` or `\r\n`, without the line endings;
/// the result depends on the text alone.
#[verifier::external_body]
fn split_lines(text: &str) -> (r: Vec<String>)
    ensures
        texts(r@) == lines_of(text@),
{
    text.lines().map(String::from).collect()
}

/// Relies on `String::from_utf8_lossy`: decodes UTF-8, replacing invalid
/// sequences; the result depends on the bytes alone.
#[verifier::external_body]
fn decode_lossy(bytes: &[u8]) -> (r: String)
    ensures
        r@ == lossy_text(bytes@),
{
    String::from_utf8_lossy(bytes).into_owned()
}

/// The last `count` lines, or all of them where there are fewer.
pub open spec fn last_lines(lines: Seq<Seq<char>>, count: nat) -> Seq<Seq<char>> {
    if lines.len() > count {
        lines.skip(lines.len() - count)
    } else {
        lines
    }
}

/// Joins the last `count` of `lines` with `\n`, keeping their order.
pub fn tail_of_lines(lines: &Vec<String>, count: usize) -> (r: String)
    ensures
        r@ == joined(last_lines(texts(lines@), count as nat), "\n"@),
{
    let n = lines.len();
    let from: usize = if n > count { n - count } else { 0 };
    let ghost kept = last_lines(texts(lines@), count as nat);
    assert(kept =~= texts(lines@).subrange(from as int, n as int));
    let mut r = String::new();
    let mut i: usize = from;
    while i < n
        invariant
            n == lines.len(),
            from <= i <= n,
            kept == texts(lines@).subrange(from as int, n as int),
            r@ == joined(texts(lines@).subrange(from as int, i as int), "\n"@),
        decreases n - i,
    {
        let ghost before = texts(lines@).subrange(from as int, i as int);
        let ghost after = texts(lines@).subrange(from as int, i + 1);
        assert(after.drop_last() =~= before);
        assert(after.last() == lines@[i as int]@);
        if i > from {
            r.append("\n");
        } else {
            assert(before.len() == 0);
            assert(after.len() == 1);
        }
        r.append(lines[i].as_str());
        i = i + 1;
    }
    r
}

/// The last `count` lines of `text`, joined with `\n`.
pub fn tail_lines(text: &str, count: usize) -> (r: String)
    ensures
        r@ == joined(last_lines(lines_of(text@), count as nat), "\n"@),
{
    let lines = split_lines(text);
    tail_of_lines(&lines, count)
}

/// What came of running the encoder.
#[derive(Clone, Debug, PartialEq, Eq)]
pub enum RunOutcome {
    /// The process could not be started; holds the system's error text.
    LaunchFailed(String),
    /// The process ran and exited, successfully or not, with its error output.
    Exited { success: bool, stderr: Vec<u8> },
}

/// The excerpt of the encoder's error output that a failure reports.
pub open spec fn failure_excerpt(stderr: Seq<u8>) -> Seq<char> {
    joined(last_lines(lines_of(lossy_text(stderr)), DIAGNOSTIC_LINES as nat), "\n"@)
}

/// Turns the outcome of a run into the request's result: success on a zero
/// exit status, a launch failure with the system's text, or an encode failure
/// with the last lines of the error output.
pub fn interpret_run(outcome: RunOutcome) -> (r: Result<(), CropError>)
    ensures
        match outcome {
            RunOutcome::LaunchFailed(os) => r matches Err(CropError::LaunchFailure(t)) && t@ == os@,
            RunOutcome::Exited { success, stderr } => if success {
                r is Ok
            } else {
                r matches Err(CropError::EncodeFailure(t)) && t@ == failure_excerpt(stderr@)
            },
        },
{
    match outcome {
        RunOutcome::LaunchFailed(os) => Err(CropError::LaunchFailure(os)),
        RunOutcome::Exited { success, stderr } => {
            if success {
                Ok(())
            } else {
                let text = decode_lossy(stderr.as_slice());
                Err(CropError::EncodeFailure(tail_lines(text.as_str(), DIAGNOSTIC_LINES)))
            }
        },
    }
}

} // verus!
