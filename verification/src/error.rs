//! The closed set of failures of one highlighter run, and the plain values
//! that describe what the operating system reported.

use vstd::prelude::*;

verus! {

/// What the operating system said went wrong, as far as the classification
/// of a failure depends on it.
#[derive(Clone, Copy, Debug, PartialEq, Eq)]
pub enum OsErrorKind {
    /// The executable does not exist or cannot be resolved.
    NotFound,
    /// Any other failure.
    Other,
}

/// An error reported by the operating system while starting the child
/// process or talking to it.
#[derive(Clone, Debug, PartialEq, Eq)]
pub struct OsError {
    pub kind: OsErrorKind,
    /// The operating system's own description of the failure.
    pub message: String,
}

/// The mathematical value of an [`OsError`].
pub struct OsErrorView {
    pub kind: OsErrorKind,
    pub message: Seq<char>,
}

impl View for OsError {
    type V = OsErrorView;

    open spec fn view(&self) -> OsErrorView {
        OsErrorView { kind: self.kind, message: self.message@ }
    }
}

/// How the child process ended.
#[derive(Clone, Debug, PartialEq, Eq)]
pub struct ExitStatus {
    /// The exit code, or `None` when the child did not exit by itself
    /// (it was ended by a signal, for example).
    pub code: Option<i32>,
    /// The platform's own rendering of the status, such as `exit status: 1`.
    pub description: String,
}

/// The mathematical value of an [`ExitStatus`].
pub struct ExitStatusView {
    pub code: Option<i32>,
    pub description: Seq<char>,
}

impl ExitStatusView {
    /// A child succeeded exactly when it exited by itself with code zero.
    pub open spec fn success(self) -> bool {
        self.code == Some(0i32)
    }
}

impl View for ExitStatus {
    type V = ExitStatusView;

    open spec fn view(&self) -> ExitStatusView {
        ExitStatusView { code: self.code, description: self.description@ }
    }
}

impl ExitStatus {
    /// Tells whether the child exited by itself with code zero.
    pub fn success(&self) -> (ok: bool)
        ensures
            ok == self@.success(),
    {
        match self.code {
            Some(code) => code == 0,
            None => false,
        }
    }
}

/// Why a sequence of bytes is not UTF-8 text, together with the bytes.
#[derive(Clone, Debug, PartialEq, Eq)]
pub struct Utf8Failure {
    /// The bytes that could not be decoded, unchanged.
    pub bytes: Vec<u8>,
    /// The length of the longest prefix of `bytes` that is UTF-8 text.
    pub valid_up_to: usize,
    /// The length of the offending byte sequence that starts at
    /// `valid_up_to`, or `None` when the bytes end in the middle of a
    /// character.
    pub error_len: Option<usize>,
}

/// The mathematical value of a [`Utf8Failure`].
pub struct Utf8FailureView {
    pub bytes: Seq<u8>,
    pub valid_up_to: nat,
    pub error_len: Option<usize>,
}

impl View for Utf8Failure {
    type V = Utf8FailureView;

    open spec fn view(&self) -> Utf8FailureView {
        Utf8FailureView {
            bytes: self.bytes@,
            valid_up_to: self.valid_up_to as nat,
            error_len: self.error_len,
        }
    }
}

/// Everything that can go wrong in one run of the highlighter.
#[derive(Clone, Debug, PartialEq, Eq)]
pub enum PygmentizeError {
    /// The child process could not be started, for another reason than the
    /// executable being absent.
    Process(OsError),
    /// The executable was not found or is not installed. Where it is
    /// installed but not on the search path, its path can be set with
    /// [`set_bin_path`](crate::set_bin_path).
    NotFound(OsError),
    /// Writing the input to the child, or collecting what it wrote, failed.
    Io(OsError),
    /// The child succeeded but what it wrote is not UTF-8 text.
    InvalidUtf8(Utf8Failure),
    /// The child reported a failure: its exit status and what it wrote to
    /// its error stream.
    Pygmentize(ExitStatus, String),
}

/// The mathematical value of a [`PygmentizeError`].
pub enum PygmentizeErrorView {
    Process(OsErrorView),
    NotFound(OsErrorView),
    Io(OsErrorView),
    InvalidUtf8(Utf8FailureView),
    Pygmentize(ExitStatusView, Seq<char>),
}

impl View for PygmentizeError {
    type V = PygmentizeErrorView;

    open spec fn view(&self) -> PygmentizeErrorView {
        match self {
            PygmentizeError::Process(err) => PygmentizeErrorView::Process(err@),
            PygmentizeError::NotFound(err) => PygmentizeErrorView::NotFound(err@),
            PygmentizeError::Io(err) => PygmentizeErrorView::Io(err@),
            PygmentizeError::InvalidUtf8(failure) => PygmentizeErrorView::InvalidUtf8(failure@),
            PygmentizeError::Pygmentize(status, stderr) => PygmentizeErrorView::Pygmentize(
                status@,
                stderr@,
            ),
        }
    }
}

/// The failure that a spawn error stands for: the executable is missing
/// exactly when the operating system said so, and any other error is a
/// plain spawn failure.
pub open spec fn spawn_failure(err: OsErrorView) -> PygmentizeErrorView {
    match err.kind {
        OsErrorKind::NotFound => PygmentizeErrorView::NotFound(err),
        OsErrorKind::Other => PygmentizeErrorView::Process(err),
    }
}

/// The decimal digits in order.
pub open spec fn digits() -> Seq<char> {
    "0123456789"@
}

/// The number `n` written in decimal, without leading zeros.
pub open spec fn decimal(n: nat) -> Seq<char>
    decreases n,
{
    if n < 10 {
        seq![digits()[n as int]]
    } else {
        decimal(n / 10).push(digits()[(n % 10) as int])
    }
}

/// Gives the one decimal digit of a number below ten.
fn digit_str(d: usize) -> (text: &'static str)
    requires
        d < 10,
    ensures
        text@ == seq![digits()[d as int]],
{
    let all = "0123456789";
    proof {
        reveal_strlit("0123456789");
    }
    let text = all.substring_ascii(d, d + 1);
    assert(text@ =~= seq![digits()[d as int]]);
    text
}

/// Writes a number in decimal.
pub fn decimal_string(n: usize) -> (text: String)
    ensures
        text@ == decimal(n as nat),
    decreases n,
{
    if n < 10 {
        digit_str(n).to_owned()
    } else {
        let mut text = decimal_string(n / 10);
        text.append(digit_str(n % 10));
        text
    }
}

impl Utf8FailureView {
    /// What went wrong in words: where decoding stopped, and how long the
    /// offending sequence is unless the bytes just end too early.
    pub open spec fn message(self) -> Seq<char> {
        match self.error_len {
            Some(len) => "invalid utf-8 sequence of "@ + decimal(len as nat)
                + " bytes from index "@ + decimal(self.valid_up_to),
            None => "incomplete utf-8 byte sequence from index "@ + decimal(self.valid_up_to),
        }
    }
}

impl Utf8Failure {
    /// Describes the failure in words.
    pub fn message(&self) -> (text: String)
        ensures
            text@ == self@.message(),
    {
        match self.error_len {
            Some(len) => {
                let mut text = "invalid utf-8 sequence of ".to_owned();
                text.append(decimal_string(len).as_str());
                text.append(" bytes from index ");
                text.append(decimal_string(self.valid_up_to).as_str());
                text
            },
            None => {
                let mut text = "incomplete utf-8 byte sequence from index ".to_owned();
                text.append(decimal_string(self.valid_up_to).as_str());
                text
            },
        }
    }
}

impl PygmentizeErrorView {
    /// The failure in words, for whoever reads the diagnostics. What the
    /// operating system said is passed on as it is; a failure of the
    /// highlighter itself names its exit status and carries all that it
    /// wrote to its error stream.
    pub open spec fn message(self) -> Seq<char> {
        match self {
            PygmentizeErrorView::Process(err) => err.message,
            PygmentizeErrorView::NotFound(_) => "pygmentize was not found or not installed"@,
            PygmentizeErrorView::Io(err) => err.message,
            PygmentizeErrorView::InvalidUtf8(failure) => failure.message(),
            PygmentizeErrorView::Pygmentize(status, stderr) => "pygmentize exited with "@
                + status.description + ": "@ + stderr,
        }
    }
}

impl PygmentizeError {
    /// Describes the failure in words.
    pub fn message(&self) -> (text: String)
        ensures
            text@ == self@.message(),
    {
        match self {
            PygmentizeError::Process(err) => err.message.clone(),
            PygmentizeError::NotFound(_) => "pygmentize was not found or not installed".to_owned(),
            PygmentizeError::Io(err) => err.message.clone(),
            PygmentizeError::InvalidUtf8(failure) => failure.message(),
            PygmentizeError::Pygmentize(status, stderr) => {
                let mut text = "pygmentize exited with ".to_owned();
                text.append(status.description.as_str());
                text.append(": ");
                text.append(stderr.as_str());
                text
            },
        }
    }

    /// Classifies the error with which starting the child process failed.
    pub fn from_spawn(err: OsError) -> (failure: PygmentizeError)
        ensures
            failure@ == spawn_failure(err@),
    {
        match err.kind {
            OsErrorKind::NotFound => PygmentizeError::NotFound(err),
            OsErrorKind::Other => PygmentizeError::Process(err),
        }
    }

    /// The failure of a child that ended with `status` after writing
    /// `stderr` to its error stream.
    pub fn tool_failure(status: ExitStatus, stderr: String) -> (failure: PygmentizeError)
        ensures
            failure@ == PygmentizeErrorView::Pygmentize(status@, stderr@),
    {
        PygmentizeError::Pygmentize(status, stderr)
    }
}

} // verus!
