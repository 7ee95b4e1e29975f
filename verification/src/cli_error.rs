//! The error type shared by parsing, completion and handlers.

use vstd::prelude::*;

verus! {

/// What went wrong, or why processing stopped early.
#[derive(Debug, Clone, Copy, PartialEq, Eq, Structural)]
pub enum ErrorKind {
    /// Help or version text was asked for; the message is meant to be shown, not reported.
    HelpRequested,
    /// An argument without a default received no token.
    MissingRequiredArgument,
    /// A positional token was left over after every argument had one.
    UnexpectedToken,
    /// A dash-led token that no flag claimed.
    UnexpectedFlagLikeToken,
    /// The first token names none of the subcommands.
    SubcommandNotFound,
    /// A token had the right shape but its text does not convert to the input's type.
    ValueConversionFailure,
    /// The selected command has no handler.
    NoHandlerBound,
}

impl ErrorKind {
    /// The status carried by errors of this kind.
    pub open spec fn code(self) -> int {
        match self {
            ErrorKind::HelpRequested => 1,
            ErrorKind::MissingRequiredArgument => 2,
            ErrorKind::UnexpectedToken => 3,
            ErrorKind::UnexpectedFlagLikeToken => 4,
            ErrorKind::SubcommandNotFound => 5,
            ErrorKind::ValueConversionFailure => 6,
            ErrorKind::NoHandlerBound => 7,
        }
    }

    /// The status carried by errors of this kind.
    pub fn status(self) -> (r: i32)
        ensures
            r == self.code(),
    {
        match self {
            ErrorKind::HelpRequested => 1,
            ErrorKind::MissingRequiredArgument => 2,
            ErrorKind::UnexpectedToken => 3,
            ErrorKind::UnexpectedFlagLikeToken => 4,
            ErrorKind::SubcommandNotFound => 5,
            ErrorKind::ValueConversionFailure => 6,
            ErrorKind::NoHandlerBound => 7,
        }
    }
}

/// Every kind has a status other than zero, and no two kinds share one.
pub proof fn lemma_codes_distinct(a: ErrorKind, b: ErrorKind)
    ensures
        a.code() != 0,
        a.code() == b.code() ==> a == b,
{
}

/// An error: a message for the user and a process status.
#[derive(Debug, Clone, PartialEq, Eq)]
pub struct CliError {
    pub msg: String,
    pub status: i32,
    pub kind: ErrorKind,
}

/// What an error says: its kind and its message.
pub struct Failure {
    pub kind: ErrorKind,
    pub msg: Seq<char>,
}

impl View for CliError {
    type V = Failure;

    open spec fn view(&self) -> Failure {
        Failure { kind: self.kind, msg: self.msg@ }
    }
}

pub type CliResult<T> = Result<T, CliError>;

impl CliError {
    /// Whether the status is the one that belongs to the kind.
    pub open spec fn wf(&self) -> bool {
        self.status == self.kind.code()
    }

    /// An error of the given kind with the given message.
    pub fn new(kind: ErrorKind, msg: String) -> (r: CliError)
        ensures
            r@ == (Failure { kind, msg: msg@ }),
            r.wf(),
    {
        CliError { msg, status: kind.status(), kind }
    }
}

/// The view of a result whose success carries nothing of interest.
pub open spec fn failure_of<T>(r: CliResult<T>) -> Option<Failure> {
    match r {
        Ok(_) => None,
        Err(e) => Some(e@),
    }
}

} // verus!
