//! How a process ends with what a command line gave.
//!
//! Nothing here ends a process: the functions say what is to be written to
//! which stream and with which status the process is to end.

use vstd::prelude::*;
use crate::cli_error::{CliResult, ErrorKind};
use crate::parser::{Output, Reply};
use crate::text::join2;

verus! {

/// What a process writes before it ends, and the status it ends with.
#[derive(Debug, Clone, PartialEq, Eq)]
pub struct Ending {
    pub status: i32,
    /// The text for the standard output.
    pub out: String,
    /// The text for the standard error.
    pub err: String,
}

/// The content of an [`Ending`].
pub struct Farewell {
    pub status: int,
    pub out: Seq<char>,
    pub err: Seq<char>,
}

impl View for Ending {
    type V = Farewell;

    open spec fn view(&self) -> Farewell {
        Farewell { status: self.status as int, out: self.out@, err: self.err@ }
    }
}

/// The text that a reply puts on the standard output.
pub open spec fn printed(reply: Output) -> Seq<char> {
    match reply {
        Output::Done => Seq::empty(),
        Output::Print(text) => text,
    }
}

/// How a process ends that reports its failure.
///
/// Success ends with status zero. A request for help is no failure: its text
/// goes to the standard output, and the status is zero. Any other error goes
/// to the standard error, and its status is the status of the process.
pub open spec fn reported(r: CliResult<Reply>) -> Farewell {
    match r {
        Ok(reply) => Farewell { status: 0, out: printed(reply@), err: Seq::empty() },
        Err(e) => if e.kind == ErrorKind::HelpRequested {
            Farewell { status: 0, out: e.msg@ + "\n"@, err: Seq::empty() }
        } else {
            Farewell { status: e.status as int, out: Seq::empty(), err: e.msg@ + "\n"@ }
        },
    }
}

/// How a process ends that keeps its failure to itself: as [`reported`], but
/// nothing is written for an error. Shells discard what a completion helper
/// writes to the standard error.
pub open spec fn silent(r: CliResult<Reply>) -> Farewell {
    match r {
        Ok(reply) => Farewell { status: 0, out: printed(reply@), err: Seq::empty() },
        Err(e) => Farewell { status: e.status as int, out: Seq::empty(), err: Seq::empty() },
    }
}

/// Ending a process with a result.
pub trait Exit: Sized {
    /// What success carries.
    type O;

    /// How the process ends when the result is all there is left to do.
    fn exit(self) -> Ending;

    /// The success, or how the process ends on the error.
    fn exit_if_err(self) -> Result<Self::O, Ending>;

    /// How the process ends without reporting an error.
    fn exit_silently(self) -> Ending;
}

impl Exit for CliResult<Reply> {
    type O = Reply;

    fn exit(self) -> (e: Ending)
        ensures
            e@ == reported(self),
    {
        match self {
            Ok(Reply::Done) => Ending { status: 0, out: String::new(), err: String::new() },
            Ok(Reply::Print(text)) => Ending { status: 0, out: text, err: String::new() },
            Err(e) => if e.kind == ErrorKind::HelpRequested {
                Ending { status: 0, out: join2(e.msg.as_str(), "\n"), err: String::new() }
            } else {
                Ending { status: e.status, out: String::new(), err: join2(e.msg.as_str(), "\n") }
            },
        }
    }

    fn exit_if_err(self) -> (r: Result<Reply, Ending>)
        ensures
            match self {
                Ok(reply) => r == Ok::<Reply, Ending>(reply),
                Err(_) => r is Err && r->Err_0@ == reported(self),
            },
    {
        match self {
            Ok(reply) => Ok(reply),
            Err(e) => Err(Err::<Reply, crate::cli_error::CliError>(e).exit()),
        }
    }

    fn exit_silently(self) -> (e: Ending)
        ensures
            e@ == silent(self),
    {
        match self {
            Ok(Reply::Done) => Ending { status: 0, out: String::new(), err: String::new() },
            Ok(Reply::Print(text)) => Ending { status: 0, out: text, err: String::new() },
            Err(e) => Ending { status: e.status, out: String::new(), err: String::new() },
        }
    }
}

} // verus!
