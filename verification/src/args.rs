//! Reading the command line: `<program> <process_name> [process_args...]`.

use vstd::prelude::*;
use crate::exit_code::ExitCode;

verus! {

/// What one invocation asks for.
#[derive(Clone, Debug, PartialEq, Eq)]
pub struct Invocation {
    /// Name of the executable to stop and to start again.
    pub process_name: String,
    /// Arguments for the new process, in the order in which they were given.
    pub process_args: Vec<String>,
}

/// An [`Invocation`] as plain text.
pub struct InvocationView {
    pub process_name: Seq<char>,
    pub process_args: Seq<Seq<char>>,
}

impl View for Invocation {
    type V = InvocationView;

    open spec fn view(&self) -> InvocationView {
        InvocationView {
            process_name: self.process_name@,
            process_args: texts(self.process_args@),
        }
    }
}

/// Why a command line asks for nothing that can be done.
#[derive(Clone, Debug, PartialEq, Eq)]
pub enum ArgsError {
    /// The token list is empty: not even the invocation name is there.
    MalformedArgs,
    /// Only the invocation name is there.
    NoProcess { exe_name: String },
}

/// An [`ArgsError`] as plain text.
pub enum ArgsErrorView {
    MalformedArgs,
    NoProcess { exe_name: Seq<char> },
}

impl View for ArgsError {
    type V = ArgsErrorView;

    open spec fn view(&self) -> ArgsErrorView {
        match self {
            ArgsError::MalformedArgs => ArgsErrorView::MalformedArgs,
            ArgsError::NoProcess { exe_name } => ArgsErrorView::NoProcess { exe_name: exe_name@ },
        }
    }
}

impl ArgsErrorView {
    /// The reason under which the tool exits on this error.
    pub open spec fn exit_code(self) -> ExitCode {
        match self {
            ArgsErrorView::MalformedArgs => ExitCode::MalformedArgs,
            ArgsErrorView::NoProcess { .. } => ExitCode::NoProcess,
        }
    }
}

impl ArgsError {
    /// The reason under which the tool exits on this error.
    pub fn exit_code(&self) -> (code: ExitCode)
        ensures
            code == self@.exit_code(),
    {
        match self {
            ArgsError::MalformedArgs => ExitCode::MalformedArgs,
            ArgsError::NoProcess { .. } => ExitCode::NoProcess,
        }
    }
}

/// The text of each token, in order.
pub open spec fn texts(tokens: Seq<String>) -> Seq<Seq<char>> {
    tokens.map_values(|token: String| token@)
}

/// What a list of tokens asks for: token 0 is the invocation name, token 1 the
/// process name, and all that follow are the new process's arguments.
pub open spec fn parsed(tokens: Seq<Seq<char>>) -> Result<InvocationView, ArgsErrorView> {
    if tokens.len() == 0 {
        Err(ArgsErrorView::MalformedArgs)
    } else if tokens.len() == 1 {
        Err(ArgsErrorView::NoProcess { exe_name: tokens[0] })
    } else {
        Ok(InvocationView { process_name: tokens[1], process_args: tokens.skip(2) })
    }
}

/// Reads the command line `tokens`.
pub fn parse_args(tokens: Vec<String>) -> (outcome: Result<Invocation, ArgsError>)
    ensures
        match parsed(texts(tokens@)) {
            Ok(invocation) => outcome matches Ok(found) && found@ == invocation,
            Err(error) => outcome matches Err(found) && found@ == error,
        },
{
    let mut rest = tokens;
    if rest.len() == 0 {
        return Err(ArgsError::MalformedArgs);
    }
    let exe_name = rest.remove(0);
    if rest.len() == 0 {
        return Err(ArgsError::NoProcess { exe_name });
    }
    let process_name = rest.remove(0);
    assert(texts(rest@) =~= texts(tokens@).skip(2));
    Ok(Invocation { process_name, process_args: rest })
}

} // verus!
