//! What is asked of the tool, and what comes back from it.
//!
//! The library starts no process. It says which command line is to be run
//! and is told how the run went, as plain bytes.

use vstd::prelude::*;

verus! {

/// The two things that the tool is asked to do.
#[derive(Clone, Copy, Debug, PartialEq, Eq, Structural)]
pub enum Request {
    /// Report the tool's version: shows that the tool is there and ready.
    VersionCheck,
    /// Read the secret behind the reference.
    Read,
}

/// A command line to run: the program, looked up on the executable search
/// path, and its arguments.
#[derive(Clone, Debug, PartialEq, Eq)]
pub struct Invocation {
    pub program: String,
    pub arguments: Vec<String>,
}

/// An `Invocation` as text.
pub struct InvocationView {
    pub program: Seq<char>,
    pub arguments: Seq<Seq<char>>,
}

impl View for Invocation {
    type V = InvocationView;

    open spec fn view(&self) -> InvocationView {
        InvocationView { program: self.program@, arguments: self.arguments.deep_view() }
    }
}

/// How one run of the tool went.
#[derive(Clone, Debug, PartialEq, Eq)]
pub enum ToolRun {
    /// The tool could not be started, or ended without output streams to
    /// read.
    NoOutput,
    /// The tool ran to its end and wrote these bytes. `success` tells
    /// whether it reported, by its exit status, that it did what it was
    /// asked to do.
    Completed { success: bool, stdout: Vec<u8>, stderr: Vec<u8> },
}

/// A `ToolRun` as sequences of bytes.
pub enum ToolRunView {
    NoOutput,
    Completed { success: bool, stdout: Seq<u8>, stderr: Seq<u8> },
}

impl View for ToolRun {
    type V = ToolRunView;

    open spec fn view(&self) -> ToolRunView {
        match *self {
            ToolRun::NoOutput => ToolRunView::NoOutput,
            ToolRun::Completed { success, stdout, stderr } => ToolRunView::Completed {
                success,
                stdout: stdout@,
                stderr: stderr@,
            },
        }
    }
}

/// The command line for `request`, where the secret's reference is
/// `reference`: the version flag alone, or `read` and the reference as the
/// one argument after it.
pub open spec fn command_line(request: Request, reference: Seq<char>) -> InvocationView {
    InvocationView {
        program: "op"@,
        arguments: match request {
            Request::VersionCheck => seq!["--version"@],
            Request::Read => seq!["read"@, reference],
        },
    }
}

} // verus!
