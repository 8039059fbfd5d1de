//! The steps of a resolution.
//!
//! A resolution asks the tool for its version, to see that it is there and
//! ready, and then for the secret. Each function here takes what is known so
//! far and says what is to happen next. Whoever drives the resolution runs
//! the tool and reports back how the run went.

use vstd::prelude::*;
use crate::decode::{decode_trimmed, text_of};
use crate::outcome::{
    result_view, ErrorView, Outcome, OutcomeView, ResolutionError, ResolvedSecret, SecretView,
};
use crate::platform::Platform;
use crate::tool::{Request, ToolRun, ToolRunView};

verus! {

/// What is to happen next in a resolution.
#[derive(Debug, PartialEq, Eq)]
pub enum Step {
    /// The tool is to be run for this request.
    Run(Request),
    /// The resolution is over.
    Done(Outcome),
}

/// A `Step` as text.
pub enum StepView {
    Run(Request),
    Done(OutcomeView),
}

impl View for Step {
    type V = StepView;

    open spec fn view(&self) -> StepView {
        match *self {
            Step::Run(request) => StepView::Run(request),
            Step::Done(outcome) => StepView::Done(result_view(outcome)),
        }
    }
}

/// What a version check shows of the tool.
///
/// A tool that could not be started is missing. A tool that wrote anything
/// at all to its error stream is not ready, whatever it wrote to its output
/// stream and however it ended: its complaint is the error, decoded and
/// trimmed. A complaint that is not well-formed UTF-8 is a decoding failure.
/// The error stream alone is the sign: a tool that wrote nothing to it is
/// ready.
pub open spec fn probe_result(run: ToolRunView) -> Result<(), ErrorView> {
    match run {
        ToolRunView::NoOutput => Err(ErrorView::ToolMissing),
        ToolRunView::Completed { success, stdout, stderr } => if stderr.len() == 0 {
            Ok(())
        } else {
            match text_of(stderr) {
                Some(message) => Err(ErrorView::ToolError(message)),
                None => Err(ErrorView::DecodeError),
            }
        },
    }
}

/// What a run of the read subcommand gives.
///
/// A read that could not be started, or that did not end successfully,
/// gives no value, which is no failure: the tool declined, as it does where
/// no entry stands behind the reference. Whatever such a read wrote is not
/// taken for a value. After a read that ended successfully the output
/// stream, decoded and trimmed, is the value, be it empty or not.
pub open spec fn read_result(run: ToolRunView) -> OutcomeView {
    match run {
        ToolRunView::NoOutput => Ok(SecretView::Absent),
        ToolRunView::Completed { success, stdout, stderr } => if !success {
            Ok(SecretView::Absent)
        } else {
            match text_of(stdout) {
                Some(value) => Ok(SecretView::Value(value)),
                None => Err(ErrorView::DecodeError),
            }
        },
    }
}

/// The first step of a resolution on `platform`.
pub open spec fn first_step(platform: Platform) -> StepView {
    if platform.is_supported() {
        StepView::Run(Request::VersionCheck)
    } else {
        StepView::Done(Err(ErrorView::UnsupportedPlatform))
    }
}

/// The step that follows once the tool, run for `pending`, went as `run`
/// says.
pub open spec fn next_step(pending: Request, run: ToolRunView) -> StepView {
    match pending {
        Request::VersionCheck => match probe_result(run) {
            Ok(_) => StepView::Run(Request::Read),
            Err(error) => StepView::Done(Err(error)),
        },
        Request::Read => StepView::Done(read_result(run)),
    }
}

/// How a resolution on `platform` ends where the tool answers the version
/// check with `version` and, if it is asked, the read with `read`.
///
/// The platform is looked at first, then the tool, then what was read: the
/// first of them that fails decides.
pub open spec fn resolution(
    platform: Platform,
    version: ToolRunView,
    read: ToolRunView,
) -> OutcomeView {
    if !platform.is_supported() {
        Err(ErrorView::UnsupportedPlatform)
    } else {
        match probe_result(version) {
            Err(error) => Err(error),
            Ok(_) => read_result(read),
        }
    }
}

/// The requests for which the tool is run, in order, by one who follows the
/// steps on `platform` and gets `version` from the version check.
pub open spec fn requests_made(platform: Platform, version: ToolRunView) -> Seq<Request> {
    match first_step(platform) {
        StepView::Done(_) => seq![],
        StepView::Run(first) => match next_step(first, version) {
            StepView::Done(_) => seq![first],
            StepView::Run(second) => seq![first, second],
        },
    }
}

/// Judges the tool by its version check.
pub fn probe(run: ToolRun) -> (r: Result<(), ResolutionError>)
    ensures
        result_view(r) == probe_result(run@),
{
    match run {
        ToolRun::NoOutput => Err(ResolutionError::ToolMissing),
        ToolRun::Completed { success: _, stdout: _, stderr } => {
            if stderr.len() == 0 {
                Ok(())
            } else {
                match decode_trimmed(stderr) {
                    Some(message) => Err(ResolutionError::ToolError(message)),
                    None => Err(ResolutionError::DecodeError),
                }
            }
        },
    }
}

/// Takes the secret from a run of the read subcommand.
pub fn read_secret(run: ToolRun) -> (r: Outcome)
    ensures
        result_view(r) == read_result(run@),
{
    match run {
        ToolRun::NoOutput => Ok(ResolvedSecret::Absent),
        ToolRun::Completed { success, stdout, stderr: _ } => {
            if !success {
                Ok(ResolvedSecret::Absent)
            } else {
                match decode_trimmed(stdout) {
                    Some(value) => Ok(ResolvedSecret::Value(value)),
                    None => Err(ResolutionError::DecodeError),
                }
            }
        },
    }
}

/// Begins a resolution: on a supported platform the tool's version is asked
/// for, on any other the resolution ends at once and nothing is to be run.
pub fn begin(platform: Platform) -> (step: Step)
    ensures
        step@ == first_step(platform),
{
    if platform.is_supported() {
        Step::Run(Request::VersionCheck)
    } else {
        Step::Done(Err(ResolutionError::UnsupportedPlatform))
    }
}

/// Goes on with a resolution after the tool was run for `pending`.
///
/// After a version check the secret is read only if the tool proved ready,
/// else the resolution ends with the tool's failure. After the read the
/// resolution ends with what was read.
pub fn resume(pending: Request, run: ToolRun) -> (step: Step)
    ensures
        step@ == next_step(pending, run@),
{
    match pending {
        Request::VersionCheck => match probe(run) {
            Ok(_) => Step::Run(Request::Read),
            Err(error) => Step::Done(Err(error)),
        },
        Request::Read => Step::Done(read_secret(run)),
    }
}

} // verus!
