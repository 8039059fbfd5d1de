//! A secret kept in 1Password, known by its reference.

use vstd::prelude::*;
use crate::outcome::{result_view, Outcome, OutcomeView};
use crate::platform::Platform;
use crate::protocol::{
    begin, first_step, next_step, probe_result, resolution, resume, Step, StepView,
};
use crate::tool::{command_line, Invocation, Request, ToolRun};

verus! {

/// A secret in 1Password, named by the reference that the tool's read
/// subcommand takes. The reference is carried as it is and never looked into.
pub struct OnePasswordSecret {
    connection_string: String,
}

impl View for OnePasswordSecret {
    type V = Seq<char>;

    /// The reference.
    closed spec fn view(&self) -> Seq<char> {
        self.connection_string@
    }
}

/// Whether `tool`, run with the command line for `request`, may answer with
/// `run`.
pub open spec fn tool_gives<F: Fn(&Invocation) -> ToolRun>(
    tool: F,
    reference: Seq<char>,
    request: Request,
    run: ToolRun,
) -> bool {
    exists|invocation: Invocation|
        invocation@ == command_line(request, reference) && #[trigger] call_ensures(
            tool,
            (&invocation,),
            run,
        )
}

/// Whether `tool` may be run wherever a resolution of `reference` on
/// `platform` runs it, and need not be fit to run anywhere else.
///
/// On a platform that is not supported nothing is asked of the tool. On a
/// supported one it must take the command line of the version check, and,
/// after each answer to that check which shows it ready, the command line
/// of the read. A tool that never proves ready need not take the read.
pub open spec fn can_serve<F: Fn(&Invocation) -> ToolRun>(
    tool: F,
    reference: Seq<char>,
    platform: Platform,
) -> bool {
    platform.is_supported() ==> {
        &&& forall|invocation: &Invocation|
            #![trigger call_requires(tool, (invocation,))]
            invocation@ == command_line(Request::VersionCheck, reference) ==> call_requires(
                tool,
                (invocation,),
            )
        &&& forall|version: ToolRun, invocation: &Invocation|
            #![trigger tool_gives(tool, reference, Request::VersionCheck, version), call_requires(tool, (invocation,))]
            tool_gives(tool, reference, Request::VersionCheck, version) && probe_result(version@) is Ok
                && invocation@ == command_line(Request::Read, reference) ==> call_requires(
                tool,
                (invocation,),
            )
    }
}

/// Whether a resolution of `reference` on `platform` that runs `tool` for
/// what it needs may have come as far as `step`.
spec fn reached<F: Fn(&Invocation) -> ToolRun>(
    tool: F,
    reference: Seq<char>,
    platform: Platform,
    step: StepView,
) -> bool {
    ||| step == first_step(platform)
    ||| platform.is_supported() && exists|version: ToolRun|
        {
            &&& #[trigger] tool_gives(tool, reference, Request::VersionCheck, version)
            &&& {
                ||| step == next_step(Request::VersionCheck, version@)
                ||| probe_result(version@) is Ok && exists|read: ToolRun|
                    #[trigger] tool_gives(tool, reference, Request::Read, read) && step
                        == next_step(Request::Read, read@)
            }
        }
}

/// Whether a resolution of `reference` on `platform` that runs `tool` for
/// what it needs may end with `outcome`.
///
/// The outcome is the one that `resolution` gives for answers of the tool:
/// for one to the version check, if the platform is supported, and for one
/// to the read, if that check shows the tool ready. An answer that is not
/// asked for has no bearing on the outcome.
pub open spec fn loaded<F: Fn(&Invocation) -> ToolRun>(
    tool: F,
    reference: Seq<char>,
    platform: Platform,
    outcome: OutcomeView,
) -> bool {
    exists|version: ToolRun, read: ToolRun|
        {
            &&& platform.is_supported() ==> tool_gives(tool, reference, Request::VersionCheck, version)
            &&& platform.is_supported() && probe_result(version@) is Ok ==> tool_gives(
                tool,
                reference,
                Request::Read,
                read,
            )
            &&& outcome == #[trigger] resolution(platform, version@, read@)
        }
}

/// A resolution that has come to its last step has an outcome that `loaded`
/// allows.
proof fn lemma_reached_the_end<F: Fn(&Invocation) -> ToolRun>(
    tool: F,
    reference: Seq<char>,
    platform: Platform,
    outcome: OutcomeView,
)
    requires
        reached(tool, reference, platform, StepView::Done(outcome)),
    ensures
        loaded(tool, reference, platform, outcome),
{
    let unasked = ToolRun::NoOutput;
    if !platform.is_supported() {
        assert(outcome == resolution(platform, unasked@, unasked@));
    } else {
        let version = choose|version: ToolRun|
            {
                &&& #[trigger] tool_gives(tool, reference, Request::VersionCheck, version)
                &&& {
                    ||| StepView::Done(outcome) == next_step(Request::VersionCheck, version@)
                    ||| probe_result(version@) is Ok && exists|read: ToolRun|
                        #[trigger] tool_gives(tool, reference, Request::Read, read)
                            && StepView::Done(outcome) == next_step(Request::Read, read@)
                }
            };
        if StepView::Done(outcome) == next_step(Request::VersionCheck, version@) {
            assert(outcome == resolution(platform, version@, unasked@));
        } else {
            let read = choose|read: ToolRun|
                #[trigger] tool_gives(tool, reference, Request::Read, read) && StepView::Done(
                    outcome,
                ) == next_step(Request::Read, read@);
            assert(outcome == resolution(platform, version@, read@));
        }
    }
}

/// The number of tool runs that may still follow `step`.
spec fn runs_left(step: StepView) -> nat {
    match step {
        StepView::Run(Request::VersionCheck) => 2,
        StepView::Run(Request::Read) => 1,
        StepView::Done(_) => 0,
    }
}

impl OnePasswordSecret {
    /// Creates a secret that stands for `connection_string`. Nothing is
    /// loaded: the tool is brought in by `load`.
    pub fn new(connection_string: String) -> (secret: OnePasswordSecret)
        ensures
            secret@ == connection_string@,
    {
        OnePasswordSecret { connection_string }
    }

    /// Returns the command line that serves `request` for this secret.
    pub fn invocation(&self, request: Request) -> (r: Invocation)
        ensures
            r@ == command_line(request, self@),
    {
        let mut arguments: Vec<String> = Vec::new();
        match request {
            Request::VersionCheck => {
                arguments.push("--version".to_owned());
            },
            Request::Read => {
                arguments.push("read".to_owned());
                arguments.push(self.connection_string.clone());
            },
        }
        let r = Invocation { program: "op".to_owned(), arguments };
        assert(r@.arguments =~= command_line(request, self@).arguments);
        r
    }

    /// Loads the secret: follows the steps of a resolution, runs `tool` for
    /// each command line that they ask for, and returns how the resolution
    /// ended.
    ///
    /// The tool is run only where `can_serve` wants it fit to run: not at
    /// all on a platform that is not supported, and not for the read unless
    /// it answered the version check as a ready tool does.
    pub fn load<F: Fn(&Invocation) -> ToolRun>(&self, platform: Platform, tool: F) -> (r: Outcome)
        requires
            can_serve(tool, self@, platform),
        ensures
            loaded(tool, self@, platform, result_view(r)),
    {
        let mut step = begin(platform);
        loop
            invariant
                can_serve(tool, self@, platform),
                reached(tool, self@, platform, step@),
            decreases runs_left(step@),
        {
            match step {
                Step::Done(outcome) => {
                    proof {
                        lemma_reached_the_end(tool, self@, platform, result_view(outcome));
                    }
                    return outcome;
                },
                Step::Run(request) => {
                    let invocation = self.invocation(request);
                    let run = tool(&invocation);
                    assert(tool_gives(tool, self@, request, run));
                    step = resume(request, run);
                },
            }
        }
    }
}

} // verus!
