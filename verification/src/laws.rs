//! What holds of every resolution.
//!
//! Each law is stated over `resolution`, which says how a resolution ends
//! for given answers of the tool. `load` ends as `resolution` says, and the
//! steps lead there. For what the tool is run is stated twice: over
//! `requests_made`, for one who follows the steps, and over `can_serve`,
//! which is all that `load` asks of its tool.

use vstd::prelude::*;
use vstd::utf8::{decode_utf8, encode_utf8, encode_utf8_decode_utf8, encode_utf8_valid_utf8, valid_utf8};
use crate::outcome::{ErrorView, OutcomeView, SecretView};
use crate::platform::Platform;
use crate::protocol::{
    first_step, next_step, probe_result, read_result, requests_made, resolution, StepView,
};
use crate::secret::{can_serve, loaded, tool_gives};
use crate::tool::{command_line, Invocation, Request, ToolRun, ToolRunView};
use crate::whitespace::{
    all_whitespace, is_bare, lemma_trimmed_padding, lemma_trimmed_splits, trimmed,
};

verus! {

/// Following the steps ends in what `resolution` says: the version check
/// is the first request, the read is the second and is made only after a
/// version check that shows the tool ready, and nothing follows the read.
pub proof fn law_steps_end_in_resolution(
    platform: Platform,
    version: ToolRunView,
    read: ToolRunView,
)
    ensures
        match first_step(platform) {
            StepView::Done(outcome) => outcome == resolution(platform, version, read),
            StepView::Run(first) => first == Request::VersionCheck && match next_step(
                first,
                version,
            ) {
                StepView::Done(outcome) => outcome == resolution(platform, version, read),
                StepView::Run(second) => second == Request::Read && next_step(second, read)
                    == StepView::Done(resolution(platform, version, read)),
            },
        },
{
}

/// A value that neither starts nor ends with white space comes back exactly
/// as it is from a read that ended successfully, whatever white space the
/// output channel put around it and whatever the tool wrote to its error
/// stream beside it.
pub proof fn law_value_comes_back_exactly(
    platform: Platform,
    version: ToolRunView,
    lead: Seq<char>,
    value: Seq<char>,
    trail: Seq<char>,
    stderr: Seq<u8>,
)
    requires
        platform.is_supported(),
        probe_result(version) is Ok,
        value.len() > 0,
        is_bare(value),
        all_whitespace(lead),
        all_whitespace(trail),
    ensures
        resolution(
            platform,
            version,
            ToolRunView::Completed {
                success: true,
                stdout: encode_utf8(lead + value + trail),
                stderr,
            },
        ) == Ok::<SecretView, ErrorView>(SecretView::Value(value)),
{
    let text = lead + value + trail;
    encode_utf8_valid_utf8(text);
    encode_utf8_decode_utf8(text);
    lemma_trimmed_padding(lead, value, trail);
}

/// An empty value comes back as the empty value, which is not the absence
/// of a value: after a read that ended successfully, output that holds
/// nothing but white space is a value.
pub proof fn law_empty_value_is_a_value(
    platform: Platform,
    version: ToolRunView,
    padding: Seq<char>,
    stderr: Seq<u8>,
)
    requires
        platform.is_supported(),
        probe_result(version) is Ok,
        all_whitespace(padding),
    ensures
        resolution(
            platform,
            version,
            ToolRunView::Completed { success: true, stdout: encode_utf8(padding), stderr },
        ) == Ok::<SecretView, ErrorView>(SecretView::Value(Seq::empty())),
        resolution(
            platform,
            version,
            ToolRunView::Completed { success: true, stdout: encode_utf8(padding), stderr },
        ) != Ok::<SecretView, ErrorView>(SecretView::Absent),
{
    let empty = Seq::<char>::empty();
    encode_utf8_valid_utf8(padding);
    encode_utf8_decode_utf8(padding);
    assert(padding =~= padding + empty + empty);
    lemma_trimmed_padding(padding, empty, empty);
}

/// A read that could not be started, or that did not end successfully,
/// ends the resolution without a value and without a failure, whatever it
/// wrote. So it is where no entry stands behind the reference: the tool
/// then ends unsuccessfully, with a message on its error stream and nothing
/// on its output stream. That is not the empty value.
pub proof fn law_declined_read_is_no_value(
    platform: Platform,
    version: ToolRunView,
    stdout: Seq<u8>,
    stderr: Seq<u8>,
)
    requires
        platform.is_supported(),
        probe_result(version) is Ok,
    ensures
        resolution(platform, version, ToolRunView::NoOutput) == Ok::<SecretView, ErrorView>(
            SecretView::Absent,
        ),
        resolution(
            platform,
            version,
            ToolRunView::Completed { success: false, stdout, stderr },
        ) == Ok::<SecretView, ErrorView>(SecretView::Absent),
        resolution(
            platform,
            version,
            ToolRunView::Completed { success: false, stdout, stderr },
        ) != Ok::<SecretView, ErrorView>(SecretView::Value(Seq::empty())),
{
}

/// After a read that ended successfully the resolution gives a value only
/// where the output stream is well-formed UTF-8, and the value is then the
/// whole of that text but for the white space at its ends, of which none is
/// left. Output that cannot be decoded is a failure.
pub proof fn law_value_is_the_decoded_output(
    platform: Platform,
    version: ToolRunView,
    stdout: Seq<u8>,
    stderr: Seq<u8>,
)
    requires
        platform.is_supported(),
        probe_result(version) is Ok,
    ensures
        valid_utf8(stdout) ==> resolution(
            platform,
            version,
            ToolRunView::Completed { success: true, stdout, stderr },
        ) == Ok::<SecretView, ErrorView>(SecretView::Value(trimmed(decode_utf8(stdout)))),
        !valid_utf8(stdout) ==> resolution(
            platform,
            version,
            ToolRunView::Completed { success: true, stdout, stderr },
        ) == Err::<SecretView, ErrorView>(ErrorView::DecodeError),
        is_bare(trimmed(decode_utf8(stdout))),
{
    lemma_trimmed_splits(decode_utf8(stdout));
}

/// On a platform that is not supported the resolution fails as such,
/// whatever the tool would have answered, and the tool is not run at all:
/// the steps ask for no run, and `load` takes any tool there, one that must
/// never be run too, and returns that failure.
pub proof fn law_unsupported_platform_runs_nothing<F: Fn(&Invocation) -> ToolRun>(
    tool: F,
    reference: Seq<char>,
    platform: Platform,
    version: ToolRunView,
    read: ToolRunView,
    outcome: OutcomeView,
)
    requires
        !platform.is_supported(),
    ensures
        resolution(platform, version, read) == Err::<SecretView, ErrorView>(
            ErrorView::UnsupportedPlatform,
        ),
        requests_made(platform, version) == Seq::<Request>::empty(),
        can_serve(tool, reference, platform),
        loaded(tool, reference, platform, outcome) ==> outcome == Err::<SecretView, ErrorView>(
            ErrorView::UnsupportedPlatform,
        ),
{
}

/// Where the tool cannot be started for its version check the resolution
/// fails with the tool missing, and the tool is not run for the read: the
/// steps ask for the version check alone.
pub proof fn law_missing_tool_is_not_asked_to_read(platform: Platform, read: ToolRunView)
    requires
        platform.is_supported(),
    ensures
        resolution(platform, ToolRunView::NoOutput, read) == Err::<SecretView, ErrorView>(
            ErrorView::ToolMissing,
        ),
        requests_made(platform, ToolRunView::NoOutput) == seq![Request::VersionCheck],
{
}

/// A tool that never answers the version check as a ready tool does is
/// never run for the read: `load` takes it though it may be unfit to run
/// for the read, and ends with the failure that the version check showed.
pub proof fn law_unready_tool_is_not_asked_to_read<F: Fn(&Invocation) -> ToolRun>(
    tool: F,
    reference: Seq<char>,
    platform: Platform,
    outcome: OutcomeView,
)
    requires
        platform.is_supported(),
        forall|invocation: &Invocation|
            #![trigger call_requires(tool, (invocation,))]
            invocation@ == command_line(Request::VersionCheck, reference) ==> call_requires(
                tool,
                (invocation,),
            ),
        forall|version: ToolRun| #[trigger]
            tool_gives(tool, reference, Request::VersionCheck, version) ==> probe_result(
                version@,
            ) is Err,
    ensures
        can_serve(tool, reference, platform),
        loaded(tool, reference, platform, outcome) ==> exists|version: ToolRun| #[trigger]
            tool_gives(tool, reference, Request::VersionCheck, version) && probe_result(version@)
                == Err::<(), ErrorView>(outcome->Err_0) && outcome is Err,
{
    if loaded(tool, reference, platform, outcome) {
        let (version, read) = choose|version: ToolRun, read: ToolRun|
            {
                &&& platform.is_supported() ==> tool_gives(
                    tool,
                    reference,
                    Request::VersionCheck,
                    version,
                )
                &&& platform.is_supported() && probe_result(version@) is Ok ==> tool_gives(
                    tool,
                    reference,
                    Request::Read,
                    read,
                )
                &&& outcome == #[trigger] resolution(platform, version@, read@)
            };
        assert(tool_gives(tool, reference, Request::VersionCheck, version));
    }
}

/// Where the version check writes any text to its error stream the
/// resolution fails with that text, trimmed and otherwise unchanged. What
/// the check wrote to its output stream and how it ended make no
/// difference, and the tool is not run for the read.
pub proof fn law_complaint_is_the_failure(
    platform: Platform,
    complaint: Seq<char>,
    success: bool,
    stdout: Seq<u8>,
    read: ToolRunView,
)
    requires
        platform.is_supported(),
        complaint.len() > 0,
    ensures
        resolution(
            platform,
            ToolRunView::Completed { success, stdout, stderr: encode_utf8(complaint) },
            read,
        ) == Err::<SecretView, ErrorView>(ErrorView::ToolError(trimmed(complaint))),
        requests_made(
            platform,
            ToolRunView::Completed { success, stdout, stderr: encode_utf8(complaint) },
        ) == seq![Request::VersionCheck],
{
    encode_utf8_valid_utf8(complaint);
    encode_utf8_decode_utf8(complaint);
    assert(encode_utf8(complaint).len() > 0) by {
        if encode_utf8(complaint).len() == 0 {
            assert(decode_utf8(encode_utf8(complaint)).len() == 0);
        }
    }
}

/// Loading the same secret twice gives the same outcome, as long as the tool
/// answers the same command line in the same way both times.
pub proof fn law_load_is_repeatable<F: Fn(&Invocation) -> ToolRun>(
    tool: F,
    reference: Seq<char>,
    platform: Platform,
    once: OutcomeView,
    again: OutcomeView,
)
    requires
        forall|a: Invocation, b: Invocation, x: ToolRun, y: ToolRun|
            a@ == b@ && #[trigger] call_ensures(tool, (&a,), x) && #[trigger] call_ensures(
                tool,
                (&b,),
                y,
            ) ==> x@ == y@,
        loaded(tool, reference, platform, once),
        loaded(tool, reference, platform, again),
    ensures
        once == again,
{
    let (v1, r1) = choose|version: ToolRun, read: ToolRun|
        {
            &&& platform.is_supported() ==> tool_gives(tool, reference, Request::VersionCheck, version)
            &&& platform.is_supported() && probe_result(version@) is Ok ==> tool_gives(
                tool,
                reference,
                Request::Read,
                read,
            )
            &&& once == #[trigger] resolution(platform, version@, read@)
        };
    let (v2, r2) = choose|version: ToolRun, read: ToolRun|
        {
            &&& platform.is_supported() ==> tool_gives(tool, reference, Request::VersionCheck, version)
            &&& platform.is_supported() && probe_result(version@) is Ok ==> tool_gives(
                tool,
                reference,
                Request::Read,
                read,
            )
            &&& again == #[trigger] resolution(platform, version@, read@)
        };
    if platform.is_supported() {
        assert(v1@ == v2@);
        if probe_result(v1@) is Ok {
            assert(r1@ == r2@);
        }
    }
}

} // verus!
