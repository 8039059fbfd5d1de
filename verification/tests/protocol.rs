use onepassword_secret::protocol::{begin, probe, read_secret, resume};
use onepassword_secret::{Platform, Request, ResolutionError, ResolvedSecret, Step, ToolRun};

fn run(stdout: &[u8], stderr: &[u8]) -> ToolRun {
    ToolRun::Completed { success: true, stdout: stdout.to_vec(), stderr: stderr.to_vec() }
}

fn failed_run(stdout: &[u8], stderr: &[u8]) -> ToolRun {
    ToolRun::Completed { success: false, stdout: stdout.to_vec(), stderr: stderr.to_vec() }
}

#[test]
fn begin_asks_for_the_version_on_supported_platforms() {
    assert_eq!(begin(Platform::Linux), Step::Run(Request::VersionCheck));
    assert_eq!(begin(Platform::MacOs), Step::Run(Request::VersionCheck));
}

#[test]
fn begin_ends_at_once_on_an_unsupported_platform() {
    assert_eq!(begin(Platform::Other), Step::Done(Err(ResolutionError::UnsupportedPlatform)));
}

#[test]
fn platform_support() {
    assert!(Platform::Linux.is_supported());
    assert!(Platform::MacOs.is_supported());
    assert!(!Platform::Other.is_supported());
}

#[test]
fn probe_finds_a_silent_tool_ready() {
    assert_eq!(probe(run(b"2.30.0\n", b"")), Ok(()));
    assert_eq!(probe(run(b"", b"")), Ok(()));
}

#[test]
fn probe_finds_the_tool_missing() {
    assert_eq!(probe(ToolRun::NoOutput), Err(ResolutionError::ToolMissing));
}

#[test]
fn probe_gives_the_complaint_whatever_the_output_stream_holds() {
    let complaint = b"  [ERROR] session expired, sign in again \r\n";
    let expected = Err(ResolutionError::ToolError(String::from(
        "[ERROR] session expired, sign in again",
    )));
    assert_eq!(probe(run(b"", complaint)), expected);
    assert_eq!(probe(run(b"2.30.0\n", complaint)), expected);
    assert_eq!(probe(run(&[0xff], complaint)), expected);
}

#[test]
fn probe_fails_on_a_complaint_that_is_not_text() {
    assert_eq!(probe(run(b"2.30.0\n", &[0xff])), Err(ResolutionError::DecodeError));
}

#[test]
fn read_secret_gives_the_trimmed_output() {
    assert_eq!(
        read_secret(run(b"\n hunter2 \n", b"")),
        Ok(ResolvedSecret::Value(String::from("hunter2")))
    );
    assert_eq!(read_secret(run(b"a  b\n", b"")), Ok(ResolvedSecret::Value(String::from("a  b"))));
}

#[test]
fn read_secret_gives_the_empty_value() {
    assert_eq!(read_secret(run(b"", b"")), Ok(ResolvedSecret::Value(String::new())));
    assert_eq!(read_secret(run(b" \r\n\t", b"")), Ok(ResolvedSecret::Value(String::new())));
}

#[test]
fn read_secret_without_output_gives_no_value() {
    assert_eq!(read_secret(ToolRun::NoOutput), Ok(ResolvedSecret::Absent));
}

#[test]
fn read_secret_of_a_failed_read_gives_no_value() {
    assert_eq!(
        read_secret(failed_run(b"", b"[ERROR] no such item\n")),
        Ok(ResolvedSecret::Absent)
    );
    assert_eq!(read_secret(failed_run(b"", b"")), Ok(ResolvedSecret::Absent));
    assert_eq!(read_secret(failed_run(b"1234\n", b"")), Ok(ResolvedSecret::Absent));
    assert_eq!(read_secret(failed_run(&[0x80], b"")), Ok(ResolvedSecret::Absent));
}

#[test]
fn read_secret_tells_a_failed_read_from_an_empty_value() {
    assert_eq!(read_secret(run(b"", b"no such item\n")), Ok(ResolvedSecret::Value(String::new())));
    assert_eq!(read_secret(failed_run(b"", b"no such item\n")), Ok(ResolvedSecret::Absent));
}

#[test]
fn probe_goes_by_the_error_stream_alone() {
    assert_eq!(probe(failed_run(b"", b"")), Ok(()));
    assert_eq!(
        probe(failed_run(b"", b"not signed in\n")),
        Err(ResolutionError::ToolError(String::from("not signed in")))
    );
    assert_eq!(
        probe(run(b"2.30.0\n", b"not signed in\n")),
        Err(ResolutionError::ToolError(String::from("not signed in")))
    );
}

#[test]
fn read_secret_fails_on_bytes_that_are_not_text() {
    assert_eq!(read_secret(run(&[0x80], b"")), Err(ResolutionError::DecodeError));
    assert_eq!(read_secret(run(&[b'a', 0xe2, 0x82], b"")), Err(ResolutionError::DecodeError));
}

#[test]
fn resume_reads_after_a_good_version_check() {
    assert_eq!(
        resume(Request::VersionCheck, run(b"2.30.0\n", b"")),
        Step::Run(Request::Read)
    );
}

#[test]
fn resume_ends_after_a_bad_version_check() {
    assert_eq!(
        resume(Request::VersionCheck, ToolRun::NoOutput),
        Step::Done(Err(ResolutionError::ToolMissing))
    );
    assert_eq!(
        resume(Request::VersionCheck, run(b"2.30.0\n", b"not signed in\n")),
        Step::Done(Err(ResolutionError::ToolError(String::from("not signed in"))))
    );
    assert_eq!(
        resume(Request::VersionCheck, run(b"", &[0xc0, 0x80])),
        Step::Done(Err(ResolutionError::DecodeError))
    );
}

#[test]
fn resume_ends_after_the_read() {
    assert_eq!(
        resume(Request::Read, run(b"1234\n", b"")),
        Step::Done(Ok(ResolvedSecret::Value(String::from("1234"))))
    );
    assert_eq!(resume(Request::Read, ToolRun::NoOutput), Step::Done(Ok(ResolvedSecret::Absent)));
    assert_eq!(
        resume(Request::Read, failed_run(b"", b"[ERROR] no such item\n")),
        Step::Done(Ok(ResolvedSecret::Absent))
    );
    assert_eq!(
        resume(Request::Read, run(&[0xed, 0xa0, 0x80], b"")),
        Step::Done(Err(ResolutionError::DecodeError))
    );
}

#[test]
fn steps_taken_by_hand_end_as_load_does() {
    let answers = |request: Request| match request {
        Request::VersionCheck => run(b"2.30.0\n", b""),
        Request::Read => run(b"s3cret\n", b""),
    };
    let mut asked = Vec::new();
    let mut step = begin(Platform::MacOs);
    let outcome = loop {
        match step {
            Step::Done(outcome) => break outcome,
            Step::Run(request) => {
                asked.push(request);
                step = resume(request, answers(request));
            }
        }
    };
    assert_eq!(outcome, Ok(ResolvedSecret::Value(String::from("s3cret"))));
    assert_eq!(asked, vec![Request::VersionCheck, Request::Read]);
}
