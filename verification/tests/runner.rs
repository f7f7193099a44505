use openspec_backend::errors::{OpenSpecCommandError, OpenSpecCommandErrorPayload};
use openspec_backend::process::{ExitReport, SpawnFailure};
use openspec_backend::runner::{
    classify_spawn_failure, cli_output_channel, conclude_run, line_text, missing_stream_error,
    stream_name, StreamDrain, StreamTag,
};

fn drained(operation: &str, stream: StreamTag, lines: &[&[u8]]) -> StreamDrain {
    let mut drain = StreamDrain::new(operation, stream);
    for raw in lines {
        drain = drain.accept_line(raw).0;
    }
    drain
}

#[test]
fn line_ends_at_the_line_feed() {
    assert_eq!(line_text("added 12 packages\n"), "added 12 packages");
    assert_eq!(line_text("added 12 packages\r\n"), "added 12 packages");
    assert_eq!(line_text("no line ending"), "no line ending");
    assert_eq!(line_text("bare return\r"), "bare return\r");
    assert_eq!(line_text("two returns\r\r\n"), "two returns\r");
    assert_eq!(line_text("\n"), "");
    assert_eq!(line_text("\r\n"), "");
    assert_eq!(line_text(""), "");
    assert_eq!(line_text("first\nsecond\n"), "first");
}

#[test]
fn each_line_gives_one_event() {
    let drain = StreamDrain::new("install", StreamTag::Stdout);
    let (drain, first) = drain.accept_line(b"fetching\n");
    assert_eq!(first.operation, "install");
    assert_eq!(first.stream, "stdout");
    assert_eq!(first.line, "fetching");
    let (drain, second) = drain.accept_text("linking\r\n");
    assert_eq!(second.operation, "install");
    assert_eq!(second.stream, "stdout");
    assert_eq!(second.line, "linking");
    assert_eq!(drain.text(), "fetching\nlinking");

    let (_, warning) = StreamDrain::new("init", StreamTag::Stderr).accept_line(b"warn: x");
    assert_eq!(warning.operation, "init");
    assert_eq!(warning.stream, "stderr");
    assert_eq!(warning.line, "warn: x");
}

#[test]
fn malformed_bytes_do_not_stop_the_drain() {
    let drain = drained("init", StreamTag::Stdout, &[b"ok\n", b"caf\xE9 \xF0\x9F\n", b"after\n"]);
    assert_eq!(drain.text(), "ok\ncaf\u{FFFD} \u{FFFD}\nafter");
}

#[test]
fn empty_drain_gives_empty_text() {
    assert_eq!(StreamDrain::new("install", StreamTag::Stderr).text(), "");
}

#[test]
fn accumulated_text_splits_back_into_the_lines() {
    let out: [&[u8]; 5] = [b"one\n", b"\n", b"three\r\n", b"  four  \n", b"five"];
    let err: [&[u8]; 3] = [b"e1\n", b"e2\n", b"\n"];
    let stdout = drained("install", StreamTag::Stdout, &out);
    let stderr = drained("install", StreamTag::Stderr, &err);
    let result = conclude_run("npm", ExitReport::Exited(0), &stdout, &stderr).expect("success");
    assert_eq!(result.status, 0);
    assert_eq!(result.stdout.split('\n').collect::<Vec<_>>(), vec!["one", "", "three", "  four  ", "five"]);
    assert_eq!(result.stderr.split('\n').collect::<Vec<_>>(), vec!["e1", "e2", ""]);
    assert_eq!(result.stdout, "one\n\nthree\n  four  \nfive");
    assert_eq!(result.stderr, "e1\ne2\n");
}

#[test]
fn interleaving_does_not_change_the_result() {
    let mut first_out = StreamDrain::new("init", StreamTag::Stdout);
    let mut first_err = StreamDrain::new("init", StreamTag::Stderr);
    first_out = first_out.accept_line(b"a\n").0;
    first_err = first_err.accept_line(b"x\n").0;
    first_out = first_out.accept_line(b"b\n").0;
    first_err = first_err.accept_line(b"y\n").0;

    let mut second_err = StreamDrain::new("init", StreamTag::Stderr);
    second_err = second_err.accept_line(b"x\n").0;
    second_err = second_err.accept_line(b"y\n").0;
    let mut second_out = StreamDrain::new("init", StreamTag::Stdout);
    second_out = second_out.accept_line(b"a\n").0;
    second_out = second_out.accept_line(b"b\n").0;

    let first = conclude_run("openspec", ExitReport::Exited(0), &first_out, &first_err).expect("success");
    let second = conclude_run("openspec", ExitReport::Exited(0), &second_out, &second_err).expect("success");
    assert_eq!((first.stdout, first.stderr), (second.stdout, second.stderr));
}

#[test]
fn non_zero_exit_carries_code_and_stderr() {
    let stdout = drained("install", StreamTag::Stdout, &[b"partial\n"]);
    let stderr = drained("install", StreamTag::Stderr, &[b"npm ERR! 404\n", b"  \n", b"npm ERR! done\n"]);
    for code in [1, 2, 127, 255, -3, i32::MAX, i32::MIN] {
        match conclude_run("npm", ExitReport::Exited(code), &stdout, &stderr) {
            Err(OpenSpecCommandError::CommandFailed { command, status, stderr }) => {
                assert_eq!(command, "npm");
                assert_eq!(status, code);
                assert_eq!(stderr, "npm ERR! 404\n  \nnpm ERR! done");
            }
            other => panic!("unexpected result {other:?}"),
        }
    }
}

#[test]
fn failure_payload_embeds_command_status_and_stderr() {
    let stdout = StreamDrain::new("init", StreamTag::Stdout);
    let stderr = drained("init", StreamTag::Stderr, &[b"Error: directory not empty\n"]);
    let error = conclude_run("openspec", ExitReport::Exited(3), &stdout, &stderr).expect_err("failure");
    let payload = OpenSpecCommandErrorPayload::from(error);
    assert_eq!(payload.code, "command_failed");
    assert_eq!(payload.message, "openspec exited with status 3: Error: directory not empty");
}

#[test]
fn missing_exit_code_is_recorded_as_minus_one() {
    let stdout = drained("install", StreamTag::Stdout, &[b"out\n"]);
    let stderr = drained("install", StreamTag::Stderr, &[b"killed\n"]);
    match conclude_run("yarn", ExitReport::NoCode { success: false }, &stdout, &stderr) {
        Err(OpenSpecCommandError::CommandFailed { command, status, stderr }) => {
            assert_eq!(command, "yarn");
            assert_eq!(status, -1);
            assert_eq!(stderr, "killed");
        }
        other => panic!("unexpected result {other:?}"),
    }
    let result = conclude_run("yarn", ExitReport::NoCode { success: true }, &stdout, &stderr).expect("success");
    assert_eq!(result.status, -1);
    assert_eq!(result.stdout, "out");
    assert_eq!(result.stderr, "killed");
}

#[test]
fn missing_executable_is_classified_by_command() {
    assert!(matches!(
        classify_spawn_failure("openspec", SpawnFailure::NotFound),
        OpenSpecCommandError::CliUnavailable
    ));
    for command in ["npm", "bun", "yarn", "pnpm", "openspec ", "Openspec", ""] {
        assert!(matches!(
            classify_spawn_failure(command, SpawnFailure::NotFound),
            OpenSpecCommandError::PackageManagerUnavailable
        ));
    }
}

#[test]
fn other_spawn_failures_are_input_output_errors() {
    for command in ["openspec", "npm"] {
        match classify_spawn_failure(command, SpawnFailure::Other("Permission denied (os error 13)".to_string())) {
            OpenSpecCommandError::Io(detail) => assert_eq!(detail, "Permission denied (os error 13)"),
            other => panic!("unexpected error {other:?}"),
        }
    }
}

#[test]
fn missing_streams_are_input_output_errors() {
    match missing_stream_error(StreamTag::Stdout) {
        OpenSpecCommandError::Io(detail) => assert_eq!(detail, "Missing stdout"),
        other => panic!("unexpected error {other:?}"),
    }
    match missing_stream_error(StreamTag::Stderr) {
        OpenSpecCommandError::Io(detail) => assert_eq!(detail, "Missing stderr"),
        other => panic!("unexpected error {other:?}"),
    }
}

#[test]
fn streams_and_channel_have_their_names() {
    assert_eq!(stream_name(StreamTag::Stdout), "stdout");
    assert_eq!(stream_name(StreamTag::Stderr), "stderr");
    assert_eq!(cli_output_channel(), "openspec://cli-output");
}
