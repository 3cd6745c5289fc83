//! Input and output through pipelines: readers, writers and binary data.
//!
//! The library decides and leaves the operating-system work to its driver.
//! The driver here is a stand-in for the operating system in which a
//! handful of well-known programs are functions on bytes.

use scripty::command::{Cmd, Input};
use scripty::error::{Direction, Error};
use scripty::executor::{Launcher, Pending, Waited};
use scripty::outcome::{Outcome, Report};
use scripty::pipeline::{PipeMode, Pipeline};
use scripty::plan::{OutputRoute, Request, StdinRoute};
use std::io::{BufReader, Cursor, Read, Write};

/// What a program left behind.
struct Ran {
    exit: i32,
    stdout: Vec<u8>,
    stderr: Vec<u8>,
}

fn lines_of(bytes: &[u8]) -> Vec<Vec<u8>> {
    let mut lines: Vec<Vec<u8>> = Vec::new();
    let mut line: Vec<u8> = Vec::new();
    for &b in bytes {
        if b == b'\n' {
            lines.push(line);
            line = Vec::new();
        } else {
            line.push(b);
        }
    }
    if !line.is_empty() {
        lines.push(line);
    }
    lines
}

fn unlines(lines: &[Vec<u8>]) -> Vec<u8> {
    let mut out: Vec<u8> = Vec::new();
    for line in lines {
        out.extend_from_slice(line);
        out.push(b'\n');
    }
    out
}

fn contains(line: &[u8], pattern: &[u8]) -> bool {
    pattern.is_empty() || line.windows(pattern.len()).any(|w| w == pattern)
}

/// The programs that exist in the stand-in, or `None` for any other name.
fn program(name: &str, args: &[String], stdin: &[u8]) -> Option<Ran> {
    let ok = |stdout: Vec<u8>| Some(Ran { exit: 0, stdout, stderr: Vec::new() });
    match name {
        "cat" => ok(stdin.to_vec()),
        "true" => ok(Vec::new()),
        "false" => Some(Ran { exit: 1, stdout: Vec::new(), stderr: Vec::new() }),
        "echo" => {
            let newline = args.first().map(|a| a != "-n").unwrap_or(true);
            let words: Vec<&str> =
                args.iter().skip(if newline { 0 } else { 1 }).map(|a| a.as_str()).collect();
            let mut out = words.join(" ").into_bytes();
            if newline {
                out.push(b'\n');
            }
            ok(out)
        }
        "wc" => {
            let count = match args.first().map(|a| a.as_str()) {
                Some("-l") => stdin.iter().filter(|&&b| b == b'\n').count(),
                _ => stdin.len(),
            };
            ok(format!("{}\n", count).into_bytes())
        }
        "grep" => {
            let pattern = args.first().map(|a| a.as_bytes().to_vec()).unwrap_or_default();
            let hits: Vec<Vec<u8>> =
                lines_of(stdin).into_iter().filter(|l| contains(l, &pattern)).collect();
            Some(Ran {
                exit: if hits.is_empty() { 1 } else { 0 },
                stdout: unlines(&hits),
                stderr: Vec::new(),
            })
        }
        "sort" => {
            let mut lines = lines_of(stdin);
            lines.sort();
            ok(unlines(&lines))
        }
        "head" => {
            let n: usize = args
                .first()
                .and_then(|a| a.trim_start_matches('-').parse().ok())
                .unwrap_or(10);
            let lines = lines_of(stdin);
            ok(unlines(&lines[..n.min(lines.len())]))
        }
        "tr" => ok(stdin.to_ascii_uppercase()),
        "half" => ok(stdin[..stdin.len() / 2].to_vec()),
        "complain" => Some(Ran {
            exit: 0,
            stdout: b"fine\n".to_vec(),
            stderr: b"warning\n".to_vec(),
        }),
        _ => None,
    }
}

/// What the driver did, and what came out at the boundary.
struct Trace {
    outcome: Outcome,
    /// The programs that were spawned, in order.
    spawned: Vec<String>,
    /// The command lines that were echoed.
    echoed: Vec<String>,
    /// The stages that were waited on, in order.
    waited: Vec<usize>,
    /// What reached the caller's own, inherited or hand-held, output.
    stdout: Vec<u8>,
}

/// Runs `launcher` to the end in the stand-in. `reader` is the reader that
/// the caller holds, `typed` what the caller writes where it drives standard
/// input itself, `writer` where forwarded output goes.
fn drive(
    mut launcher: Launcher,
    reader: Option<&mut dyn Read>,
    typed: &[u8],
    writer: &mut dyn Write,
) -> Trace {
    let mut spawned = Vec::new();
    let mut echoed = Vec::new();
    let mut ran: Vec<Ran> = Vec::new();
    let mut feed_report: Option<Report> = None;
    let mut stream: Vec<u8> = Vec::new();
    let mut reader = reader;
    while let Some(i) = launcher.pending() {
        if let Some(line) = launcher.echo_line(i) {
            echoed.push(line);
        }
        let plan = launcher.route(i).unwrap();
        let mut refused: Option<String> = None;
        match plan.stdin {
            StdinRoute::Inherit => stream.clear(),
            StdinRoute::Caller => stream = typed.to_vec(),
            StdinRoute::Upstream => {}
            StdinRoute::Feed => match launcher.pipeline().source() {
                Input::Bytes(bytes) | Input::Owned(bytes) => {
                    stream = bytes.clone();
                    feed_report = Some(Report::Done(Vec::new()));
                }
                Input::Reader => match reader.take() {
                    Some(r) => {
                        stream.clear();
                        match r.read_to_end(&mut stream) {
                            Ok(_) => feed_report = Some(Report::Done(Vec::new())),
                            Err(e) => refused = Some(e.to_string()),
                        }
                    }
                    None => refused = Some("no reader".to_string()),
                },
                Input::Unset => unreachable!(),
            },
        }
        let cmd = launcher.pipeline().stage(i).unwrap();
        let result = program(cmd.program(), cmd.arguments(), &stream);
        let name = cmd.program().to_string();
        let link = launcher.pipeline().link(i);
        match result {
            None => launcher = launcher.spawn_failed("No such file or directory".to_string()),
            Some(done) => {
                spawned.push(name);
                stream = match link {
                    Some(PipeMode::Stdout) => done.stdout.clone(),
                    Some(PipeMode::Stderr) => done.stderr.clone(),
                    Some(PipeMode::Both) => [done.stdout.clone(), done.stderr.clone()].concat(),
                    None => Vec::new(),
                };
                ran.push(done);
                launcher = match refused {
                    Some(cause) => launcher.drain_failed(Direction::Stdin, cause),
                    None => launcher.launched(),
                };
            }
        }
    }
    let last = launcher.route(launcher.pipeline().len() - 1).unwrap();
    let mut handle = launcher.into_handle();
    let mut waited = Vec::new();
    let mut stdout = Vec::new();
    loop {
        match handle.pending() {
            Pending::Child(i) => {
                waited.push(i);
                handle = handle.exited(ran[i].exit);
            }
            Pending::Drain(drain) => {
                let report = match drain.direction {
                    Direction::Stdin => feed_report.take().unwrap(),
                    Direction::Stdout => match last.stdout {
                        OutputRoute::Forward => match writer.write_all(&ran[drain.stage].stdout) {
                            Ok(()) => Report::Done(Vec::new()),
                            Err(e) => Report::Failed(e.to_string()),
                        },
                        _ => Report::Done(ran[drain.stage].stdout.clone()),
                    },
                    Direction::Stderr => Report::Done(ran[drain.stage].stderr.clone()),
                };
                handle = handle.joined(report);
            }
            Pending::Nothing => break,
        }
    }
    if let Some(done) = ran.last() {
        if ran.len() == spawned.len() && matches!(last.stdout, OutputRoute::Inherit | OutputRoute::Caller)
        {
            stdout = done.stdout.clone();
        }
    }
    match handle.wait() {
        Waited::Finished(outcome) => Trace { outcome, spawned, echoed, waited, stdout },
        Waited::Running(_) => unreachable!(),
    }
}

/// Anything that can be launched: a command alone, or a pipeline.
trait Launch {
    fn graph(self) -> Pipeline;
}

impl Launch for Cmd {
    fn graph(self) -> Pipeline {
        Pipeline::new(self)
    }
}

impl Launch for Pipeline {
    fn graph(self) -> Pipeline {
        self
    }
}

fn run(what: impl Launch) -> Result<(), Error> {
    drive(what.graph().launch(Request::run()), None, &[], &mut Vec::new()).outcome.result()
}

fn run_reading(what: impl Launch, mut reader: impl Read) -> Result<(), Error> {
    drive(what.graph().launch(Request::run()), Some(&mut reader), &[], &mut Vec::new())
        .outcome
        .result()
}

fn output(what: impl Launch) -> Result<String, Error> {
    drive(what.graph().launch(Request::output()), None, &[], &mut Vec::new()).outcome.output()
}

fn output_reading(what: impl Launch, mut reader: impl Read) -> Result<String, Error> {
    drive(what.graph().launch(Request::output()), Some(&mut reader), &[], &mut Vec::new())
        .outcome
        .output()
}

fn output_bytes(what: impl Launch) -> Result<Vec<u8>, Error> {
    drive(what.graph().launch(Request::output()), None, &[], &mut Vec::new())
        .outcome
        .output_bytes()
}

fn output_bytes_reading(what: impl Launch, mut reader: impl Read) -> Result<Vec<u8>, Error> {
    drive(what.graph().launch(Request::output()), Some(&mut reader), &[], &mut Vec::new())
        .outcome
        .output_bytes()
}

fn stream_to(what: impl Launch, mut writer: impl Write) -> Result<(), Error> {
    drive(what.graph().launch(Request::stream_to()), None, &[], &mut writer).outcome.result()
}

fn run_with_io(what: impl Launch, mut reader: impl Read, mut writer: impl Write) -> Result<(), Error> {
    drive(what.graph().launch(Request::run_with_io()), Some(&mut reader), &[], &mut writer)
        .outcome
        .result()
}

/// Tests binary input/output methods
#[test]
fn test_binary_input_output_methods() {
    // Pure binary data, including null bytes and sequences that are not UTF-8.
    let binary_data: Vec<u8> = vec![
        0x00, 0x01, 0x02, 0x03, 0xFF, 0xFE, 0xFD, 0xFC, 0x80, 0x81, 0x82, 0x83, b'H', b'e', b'l',
        b'l', b'o',
    ];

    let out = output_bytes(Cmd::new("cat").input_bytes(&binary_data).no_echo()).unwrap();

    assert_eq!(out, binary_data);

    // The text form decodes lossily.
    let output_string = output(Cmd::new("cat").input_bytes(&binary_data).no_echo()).unwrap();

    assert!(output_string.contains("Hello"));
    assert!(!output_string.is_empty());
}

/// Tests mixed text and binary API usage
#[test]
fn test_mixed_text_binary_api() {
    let text_data = "Hello, World!";

    let bytes_output = output_bytes(Cmd::new("cat").input(text_data).no_echo()).unwrap();

    assert_eq!(bytes_output, text_data.as_bytes());

    let string_output =
        output(Cmd::new("cat").input_bytes(text_data.as_bytes()).no_echo()).unwrap();

    assert_eq!(string_output.trim(), text_data);
}

/// Tests input whose ownership is handed over
#[test]
fn test_zero_copy_input_bytes_owned() {
    let binary_data = vec![b'H', b'e', b'l', b'l', b'o', b' ', b'W', b'o', b'r', b'l', b'd'];
    let out = output(Cmd::new("cat").input_bytes_owned(binary_data).no_echo()).unwrap();

    assert_eq!(out.trim(), "Hello World");

    let large_data = vec![b'X'; 1024];
    let result =
        output(Cmd::new("wc").arg("-c").input_bytes_owned(large_data).no_echo()).unwrap();

    let count: usize = result.trim().parse().unwrap();
    assert_eq!(count, 1024);
}

/// Tests that copied and owned input give the same result
#[test]
fn test_input_method_equivalence() {
    let test_data = b"Performance test data with various bytes: \x00\x01\x02\xFF";

    let output1 = output_bytes(Cmd::new("cat").input_bytes(test_data).no_echo()).unwrap();

    let output2 =
        output_bytes(Cmd::new("cat").input_bytes_owned(test_data.to_vec()).no_echo()).unwrap();

    assert_eq!(output1, output2);
    assert_eq!(output1, test_data);
}

/// Tests Reader-based input methods
#[test]
fn test_input_reader() {
    let test_data = "Hello from cursor";
    let cursor = Cursor::new(test_data);

    let out = output_reading(Cmd::new("cat").input_reader().no_echo(), cursor).unwrap();

    assert_eq!(out.trim(), test_data);

    let binary_data = vec![0x48, 0x65, 0x6C, 0x6C, 0x6F];
    let cursor = Cursor::new(binary_data.clone());

    let out = output_bytes_reading(Cmd::new("cat").input_reader().no_echo(), cursor).unwrap();

    assert_eq!(out, binary_data);
}

/// Tests buffered Reader input
#[test]
fn test_input_buffered() {
    let test_data = "Line 1\nLine 2\nLine 3\n";
    let cursor = Cursor::new(test_data);
    let buffered_cursor = BufReader::new(cursor);

    let out = output_reading(Cmd::new("wc").arg("-l").input_reader(), buffered_cursor)
        .expect("Failed to execute command");

    let count = out.trim().parse::<i32>().expect("Failed to parse count");
    assert_eq!(count, 3);
}

/// Tests Writer-based output streaming
#[test]
fn test_stream_to_writer() {
    let mut output_buffer = Vec::new();

    stream_to(
        Cmd::new("echo").arg("-n").arg("Hello, Writer!").no_echo(),
        &mut output_buffer,
    )
    .unwrap();

    let result = String::from_utf8(output_buffer).unwrap();
    assert_eq!(result, "Hello, Writer!");

    let binary_input = vec![0x01, 0x02, 0x03, 0xFF];
    let mut binary_output = Vec::new();

    stream_to(Cmd::new("cat").input_bytes(&binary_input).no_echo(), &mut binary_output).unwrap();

    assert_eq!(binary_output, binary_input);
}

/// Tests combined Reader + Writer usage
#[test]
fn test_run_with_io() {
    let input_data = "apple\nbanana\ncherry\napricot\n";
    let input_reader = Cursor::new(input_data);
    let mut output_buffer = Vec::new();

    run_with_io(Cmd::new("grep").arg("ap").no_echo(), input_reader, &mut output_buffer).unwrap();

    let result = String::from_utf8(output_buffer).unwrap();
    let lines: Vec<&str> = result.trim().split('\n').collect();
    assert_eq!(lines.len(), 2);
    assert!(lines.contains(&"apple"));
    assert!(lines.contains(&"apricot"));
}

/// Tests error handling in Reader/Writer operations
#[test]
fn test_reader_writer_error_handling() {
    let cursor = Cursor::new("test data");
    let result = run_reading(Cmd::new("nonexistent-command-67890").input_reader().no_echo(), cursor);

    assert!(result.is_err());

    let cursor2 = Cursor::new("more test data");
    let result2 = run_reading(
        Cmd::new("cat").pipe(Cmd::new("nonexistent-command-67890")).input_reader().no_echo(),
        cursor2,
    );

    assert!(result2.is_err());
}

#[test]
fn echo_piped_into_uppercase() {
    let text = output(
        Cmd::new("echo")
            .arg("hello")
            .arg("world")
            .pipe(Cmd::new("tr").arg("[:lower:]").arg("[:upper:]"))
            .no_echo(),
    )
    .unwrap();
    assert_eq!(text, "HELLO WORLD\n");
}

#[test]
fn sort_between_reader_and_buffer() {
    let reader = Cursor::new("zebra\napple\nbanana\ncherry\n");
    let mut buffer = Vec::new();
    run_with_io(Cmd::new("sort").no_echo(), reader, &mut buffer).unwrap();
    assert_eq!(String::from_utf8(buffer).unwrap(), "apple\nbanana\ncherry\nzebra\n");
}

/// Tests a pipeline whose caller drives both ends itself
#[test]
fn test_pipeline_with_io() {
    let input_data = "zebra\napple\nbanana\ncherry\n";
    let mut cursor = Cursor::new(input_data);

    let launcher =
        Cmd::new("sort").pipe(Cmd::new("head").arg("-2")).no_echo().launch(Request::spawn_with_io());
    let ends = launcher.endpoints();
    assert!(ends.stdin && ends.stdout);

    // What the caller copies into the pipeline's standard input.
    let mut typed = Vec::new();
    std::io::copy(&mut cursor, &mut typed).unwrap();
    let trace = drive(launcher, None, &typed, &mut Vec::new());

    // What the caller reads from the pipeline's standard output.
    let output = String::from_utf8(trace.stdout.clone()).unwrap();

    trace.outcome.result().unwrap();

    let lines: Vec<&str> = output.trim().split('\n').collect();
    assert_eq!(lines.len(), 2);
    assert_eq!(lines[0], "apple");
    assert_eq!(lines[1], "banana");

    let input_data2 = "third\nfirst\nsecond\n";
    let cursor2 = Cursor::new(input_data2);
    let mut output_buffer = Vec::new();

    run_with_io(
        Cmd::new("sort").pipe(Cmd::new("head").arg("-1")).no_echo(),
        cursor2,
        &mut output_buffer,
    )
    .unwrap();

    let result = String::from_utf8(output_buffer).unwrap();
    assert_eq!(result.trim(), "first");
}

#[test]
fn spawn_in_out_counts_lines() {
    let launcher = Cmd::new("wc").arg("-l").no_echo().launch(Request::spawn_io_in_out());
    let ends = launcher.endpoints();
    assert!(ends.stdin && ends.stdout && !ends.stderr);
    let trace = drive(launcher, None, b"line1\nline2\nline3\n", &mut Vec::new());
    assert_eq!(trace.stdout, b"3\n");
    assert!(trace.outcome.result().is_ok());
    assert_eq!(trace.outcome.exit_code(0), Some(0));
    assert_eq!(trace.waited, vec![0]);
}

#[test]
fn missing_program_is_a_spawn_failure() {
    let trace = drive(
        Cmd::new("no-such-program").no_echo().launch(Request::run()),
        None,
        &[],
        &mut Vec::new(),
    );
    match trace.outcome.result() {
        Err(Error::SpawnFailed { stage, .. }) => assert_eq!(stage, 0),
        other => panic!("expected a spawn failure, got {:?}", other),
    }
    assert!(trace.spawned.is_empty());
    assert!(trace.waited.is_empty());
    assert_eq!(trace.outcome.stages(), 0);
}

#[test]
fn middle_stage_that_cannot_spawn() {
    let pipeline = Cmd::new("echo")
        .arg("test")
        .pipe(Cmd::new("nonexistent_filter"))
        .pipe(Cmd::new("wc").arg("-l"))
        .no_echo();
    let trace = drive(pipeline.launch(Request::run()), None, &[], &mut Vec::new());
    match trace.outcome.result() {
        Err(Error::SpawnFailed { stage, cause }) => {
            assert_eq!(stage, 1);
            assert_eq!(cause, "No such file or directory");
        }
        other => panic!("expected a spawn failure, got {:?}", other),
    }
    // The first stage ran and was waited on; the third was never started.
    assert_eq!(trace.spawned, vec!["echo".to_string()]);
    assert_eq!(trace.waited, vec![0]);
}

/// A reader that cannot be read.
struct Broken;

impl Read for Broken {
    fn read(&mut self, _: &mut [u8]) -> std::io::Result<usize> {
        Err(std::io::Error::new(std::io::ErrorKind::NotFound, "no such file"))
    }
}

#[test]
fn unreadable_input_stops_the_launch() {
    let pipeline = Cmd::new("cat").input_reader().pipe(Cmd::new("sort")).no_echo();
    let mut reader = Broken;
    let trace = drive(pipeline.launch(Request::output()), Some(&mut reader), &[], &mut Vec::new());
    match trace.outcome.result() {
        Err(Error::IoFailure { stage, direction, cause }) => {
            assert_eq!(stage, 0);
            assert_eq!(direction, Direction::Stdin);
            assert!(cause.contains("no such file"));
        }
        other => panic!("expected an I/O failure, got {:?}", other),
    }
    assert_eq!(trace.spawned, vec!["cat".to_string()]);
    assert_eq!(trace.waited, vec![0]);
}

#[test]
fn same_pipeline_twice_gives_same_output() {
    let build = || {
        Cmd::new("sort").pipe(Cmd::new("head").arg("-2")).input("pear\nfig\nplum\n").no_echo()
    };
    let first = output_bytes(build()).unwrap();
    let second = output_bytes(build()).unwrap();
    assert_eq!(first, second);
    assert_eq!(first, b"fig\npear\n");
}

#[test]
fn large_input_through_three_stages() {
    let total: usize = 10 * 1024 * 1024;
    let reader = Cursor::new(vec![b'x'; total]);
    let pipeline =
        Cmd::new("half").input_reader().pipe(Cmd::new("half")).pipe(Cmd::new("half")).no_echo();
    let out = output_bytes_reading(pipeline, reader).unwrap();
    assert_eq!(out.len(), total / 8);
}

#[test]
fn first_failing_stage_is_reported() {
    // grep finds nothing and exits with 1; what follows it succeeds.
    let pipeline = Cmd::new("echo")
        .arg("hello")
        .pipe(Cmd::new("grep").arg("goodbye"))
        .pipe(Cmd::new("cat"))
        .no_echo();
    let trace = drive(pipeline.launch(Request::output()), None, &[], &mut Vec::new());
    match trace.outcome.result() {
        Err(Error::NonZeroExit { stage, code }) => {
            assert_eq!(stage, 1);
            assert_eq!(code, 1);
        }
        other => panic!("expected a non-zero exit, got {:?}", other),
    }
    // The raw statuses stay open to inspection.
    assert_eq!(trace.outcome.exit_code(0), Some(0));
    assert_eq!(trace.outcome.exit_code(1), Some(1));
    assert_eq!(trace.outcome.exit_code(2), Some(0));
    assert_eq!(trace.outcome.exit_code(3), None);
    assert_eq!(trace.waited, vec![0, 1, 2]);
    assert!(!trace.outcome.is_success());
}

#[test]
fn echo_precedes_each_stage_unless_silenced() {
    let loud = Cmd::new("echo").arg("a b").arg("c").pipe(Cmd::new("cat"));
    let trace = drive(loud.launch(Request::run()), None, &[], &mut Vec::new());
    assert_eq!(trace.echoed, vec!["echo a b c".to_string(), "cat".to_string()]);

    let half = Cmd::new("echo").arg("x").no_echo().pipe(Cmd::new("cat"));
    let trace = drive(half.launch(Request::run()), None, &[], &mut Vec::new());
    assert_eq!(trace.echoed, vec!["cat".to_string()]);

    let quiet = Cmd::new("echo").arg("x").pipe(Cmd::new("cat")).no_echo();
    let trace = drive(quiet.launch(Request::run()), None, &[], &mut Vec::new());
    assert!(trace.echoed.is_empty());
}

#[test]
fn stderr_and_both_links_feed_the_next_stage() {
    let errors = output(Cmd::new("complain").pipe_stderr(Cmd::new("cat")).no_echo()).unwrap();
    assert_eq!(errors, "warning\n");

    let both = output(Cmd::new("complain").pipe_both(Cmd::new("sort")).no_echo()).unwrap();
    assert_eq!(both, "fine\nwarning\n");

    let plain = output(Cmd::new("complain").pipe(Cmd::new("cat")).no_echo()).unwrap();
    assert_eq!(plain, "fine\n");
}

#[test]
fn lossy_text_replaces_what_is_not_utf8() {
    let text = output(Cmd::new("cat").input_bytes(&[b'a', 0xFF, b'b']).no_echo()).unwrap();
    assert_eq!(text, "a\u{FFFD}b");
    let text = output(Cmd::new("cat").input("gr\u{fc}n").no_echo()).unwrap();
    assert_eq!(text, "gr\u{fc}n");
}
