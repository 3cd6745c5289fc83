//! Building command descriptors and pipeline graphs. Nothing here runs.

use scripty::command::{Cmd, Input, Settings};
use scripty::pipeline::{PipeMode, Pipeline};

fn strings(items: &[&str]) -> Vec<String> {
    items.iter().map(|s| s.to_string()).collect()
}

#[test]
fn new_command_is_bare() {
    let cmd = Cmd::new("ls");
    assert_eq!(cmd.program(), "ls");
    assert!(cmd.arguments().is_empty());
    assert!(cmd.envs().is_empty());
    assert_eq!(cmd.working_dir(), None);
    assert_eq!(*cmd.source(), Input::Unset);
    assert!(cmd.echo());
}

#[test]
fn arguments_keep_their_order() {
    let cmd = Cmd::new("grep").arg("error").arg("logfile.txt").args(&["--color", "always"]).arg("-n");
    assert_eq!(
        *cmd.arguments(),
        strings(&["error", "logfile.txt", "--color", "always", "-n"])
    );
    let none: [&str; 0] = [];
    let same = Cmd::new("ls").arg("-a").args(&none);
    assert_eq!(*same.arguments(), strings(&["-a"]));
}

#[test]
fn env_overlays_and_replaces_in_place() {
    let cmd = Cmd::new("sh").env("LANG", "C").env("NAME", "one").env("LANG", "de_DE").env("X", "");
    let expected: Vec<(String, String)> = vec![
        ("LANG".to_string(), "de_DE".to_string()),
        ("NAME".to_string(), "one".to_string()),
        ("X".to_string(), "".to_string()),
    ];
    assert_eq!(*cmd.envs(), expected);
}

#[test]
fn working_directory_last_call_wins() {
    let cmd = Cmd::new("pwd").current_dir("/tmp").current_dir("/var/log");
    assert_eq!(cmd.working_dir(), Some(&"/var/log".to_string()));
}

#[test]
fn input_source_last_call_wins() {
    let cmd = Cmd::new("cat").input("text");
    assert_eq!(*cmd.source(), Input::Bytes(b"text".to_vec()));
    let cmd = cmd.input_bytes_owned(vec![1, 2, 3]);
    assert_eq!(*cmd.source(), Input::Owned(vec![1, 2, 3]));
    let cmd = cmd.input_reader();
    assert_eq!(*cmd.source(), Input::Reader);
    let cmd = cmd.input_bytes(&[0, 255]);
    assert_eq!(*cmd.source(), Input::Bytes(vec![0, 255]));
    assert_eq!(cmd.source().payload(), Some(&vec![0u8, 255]));
    assert!(cmd.source().is_set());
    let cmd = cmd.with_input(Input::Unset);
    assert!(!cmd.source().is_set());
    assert_eq!(cmd.source().payload(), None);
    assert_eq!(Input::Reader.payload(), None);
}

#[test]
fn text_input_is_its_utf8_encoding() {
    let cmd = Cmd::new("cat").input("gr\u{fc}n");
    assert_eq!(*cmd.source(), Input::Bytes(vec![b'g', b'r', 0xC3, 0xBC, b'n']));
}

#[test]
fn builder_calls_leave_the_rest_alone() {
    let cmd = Cmd::new("grep")
        .arg("x")
        .env("A", "1")
        .current_dir("/d")
        .input("in")
        .no_echo()
        .arg("y")
        .env("B", "2");
    assert_eq!(cmd.program(), "grep");
    assert_eq!(*cmd.arguments(), strings(&["x", "y"]));
    assert_eq!(cmd.envs().len(), 2);
    assert_eq!(cmd.working_dir(), Some(&"/d".to_string()));
    assert_eq!(*cmd.source(), Input::Bytes(b"in".to_vec()));
    assert!(!cmd.echo());
}

#[test]
fn command_line_is_program_and_arguments() {
    assert_eq!(Cmd::new("date").command_line(), "date");
    assert_eq!(Cmd::new("ls").arg("-la").arg("/tmp").command_line(), "ls -la /tmp");
    assert_eq!(Cmd::new("echo").arg("").arg("a b").command_line(), "echo  a b");
}

#[test]
fn settings_decide_the_default_echo() {
    assert!(Settings::new().echo);
    assert!(Settings::from_flag(None).echo);
    assert!(!Settings::from_flag(Some("1")).echo);
    assert!(!Settings::from_flag(Some("")).echo);
    assert!(Settings::from_flag(Some("0")).with_echo(true).echo);
    assert!(!Cmd::with_settings("ls", Settings::from_flag(Some("yes"))).echo());
    assert!(Cmd::with_settings("ls", Settings::new()).echo());
    assert!(!Cmd::with_settings("ls", Settings::new()).no_echo().echo());
}

#[test]
fn single_stage_pipeline() {
    let pipeline = Pipeline::new(Cmd::new("ls").input("x"));
    assert_eq!(pipeline.len(), 1);
    assert_eq!(pipeline.stage(0).unwrap().program(), "ls");
    assert!(pipeline.stage(1).is_none());
    assert_eq!(pipeline.link(0), None);
    assert_eq!(*pipeline.source(), Input::Bytes(b"x".to_vec()));
    assert!(!pipeline.is_quiet());
    assert!(pipeline.echoes(0));
    assert!(!pipeline.echoes(1));
}

#[test]
fn pipes_append_stages_and_links() {
    let pipeline = Cmd::new("a")
        .pipe(Cmd::new("b"))
        .pipe_stderr(Cmd::new("c"))
        .pipe_both(Cmd::new("d"))
        .pipe_with(PipeMode::Stdout, Cmd::new("e"));
    assert_eq!(pipeline.len(), 5);
    let names: Vec<&str> = (0..5).map(|i| pipeline.stage(i).unwrap().program()).collect();
    assert_eq!(names, vec!["a", "b", "c", "d", "e"]);
    assert_eq!(pipeline.link(0), Some(PipeMode::Stdout));
    assert_eq!(pipeline.link(1), Some(PipeMode::Stderr));
    assert_eq!(pipeline.link(2), Some(PipeMode::Both));
    assert_eq!(pipeline.link(3), Some(PipeMode::Stdout));
    assert_eq!(pipeline.link(4), None);
    assert!(pipeline.stage(5).is_none());

    assert_eq!(Cmd::new("a").pipe_stderr(Cmd::new("b")).link(0), Some(PipeMode::Stderr));
    assert_eq!(Cmd::new("a").pipe_both(Cmd::new("b")).link(0), Some(PipeMode::Both));
}

#[test]
fn only_the_first_stage_keeps_an_input_source() {
    let pipeline = Cmd::new("a").input("first").pipe(Cmd::new("b").input("second"));
    assert_eq!(*pipeline.source(), Input::Bytes(b"first".to_vec()));
    assert_eq!(*pipeline.stage(1).unwrap().source(), Input::Unset);

    let pipeline = pipeline.input_bytes_owned(vec![7]);
    assert_eq!(*pipeline.source(), Input::Owned(vec![7]));
    assert_eq!(*pipeline.stage(0).unwrap().source(), Input::Owned(vec![7]));
    assert_eq!(*pipeline.stage(1).unwrap().source(), Input::Unset);

    let pipeline = pipeline.input_reader();
    assert_eq!(*pipeline.source(), Input::Reader);
    let pipeline = pipeline.input("t").input_bytes(&[9, 9]);
    assert_eq!(*pipeline.source(), Input::Bytes(vec![9, 9]));
    assert_eq!(pipeline.len(), 2);
    assert_eq!(pipeline.stage(1).unwrap().program(), "b");
}

#[test]
fn echo_per_stage_and_for_the_whole_pipeline() {
    let pipeline = Cmd::new("a").no_echo().pipe(Cmd::new("b"));
    assert!(!pipeline.echoes(0));
    assert!(pipeline.echoes(1));
    let pipeline = pipeline.no_echo();
    assert!(pipeline.is_quiet());
    assert!(!pipeline.echoes(0));
    assert!(!pipeline.echoes(1));
    let pipeline = pipeline.pipe(Cmd::new("c"));
    assert!(!pipeline.echoes(2));
}

#[test]
fn pipe_modes_name_the_streams_they_carry() {
    assert!(PipeMode::Stdout.takes_stdout() && !PipeMode::Stdout.takes_stderr());
    assert!(!PipeMode::Stderr.takes_stdout() && PipeMode::Stderr.takes_stderr());
    assert!(PipeMode::Both.takes_stdout() && PipeMode::Both.takes_stderr());
}
