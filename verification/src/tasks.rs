//! The development tasks of the project: which commands they are, in which
//! order the two task lists run them, and when the README is left as it is.

use crate::command::Cmd;
use crate::command::CmdView;
use crate::command::Settings;
use vstd::prelude::*;

verus! {

/// One development task.
#[derive(Clone, Copy, Debug, PartialEq, Eq, Structural)]
pub enum Task {
    /// Bring the README up to date.
    Readme,
    /// Run the test suite.
    Test,
    /// Run the lints, warnings counting as errors.
    Clippy,
    /// Format the code.
    Format,
    /// Check that every target compiles.
    Check,
}

/// The order of the tasks before a commit.
pub open spec fn precommit_order() -> Seq<Task> {
    seq![Task::Readme, Task::Test, Task::Clippy, Task::Format]
}

/// The order of the tasks of continuous integration.
pub open spec fn ci_order() -> Seq<Task> {
    seq![Task::Format, Task::Clippy, Task::Check, Task::Test, Task::Readme]
}

/// The arguments with which `cargo` carries out a task; none for the
/// README, which no single command brings up to date.
pub open spec fn task_args(task: Task) -> Seq<Seq<char>> {
    match task {
        Task::Readme => Seq::empty(),
        Task::Test => seq!["test"@],
        Task::Clippy => seq![
            "clippy"@,
            "--all-targets"@,
            "--all-features"@,
            "--"@,
            "-D"@,
            "warnings"@,
        ],
        Task::Format => seq!["fmt"@],
        Task::Check => seq!["check"@, "--all-targets"@],
    }
}

/// The arguments with which `cargo` renders the crate's documentation as
/// the body of the README.
pub open spec fn render_args() -> Seq<Seq<char>> {
    seq!["readme"@, "--no-title"@, "--no-badges"@]
}

/// The descriptor of `cargo` with `args`, run in `root`.
pub open spec fn cargo_in(root: Seq<char>, args: Seq<Seq<char>>, echo: bool) -> CmdView {
    CmdView { args, dir: Some(root), ..CmdView::new("cargo"@, echo) }
}

/// The tasks before a commit, in order.
pub fn precommit_tasks() -> (tasks: Vec<Task>)
    ensures
        tasks@ == precommit_order(),
{
    let mut tasks: Vec<Task> = Vec::new();
    tasks.push(Task::Readme);
    tasks.push(Task::Test);
    tasks.push(Task::Clippy);
    tasks.push(Task::Format);
    tasks
}

/// The tasks of continuous integration, in order.
pub fn ci_tasks() -> (tasks: Vec<Task>)
    ensures
        tasks@ == ci_order(),
{
    let mut tasks: Vec<Task> = Vec::new();
    tasks.push(Task::Format);
    tasks.push(Task::Clippy);
    tasks.push(Task::Check);
    tasks.push(Task::Test);
    tasks.push(Task::Readme);
    tasks
}

/// The command that carries out `task` in the project at `root`; none for
/// the README.
pub fn task_command(task: Task, root: &str, settings: Settings) -> (cmd: Option<Cmd>)
    ensures
        cmd is None <==> task == Task::Readme,
        cmd is Some ==> cmd->0@ == cargo_in(root@, task_args(task), settings.echo),
{
    let cargo = Cmd::with_settings("cargo", settings);
    let cmd = match task {
        Task::Readme => {
            return None;
        },
        Task::Test => cargo.arg("test"),
        Task::Clippy => cargo.arg("clippy").arg("--all-targets").arg("--all-features").arg(
            "--",
        ).arg("-D").arg("warnings"),
        Task::Format => cargo.arg("fmt"),
        Task::Check => cargo.arg("check").arg("--all-targets"),
    };
    assert(cmd@.args =~= task_args(task));
    Some(cmd.current_dir(root))
}

/// The command that renders the crate's documentation as the body of the
/// README, in the project at `root`.
pub fn render_command(root: &str, settings: Settings) -> (cmd: Cmd)
    ensures
        cmd@ == cargo_in(root@, render_args(), settings.echo),
{
    let cmd = Cmd::with_settings("cargo", settings).arg("readme").arg("--no-title").arg(
        "--no-badges",
    );
    assert(cmd@.args =~= render_args());
    cmd.current_dir(root)
}

/// Whether the README is left as it is: nobody forces a new one, and it is
/// known to have been written after the source it is made from. The times
/// are counts from a common origin; `None` stands for a time that could
/// not be had, a missing file included.
pub fn is_up_to_date(force: bool, readme_written: Option<u128>, source_written: Option<u128>) -> (yes:
    bool)
    ensures
        yes == (!force && readme_written is Some && source_written is Some && readme_written->0
            > source_written->0),
{
    if force {
        return false;
    }
    match (readme_written, source_written) {
        (Some(readme), Some(source)) => readme > source,
        _ => false,
    }
}

/// Whether a directory of this name is the task runner's own, so that the
/// project is the directory above it.
pub fn in_task_dir(dir_name: &str) -> (yes: bool)
    ensures
        yes == (dir_name@ == "xtask"@),
{
    dir_name.to_owned() == "xtask".to_owned()
}

/// Whether a file with this extension is the source of an example.
pub fn is_example_file(extension: Option<&str>) -> (yes: bool)
    ensures
        yes == (extension is Some && extension->0@ == "rs"@),
{
    match extension {
        Some(ext) => ext.to_owned() == "rs".to_owned(),
        None => false,
    }
}

/// The name under which an example is listed: the stem of its file, or
/// `unknown` where the stem cannot be had.
pub fn example_name(stem: Option<&str>) -> (name: String)
    ensures
        name@ == (match stem {
            Some(s) => s@,
            None => "unknown"@,
        }),
{
    match stem {
        Some(s) => s.to_owned(),
        None => "unknown".to_owned(),
    }
}

} // verus!
