//! The description of one external process: what to run, with which
//! arguments, environment, working directory and input. Nothing here starts a
//! process; a descriptor is a value that the launcher later reads.

use vstd::prelude::*;
use vstd::slice::slice_to_vec;
use vstd::string::StrSliceExecFns;
use vstd::string::StringExecFns;

verus! {

/// Process-wide configuration that a descriptor reads once, when it is built.
#[derive(Clone, Copy, Debug, PartialEq, Eq, Structural)]
pub struct Settings {
    /// Whether command lines are echoed before a stage is spawned.
    pub echo: bool,
}

impl Settings {
    /// The default configuration: every command line is echoed.
    pub fn new() -> (settings: Settings)
        ensures
            settings.echo,
    {
        Settings { echo: true }
    }

    /// The configuration that follows from the flag that silences echoing:
    /// the flag counts as soon as it is present, whatever it holds.
    pub fn from_flag(no_echo: Option<&str>) -> (settings: Settings)
        ensures
            settings.echo == (no_echo is None),
    {
        Settings { echo: no_echo.is_none() }
    }

    /// This configuration with echoing switched to `echo`.
    pub fn with_echo(self, echo: bool) -> (settings: Settings)
        ensures
            settings.echo == echo,
    {
        Settings { echo }
    }
}

/// Where the first stage of a pipeline takes its standard input from.
#[derive(Debug, PartialEq, Eq)]
pub enum Input {
    /// Nothing was set: the stage inherits the caller's standard input.
    Unset,
    /// A copy of bytes that the caller keeps.
    Bytes(Vec<u8>),
    /// Bytes whose ownership the caller gave away.
    Owned(Vec<u8>),
    /// A reader that the caller holds and hands to whoever runs the pipeline.
    Reader,
}

/// The mathematical value of an [`Input`].
pub enum InputView {
    Unset,
    Bytes(Seq<u8>),
    Owned(Seq<u8>),
    Reader,
}

impl InputView {
    /// Whether an input source was set at all.
    pub open spec fn is_set(self) -> bool {
        !(self is Unset)
    }

    /// The bytes that the source holds in memory, if it holds any.
    pub open spec fn payload(self) -> Option<Seq<u8>> {
        match self {
            InputView::Bytes(bytes) => Some(bytes),
            InputView::Owned(bytes) => Some(bytes),
            _ => None,
        }
    }
}

impl View for Input {
    type V = InputView;

    open spec fn view(&self) -> InputView {
        match self {
            Input::Unset => InputView::Unset,
            Input::Bytes(bytes) => InputView::Bytes(bytes@),
            Input::Owned(bytes) => InputView::Owned(bytes@),
            Input::Reader => InputView::Reader,
        }
    }
}

impl Input {
    /// Whether an input source was set at all.
    pub fn is_set(&self) -> (set: bool)
        ensures
            set == self@.is_set(),
    {
        match self {
            Input::Unset => false,
            _ => true,
        }
    }

    /// The bytes that the source holds in memory, if it holds any.
    pub fn payload(&self) -> (bytes: Option<&Vec<u8>>)
        ensures
            match bytes {
                Some(b) => self@.payload() == Some(b@),
                None => self@.payload() is None,
            },
    {
        match self {
            Input::Bytes(bytes) => Some(bytes),
            Input::Owned(bytes) => Some(bytes),
            _ => None,
        }
    }
}

/// One environment override: a variable's name and its value.
pub type Binding = (Seq<char>, Seq<char>);

/// Whether some override in `envs` names the variable `key`.
pub open spec fn has_key(envs: Seq<Binding>, key: Seq<char>) -> bool {
    exists|i: int| 0 <= i < envs.len() && (#[trigger] envs[i]).0 == key
}

/// A position in `envs` at which the variable `key` is overridden. Where the
/// names are distinct there is at most one.
pub open spec fn key_index(envs: Seq<Binding>, key: Seq<char>) -> int {
    choose|i: int| 0 <= i < envs.len() && (#[trigger] envs[i]).0 == key
}

/// No variable is overridden twice.
pub open spec fn distinct_keys(envs: Seq<Binding>) -> bool {
    forall|i: int, j: int|
        0 <= i < j < envs.len() ==> (#[trigger] envs[i]).0 != (#[trigger] envs[j]).0
}

/// The overrides after `key` was set to `value`: an override of the same
/// variable is replaced where it stands, a new one goes to the end.
pub open spec fn set_env(envs: Seq<Binding>, key: Seq<char>, value: Seq<char>) -> Seq<Binding> {
    if has_key(envs, key) {
        envs.update(key_index(envs, key), (key, value))
    } else {
        envs.push((key, value))
    }
}

/// The overrides as a mapping from variable name to value.
pub open spec fn env_map(envs: Seq<Binding>) -> Map<Seq<char>, Seq<char>> {
    Map::new(|key: Seq<char>| has_key(envs, key), |key: Seq<char>| envs[key_index(envs, key)].1)
}

/// The command line of `program` with `args`, as it is echoed: the program's
/// name, then each argument behind a single space.
pub open spec fn rendered(program: Seq<char>, args: Seq<Seq<char>>) -> Seq<char>
    decreases args.len(),
{
    if args.len() == 0 {
        program
    } else {
        rendered(program, args.drop_last()) + seq![' '] + args.last()
    }
}

/// The mathematical value of a [`Cmd`].
pub struct CmdView {
    /// The executable's name or path.
    pub program: Seq<char>,
    /// The positional arguments, in the order in which they were added.
    pub args: Seq<Seq<char>>,
    /// The environment overrides, laid over the inherited environment.
    pub envs: Seq<Binding>,
    /// The working directory; `None` inherits the caller's.
    pub dir: Option<Seq<char>>,
    /// The input source.
    pub input: InputView,
    /// Whether the command line is echoed before the process is spawned.
    pub echo: bool,
}

impl CmdView {
    /// A descriptor overrides no variable twice.
    pub open spec fn wf(self) -> bool {
        distinct_keys(self.envs)
    }

    /// The descriptor that `Cmd::new` builds.
    pub open spec fn new(program: Seq<char>, echo: bool) -> CmdView {
        CmdView {
            program,
            args: Seq::empty(),
            envs: Seq::empty(),
            dir: None,
            input: InputView::Unset,
            echo,
        }
    }

    /// This descriptor with another input source.
    pub open spec fn with_input(self, input: InputView) -> CmdView {
        CmdView { input, ..self }
    }

    /// The echoed command line.
    pub open spec fn line(self) -> Seq<char> {
        rendered(self.program, self.args)
    }
}

/// Setting a variable keeps the names distinct, and as a mapping it is an
/// insertion: the variable now has the new value and every other variable
/// keeps its own.
pub proof fn lemma_set_env(envs: Seq<Binding>, key: Seq<char>, value: Seq<char>)
    requires
        distinct_keys(envs),
    ensures
        distinct_keys(set_env(envs, key, value)),
        env_map(set_env(envs, key, value)) == env_map(envs).insert(key, value),
{
    let after = set_env(envs, key, value);
    if has_key(envs, key) {
        let at = key_index(envs, key);
        assert(after.len() == envs.len());
        assert forall|i: int| 0 <= i < after.len() implies (#[trigger] after[i]).0 == envs[i].0 by {}
        assert forall|k: Seq<char>| has_key(after, k) == (k == key || has_key(envs, k)) by {
            if has_key(after, k) {
                let i = key_index(after, k);
                assert(envs[i].0 == k);
            }
            if has_key(envs, k) {
                let i = key_index(envs, k);
                assert(after[i].0 == k);
            }
            if k == key {
                assert(after[at].0 == k);
            }
        }
        assert forall|k: Seq<char>| has_key(after, k) implies #[trigger] env_map(after)[k]
            == env_map(envs).insert(key, value)[k] by {
            let i = key_index(after, k);
            assert(after[i].0 == k && envs[i].0 == k);
            if k == key {
                assert(after[at].0 == k);
            } else {
                let j = key_index(envs, k);
                assert(envs[j].0 == k);
            }
        }
    } else {
        let at = envs.len() as int;
        assert forall|i: int, j: int| 0 <= i < j < after.len() implies (#[trigger] after[i]).0 != (
        #[trigger] after[j]).0 by {
            if j == at {
                assert(after[i] == envs[i]);
            }
        }
        assert forall|k: Seq<char>| has_key(after, k) == (k == key || has_key(envs, k)) by {
            if has_key(after, k) {
                let i = key_index(after, k);
                if i < at {
                    assert(envs[i].0 == k);
                }
            }
            if has_key(envs, k) {
                let i = key_index(envs, k);
                assert(after[i].0 == k);
            }
            if k == key {
                assert(after[at].0 == k);
            }
        }
        assert forall|k: Seq<char>| has_key(after, k) implies #[trigger] env_map(after)[k]
            == env_map(envs).insert(key, value)[k] by {
            let i = key_index(after, k);
            assert(after[i].0 == k);
            if k == key {
                assert(after[at].0 == k);
            } else {
                let j = key_index(envs, k);
                assert(envs[j].0 == k && after[j].0 == k);
            }
        }
    }
}

/// The input source that was set last is the one that counts, and setting
/// one touches nothing else of the descriptor.
pub proof fn law_input_last_wins(cmd: CmdView, first: InputView, second: InputView)
    ensures
        cmd.with_input(first).with_input(second) == cmd.with_input(second),
        cmd.with_input(second).input == second,
        cmd.with_input(second).program == cmd.program,
        cmd.with_input(second).args == cmd.args,
        cmd.with_input(second).envs == cmd.envs,
        cmd.with_input(second).dir == cmd.dir,
        cmd.with_input(second).echo == cmd.echo,
{
}

/// The description of one external process.
#[derive(Debug)]
pub struct Cmd {
    program: String,
    args: Vec<String>,
    envs: Vec<(String, String)>,
    dir: Option<String>,
    input: Input,
    echo: bool,
}

impl View for Cmd {
    type V = CmdView;

    closed spec fn view(&self) -> CmdView {
        CmdView {
            program: self.program@,
            args: self.args.deep_view(),
            envs: self.envs.deep_view(),
            dir: self.dir.deep_view(),
            input: self.input@,
            echo: self.echo,
        }
    }
}

impl Cmd {
    /// What holds of every value of this type.
    #[verifier::type_invariant]
    pub open spec fn inv(self) -> bool {
        self@.wf()
    }

    /// A descriptor for `program` with no arguments, no overrides, no
    /// working directory and no input, echoed as `settings` says.
    pub fn with_settings(program: &str, settings: Settings) -> (cmd: Cmd)
        ensures
            cmd@ == CmdView::new(program@, settings.echo),
            cmd@.wf(),
    {
        let cmd = Cmd {
            program: program.to_owned(),
            args: Vec::new(),
            envs: Vec::new(),
            dir: None,
            input: Input::Unset,
            echo: settings.echo,
        };
        assert(cmd@.args =~= Seq::empty());
        assert(cmd@.envs =~= Seq::empty());
        cmd
    }

    /// A descriptor for `program` under the default settings.
    pub fn new(program: &str) -> (cmd: Cmd)
        ensures
            cmd@ == CmdView::new(program@, true),
            cmd@.wf(),
    {
        Cmd::with_settings(program, Settings::new())
    }

    /// Appends one argument.
    pub fn arg(self, arg: &str) -> (cmd: Cmd)
        ensures
            cmd@ == (CmdView { args: self@.args.push(arg@), ..self@ }),
            cmd@.wf(),
    {
        proof {
            use_type_invariant(&self);
        }
        let mut args = self.args;
        let ghost before = args.deep_view();
        args.push(arg.to_owned());
        assert(args.deep_view() =~= before.push(arg@));
        Cmd {
            program: self.program,
            args,
            envs: self.envs,
            dir: self.dir,
            input: self.input,
            echo: self.echo,
        }
    }

    /// Appends the arguments of `list`, in their order.
    pub fn args(self, list: &[&str]) -> (cmd: Cmd)
        ensures
            cmd@ == (CmdView { args: self@.args + list.deep_view(), ..self@ }),
            cmd@.wf(),
    {
        proof {
            use_type_invariant(&self);
        }
        let mut args = self.args;
        let ghost before = args.deep_view();
        let mut i: usize = 0;
        while i < list.len()
            invariant
                0 <= i <= list.len(),
                args.deep_view() == before + list.deep_view().take(i as int),
            decreases list.len() - i,
        {
            let ghost prev = args.deep_view();
            args.push(list[i].to_owned());
            assert(args.deep_view() =~= prev.push(list[i as int]@));
            assert(list.deep_view().take(i + 1) =~= list.deep_view().take(i as int).push(
                list[i as int]@,
            ));
            i += 1;
        }
        assert(list.deep_view().take(i as int) =~= list.deep_view());
        Cmd {
            program: self.program,
            args,
            envs: self.envs,
            dir: self.dir,
            input: self.input,
            echo: self.echo,
        }
    }

    /// Overrides the variable `key` with `value` in the environment that the
    /// process inherits.
    pub fn env(self, key: &str, value: &str) -> (cmd: Cmd)
        ensures
            cmd@ == (CmdView { envs: set_env(self@.envs, key@, value@), ..self@ }),
            env_map(cmd@.envs) == env_map(self@.envs).insert(key@, value@),
            cmd@.wf(),
    {
        proof {
            use_type_invariant(&self);
            lemma_set_env(self@.envs, key@, value@);
        }
        let mut envs = self.envs;
        let ghost before = envs.deep_view();
        let name = key.to_owned();
        let mut at: usize = 0;
        let mut found = false;
        while !found && at < envs.len()
            invariant
                0 <= at <= envs.len(),
                envs.deep_view() == before,
                name@ == key@,
                forall|j: int| 0 <= j < at ==> (#[trigger] before[j]).0 != key@,
                found ==> at < envs.len() && before[at as int].0 == key@,
            decreases envs.len() - at + (if found { 0int } else { 1int }),
        {
            if envs[at].0 == name {
                found = true;
            } else {
                at += 1;
            }
        }
        if found {
            envs.set(at, (name, value.to_owned()));
            assert(envs.deep_view() =~= before.update(at as int, (key@, value@)));
        } else {
            envs.push((name, value.to_owned()));
            assert(envs.deep_view() =~= before.push((key@, value@)));
        }
        Cmd {
            program: self.program,
            args: self.args,
            envs,
            dir: self.dir,
            input: self.input,
            echo: self.echo,
        }
    }

    /// Sets the directory in which the process runs.
    pub fn current_dir(self, dir: &str) -> (cmd: Cmd)
        ensures
            cmd@ == (CmdView { dir: Some(dir@), ..self@ }),
            cmd@.wf(),
    {
        proof {
            use_type_invariant(&self);
        }
        Cmd {
            program: self.program,
            args: self.args,
            envs: self.envs,
            dir: Some(dir.to_owned()),
            input: self.input,
            echo: self.echo,
        }
    }

    /// Replaces the input source, whatever it was.
    pub fn with_input(self, input: Input) -> (cmd: Cmd)
        ensures
            cmd@ == self@.with_input(input@),
            cmd@.wf(),
    {
        proof {
            use_type_invariant(&self);
        }
        Cmd {
            program: self.program,
            args: self.args,
            envs: self.envs,
            dir: self.dir,
            input,
            echo: self.echo,
        }
    }

    /// Feeds the process the bytes that encode `text`.
    pub fn input(self, text: &str) -> (cmd: Cmd)
        ensures
            cmd@ == self@.with_input(InputView::Bytes(vstd::utf8::encode_utf8(text@))),
            cmd@.wf(),
    {
        self.with_input(Input::Bytes(text.as_bytes_vec()))
    }

    /// Feeds the process a copy of `bytes`.
    pub fn input_bytes(self, bytes: &[u8]) -> (cmd: Cmd)
        ensures
            cmd@ == self@.with_input(InputView::Bytes(bytes@)),
            cmd@.wf(),
    {
        self.with_input(Input::Bytes(slice_to_vec(bytes)))
    }

    /// Feeds the process `bytes`, which the descriptor now owns.
    pub fn input_bytes_owned(self, bytes: Vec<u8>) -> (cmd: Cmd)
        ensures
            cmd@ == self@.with_input(InputView::Owned(bytes@)),
            cmd@.wf(),
    {
        self.with_input(Input::Owned(bytes))
    }

    /// Feeds the process from a reader that the caller holds.
    pub fn input_reader(self) -> (cmd: Cmd)
        ensures
            cmd@ == self@.with_input(InputView::Reader),
            cmd@.wf(),
    {
        self.with_input(Input::Reader)
    }

    /// Switches echoing off for this command, whatever the settings say.
    pub fn no_echo(self) -> (cmd: Cmd)
        ensures
            cmd@ == (CmdView { echo: false, ..self@ }),
            cmd@.wf(),
    {
        proof {
            use_type_invariant(&self);
        }
        Cmd {
            program: self.program,
            args: self.args,
            envs: self.envs,
            dir: self.dir,
            input: self.input,
            echo: false,
        }
    }

    /// The executable's name or path.
    pub fn program(&self) -> (program: &str)
        ensures
            program@ == self@.program,
    {
        self.program.as_str()
    }

    /// The positional arguments, in order.
    pub fn arguments(&self) -> (args: &Vec<String>)
        ensures
            args.deep_view() == self@.args,
    {
        &self.args
    }

    /// The environment overrides, no variable twice.
    pub fn envs(&self) -> (envs: &Vec<(String, String)>)
        ensures
            envs.deep_view() == self@.envs,
            distinct_keys(envs.deep_view()),
    {
        proof {
            use_type_invariant(self);
        }
        &self.envs
    }

    /// The working directory, if one was set.
    pub fn working_dir(&self) -> (dir: Option<&String>)
        ensures
            dir.deep_view() == self@.dir,
    {
        self.dir.as_ref()
    }

    /// The input source.
    pub fn source(&self) -> (input: &Input)
        ensures
            input@ == self@.input,
    {
        &self.input
    }

    /// Whether the command line is echoed before the process is spawned.
    pub fn echo(&self) -> (echo: bool)
        ensures
            echo == self@.echo,
    {
        self.echo
    }

    /// The command line as it is echoed.
    pub fn command_line(&self) -> (line: String)
        ensures
            line@ == self@.line(),
    {
        let mut line = self.program.clone();
        let mut i: usize = 0;
        assert(self@.args.take(0) =~= Seq::empty());
        while i < self.args.len()
            invariant
                0 <= i <= self.args.len(),
                line@ == rendered(self@.program, self@.args.take(i as int)),
            decreases self.args.len() - i,
        {
            let ghost upto = self@.args.take(i + 1);
            assert(upto.drop_last() =~= self@.args.take(i as int));
            line.append(" ");
            line.append(self.args[i].as_str());
            proof {
                reveal_strlit(" ");
            }
            i += 1;
        }
        assert(self@.args.take(i as int) =~= self@.args);
        line
    }
}

} // verus!
