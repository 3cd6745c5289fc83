//! The pipeline graph: an ordered, never empty sequence of command
//! descriptors, and for each adjacent pair the streams of the upstream stage
//! that feed the downstream stage's standard input.

use crate::command::Cmd;
use crate::command::CmdView;
use crate::command::Input;
use crate::command::InputView;
use vstd::prelude::*;
use vstd::slice::slice_to_vec;
use vstd::string::StrSliceExecFns;

verus! {

/// Which streams of a stage feed the standard input of the next stage.
#[derive(Clone, Copy, Debug, PartialEq, Eq, Structural)]
pub enum PipeMode {
    /// Standard output only.
    Stdout,
    /// Standard error only.
    Stderr,
    /// Both, merged into one stream. The operating system interleaves the
    /// two as the writes happen to arrive: no order between them is promised.
    Both,
}

impl PipeMode {
    /// Whether the upstream stage's standard output feeds the next stage.
    pub open spec fn carries_stdout(self) -> bool {
        self == PipeMode::Stdout || self == PipeMode::Both
    }

    /// Whether the upstream stage's standard error feeds the next stage.
    pub open spec fn carries_stderr(self) -> bool {
        self == PipeMode::Stderr || self == PipeMode::Both
    }

    /// Whether the upstream stage's standard output feeds the next stage.
    pub fn takes_stdout(self) -> (yes: bool)
        ensures
            yes == self.carries_stdout(),
    {
        match self {
            PipeMode::Stdout => true,
            PipeMode::Stderr => false,
            PipeMode::Both => true,
        }
    }

    /// Whether the upstream stage's standard error feeds the next stage.
    pub fn takes_stderr(self) -> (yes: bool)
        ensures
            yes == self.carries_stderr(),
    {
        match self {
            PipeMode::Stdout => false,
            PipeMode::Stderr => true,
            PipeMode::Both => true,
        }
    }
}

/// The mathematical value of a [`Pipeline`].
pub struct PipelineView {
    /// The stages, first to last.
    pub stages: Seq<CmdView>,
    /// `links[i]` routes stage `i` into stage `i + 1`.
    pub links: Seq<PipeMode>,
    /// Whether echoing is switched off for the whole pipeline.
    pub quiet: bool,
}

impl PipelineView {
    /// A pipeline has at least one stage and no more than a machine can
    /// count, one link between each two neighbours, and an input source on
    /// its first stage at most.
    pub open spec fn wf(self) -> bool {
        &&& 1 <= self.stages.len() <= usize::MAX
        &&& self.links.len() == self.stages.len() - 1
        &&& forall|i: int| 0 <= i < self.stages.len() ==> (#[trigger] self.stages[i]).wf()
        &&& forall|i: int| 1 <= i < self.stages.len() ==> (#[trigger] self.stages[i]).input is Unset
    }

    /// The pipeline of one stage.
    pub open spec fn single(first: CmdView) -> PipelineView {
        PipelineView { stages: seq![first], links: Seq::empty(), quiet: false }
    }

    /// This pipeline with `next` behind it, fed as `mode` says. An input
    /// source that `next` carried is dropped: only the first stage has one.
    pub open spec fn pipe_with(self, mode: PipeMode, next: CmdView) -> PipelineView {
        PipelineView {
            stages: self.stages.push(next.with_input(InputView::Unset)),
            links: self.links.push(mode),
            quiet: self.quiet,
        }
    }

    /// This pipeline with another input source on its first stage.
    pub open spec fn with_input(self, input: InputView) -> PipelineView {
        PipelineView { stages: self.stages.update(0, self.stages[0].with_input(input)), ..self }
    }

    /// The pipeline's input source: that of its first stage.
    pub open spec fn input(self) -> InputView {
        self.stages[0].input
    }

    /// Whether the command line of stage `i` is echoed before it is spawned.
    pub open spec fn echoes(self, i: int) -> bool {
        !self.quiet && self.stages[i].echo
    }
}

/// Appending a stage keeps the graph valid and leaves what was there as it
/// was: the earlier stages, their links and the pipeline's input source.
/// The new stage is the last one and carries no input source of its own.
pub proof fn law_append_keeps_graph(p: PipelineView, mode: PipeMode, next: CmdView)
    requires
        p.wf(),
        next.wf(),
        p.stages.len() < usize::MAX,
    ensures
        p.pipe_with(mode, next).wf(),
        p.pipe_with(mode, next).stages.len() == p.stages.len() + 1,
        forall|i: int|
            0 <= i < p.stages.len() ==> #[trigger] p.pipe_with(mode, next).stages[i]
                == p.stages[i],
        forall|i: int|
            0 <= i < p.links.len() ==> #[trigger] p.pipe_with(mode, next).links[i] == p.links[i],
        p.pipe_with(mode, next).links.last() == mode,
        p.pipe_with(mode, next).stages.last().input is Unset,
        p.pipe_with(mode, next).input() == p.input(),
{
    let q = p.pipe_with(mode, next);
    assert forall|i: int| 0 <= i < q.stages.len() implies (#[trigger] q.stages[i]).wf() by {
        if i < p.stages.len() {
            assert(q.stages[i] == p.stages[i]);
        }
    }
    assert forall|i: int| 1 <= i < q.stages.len() implies (#[trigger] q.stages[i]).input is Unset by {
        if i < p.stages.len() {
            assert(q.stages[i] == p.stages[i]);
        }
    }
}

/// Only the first stage takes an input source, and the one that was set
/// last is the one that counts: setting a source keeps the graph valid,
/// changes the first stage's source and nothing else.
pub proof fn law_pipeline_input(p: PipelineView, first: InputView, second: InputView)
    requires
        p.wf(),
    ensures
        p.with_input(second).wf(),
        p.with_input(second).input() == second,
        p.with_input(first).with_input(second) == p.with_input(second),
        p.with_input(second).links == p.links,
        p.with_input(second).quiet == p.quiet,
        forall|i: int|
            1 <= i < p.stages.len() ==> #[trigger] p.with_input(second).stages[i] == p.stages[i],
{
    let q = p.with_input(second);
    assert forall|i: int| 0 <= i < q.stages.len() implies (#[trigger] q.stages[i]).wf() by {
        assert(p.stages[i].wf());
    }
    assert forall|i: int| 1 <= i < q.stages.len() implies (#[trigger] q.stages[i]).input is Unset by {
        assert(p.stages[i].input is Unset);
    }
    assert(p.with_input(first).with_input(second).stages =~= q.stages);
}

/// An ordered sequence of command descriptors, each feeding the next.
#[derive(Debug)]
pub struct Pipeline {
    stages: Vec<Cmd>,
    links: Vec<PipeMode>,
    quiet: bool,
}

impl View for Pipeline {
    type V = PipelineView;

    closed spec fn view(&self) -> PipelineView {
        PipelineView {
            stages: Seq::new(self.stages@.len(), |i: int| self.stages@[i]@),
            links: self.links@,
            quiet: self.quiet,
        }
    }
}

impl Pipeline {
    /// What holds of every value of this type.
    #[verifier::type_invariant]
    pub open spec fn inv(self) -> bool {
        self@.wf()
    }

    /// The pipeline whose only stage is `first`: the same as running
    /// `first` directly.
    pub fn new(first: Cmd) -> (pipeline: Pipeline)
        ensures
            pipeline@ == PipelineView::single(first@),
            pipeline@.wf(),
    {
        let ghost only = first@;
        proof {
            use_type_invariant(&first);
        }
        let mut stages: Vec<Cmd> = Vec::new();
        stages.push(first);
        let pipeline = Pipeline { stages, links: Vec::new(), quiet: false };
        assert(pipeline@.stages =~= seq![only]);
        pipeline
    }

    /// Appends `next`, fed as `mode` says.
    pub fn pipe_with(self, mode: PipeMode, next: Cmd) -> (pipeline: Pipeline)
        ensures
            pipeline@ == self@.pipe_with(mode, next@),
            pipeline@.wf(),
    {
        proof {
            use_type_invariant(&self);
        }
        let ghost before = self@;
        let ghost added = next@.with_input(InputView::Unset);
        let mut stages = self.stages;
        let mut links = self.links;
        stages.push(next.with_input(Input::Unset));
        links.push(mode);
        proof {
            assert(stages@.len() == stages.len());
            let after = Seq::new(stages@.len(), |i: int| stages@[i]@);
            assert(after =~= before.stages.push(added));
            assert forall|i: int| 0 <= i < after.len() implies (#[trigger] after[i]).wf() by {
                if i < before.stages.len() {
                    assert(after[i] == before.stages[i]);
                }
            }
            assert forall|i: int| 1 <= i < after.len() implies (#[trigger] after[i]).input is Unset by {
                if i < before.stages.len() {
                    assert(after[i] == before.stages[i]);
                }
            }
        }
        Pipeline { stages, links, quiet: self.quiet }
    }

    /// Appends `next`, fed from this pipeline's standard output.
    pub fn pipe(self, next: Cmd) -> (pipeline: Pipeline)
        ensures
            pipeline@ == self@.pipe_with(PipeMode::Stdout, next@),
            pipeline@.wf(),
    {
        self.pipe_with(PipeMode::Stdout, next)
    }

    /// Appends `next`, fed from this pipeline's standard error.
    pub fn pipe_stderr(self, next: Cmd) -> (pipeline: Pipeline)
        ensures
            pipeline@ == self@.pipe_with(PipeMode::Stderr, next@),
            pipeline@.wf(),
    {
        self.pipe_with(PipeMode::Stderr, next)
    }

    /// Appends `next`, fed from this pipeline's standard output and
    /// standard error merged, in no promised order.
    pub fn pipe_both(self, next: Cmd) -> (pipeline: Pipeline)
        ensures
            pipeline@ == self@.pipe_with(PipeMode::Both, next@),
            pipeline@.wf(),
    {
        self.pipe_with(PipeMode::Both, next)
    }

    /// Replaces the input source of the first stage, whatever it was.
    pub fn with_input(self, input: Input) -> (pipeline: Pipeline)
        ensures
            pipeline@ == self@.with_input(input@),
            pipeline@.wf(),
    {
        proof {
            use_type_invariant(&self);
        }
        let ghost before = self@;
        let ghost first = before.stages[0].with_input(input@);
        let mut stages = self.stages;
        let head = stages.remove(0);
        stages.insert(0, head.with_input(input));
        proof {
            let after = Seq::new(stages@.len(), |i: int| stages@[i]@);
            assert(after =~= before.stages.update(0, first));
            assert forall|i: int| 0 <= i < after.len() implies (#[trigger] after[i]).wf() by {
                if i > 0 {
                    assert(after[i] == before.stages[i]);
                }
            }
            assert forall|i: int| 1 <= i < after.len() implies (#[trigger] after[i]).input is Unset by {
                assert(after[i] == before.stages[i]);
            }
        }
        Pipeline { stages, links: self.links, quiet: self.quiet }
    }

    /// Feeds the first stage the bytes that encode `text`.
    pub fn input(self, text: &str) -> (pipeline: Pipeline)
        ensures
            pipeline@ == self@.with_input(InputView::Bytes(vstd::utf8::encode_utf8(text@))),
            pipeline@.wf(),
    {
        self.with_input(Input::Bytes(text.as_bytes_vec()))
    }

    /// Feeds the first stage a copy of `bytes`.
    pub fn input_bytes(self, bytes: &[u8]) -> (pipeline: Pipeline)
        ensures
            pipeline@ == self@.with_input(InputView::Bytes(bytes@)),
            pipeline@.wf(),
    {
        self.with_input(Input::Bytes(slice_to_vec(bytes)))
    }

    /// Feeds the first stage `bytes`, which the pipeline now owns.
    pub fn input_bytes_owned(self, bytes: Vec<u8>) -> (pipeline: Pipeline)
        ensures
            pipeline@ == self@.with_input(InputView::Owned(bytes@)),
            pipeline@.wf(),
    {
        self.with_input(Input::Owned(bytes))
    }

    /// Feeds the first stage from a reader that the caller holds.
    pub fn input_reader(self) -> (pipeline: Pipeline)
        ensures
            pipeline@ == self@.with_input(InputView::Reader),
            pipeline@.wf(),
    {
        self.with_input(Input::Reader)
    }

    /// Switches echoing off for every stage.
    pub fn no_echo(self) -> (pipeline: Pipeline)
        ensures
            pipeline@ == (PipelineView { quiet: true, ..self@ }),
            pipeline@.wf(),
    {
        proof {
            use_type_invariant(&self);
        }
        Pipeline { stages: self.stages, links: self.links, quiet: true }
    }

    /// The number of stages: one at least.
    pub fn len(&self) -> (n: usize)
        ensures
            n == self@.stages.len(),
            n >= 1,
            self@.wf(),
    {
        proof {
            use_type_invariant(self);
        }
        self.stages.len()
    }

    /// The descriptor of stage `i`, if there is such a stage.
    pub fn stage(&self, i: usize) -> (cmd: Option<&Cmd>)
        ensures
            cmd is Some <==> i < self@.stages.len(),
            cmd is Some ==> cmd->0@ == self@.stages[i as int],
    {
        if i < self.stages.len() {
            Some(&self.stages[i])
        } else {
            None
        }
    }

    /// How stage `i` feeds stage `i + 1`, if there is such a pair.
    pub fn link(&self, i: usize) -> (mode: Option<PipeMode>)
        ensures
            mode is Some <==> i < self@.links.len(),
            mode is Some ==> mode->0 == self@.links[i as int],
    {
        if i < self.links.len() {
            Some(self.links[i])
        } else {
            None
        }
    }

    /// The input source of the first stage.
    pub fn source(&self) -> (input: &Input)
        ensures
            input@ == self@.input(),
    {
        proof {
            use_type_invariant(self);
        }
        self.stages[0].source()
    }

    /// Whether echoing is switched off for the whole pipeline.
    pub fn is_quiet(&self) -> (quiet: bool)
        ensures
            quiet == self@.quiet,
    {
        self.quiet
    }

    /// Whether the command line of stage `i` is echoed before it is
    /// spawned; `false` where there is no such stage.
    pub fn echoes(&self, i: usize) -> (echo: bool)
        ensures
            echo == (i < self@.stages.len() && self@.echoes(i as int)),
    {
        i < self.stages.len() && !self.quiet && self.stages[i].echo()
    }
}

impl Cmd {
    /// The pipeline of this command and `next`, fed from this command's
    /// standard output.
    pub fn pipe(self, next: Cmd) -> (pipeline: Pipeline)
        ensures
            pipeline@ == PipelineView::single(self@).pipe_with(PipeMode::Stdout, next@),
            pipeline@.wf(),
    {
        Pipeline::new(self).pipe_with(PipeMode::Stdout, next)
    }

    /// The pipeline of this command and `next`, fed from this command's
    /// standard error.
    pub fn pipe_stderr(self, next: Cmd) -> (pipeline: Pipeline)
        ensures
            pipeline@ == PipelineView::single(self@).pipe_with(PipeMode::Stderr, next@),
            pipeline@.wf(),
    {
        Pipeline::new(self).pipe_with(PipeMode::Stderr, next)
    }

    /// The pipeline of this command and `next`, fed from this command's
    /// standard output and standard error merged, in no promised order.
    pub fn pipe_both(self, next: Cmd) -> (pipeline: Pipeline)
        ensures
            pipeline@ == PipelineView::single(self@).pipe_with(PipeMode::Both, next@),
            pipeline@.wf(),
    {
        Pipeline::new(self).pipe_with(PipeMode::Both, next)
    }
}

} // verus!
