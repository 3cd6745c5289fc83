//! What the caller asks of a pipeline's boundary, and what follows from it
//! for every stream of every stage: inherited, connected to a neighbour,
//! drained by the executor, or handed to the caller.

use crate::command::InputView;
use crate::error::Direction;
use crate::pipeline::Pipeline;
use crate::pipeline::PipelineView;
use vstd::prelude::*;

verus! {

/// What the caller asks of the pipeline's standard input.
#[derive(Clone, Copy, Debug, PartialEq, Eq, Structural)]
pub enum InputRequest {
    /// Whatever the pipeline's input source says.
    Default,
    /// Fed from a reader that comes with the call; it takes the place of
    /// the pipeline's input source.
    Reader,
    /// The caller writes to the first stage itself.
    Manual,
}

/// What the caller asks of one output stream of the last stage.
#[derive(Clone, Copy, Debug, PartialEq, Eq, Structural)]
pub enum OutputRequest {
    /// The stream goes where the caller's own stream goes.
    Inherit,
    /// The executor collects the stream in memory.
    Capture,
    /// The executor copies the stream into a writer that comes with the call.
    Forward,
    /// The caller reads the stream itself.
    Manual,
}

/// The shape of a call: what is asked of each of the three streams at the
/// boundary of the pipeline.
#[derive(Clone, Copy, Debug, PartialEq, Eq, Structural)]
pub struct Request {
    pub stdin: InputRequest,
    pub stdout: OutputRequest,
    pub stderr: OutputRequest,
}

/// The three streams that a caller may have asked to drive itself.
#[derive(Clone, Copy, Debug, PartialEq, Eq, Structural)]
pub struct Endpoints {
    pub stdin: bool,
    pub stdout: bool,
    pub stderr: bool,
}

impl Request {
    /// The streams that this request puts into the caller's hands.
    pub open spec fn hands_out(self) -> Endpoints {
        Endpoints {
            stdin: self.stdin == InputRequest::Manual,
            stdout: self.stdout == OutputRequest::Manual,
            stderr: self.stderr == OutputRequest::Manual,
        }
    }

    /// The request in which the caller drives exactly the streams named.
    pub open spec fn manual(stdin: bool, stdout: bool, stderr: bool) -> Request {
        Request {
            stdin: if stdin {
                InputRequest::Manual
            } else {
                InputRequest::Default
            },
            stdout: if stdout {
                OutputRequest::Manual
            } else {
                OutputRequest::Inherit
            },
            stderr: if stderr {
                OutputRequest::Manual
            } else {
                OutputRequest::Inherit
            },
        }
    }

    /// Run to the end with the caller's own streams.
    pub fn run() -> (request: Request)
        ensures
            request == (Request {
                stdin: InputRequest::Default,
                stdout: OutputRequest::Inherit,
                stderr: OutputRequest::Inherit,
            }),
    {
        Request {
            stdin: InputRequest::Default,
            stdout: OutputRequest::Inherit,
            stderr: OutputRequest::Inherit,
        }
    }

    /// Run to the end and collect the last stage's standard output in
    /// memory; standard error stays the caller's own.
    pub fn output() -> (request: Request)
        ensures
            request == (Request {
                stdin: InputRequest::Default,
                stdout: OutputRequest::Capture,
                stderr: OutputRequest::Inherit,
            }),
    {
        Request {
            stdin: InputRequest::Default,
            stdout: OutputRequest::Capture,
            stderr: OutputRequest::Inherit,
        }
    }

    /// Run to the end and copy the last stage's standard output into the
    /// caller's writer.
    pub fn stream_to() -> (request: Request)
        ensures
            request == (Request {
                stdin: InputRequest::Default,
                stdout: OutputRequest::Forward,
                stderr: OutputRequest::Inherit,
            }),
    {
        Request {
            stdin: InputRequest::Default,
            stdout: OutputRequest::Forward,
            stderr: OutputRequest::Inherit,
        }
    }

    /// Run to the end between the caller's reader and the caller's writer.
    pub fn run_with_io() -> (request: Request)
        ensures
            request == (Request {
                stdin: InputRequest::Reader,
                stdout: OutputRequest::Forward,
                stderr: OutputRequest::Inherit,
            }),
    {
        Request {
            stdin: InputRequest::Reader,
            stdout: OutputRequest::Forward,
            stderr: OutputRequest::Inherit,
        }
    }

    /// Start the pipeline and hand the caller exactly the streams named.
    pub fn spawn_io(stdin: bool, stdout: bool, stderr: bool) -> (request: Request)
        ensures
            request == Request::manual(stdin, stdout, stderr),
            request.hands_out() == (Endpoints { stdin, stdout, stderr }),
    {
        Request {
            stdin: if stdin {
                InputRequest::Manual
            } else {
                InputRequest::Default
            },
            stdout: if stdout {
                OutputRequest::Manual
            } else {
                OutputRequest::Inherit
            },
            stderr: if stderr {
                OutputRequest::Manual
            } else {
                OutputRequest::Inherit
            },
        }
    }

    /// Start the pipeline with all three streams in the caller's hands.
    pub fn spawn_with_io() -> (request: Request)
        ensures
            request == Request::manual(true, true, true),
    {
        Request::spawn_io(true, true, true)
    }

    /// Start the pipeline; the caller drives standard input.
    pub fn spawn_io_in() -> (request: Request)
        ensures
            request == Request::manual(true, false, false),
    {
        Request::spawn_io(true, false, false)
    }

    /// Start the pipeline; the caller drives standard output.
    pub fn spawn_io_out() -> (request: Request)
        ensures
            request == Request::manual(false, true, false),
    {
        Request::spawn_io(false, true, false)
    }

    /// Start the pipeline; the caller drives standard error.
    pub fn spawn_io_err() -> (request: Request)
        ensures
            request == Request::manual(false, false, true),
    {
        Request::spawn_io(false, false, true)
    }

    /// Start the pipeline; the caller drives standard input and output.
    pub fn spawn_io_in_out() -> (request: Request)
        ensures
            request == Request::manual(true, true, false),
    {
        Request::spawn_io(true, true, false)
    }

    /// Start the pipeline; the caller drives standard input and error.
    pub fn spawn_io_in_err() -> (request: Request)
        ensures
            request == Request::manual(true, false, true),
    {
        Request::spawn_io(true, false, true)
    }

    /// Start the pipeline; the caller drives standard output and error.
    pub fn spawn_io_out_err() -> (request: Request)
        ensures
            request == Request::manual(false, true, true),
    {
        Request::spawn_io(false, true, true)
    }

    /// Start the pipeline; the caller drives all three streams.
    pub fn spawn_io_all() -> (request: Request)
        ensures
            request == Request::manual(true, true, true),
    {
        Request::spawn_io(true, true, true)
    }

    /// The streams that this request puts into the caller's hands.
    pub fn endpoints(self) -> (endpoints: Endpoints)
        ensures
            endpoints == self.hands_out(),
    {
        Endpoints {
            stdin: match self.stdin {
                InputRequest::Manual => true,
                _ => false,
            },
            stdout: match self.stdout {
                OutputRequest::Manual => true,
                _ => false,
            },
            stderr: match self.stderr {
                OutputRequest::Manual => true,
                _ => false,
            },
        }
    }
}

/// Where a stage's standard input comes from.
#[derive(Clone, Copy, Debug, PartialEq, Eq, Structural)]
pub enum StdinRoute {
    /// The caller's own standard input.
    Inherit,
    /// A pipe into which the executor copies the input source.
    Feed,
    /// A pipe whose write end the caller holds.
    Caller,
    /// The read end of the pipe from the stage before.
    Upstream,
}

/// Where one output stream of a stage goes.
#[derive(Clone, Copy, Debug, PartialEq, Eq, Structural)]
pub enum OutputRoute {
    /// The caller's own stream of the same kind.
    Inherit,
    /// The write end of the pipe into the next stage.
    Downstream,
    /// A pipe that the executor drains into memory.
    Capture,
    /// A pipe that the executor drains into the caller's writer.
    Forward,
    /// A pipe whose read end the caller holds.
    Caller,
}

impl OutputRoute {
    /// Whether the executor itself has to drain the stream.
    pub open spec fn drained(self) -> bool {
        self == OutputRoute::Capture || self == OutputRoute::Forward
    }

    /// Whether the executor itself has to drain the stream.
    pub fn is_drained(self) -> (yes: bool)
        ensures
            yes == self.drained(),
    {
        match self {
            OutputRoute::Capture => true,
            OutputRoute::Forward => true,
            _ => false,
        }
    }
}

/// The disposition of the three streams of one stage.
#[derive(Clone, Copy, Debug, PartialEq, Eq, Structural)]
pub struct StagePlan {
    pub stdin: StdinRoute,
    pub stdout: OutputRoute,
    pub stderr: OutputRoute,
}

/// A stream that the executor drains itself: one background copy, owned by
/// one thread, between the stream and a buffer, a reader or a writer.
#[derive(Clone, Copy, Debug, PartialEq, Eq, Structural)]
pub struct Drain {
    pub stage: usize,
    pub direction: Direction,
}

/// The route that the last stage's stream takes for a request.
pub open spec fn terminal_route(request: OutputRequest) -> OutputRoute {
    match request {
        OutputRequest::Inherit => OutputRoute::Inherit,
        OutputRequest::Capture => OutputRoute::Capture,
        OutputRequest::Forward => OutputRoute::Forward,
        OutputRequest::Manual => OutputRoute::Caller,
    }
}

/// The input source that a pipeline is run with under a request: a reader
/// that comes with the call takes the place of the pipeline's own source.
pub open spec fn effective_input(p: PipelineView, request: Request) -> InputView {
    if request.stdin == InputRequest::Reader {
        InputView::Reader
    } else {
        p.input()
    }
}

/// Where stage `i` reads from.
pub open spec fn stdin_route(p: PipelineView, request: Request, i: int) -> StdinRoute {
    if i > 0 {
        StdinRoute::Upstream
    } else if request.stdin == InputRequest::Manual {
        StdinRoute::Caller
    } else if effective_input(p, request).is_set() {
        StdinRoute::Feed
    } else {
        StdinRoute::Inherit
    }
}

/// Where the standard output of stage `i` goes.
pub open spec fn stdout_route(p: PipelineView, request: Request, i: int) -> OutputRoute {
    if i < p.links.len() {
        if p.links[i].carries_stdout() {
            OutputRoute::Downstream
        } else {
            OutputRoute::Inherit
        }
    } else {
        terminal_route(request.stdout)
    }
}

/// Where the standard error of stage `i` goes.
pub open spec fn stderr_route(p: PipelineView, request: Request, i: int) -> OutputRoute {
    if i < p.links.len() {
        if p.links[i].carries_stderr() {
            OutputRoute::Downstream
        } else {
            OutputRoute::Inherit
        }
    } else {
        terminal_route(request.stderr)
    }
}

/// The disposition of stage `i`.
pub open spec fn stage_plan(p: PipelineView, request: Request, i: int) -> StagePlan {
    StagePlan {
        stdin: stdin_route(p, request, i),
        stdout: stdout_route(p, request, i),
        stderr: stderr_route(p, request, i),
    }
}

/// The disposition of every stage, first to last.
pub open spec fn plan_of(p: PipelineView, request: Request) -> Seq<StagePlan> {
    Seq::new(p.stages.len(), |i: int| stage_plan(p, request, i))
}

/// The drain of the stream `direction` of stage `stage`, where the executor
/// owns that stream; nothing where it does not.
pub open spec fn drain_part(plan: StagePlan, stage: usize, direction: Direction) -> Seq<Drain> {
    if owns(plan, direction) {
        seq![Drain { stage, direction }]
    } else {
        Seq::empty()
    }
}

/// The streams of stage `stage` that the executor drains itself, in the
/// order in which their copies are started: input, output, error.
pub open spec fn stage_drains(plan: StagePlan, stage: usize) -> Seq<Drain> {
    drain_part(plan, stage, Direction::Stdin) + drain_part(plan, stage, Direction::Stdout)
        + drain_part(plan, stage, Direction::Stderr)
}

/// The drains of stage `stage` whose copies are started before that of the
/// stream `direction`.
pub open spec fn drains_before(plan: StagePlan, stage: usize, direction: Direction) -> Seq<Drain> {
    match direction {
        Direction::Stdin => Seq::empty(),
        Direction::Stdout => drain_part(plan, stage, Direction::Stdin),
        Direction::Stderr => drain_part(plan, stage, Direction::Stdin) + drain_part(
            plan,
            stage,
            Direction::Stdout,
        ),
    }
}

/// Whether the executor itself drains the stream `direction` under `plan`.
pub open spec fn owns(plan: StagePlan, direction: Direction) -> bool {
    match direction {
        Direction::Stdin => plan.stdin == StdinRoute::Feed,
        Direction::Stdout => plan.stdout.drained(),
        Direction::Stderr => plan.stderr.drained(),
    }
}

/// The drains of the first `n` stages, stage by stage.
pub open spec fn drains_upto(plan: Seq<StagePlan>, n: nat) -> Seq<Drain>
    decreases n,
{
    if n == 0 {
        Seq::empty()
    } else {
        drains_upto(plan, (n - 1) as nat) + stage_drains(plan[n - 1], (n - 1) as usize)
    }
}

impl StagePlan {
    /// The streams of this stage that the executor drains itself.
    pub fn drains(&self, stage: usize) -> (drains: Vec<Drain>)
        ensures
            drains@ == stage_drains(*self, stage),
    {
        let mut drains: Vec<Drain> = Vec::new();
        if self.stdin == StdinRoute::Feed {
            drains.push(Drain { stage, direction: Direction::Stdin });
        }
        if self.stdout.is_drained() {
            drains.push(Drain { stage, direction: Direction::Stdout });
        }
        if self.stderr.is_drained() {
            drains.push(Drain { stage, direction: Direction::Stderr });
        }
        drains
    }

    /// Whether the executor itself drains the stream `direction`.
    pub fn owns(&self, direction: Direction) -> (yes: bool)
        ensures
            yes == owns(*self, direction),
    {
        match direction {
            Direction::Stdin => self.stdin == StdinRoute::Feed,
            Direction::Stdout => self.stdout.is_drained(),
            Direction::Stderr => self.stderr.is_drained(),
        }
    }
}

/// Each executor-owned stream of a stage has exactly one drain: the list
/// names a stream if and only if the executor owns it, and names none twice.
pub proof fn law_one_drain_per_stream(plan: StagePlan, stage: usize)
    ensures
        forall|d: Drain| #[trigger]
            stage_drains(plan, stage).contains(d) <==> d.stage == stage && owns(plan, d.direction),
        stage_drains(plan, stage).no_duplicates(),
        stage_drains(plan, stage).len() <= 3,
{
    let drains = stage_drains(plan, stage);
    let a = Drain { stage, direction: Direction::Stdin };
    let b = Drain { stage, direction: Direction::Stdout };
    let c = Drain { stage, direction: Direction::Stderr };
    let sa = drain_part(plan, stage, Direction::Stdin);
    let sb = drain_part(plan, stage, Direction::Stdout);
    let sc = drain_part(plan, stage, Direction::Stderr);
    assert(drains == sa + sb + sc);
    assert forall|i: int| 0 <= i < drains.len() implies (drains[i] == a && owns(plan, a.direction))
        || (drains[i] == b && owns(plan, b.direction)) || (drains[i] == c && owns(
        plan,
        c.direction,
    )) by {}
    assert forall|d: Drain| #[trigger]
        drains.contains(d) <==> d.stage == stage && owns(plan, d.direction) by {
        if drains.contains(d) {
            let i = choose|i: int| 0 <= i < drains.len() && drains[i] == d;
            assert(drains[i] == d);
        }
        if d.stage == stage && owns(plan, d.direction) {
            match d.direction {
                Direction::Stdin => {
                    assert(drains[0] == a);
                },
                Direction::Stdout => {
                    assert(drains[sa.len() as int] == b);
                },
                Direction::Stderr => {
                    assert(drains[(sa.len() + sb.len()) as int] == c);
                },
            }
        }
    }
}

/// The shape of every plan: only the first stage reads from anywhere but
/// the stage before it; every stage but the last feeds the next through at
/// least one stream and exposes none to the executor or the caller; the
/// last stage feeds nobody.
pub proof fn law_plan_shape(p: PipelineView, request: Request)
    requires
        p.wf(),
    ensures
        plan_of(p, request).len() == p.stages.len(),
        forall|i: int|
            0 <= i < p.stages.len() ==> ((#[trigger] plan_of(p, request)[i]).stdin
                == StdinRoute::Upstream <==> i > 0),
        forall|i: int|
            0 <= i < p.stages.len() - 1 ==> {
                let s = #[trigger] plan_of(p, request)[i];
                &&& s.stdout == OutputRoute::Downstream || s.stderr == OutputRoute::Downstream
                &&& s.stdout == OutputRoute::Downstream || s.stdout == OutputRoute::Inherit
                &&& s.stderr == OutputRoute::Downstream || s.stderr == OutputRoute::Inherit
            },
        ({
            let last = plan_of(p, request)[p.stages.len() - 1];
            &&& last.stdout == terminal_route(request.stdout)
            &&& last.stderr == terminal_route(request.stderr)
            &&& last.stdout != OutputRoute::Downstream
            &&& last.stderr != OutputRoute::Downstream
        }),
        request.hands_out() == (Endpoints {
            stdin: plan_of(p, request)[0].stdin == StdinRoute::Caller,
            stdout: plan_of(p, request)[p.stages.len() - 1].stdout == OutputRoute::Caller,
            stderr: plan_of(p, request)[p.stages.len() - 1].stderr == OutputRoute::Caller,
        }),
{
}

/// Only the boundary of a pipeline is drained by the executor: a feed
/// belongs to the first stage, a capture to the last.
pub proof fn law_drains_at_boundary(p: PipelineView, request: Request, i: int, d: Drain)
    requires
        p.wf(),
        0 <= i < p.stages.len(),
        stage_drains(plan_of(p, request)[i], i as usize).contains(d),
    ensures
        d.direction == Direction::Stdin ==> i == 0,
        d.direction != Direction::Stdin ==> i == p.stages.len() - 1,
{
    law_one_drain_per_stream(plan_of(p, request)[i], i as usize);
}

impl Pipeline {
    /// The disposition of every stream of every stage under `request`.
    pub fn plan(&self, request: Request) -> (plan: Vec<StagePlan>)
        ensures
            plan@ == plan_of(self@, request),
    {
        let n = self.len();
        let fed = match request.stdin {
            InputRequest::Reader => true,
            _ => self.source().is_set(),
        };
        let mut plan: Vec<StagePlan> = Vec::new();
        let mut i: usize = 0;
        while i < n
            invariant
                0 <= i <= n,
                n == self@.stages.len(),
                self@.wf(),
                fed == effective_input(self@, request).is_set(),
                plan@ == plan_of(self@, request).take(i as int),
            decreases n - i,
        {
            let stdin = if i > 0 {
                StdinRoute::Upstream
            } else {
                match request.stdin {
                    InputRequest::Manual => StdinRoute::Caller,
                    _ => if fed {
                        StdinRoute::Feed
                    } else {
                        StdinRoute::Inherit
                    },
                }
            };
            let (stdout, stderr) = match self.link(i) {
                Some(mode) => (
                    if mode.takes_stdout() {
                        OutputRoute::Downstream
                    } else {
                        OutputRoute::Inherit
                    },
                    if mode.takes_stderr() {
                        OutputRoute::Downstream
                    } else {
                        OutputRoute::Inherit
                    },
                ),
                None => (route_for(request.stdout), route_for(request.stderr)),
            };
            plan.push(StagePlan { stdin, stdout, stderr });
            i += 1;
        }
        plan
    }
}

/// The route that the last stage's stream takes for a request.
pub fn route_for(request: OutputRequest) -> (route: OutputRoute)
    ensures
        route == terminal_route(request),
{
    match request {
        OutputRequest::Inherit => OutputRoute::Inherit,
        OutputRequest::Capture => OutputRoute::Capture,
        OutputRequest::Forward => OutputRoute::Forward,
        OutputRequest::Manual => OutputRoute::Caller,
    }
}

} // verus!
