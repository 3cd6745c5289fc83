//! The two halves of running a pipeline, as decisions only. The launcher
//! says which stage to start next and learns how that went; the handle says
//! which child to wait on and which copy to join next and learns how they
//! ended. Whoever drives them does the operating-system work in between.

use crate::command::Cmd;
use crate::command::Input;
use crate::command::InputView;
use crate::error::Direction;
use crate::error::Error;
use crate::error::ErrorView;
use crate::outcome::joined_views;
use crate::outcome::Joined;
use crate::outcome::JoinedView;
use crate::outcome::Outcome;
use crate::outcome::OutcomeView;
use crate::outcome::Report;
use crate::outcome::ReportView;
use crate::pipeline::Pipeline;
use crate::pipeline::PipelineView;
use crate::plan::drains_before;
use crate::plan::drains_upto;
use crate::plan::owns;
use crate::plan::plan_of;
use crate::plan::stage_drains;
use crate::plan::Drain;
use crate::plan::Endpoints;
use crate::plan::InputRequest;
use crate::plan::Request;
use crate::plan::StagePlan;
use vstd::prelude::*;

verus! {

/// The value of an optional error.
pub open spec fn failure_view(failure: Option<Error>) -> Option<ErrorView> {
    match failure {
        Some(e) => Some(e@),
        None => None,
    }
}

/// The mathematical value of a [`Launcher`].
pub struct LauncherView {
    /// The graph being launched, with the input source it is run with.
    pub pipeline: PipelineView,
    /// What the caller asked of the boundary.
    pub request: Request,
    /// How many stages have a process: stages `0..launched`.
    pub launched: nat,
    /// The background copies that were started, in the order of starting.
    pub started: Seq<Drain>,
    /// The failure that stopped the launch, if one did.
    pub failure: Option<ErrorView>,
}

impl LauncherView {
    /// The disposition of every stage.
    pub open spec fn plan(self) -> Seq<StagePlan> {
        plan_of(self.pipeline, self.request)
    }

    /// Stages are launched in order, each with the copies that its plan
    /// asks for, until all are launched or one failure stops the launch.
    pub open spec fn wf(self) -> bool {
        &&& self.pipeline.wf()
        &&& self.launched <= self.pipeline.stages.len()
        &&& forall|j: int|
            0 <= j < self.started.len() ==> (#[trigger] self.started[j]).stage < self.launched
        &&& match self.failure {
            None => self.started == drains_upto(self.plan(), self.launched),
            Some(ErrorView::SpawnFailed { stage, .. }) => stage == self.launched && stage
                < self.pipeline.stages.len(),
            Some(ErrorView::IoFailure { stage, .. }) => stage + 1 == self.launched,
            Some(ErrorView::NonZeroExit { .. }) => false,
        }
    }

    /// The launcher of `pipeline` under `request`, before anything was
    /// started. A reader that comes with the call replaces the input source.
    pub open spec fn start(pipeline: PipelineView, request: Request) -> LauncherView {
        LauncherView {
            pipeline: if request.stdin == InputRequest::Reader {
                pipeline.with_input(InputView::Reader)
            } else {
                pipeline
            },
            request,
            launched: 0,
            started: Seq::empty(),
            failure: None,
        }
    }

    /// The stage to launch next; none once all are launched or a failure
    /// has stopped the launch.
    pub open spec fn pending(self) -> Option<nat> {
        if self.failure is None && self.launched < self.pipeline.stages.len() {
            Some(self.launched)
        } else {
            None
        }
    }

    /// After the pending stage was spawned and its copies were started.
    pub open spec fn launched_ok(self) -> LauncherView {
        match self.pending() {
            Some(i) => LauncherView {
                launched: i + 1,
                started: self.started + stage_drains(self.plan()[i as int], i as usize),
                ..self
            },
            None => self,
        }
    }

    /// After the operating system refused to create the pending stage's
    /// process.
    pub open spec fn spawn_failed(self, cause: Seq<char>) -> LauncherView {
        match self.pending() {
            Some(i) => LauncherView {
                failure: Some(ErrorView::SpawnFailed { stage: i, cause }),
                ..self
            },
            None => self,
        }
    }

    /// After the pending stage was spawned but the copy for its stream
    /// `direction` could not be started: the copies before that one run,
    /// the stage has a process, and nothing more is launched. A report
    /// about a stream that the executor does not own changes nothing.
    pub open spec fn drain_failed(self, direction: Direction, cause: Seq<char>) -> LauncherView {
        match self.pending() {
            Some(i) => if owns(self.plan()[i as int], direction) {
                LauncherView {
                    launched: i + 1,
                    started: self.started + drains_before(
                        self.plan()[i as int],
                        i as usize,
                        direction,
                    ),
                    failure: Some(ErrorView::IoFailure { stage: i, direction, cause }),
                    ..self
                }
            } else {
                self
            },
            None => self,
        }
    }

    /// The handle on what was launched.
    pub open spec fn handle(self) -> HandleView {
        HandleView {
            children: self.launched,
            drains: self.started,
            failure: self.failure,
            exits: Seq::empty(),
            joined: Seq::empty(),
        }
    }
}

/// What a handle asks its driver to do next.
#[derive(Clone, Copy, Debug, PartialEq, Eq, Structural)]
pub enum Pending {
    /// Wait on the process of this stage and report its exit status.
    Child(usize),
    /// Join the thread of this copy and report how the copy ended.
    Drain(Drain),
    /// Every child was waited on and every copy joined.
    Nothing,
}

/// The mathematical value of a [`Handle`].
pub struct HandleView {
    /// How many stages have a process to wait on: stages `0..children`.
    pub children: nat,
    /// The background copies to join.
    pub drains: Seq<Drain>,
    /// The failure that stopped the launch, if one did.
    pub failure: Option<ErrorView>,
    /// The exit statuses reported so far: those of stages `0..exits.len()`.
    pub exits: Seq<i32>,
    /// The copies joined so far: the first `joined.len()` of `drains`.
    pub joined: Seq<JoinedView>,
}

impl HandleView {
    /// Children are waited on in ascending order, then copies are joined in
    /// the order in which they were started; every copy serves a stage that
    /// has a process.
    pub open spec fn wf(self) -> bool {
        &&& self.children <= usize::MAX
        &&& self.exits.len() <= self.children
        &&& self.joined.len() <= self.drains.len()
        &&& self.joined.len() > 0 ==> self.exits.len() == self.children
        &&& forall|j: int|
            0 <= j < self.joined.len() ==> (#[trigger] self.joined[j]).drain == self.drains[j]
        &&& forall|j: int|
            0 <= j < self.drains.len() ==> (#[trigger] self.drains[j]).stage < self.children
    }

    /// What is to be done next.
    pub open spec fn pending(self) -> Pending {
        if self.exits.len() < self.children {
            Pending::Child(self.exits.len() as usize)
        } else if self.joined.len() < self.drains.len() {
            Pending::Drain(self.drains[self.joined.len() as int])
        } else {
            Pending::Nothing
        }
    }

    /// After the pending child exited with `code`. Where no child is
    /// pending the report changes nothing.
    pub open spec fn exited(self, code: i32) -> HandleView {
        if self.pending() is Child {
            HandleView { exits: self.exits.push(code), ..self }
        } else {
            self
        }
    }

    /// After the pending copy ended with `report`. Where no copy is pending
    /// the report changes nothing.
    pub open spec fn joined(self, report: ReportView) -> HandleView {
        match self.pending() {
            Pending::Drain(drain) => HandleView {
                joined: self.joined.push(JoinedView { drain, report }),
                ..self
            },
            _ => self,
        }
    }

    /// The aggregate of everything reported.
    pub open spec fn outcome(self) -> OutcomeView {
        OutcomeView { failure: self.failure, exits: self.exits, drained: self.joined }
    }
}

/// Every copy among the drains of the first `n` stages serves one of them.
pub proof fn lemma_drains_upto_stage(plan: Seq<StagePlan>, n: nat)
    requires
        n <= usize::MAX,
    ensures
        forall|j: int|
            0 <= j < drains_upto(plan, n).len() ==> (#[trigger] drains_upto(plan, n)[j]).stage < n,
    decreases n,
{
    if n > 0 {
        lemma_drains_upto_stage(plan, (n - 1) as nat);
    }
}

/// The first half of a run: starting the stages, strictly in order.
#[derive(Debug)]
pub struct Launcher {
    pipeline: Pipeline,
    request: Request,
    plan: Vec<StagePlan>,
    launched: usize,
    started: Vec<Drain>,
    failure: Option<Error>,
}

impl View for Launcher {
    type V = LauncherView;

    closed spec fn view(&self) -> LauncherView {
        LauncherView {
            pipeline: self.pipeline@,
            request: self.request,
            launched: self.launched as nat,
            started: self.started@,
            failure: failure_view(self.failure),
        }
    }
}

impl Pipeline {
    /// The launcher of this pipeline under `request`, with nothing started.
    pub fn launch(self, request: Request) -> (launcher: Launcher)
        ensures
            launcher@ == LauncherView::start(self@, request),
            launcher@.wf(),
    {
        let pipeline = match request.stdin {
            InputRequest::Reader => self.with_input(Input::Reader),
            _ => self,
        };
        proof {
            use_type_invariant(&pipeline);
        }
        let plan = pipeline.plan(request);
        Launcher { pipeline, request, plan, launched: 0, started: Vec::new(), failure: None }
    }
}

impl Cmd {
    /// The launcher of this command alone under `request`.
    pub fn launch(self, request: Request) -> (launcher: Launcher)
        ensures
            launcher@ == LauncherView::start(PipelineView::single(self@), request),
            launcher@.wf(),
    {
        Pipeline::new(self).launch(request)
    }
}

impl Launcher {
    /// What holds of every value of this type.
    #[verifier::type_invariant]
    pub closed spec fn inv(self) -> bool {
        &&& self@.wf()
        &&& self.plan@ == self@.plan()
    }

    /// The stage to launch next; none once all stages are launched or a
    /// failure has stopped the launch.
    pub fn pending(&self) -> (stage: Option<usize>)
        ensures
            self@.wf(),
            match stage {
                Some(i) => self@.pending() == Some(i as nat),
                None => self@.pending() is None,
            },
    {
        proof {
            use_type_invariant(self);
        }
        if self.failure.is_none() && self.launched < self.pipeline.len() {
            Some(self.launched)
        } else {
            None
        }
    }

    /// Records that the pending stage was spawned and its copies started.
    pub fn launched(self) -> (next: Launcher)
        ensures
            next@ == self@.launched_ok(),
            next@.wf(),
    {
        proof {
            use_type_invariant(&self);
        }
        match self.pending() {
            Some(i) => {
                let mut started = self.started;
                let mut more = self.plan[i].drains(i);
                started.append(&mut more);
                proof {
                    lemma_drains_upto_stage(self@.plan(), (i + 1) as nat);
                }
                Launcher {
                    pipeline: self.pipeline,
                    request: self.request,
                    plan: self.plan,
                    launched: i + 1,
                    started,
                    failure: self.failure,
                }
            },
            None => self,
        }
    }

    /// Records that the operating system refused to create the pending
    /// stage's process: nothing more is launched.
    pub fn spawn_failed(self, cause: String) -> (next: Launcher)
        ensures
            next@ == self@.spawn_failed(cause@),
            next@.wf(),
    {
        proof {
            use_type_invariant(&self);
        }
        match self.pending() {
            Some(i) => Launcher {
                pipeline: self.pipeline,
                request: self.request,
                plan: self.plan,
                launched: self.launched,
                started: self.started,
                failure: Some(Error::SpawnFailed { stage: i, cause }),
            },
            None => self,
        }
    }

    /// Records that the pending stage was spawned but the copy for its
    /// stream `direction` could not be started: nothing more is launched.
    pub fn drain_failed(self, direction: Direction, cause: String) -> (next: Launcher)
        ensures
            next@ == self@.drain_failed(direction, cause@),
            next@.wf(),
    {
        proof {
            use_type_invariant(&self);
        }
        match self.pending() {
            Some(i) => {
                let plan = self.plan[i];
                if plan.owns(direction) {
                    let mut started = self.started;
                    let ghost before = started@;
                    let reaches_stdout = match direction {
                        Direction::Stdin => false,
                        _ => true,
                    };
                    let reaches_stderr = match direction {
                        Direction::Stderr => true,
                        _ => false,
                    };
                    if reaches_stdout && plan.owns(Direction::Stdin) {
                        started.push(Drain { stage: i, direction: Direction::Stdin });
                    }
                    if reaches_stderr && plan.owns(Direction::Stdout) {
                        started.push(Drain { stage: i, direction: Direction::Stdout });
                    }
                    assert(started@ =~= before + drains_before(plan, i, direction));
                    Launcher {
                        pipeline: self.pipeline,
                        request: self.request,
                        plan: self.plan,
                        launched: i + 1,
                        started,
                        failure: Some(Error::IoFailure { stage: i, direction, cause }),
                    }
                } else {
                    self
                }
            },
            None => self,
        }
    }

    /// The graph being launched.
    pub fn pipeline(&self) -> (pipeline: &Pipeline)
        ensures
            pipeline@ == self@.pipeline,
            self@.wf(),
    {
        proof {
            use_type_invariant(self);
        }
        &self.pipeline
    }

    /// The disposition of every stage.
    pub fn plan(&self) -> (plan: &Vec<StagePlan>)
        ensures
            plan@ == self@.plan(),
    {
        proof {
            use_type_invariant(self);
        }
        &self.plan
    }

    /// The disposition of stage `i`, if there is such a stage.
    pub fn route(&self, i: usize) -> (plan: Option<StagePlan>)
        ensures
            plan == (if i < self@.pipeline.stages.len() {
                Some(self@.plan()[i as int])
            } else {
                None
            }),
    {
        proof {
            use_type_invariant(self);
        }
        if i < self.plan.len() {
            Some(self.plan[i])
        } else {
            None
        }
    }

    /// The line to echo before stage `i` is spawned, if it is to be echoed.
    pub fn echo_line(&self, i: usize) -> (line: Option<String>)
        ensures
            line is Some <==> i < self@.pipeline.stages.len() && self@.pipeline.echoes(i as int),
            line is Some ==> line->0@ == self@.pipeline.stages[i as int].line(),
    {
        if self.pipeline.echoes(i) {
            match self.pipeline.stage(i) {
                Some(cmd) => Some(cmd.command_line()),
                None => None,
            }
        } else {
            None
        }
    }

    /// The streams that the caller asked to drive itself.
    pub fn endpoints(&self) -> (endpoints: Endpoints)
        ensures
            endpoints == self@.request.hands_out(),
    {
        self.request.endpoints()
    }

    /// The failure that stopped the launch, if one did.
    pub fn failure(&self) -> (failure: Option<&Error>)
        ensures
            failure_view_ref(failure) == self@.failure,
    {
        self.failure.as_ref()
    }

    /// Ends the launch and gives the handle on what was launched. The
    /// handle covers the stages that have a process and the copies that
    /// were started, and carries the failure if one stopped the launch.
    pub fn into_handle(self) -> (handle: Handle)
        ensures
            handle@ == self@.handle(),
            handle@.wf(),
    {
        proof {
            use_type_invariant(&self);
        }
        let handle = Handle {
            children: self.launched,
            drains: self.started,
            failure: self.failure,
            exits: Vec::new(),
            joined: Vec::new(),
        };
        assert(handle@.joined =~= Seq::empty());
        handle
    }
}

/// The value of an optional reference to an error.
pub open spec fn failure_view_ref(failure: Option<&Error>) -> Option<ErrorView> {
    match failure {
        Some(e) => Some(e@),
        None => None,
    }
}

/// The second half of a run: waiting on every child and joining every copy.
#[derive(Debug)]
pub struct Handle {
    children: usize,
    drains: Vec<Drain>,
    failure: Option<Error>,
    exits: Vec<i32>,
    joined: Vec<Joined>,
}

impl View for Handle {
    type V = HandleView;

    closed spec fn view(&self) -> HandleView {
        HandleView {
            children: self.children as nat,
            drains: self.drains@,
            failure: failure_view(self.failure),
            exits: self.exits@,
            joined: joined_views(self.joined@),
        }
    }
}

/// What `wait` gives: the aggregate once nothing is pending, the handle
/// itself as long as something is.
#[derive(Debug)]
pub enum Waited {
    /// Everything came to rest.
    Finished(Outcome),
    /// Something is still pending; the handle goes on.
    Running(Handle),
}

impl Handle {
    /// What holds of every value of this type.
    #[verifier::type_invariant]
    pub open spec fn inv(self) -> bool {
        self@.wf()
    }

    /// What is to be done next: children first, in ascending order, then
    /// the copies in the order in which they were started.
    pub fn pending(&self) -> (pending: Pending)
        ensures
            pending == self@.pending(),
            self@.wf(),
    {
        proof {
            use_type_invariant(self);
        }
        if self.exits.len() < self.children {
            Pending::Child(self.exits.len())
        } else if self.joined.len() < self.drains.len() {
            Pending::Drain(self.drains[self.joined.len()])
        } else {
            Pending::Nothing
        }
    }

    /// Records the exit status of the pending child.
    pub fn exited(self, code: i32) -> (next: Handle)
        ensures
            next@ == self@.exited(code),
            next@.wf(),
    {
        proof {
            use_type_invariant(&self);
        }
        if self.exits.len() < self.children {
            let mut exits = self.exits;
            exits.push(code);
            Handle {
                children: self.children,
                drains: self.drains,
                failure: self.failure,
                exits,
                joined: self.joined,
            }
        } else {
            self
        }
    }

    /// Records how the pending copy ended.
    pub fn joined(self, report: Report) -> (next: Handle)
        ensures
            next@ == self@.joined(report@),
            next@.wf(),
    {
        proof {
            use_type_invariant(&self);
        }
        if self.exits.len() >= self.children && self.joined.len() < self.drains.len() {
            let drain = self.drains[self.joined.len()];
            let mut joined = self.joined;
            let ghost before = joined_views(joined@);
            joined.push(Joined { drain, report });
            assert(joined_views(joined@) =~= before.push(JoinedView { drain, report: report@ }));
            Handle {
                children: self.children,
                drains: self.drains,
                failure: self.failure,
                exits: self.exits,
                joined,
            }
        } else {
            self
        }
    }

    /// The failure that stopped the launch, if one did.
    pub fn failure(&self) -> (failure: Option<&Error>)
        ensures
            failure_view_ref(failure) == self@.failure,
    {
        self.failure.as_ref()
    }

    /// Ends the run. Once every child was waited on and every copy joined,
    /// the handle is used up and the aggregate of what was reported comes
    /// back; as long as something is pending the handle comes back as it is.
    pub fn wait(self) -> (waited: Waited)
        ensures
            match waited {
                Waited::Finished(outcome) => {
                    &&& self@.pending() is Nothing
                    &&& outcome@ == self@.outcome()
                    &&& outcome@.wf()
                },
                Waited::Running(handle) => {
                    &&& !(self@.pending() is Nothing)
                    &&& handle@ == self@
                },
            },
    {
        proof {
            use_type_invariant(&self);
        }
        match self.pending() {
            Pending::Nothing => {
                assert forall|j: int| 0 <= j < self@.joined.len() implies (
                #[trigger] self@.joined[j]).drain.stage < self@.exits.len() by {
                    assert(self@.joined[j].drain == self@.drains[j]);
                }
                Waited::Finished(Outcome::assemble(self.failure, self.exits, self.joined))
            },
            _ => Waited::Running(self),
        }
    }
}

} // verus!
