//! What holds of every run of a pipeline, stated over whole runs: a run is
//! the launcher started for a graph and a request, the replies that its
//! driver gave while launching, and the reports that it gave while waiting.

use crate::command::CmdView;
use crate::command::InputView;
use crate::error::Direction;
use crate::error::ErrorView;
use crate::executor::lemma_drains_upto_stage;
use crate::executor::HandleView;
use crate::executor::LauncherView;
use crate::executor::Pending;
use crate::outcome::JoinedView;
use crate::outcome::OutcomeView;
use crate::outcome::ReportView;
use crate::pipeline::PipelineView;
use crate::plan::drains_upto;
use crate::plan::owns;
use crate::plan::Drain;
use crate::plan::InputRequest;
use crate::plan::OutputRequest;
use crate::plan::OutputRoute;
use crate::plan::Request;
use crate::plan::StdinRoute;
use vstd::prelude::*;
use vstd::utf8::decode_utf8;
use vstd::utf8::encode_utf8;
use vstd::utf8::encode_utf8_decode_utf8;
use vstd::utf8::encode_utf8_valid_utf8;
use vstd::utf8::valid_utf8;

verus! {

/// What a driver tells the launcher about the pending stage.
pub enum LaunchReply {
    /// The stage was spawned and its copies were started.
    Launched,
    /// The operating system refused to create the process.
    SpawnFailed(Seq<char>),
    /// The process was created, but the copy for one stream did not start.
    DrainFailed(Direction, Seq<char>),
}

/// What a driver tells the handle about the pending child or copy.
pub enum WaitReply {
    /// The pending child exited with this status.
    Exited(i32),
    /// The pending copy ended in this way.
    Joined(ReportView),
}

/// The launcher after one reply.
pub open spec fn replied(l: LauncherView, reply: LaunchReply) -> LauncherView {
    match reply {
        LaunchReply::Launched => l.launched_ok(),
        LaunchReply::SpawnFailed(cause) => l.spawn_failed(cause),
        LaunchReply::DrainFailed(direction, cause) => l.drain_failed(direction, cause),
    }
}

/// The launcher after a sequence of replies.
pub open spec fn launch_all(l: LauncherView, replies: Seq<LaunchReply>) -> LauncherView
    decreases replies.len(),
{
    if replies.len() == 0 {
        l
    } else {
        replied(launch_all(l, replies.drop_last()), replies.last())
    }
}

/// The handle after one report.
pub open spec fn reported(h: HandleView, reply: WaitReply) -> HandleView {
    match reply {
        WaitReply::Exited(code) => h.exited(code),
        WaitReply::Joined(report) => h.joined(report),
    }
}

/// The handle after a sequence of reports.
pub open spec fn settle(h: HandleView, reports: Seq<WaitReply>) -> HandleView
    decreases reports.len(),
{
    if reports.len() == 0 {
        h
    } else {
        reported(settle(h, reports.drop_last()), reports.last())
    }
}

/// The handle at the end of a whole run.
pub open spec fn run(
    pipeline: PipelineView,
    request: Request,
    replies: Seq<LaunchReply>,
    reports: Seq<WaitReply>,
) -> HandleView {
    settle(launch_all(LauncherView::start(pipeline, request), replies).handle(), reports)
}

/// `n` times the reply that a stage was launched.
pub open spec fn all_launched(n: nat) -> Seq<LaunchReply> {
    Seq::new(n, |i: int| LaunchReply::Launched)
}

/// A launcher is started in a valid state, and every reply keeps it valid.
pub proof fn lemma_launcher_stays_valid(l: LauncherView, reply: LaunchReply)
    requires
        l.wf(),
    ensures
        replied(l, reply).wf(),
        replied(l, reply).pipeline == l.pipeline,
        replied(l, reply).request == l.request,
        l.pending() is None ==> replied(l, reply) == l,
{
    if l.pending() is Some {
        let i = l.pending()->0;
        lemma_drains_upto_stage(l.plan(), i + 1);
        let after = replied(l, reply);
        match reply {
            LaunchReply::DrainFailed(direction, cause) => {
                assert forall|j: int| 0 <= j < after.started.len() implies (
                #[trigger] after.started[j]).stage < after.launched by {
                    if j < l.started.len() {
                        assert(after.started[j] == l.started[j]);
                    }
                }
            },
            _ => {},
        }
    }
}

/// The launcher that a valid pipeline is started with is valid.
pub proof fn lemma_start_is_valid(pipeline: PipelineView, request: Request)
    requires
        pipeline.wf(),
    ensures
        LauncherView::start(pipeline, request).wf(),
        LauncherView::start(pipeline, request).pipeline.stages.len() == pipeline.stages.len(),
        LauncherView::start(pipeline, request).pipeline.links == pipeline.links,
        LauncherView::start(pipeline, request).pending() == Some(0nat),
{
    let l = LauncherView::start(pipeline, request);
    assert forall|i: int| 0 <= i < l.pipeline.stages.len() implies (
    #[trigger] l.pipeline.stages[i]).wf() by {
        assert(pipeline.stages[i].wf());
    }
    assert forall|i: int| 1 <= i < l.pipeline.stages.len() implies (
    #[trigger] l.pipeline.stages[i]).input is Unset by {
        assert(pipeline.stages[i].input is Unset);
    }
}

/// Any sequence of replies leaves a valid launcher valid, on the same
/// graph and request.
pub proof fn lemma_launch_all_valid(l: LauncherView, replies: Seq<LaunchReply>)
    requires
        l.wf(),
    ensures
        launch_all(l, replies).wf(),
        launch_all(l, replies).pipeline == l.pipeline,
        launch_all(l, replies).request == l.request,
        l.pending() is None ==> launch_all(l, replies) == l,
    decreases replies.len(),
{
    if replies.len() > 0 {
        lemma_launch_all_valid(l, replies.drop_last());
        lemma_launcher_stays_valid(launch_all(l, replies.drop_last()), replies.last());
    }
}

/// Replies given one after the other are the replies given in one go.
pub proof fn lemma_launch_all_split(l: LauncherView, first: Seq<LaunchReply>, rest: Seq<LaunchReply>)
    ensures
        launch_all(l, first + rest) == launch_all(launch_all(l, first), rest),
    decreases rest.len(),
{
    if rest.len() == 0 {
        assert(first + rest =~= first);
    } else {
        assert((first + rest).drop_last() =~= first + rest.drop_last());
        lemma_launch_all_split(l, first, rest.drop_last());
    }
}

/// Stages are spawned strictly in order: after `k` stages were launched
/// without failure, exactly the stages before `k` have a process, exactly
/// their copies run, and stage `k` is the next, if there is one.
pub proof fn law_launch_in_order(pipeline: PipelineView, request: Request, k: nat)
    requires
        pipeline.wf(),
        k <= pipeline.stages.len(),
    ensures
        ({
            let l = launch_all(LauncherView::start(pipeline, request), all_launched(k));
            &&& l.wf()
            &&& l.launched == k
            &&& l.failure is None
            &&& l.started == drains_upto(l.plan(), k)
            &&& l.pending() == (if k < pipeline.stages.len() {
                Some(k)
            } else {
                None
            })
        }),
    decreases k,
{
    let start = LauncherView::start(pipeline, request);
    lemma_start_is_valid(pipeline, request);
    if k > 0 {
        law_launch_in_order(pipeline, request, (k - 1) as nat);
        assert(all_launched(k).drop_last() =~= all_launched((k - 1) as nat));
        lemma_launch_all_valid(start, all_launched((k - 1) as nat));
        lemma_launcher_stays_valid(
            launch_all(start, all_launched((k - 1) as nat)),
            LaunchReply::Launched,
        );
    }
}

/// No report changes what the handle covers or what stopped the launch.
pub proof fn lemma_settle_keeps(h: HandleView, reports: Seq<WaitReply>)
    requires
        h.wf(),
    ensures
        settle(h, reports).wf(),
        settle(h, reports).children == h.children,
        settle(h, reports).drains == h.drains,
        settle(h, reports).failure == h.failure,
        h.exits.len() <= settle(h, reports).exits.len(),
        h.joined.len() <= settle(h, reports).joined.len(),
    decreases reports.len(),
{
    if reports.len() > 0 {
        lemma_settle_keeps(h, reports.drop_last());
        let before = settle(h, reports.drop_last());
        let after = reported(before, reports.last());
        match reports.last() {
            WaitReply::Exited(code) => {},
            WaitReply::Joined(report) => {
                if before.pending() is Drain {
                    assert forall|j: int| 0 <= j < after.joined.len() implies (
                    #[trigger] after.joined[j]).drain == after.drains[j] by {
                        if j < before.joined.len() {
                            assert(after.joined[j] == before.joined[j]);
                        }
                    }
                }
            },
        }
    }
}

/// Nothing is left behind: a handle on which nothing is pending has an
/// exit status for every stage that has a process, and a report for every
/// copy that was started.
pub proof fn law_nothing_leaks(h: HandleView)
    requires
        h.wf(),
        h.pending() is Nothing,
    ensures
        h.exits.len() == h.children,
        h.joined.len() == h.drains.len(),
        forall|j: int| 0 <= j < h.drains.len() ==> (#[trigger] h.joined[j]).drain == h.drains[j],
        h.outcome().wf(),
{
    assert forall|j: int| 0 <= j < h.outcome().drained.len() implies (
    #[trigger] h.outcome().drained[j]).drain.stage < h.outcome().exits.len() by {
        assert(h.joined[j].drain == h.drains[j]);
    }
}

/// A stage that cannot be spawned ends the launch. Whatever the graph, the
/// request and the stage `k`: no stage behind `k` is spawned, not even when
/// the driver goes on replying; the stages before `k` have their processes
/// and are the children that the handle waits on; and whatever those
/// children and their copies report, the run fails as a spawn failure of
/// stage `k`.
pub proof fn law_spawn_failure(
    pipeline: PipelineView,
    request: Request,
    k: nat,
    cause: Seq<char>,
    later: Seq<LaunchReply>,
    reports: Seq<WaitReply>,
)
    requires
        pipeline.wf(),
        k < pipeline.stages.len(),
    ensures
        ({
            let replies = all_launched(k).push(LaunchReply::SpawnFailed(cause)) + later;
            let l = launch_all(LauncherView::start(pipeline, request), replies);
            let h = run(pipeline, request, replies, reports);
            &&& l.pending() is None
            &&& l.launched == k
            &&& l.started == drains_upto(l.plan(), k)
            &&& h.children == k
            &&& h.drains == drains_upto(l.plan(), k)
            &&& h.outcome().verdict() == Some(ErrorView::SpawnFailed { stage: k, cause })
            &&& h.pending() is Nothing ==> h.exits.len() == k && h.joined.len() == h.drains.len()
        }),
{
    let start = LauncherView::start(pipeline, request);
    let ok = all_launched(k);
    let failing = ok.push(LaunchReply::SpawnFailed(cause));
    law_launch_in_order(pipeline, request, k);
    assert(failing.drop_last() =~= ok);
    let failed = launch_all(start, failing);
    assert(failed == launch_all(start, ok).spawn_failed(cause));
    lemma_launcher_stays_valid(launch_all(start, ok), LaunchReply::SpawnFailed(cause));
    lemma_launch_all_split(start, failing, later);
    lemma_launch_all_valid(failed, later);
    lemma_settle_keeps(failed.handle(), reports);
}

/// A single stage whose program cannot be spawned: the run fails as a spawn
/// failure of stage 0, no process exists, no copy was started, and nothing
/// is pending on the handle from the first moment on.
pub proof fn law_single_stage_spawn_failure(
    cmd: CmdView,
    request: Request,
    cause: Seq<char>,
    reports: Seq<WaitReply>,
)
    requires
        cmd.wf(),
    ensures
        ({
            let replies = seq![LaunchReply::SpawnFailed(cause)];
            let h = run(PipelineView::single(cmd), request, replies, reports);
            &&& h.children == 0
            &&& h.drains.len() == 0
            &&& h.pending() is Nothing
            &&& h.outcome().exits.len() == 0
            &&& h.outcome().verdict() == Some(ErrorView::SpawnFailed { stage: 0, cause })
        }),
{
    let pipeline = PipelineView::single(cmd);
    assert(pipeline.wf());
    law_spawn_failure(pipeline, request, 0, cause, Seq::empty(), reports);
    assert(all_launched(0).push(LaunchReply::SpawnFailed(cause)) + Seq::<LaunchReply>::empty()
        =~= seq![LaunchReply::SpawnFailed(cause)]);
    let h = run(pipeline, request, seq![LaunchReply::SpawnFailed(cause)], reports);
    lemma_settle_keeps(
        launch_all(
            LauncherView::start(pipeline, request),
            seq![LaunchReply::SpawnFailed(cause)],
        ).handle(),
        reports,
    );
}

/// A copy that cannot be started ends the launch. Where the copy for the
/// stream `direction` of stage `k` fails to start, stage `k` has a process
/// that the handle waits on, no stage behind `k` is spawned, and the run
/// fails as an I/O failure of stage `k` in that direction, whatever is
/// reported afterwards. For an input source that cannot be read this is
/// stage 0: the second stage is never spawned.
pub proof fn law_drain_failure(
    pipeline: PipelineView,
    request: Request,
    k: nat,
    direction: Direction,
    cause: Seq<char>,
    later: Seq<LaunchReply>,
    reports: Seq<WaitReply>,
)
    requires
        pipeline.wf(),
        k < pipeline.stages.len(),
        owns(LauncherView::start(pipeline, request).plan()[k as int], direction),
    ensures
        ({
            let replies = all_launched(k).push(LaunchReply::DrainFailed(direction, cause)) + later;
            let l = launch_all(LauncherView::start(pipeline, request), replies);
            let h = run(pipeline, request, replies, reports);
            &&& l.pending() is None
            &&& l.launched == k + 1
            &&& h.children == k + 1
            &&& h.outcome().verdict() == Some(ErrorView::IoFailure { stage: k, direction, cause })
            &&& direction == Direction::Stdin ==> k == 0
        }),
{
    let start = LauncherView::start(pipeline, request);
    let ok = all_launched(k);
    let failing = ok.push(LaunchReply::DrainFailed(direction, cause));
    law_launch_in_order(pipeline, request, k);
    lemma_start_is_valid(pipeline, request);
    lemma_launch_all_valid(start, ok);
    assert(failing.drop_last() =~= ok);
    let failed = launch_all(start, failing);
    assert(failed == launch_all(start, ok).drain_failed(direction, cause));
    lemma_launcher_stays_valid(launch_all(start, ok), LaunchReply::DrainFailed(direction, cause));
    lemma_launch_all_split(start, failing, later);
    lemma_launch_all_valid(failed, later);
    lemma_settle_keeps(failed.handle(), reports);
}

/// The round trip. For every sequence of bytes, zero bytes and invalid
/// encodings included: a stage that is given the bytes as its input source
/// is fed exactly those bytes, and where the stage passes on what it is
/// fed and all ends well, the captured output is exactly those bytes.
pub proof fn law_round_trip(cmd: CmdView, owned: bool, bytes: Seq<u8>)
    requires
        cmd.wf(),
    ensures
        ({
            let source = if owned {
                InputView::Owned(bytes)
            } else {
                InputView::Bytes(bytes)
            };
            let pipeline = PipelineView::single(cmd.with_input(source));
            let request = Request {
                stdin: InputRequest::Default,
                stdout: OutputRequest::Capture,
                stderr: OutputRequest::Inherit,
            };
            let start = LauncherView::start(pipeline, request);
            let feed = Drain { stage: 0, direction: Direction::Stdin };
            let capture = Drain { stage: 0, direction: Direction::Stdout };
            let h = run(
                pipeline,
                request,
                seq![LaunchReply::Launched],
                seq![
                    WaitReply::Exited(0),
                    WaitReply::Joined(ReportView::Done(Seq::empty())),
                    WaitReply::Joined(ReportView::Done(bytes)),
                ],
            );
            &&& start.plan()[0].stdin == StdinRoute::Feed
            &&& start.plan()[0].stdout == OutputRoute::Capture
            &&& start.pipeline.input().payload() == Some(bytes)
            &&& h.drains == seq![feed, capture]
            &&& h.pending() is Nothing
            &&& h.outcome().verdict() is None
            &&& h.outcome().captured(Direction::Stdout) == bytes
        }),
{
    let source = if owned {
        InputView::Owned(bytes)
    } else {
        InputView::Bytes(bytes)
    };
    let pipeline = PipelineView::single(cmd.with_input(source));
    let request = Request {
        stdin: InputRequest::Default,
        stdout: OutputRequest::Capture,
        stderr: OutputRequest::Inherit,
    };
    let start = LauncherView::start(pipeline, request);
    let feed = Drain { stage: 0, direction: Direction::Stdin };
    let capture = Drain { stage: 0, direction: Direction::Stdout };
    assert(pipeline.wf());
    law_launch_in_order(pipeline, request, 1);
    assert(all_launched(1) =~= seq![LaunchReply::Launched]);
    let l = launch_all(start, seq![LaunchReply::Launched]);
    lemma_start_is_valid(pipeline, request);
    lemma_launch_all_valid(start, seq![LaunchReply::Launched]);
    reveal_with_fuel(drains_upto, 3);
    let h0 = l.handle();
    let r1 = seq![WaitReply::Exited(0)];
    let r2 = r1.push(WaitReply::Joined(ReportView::Done(Seq::empty())));
    let r3 = r2.push(WaitReply::Joined(ReportView::Done(bytes)));
    assert(r3 =~= seq![
        WaitReply::Exited(0),
        WaitReply::Joined(ReportView::Done(Seq::empty())),
        WaitReply::Joined(ReportView::Done(bytes)),
    ]);
    assert(r1.drop_last() =~= Seq::empty());
    assert(r2.drop_last() =~= r1);
    assert(r3.drop_last() =~= r2);
    assert(settle(h0, Seq::empty()) == h0);
    let h1 = settle(h0, r1);
    assert(h1 == h0.exited(0));
    let h2 = settle(h0, r2);
    assert(h2 == h1.joined(ReportView::Done(Seq::empty())));
    let h3 = settle(h0, r3);
    assert(h3 == h2.joined(ReportView::Done(bytes)));
    assert(h3.joined =~= seq![
        JoinedView { drain: feed, report: ReportView::Done(Seq::empty()) },
        JoinedView { drain: capture, report: ReportView::Done(bytes) },
    ]);
    reveal_with_fuel(OutcomeView::failed_drain, 4);
    reveal_with_fuel(OutcomeView::first_failure, 3);
    reveal_with_fuel(OutcomeView::capture_index, 4);
}

/// Text goes round as well. The bytes that a text is fed as are valid
/// UTF-8 and decode to that very text; so where a stage passes them on
/// unchanged, the output as text is the text that went in.
pub proof fn law_text_round_trip(text: Seq<char>)
    ensures
        valid_utf8(encode_utf8(text)),
        decode_utf8(encode_utf8(text)) == text,
        InputView::Bytes(encode_utf8(text)).payload() == Some(encode_utf8(text)),
{
    encode_utf8_valid_utf8(text);
    encode_utf8_decode_utf8(text);
}

/// Running twice gives the same. The end of a run is a function of the
/// graph, the request, and what the driver replied and reported: two runs
/// that agree in these agree in their result and in what they captured.
pub proof fn law_same_run_same_result(
    pipeline: PipelineView,
    request: Request,
    replies: Seq<LaunchReply>,
    reports: Seq<WaitReply>,
    again_replies: Seq<LaunchReply>,
    again_reports: Seq<WaitReply>,
)
    requires
        replies =~= again_replies,
        reports =~= again_reports,
    ensures
        run(pipeline, request, replies, reports).outcome().verdict() == run(
            pipeline,
            request,
            again_replies,
            again_reports,
        ).outcome().verdict(),
        forall|direction: Direction|
            run(pipeline, request, replies, reports).outcome().captured(direction) == run(
                pipeline,
                request,
                again_replies,
                again_reports,
            ).outcome().captured(direction),
{
}

/// Waiting goes child by child in ascending order: on a handle fresh from
/// the launcher, after the first `i` exit statuses were reported the child
/// of stage `i` is pending, until every child has been waited on.
pub proof fn law_children_in_order(h: HandleView, codes: Seq<i32>)
    requires
        h.wf(),
        h.exits.len() == 0,
        h.joined.len() == 0,
        codes.len() <= h.children,
    ensures
        ({
            let after = settle(h, Seq::new(codes.len(), |i: int| WaitReply::Exited(codes[i])));
            &&& after.exits == codes
            &&& after.joined.len() == 0
            &&& codes.len() < h.children ==> after.pending() == Pending::Child(codes.len() as usize)
        }),
    decreases codes.len(),
{
    let reports = Seq::new(codes.len(), |i: int| WaitReply::Exited(codes[i]));
    if codes.len() > 0 {
        let fewer = codes.drop_last();
        law_children_in_order(h, fewer);
        assert(reports.drop_last() =~= Seq::new(fewer.len(), |i: int| WaitReply::Exited(fewer[i])));
        lemma_settle_keeps(h, reports.drop_last());
    } else {
        assert(settle(h, reports).exits =~= codes);
    }
    lemma_settle_keeps(h, reports);
}

} // verus!
