//! What is known once a pipeline has come to rest, and the reduction of
//! it to one result: success, or the failure of the lowest stage that failed.

use crate::error::Direction;
use crate::error::Error;
use crate::error::ErrorView;
use crate::plan::Drain;
use crate::text::decode_lossy;
use crate::text::lossy_text;
use vstd::prelude::*;
use vstd::utf8::decode_utf8;
use vstd::utf8::valid_utf8;

verus! {

/// The exit status recorded for a stage that left none of its own: one
/// that a signal ended, or that could not be waited on.
pub const NO_STATUS: i32 = -1;

/// The exit status to record for a stage, given the status that the
/// operating system has for it, if it has one.
pub fn exit_status(code: Option<i32>) -> (status: i32)
    ensures
        status == (match code {
            Some(c) => c,
            None => NO_STATUS,
        }),
{
    match code {
        Some(c) => c,
        None => NO_STATUS,
    }
}

/// How one background copy ended.
#[derive(Debug, PartialEq, Eq)]
pub enum Report {
    /// The copy ran to the end of its stream. A capture into memory holds
    /// the bytes that it collected; any other copy holds none.
    Done(Vec<u8>),
    /// The copy stopped on an I/O error.
    Failed(String),
    /// The thread that ran the copy panicked.
    Panicked,
}

/// The mathematical value of a [`Report`].
pub enum ReportView {
    Done(Seq<u8>),
    Failed(Seq<char>),
    Panicked,
}

/// The cause that is reported for a copy whose thread panicked.
pub open spec fn panic_cause() -> Seq<char> {
    "drain thread panicked"@
}

impl ReportView {
    /// Whether the copy did not run to its end.
    pub open spec fn failed(self) -> bool {
        !(self is Done)
    }

    /// Why the copy did not run to its end.
    pub open spec fn cause(self) -> Seq<char> {
        match self {
            ReportView::Failed(cause) => cause,
            _ => panic_cause(),
        }
    }

    /// The bytes that the copy collected.
    pub open spec fn bytes(self) -> Seq<u8> {
        match self {
            ReportView::Done(bytes) => bytes,
            _ => Seq::empty(),
        }
    }
}

impl View for Report {
    type V = ReportView;

    open spec fn view(&self) -> ReportView {
        match self {
            Report::Done(bytes) => ReportView::Done(bytes@),
            Report::Failed(cause) => ReportView::Failed(cause@),
            Report::Panicked => ReportView::Panicked,
        }
    }
}

/// A background copy together with the way it ended.
#[derive(Debug)]
pub struct Joined {
    pub drain: Drain,
    pub report: Report,
}

/// The mathematical value of a [`Joined`].
pub struct JoinedView {
    pub drain: Drain,
    pub report: ReportView,
}

impl View for Joined {
    type V = JoinedView;

    open spec fn view(&self) -> JoinedView {
        JoinedView { drain: self.drain, report: self.report@ }
    }
}

/// The values of a sequence of joined copies.
pub open spec fn joined_views(joined: Seq<Joined>) -> Seq<JoinedView> {
    Seq::new(joined.len(), |i: int| joined[i]@)
}

/// The mathematical value of an [`Outcome`].
pub struct OutcomeView {
    /// The failure that stopped the launch, if one did.
    pub failure: Option<ErrorView>,
    /// The exit status of every stage that was spawned, by stage.
    pub exits: Seq<i32>,
    /// Every background copy that was started, with the way it ended.
    pub drained: Seq<JoinedView>,
}

impl OutcomeView {
    /// Every copy served a stage that was spawned.
    pub open spec fn wf(self) -> bool {
        forall|j: int|
            0 <= j < self.drained.len() ==> (#[trigger] self.drained[j]).drain.stage
                < self.exits.len()
    }

    /// Whether the copy at position `j` served `stage` and failed.
    pub open spec fn failed_at(self, stage: int, j: int) -> bool {
        &&& 0 <= j < self.drained.len()
        &&& self.drained[j].drain.stage == stage
        &&& self.drained[j].report.failed()
    }

    /// The position of the first failed copy of `stage` at or behind `from`.
    pub open spec fn failed_drain(self, stage: int, from: int) -> Option<int>
        decreases self.drained.len() - from,
    {
        if from < 0 || from >= self.drained.len() {
            None
        } else if self.failed_at(stage, from) {
            Some(from)
        } else {
            self.failed_drain(stage, from + 1)
        }
    }

    /// The failure of `stage`, if it failed: that of its first failed copy,
    /// else its exit status where that is not zero.
    pub open spec fn stage_failure(self, stage: int) -> Option<ErrorView> {
        match self.failed_drain(stage, 0) {
            Some(j) => Some(
                ErrorView::IoFailure {
                    stage: stage as nat,
                    direction: self.drained[j].drain.direction,
                    cause: self.drained[j].report.cause(),
                },
            ),
            None => if self.exits[stage] != 0 {
                Some(ErrorView::NonZeroExit { stage: stage as nat, code: self.exits[stage] as int })
            } else {
                None
            },
        }
    }

    /// The failure of the lowest stage at or behind `from` that failed.
    pub open spec fn first_failure(self, from: int) -> Option<ErrorView>
        decreases self.exits.len() - from,
    {
        if from < 0 || from >= self.exits.len() {
            None
        } else if self.stage_failure(from) is Some {
            self.stage_failure(from)
        } else {
            self.first_failure(from + 1)
        }
    }

    /// The reduction: a failure of the launch is final; else the failure of
    /// the lowest stage that failed; else nothing, which is success.
    pub open spec fn verdict(self) -> Option<ErrorView> {
        match self.failure {
            Some(e) => Some(e),
            None => self.first_failure(0),
        }
    }

    /// The position of the first copy at or behind `from` that collected
    /// the stream `direction` to its end.
    pub open spec fn capture_index(self, direction: Direction, from: int) -> Option<int>
        decreases self.drained.len() - from,
    {
        if from < 0 || from >= self.drained.len() {
            None
        } else if self.drained[from].drain.direction == direction
            && self.drained[from].report is Done {
            Some(from)
        } else {
            self.capture_index(direction, from + 1)
        }
    }

    /// The bytes collected from the stream `direction`; none where it was
    /// not captured.
    pub open spec fn captured(self, direction: Direction) -> Seq<u8> {
        match self.capture_index(direction, 0) {
            Some(j) => self.drained[j].report.bytes(),
            None => Seq::empty(),
        }
    }
}

/// The reduction names the lowest stage that failed: it is success exactly
/// when the launch went through and no stage failed, and a failure that it
/// takes from the stages is that of a stage before which none failed.
pub proof fn law_verdict_is_lowest(o: OutcomeView)
    ensures
        o.verdict() is None <==> o.failure is None && forall|i: int|
            0 <= i < o.exits.len() ==> #[trigger] o.stage_failure(i) is None,
        o.failure is Some ==> o.verdict() == o.failure,
        o.failure is None && o.verdict() is Some ==> {
            let at = o.verdict()->0.stage() as int;
            &&& 0 <= at < o.exits.len()
            &&& o.stage_failure(at) == o.verdict()
            &&& forall|i: int| 0 <= i < at ==> #[trigger] o.stage_failure(i) is None
        },
{
    lemma_first_failure(o, 0);
}

/// What `first_failure` finds behind `from`.
pub proof fn lemma_first_failure(o: OutcomeView, from: int)
    requires
        0 <= from,
    ensures
        o.first_failure(from) is None <==> forall|i: int|
            from <= i < o.exits.len() ==> #[trigger] o.stage_failure(i) is None,
        o.first_failure(from) is Some ==> {
            let at = o.first_failure(from)->0.stage() as int;
            &&& from <= at < o.exits.len()
            &&& o.stage_failure(at) == o.first_failure(from)
            &&& forall|i: int| from <= i < at ==> #[trigger] o.stage_failure(i) is None
        },
    decreases o.exits.len() - from,
{
    if from < o.exits.len() {
        if o.stage_failure(from) is Some {
            assert(o.stage_failure(from)->0.stage() == from);
        } else {
            lemma_first_failure(o, from + 1);
        }
    }
}

/// What `failed_drain` finds behind `from`: the first failed copy of the
/// stage, if the stage has one.
pub proof fn lemma_failed_drain(o: OutcomeView, stage: int, from: int)
    requires
        0 <= from,
    ensures
        o.failed_drain(stage, from) is None <==> forall|j: int|
            from <= j < o.drained.len() ==> !#[trigger] o.failed_at(stage, j),
        o.failed_drain(stage, from) is Some ==> {
            let at = o.failed_drain(stage, from)->0;
            &&& from <= at
            &&& o.failed_at(stage, at)
            &&& forall|j: int| from <= j < at ==> !#[trigger] o.failed_at(stage, j)
        },
    decreases o.drained.len() - from,
{
    if from < o.drained.len() && !o.failed_at(stage, from) {
        lemma_failed_drain(o, stage, from + 1);
    }
}

/// No failed copy is passed over in silence: where a copy failed, the
/// reduction is a failure, attributed to that copy's stage or to a lower one.
pub proof fn law_no_failure_swallowed(o: OutcomeView, j: int)
    requires
        o.wf(),
        0 <= j < o.drained.len(),
        o.drained[j].report.failed(),
    ensures
        o.verdict() is Some,
        o.failure is None ==> o.verdict()->0.stage() <= o.drained[j].drain.stage,
{
    let stage = o.drained[j].drain.stage as int;
    assert(o.failed_at(stage, j));
    lemma_failed_drain(o, stage, 0);
    assert(o.stage_failure(stage) is Some);
    law_verdict_is_lowest(o);
}

impl Report {
    /// Whether the copy did not run to its end.
    pub fn failed(&self) -> (failed: bool)
        ensures
            failed == self@.failed(),
    {
        match self {
            Report::Done(_) => false,
            _ => true,
        }
    }

    /// Why the copy did not run to its end. A panic of the copying thread
    /// is reported as a failure of the copy, with a fixed cause.
    pub fn cause(&self) -> (cause: String)
        ensures
            cause@ == self@.cause(),
    {
        match self {
            Report::Failed(cause) => cause.clone(),
            _ => "drain thread panicked".to_owned(),
        }
    }
}

/// The aggregate of a pipeline that has come to rest: what stopped the
/// launch, if anything did, the exit status of every stage that ran, and
/// the end of every background copy.
#[derive(Debug)]
pub struct Outcome {
    failure: Option<Error>,
    exits: Vec<i32>,
    drained: Vec<Joined>,
}

impl View for Outcome {
    type V = OutcomeView;

    closed spec fn view(&self) -> OutcomeView {
        OutcomeView {
            failure: match self.failure {
                Some(e) => Some(e@),
                None => None,
            },
            exits: self.exits@,
            drained: joined_views(self.drained@),
        }
    }
}

impl Outcome {
    /// What holds of every value of this type.
    #[verifier::type_invariant]
    pub open spec fn inv(self) -> bool {
        self@.wf()
    }

    /// The aggregate of the parts given, if every copy among them served a
    /// stage that has an exit status.
    pub fn from_parts(failure: Option<Error>, exits: Vec<i32>, drained: Vec<Joined>) -> (outcome:
        Option<Outcome>)
        ensures
            ({
                let v = OutcomeView {
                    failure: match failure {
                        Some(e) => Some(e@),
                        None => None,
                    },
                    exits: exits@,
                    drained: joined_views(drained@),
                };
                match outcome {
                    Some(o) => v.wf() && o@ == v,
                    None => !v.wf(),
                }
            }),
    {
        let mut j: usize = 0;
        while j < drained.len()
            invariant
                0 <= j <= drained.len(),
                forall|k: int| 0 <= k < j ==> (#[trigger] drained@[k]).drain.stage < exits@.len(),
            decreases drained.len() - j,
        {
            if drained[j].drain.stage >= exits.len() {
                assert(joined_views(drained@)[j as int].drain.stage >= exits@.len());
                return None;
            }
            j += 1;
        }
        assert forall|k: int| 0 <= k < joined_views(drained@).len() implies (
        #[trigger] joined_views(drained@)[k]).drain.stage < exits@.len() by {
            assert(drained@[k].drain.stage < exits@.len());
        }
        Some(Outcome { failure, exits, drained })
    }

    /// The aggregate of parts that are known to fit together.
    pub(crate) fn assemble(failure: Option<Error>, exits: Vec<i32>, drained: Vec<Joined>) -> (outcome:
        Outcome)
        requires
            forall|j: int|
                0 <= j < drained@.len() ==> (#[trigger] joined_views(drained@)[j]).drain.stage
                    < exits@.len(),
        ensures
            outcome@ == (OutcomeView {
                failure: match failure {
                    Some(e) => Some(e@),
                    None => None,
                },
                exits: exits@,
                drained: joined_views(drained@),
            }),
            outcome@.wf(),
    {
        Outcome { failure, exits, drained }
    }

    /// The number of stages that were spawned.
    pub fn stages(&self) -> (n: usize)
        ensures
            n == self@.exits.len(),
    {
        self.exits.len()
    }

    /// The exit status of `stage` as the operating system gave it, if the
    /// stage was spawned.
    pub fn exit_code(&self, stage: usize) -> (code: Option<i32>)
        ensures
            code == (if stage < self@.exits.len() {
                Some(self@.exits[stage as int])
            } else {
                None
            }),
    {
        if stage < self.exits.len() {
            Some(self.exits[stage])
        } else {
            None
        }
    }

    /// The failure of `stage`, if it was spawned and failed.
    pub fn stage_failure(&self, stage: usize) -> (failure: Option<Error>)
        ensures
            stage >= self@.exits.len() ==> failure is None,
            stage < self@.exits.len() ==> match failure {
                Some(e) => self@.stage_failure(stage as int) == Some(e@),
                None => self@.stage_failure(stage as int) is None,
            },
    {
        if stage >= self.exits.len() {
            return None;
        }
        let mut j: usize = 0;
        while j < self.drained.len()
            invariant
                0 <= j <= self.drained.len(),
                stage < self@.exits.len(),
                self@.failed_drain(stage as int, 0) == self@.failed_drain(stage as int, j as int),
            decreases self.drained.len() - j,
        {
            if self.drained[j].drain.stage == stage && self.drained[j].report.failed() {
                return Some(
                    Error::IoFailure {
                        stage,
                        direction: self.drained[j].drain.direction,
                        cause: self.drained[j].report.cause(),
                    },
                );
            }
            j += 1;
        }
        if self.exits[stage] != 0 {
            Some(Error::NonZeroExit { stage, code: self.exits[stage] })
        } else {
            None
        }
    }

    /// The reduction of the aggregate to one result: the failure that
    /// stopped the launch; else the failure of the lowest stage whose copy
    /// failed or whose exit status is not zero; else success.
    pub fn result(&self) -> (res: Result<(), Error>)
        ensures
            match res {
                Ok(_) => self@.verdict() is None,
                Err(e) => self@.verdict() == Some(e@),
            },
    {
        match &self.failure {
            Some(e) => {
                return Err(e.duplicate());
            },
            None => {},
        }
        let mut i: usize = 0;
        while i < self.exits.len()
            invariant
                0 <= i <= self.exits.len(),
                self@.failure is None,
                self@.first_failure(0) == self@.first_failure(i as int),
            decreases self.exits.len() - i,
        {
            match self.stage_failure(i) {
                Some(e) => {
                    return Err(e);
                },
                None => {},
            }
            i += 1;
        }
        Ok(())
    }

    /// Whether the pipeline succeeded: the launch went through, every stage
    /// exited with status zero and every copy ran to its end.
    pub fn is_success(&self) -> (yes: bool)
        ensures
            yes == self@.verdict() is None,
    {
        self.result().is_ok()
    }

    /// The bytes collected from the stream `direction`; none where it was
    /// not captured.
    pub fn captured(&self, direction: Direction) -> (bytes: &[u8])
        ensures
            bytes@ == self@.captured(direction),
    {
        let mut j: usize = 0;
        while j < self.drained.len()
            invariant
                0 <= j <= self.drained.len(),
                self@.capture_index(direction, 0) == self@.capture_index(direction, j as int),
            decreases self.drained.len() - j,
        {
            if self.drained[j].drain.direction == direction {
                match &self.drained[j].report {
                    Report::Done(bytes) => {
                        return bytes.as_slice();
                    },
                    _ => {},
                }
            }
            j += 1;
        }
        let none: &[u8] = &[];
        assert(none@ =~= Seq::empty());
        none
    }

    /// The captured standard output as bytes, where the pipeline succeeded;
    /// the failure where it did not.
    pub fn output_bytes(&self) -> (res: Result<Vec<u8>, Error>)
        ensures
            match res {
                Ok(bytes) => self@.verdict() is None && bytes@ == self@.captured(Direction::Stdout),
                Err(e) => self@.verdict() == Some(e@),
            },
    {
        match self.result() {
            Ok(_) => Ok(vstd::slice::slice_to_vec(self.captured(Direction::Stdout))),
            Err(e) => Err(e),
        }
    }

    /// The captured standard output as text, where the pipeline succeeded;
    /// the failure where it did not. The bytes are decoded lossily: what is
    /// valid UTF-8 comes out as the text it encodes, anything else with
    /// replacement characters in it.
    pub fn output(&self) -> (res: Result<String, Error>)
        ensures
            match res {
                Ok(text) => {
                    &&& self@.verdict() is None
                    &&& text@ == lossy_text(self@.captured(Direction::Stdout))
                    &&& valid_utf8(self@.captured(Direction::Stdout)) ==> text@ == decode_utf8(
                        self@.captured(Direction::Stdout),
                    )
                },
                Err(e) => self@.verdict() == Some(e@),
            },
    {
        match self.output_bytes() {
            Ok(bytes) => Ok(decode_lossy(&bytes)),
            Err(e) => Err(e),
        }
    }
}

} // verus!
