//! One writer's visit: it opens the catalogue, leaves a trace and closes it again.
use crate::handoff::progress::{failed, Progress};
#[allow(unused_imports)]
use crate::handoff::progress::{outcome_view, ProgressView};
use vstd::prelude::*;

verus! {

/// The steps of a visit.
#[derive(Clone, Copy, Debug, PartialEq, Eq)]
pub enum WriterStep {
    /// Open the catalogue.
    Open,
    /// Create the table of traces where it does not exist.
    EnsureTable,
    /// Insert the trace of this visit.
    InsertEvent,
    /// Write a checkpoint.
    Checkpoint,
}

/// A visit to a catalogue, in a phase.
#[derive(Debug, PartialEq, Eq)]
pub struct OpenAndWrite {
    pub catalogue_path: String,
    pub phase: String,
    pub step: WriterStep,
}

/// The message of a trace that could not be inserted.
pub open spec fn insert_failure(phase: Seq<char>, cause: Seq<char>) -> Seq<char> {
    "insert spike event '"@ + phase + "' failed: "@ + cause
}

impl WriterStep {
    /// The message with which a visit fails at this step.
    pub open spec fn failure(self, phase: Seq<char>, cause: Seq<char>) -> Seq<char> {
        match self {
            WriterStep::Open => "open failed: "@ + cause,
            WriterStep::EnsureTable => "ensure spike table failed: "@ + cause,
            WriterStep::InsertEvent => insert_failure(phase, cause),
            WriterStep::Checkpoint => "checkpoint failed: "@ + cause,
        }
    }

    /// Where a visit stands once this step has come out as given.
    pub open spec fn after(self, phase: Seq<char>, outcome: Result<(), Seq<char>>) -> ProgressView<
        WriterStep,
    > {
        match outcome {
            Err(cause) => ProgressView::Failed(self.failure(phase, cause)),
            Ok(()) => match self {
                WriterStep::Open => ProgressView::Continue(WriterStep::EnsureTable),
                WriterStep::EnsureTable => ProgressView::Continue(WriterStep::InsertEvent),
                WriterStep::InsertEvent => ProgressView::Continue(WriterStep::Checkpoint),
                WriterStep::Checkpoint => ProgressView::Finished,
            },
        }
    }
}

/// The step at which a visit stands once `n` steps have succeeded.
pub open spec fn writer_step(n: int) -> WriterStep {
    if n == 0 {
        WriterStep::Open
    } else if n == 1 {
        WriterStep::EnsureTable
    } else if n == 2 {
        WriterStep::InsertEvent
    } else {
        WriterStep::Checkpoint
    }
}

/// Where a visit stands once its steps have come out as given, one after the other.
pub open spec fn writer_run(phase: Seq<char>, outcomes: Seq<Result<(), Seq<char>>>) -> ProgressView<
    WriterStep,
>
    decreases outcomes.len(),
{
    if outcomes.len() == 0 {
        ProgressView::Continue(WriterStep::Open)
    } else {
        match writer_run(phase, outcomes.drop_last()) {
            ProgressView::Continue(step) => step.after(phase, outcomes.last()),
            ended => ended,
        }
    }
}

/// The message of a trace that could not be inserted.
pub fn insert_failed<S>(phase: &str, cause: &str) -> (r: Progress<S>)
    ensures
        r@ == ProgressView::<S>::Failed(insert_failure(phase@, cause@)),
{
    let mut message: String = "insert spike event '".to_owned();
    message.append(phase);
    message.append("' failed: ");
    message.append(cause);
    Progress::Failed(message)
}

impl OpenAndWrite {
    /// A visit that has not begun.
    pub fn new(catalogue_path: String, phase: String) -> (r: OpenAndWrite)
        ensures
            r.catalogue_path@ == catalogue_path@,
            r.phase@ == phase@,
            r.step is Open,
    {
        OpenAndWrite { catalogue_path, phase, step: WriterStep::Open }
    }

    /// Takes what came of the current step, and moves on to the next one where there is one.
    pub fn advance(&mut self, outcome: Result<(), String>) -> (r: Progress<WriterStep>)
        ensures
            r@ == old(self).step.after(old(self).phase@, outcome_view(outcome)),
            final(self).step == match r {
                Progress::Continue(step) => step,
                _ => old(self).step,
            },
            final(self).catalogue_path == old(self).catalogue_path,
            final(self).phase == old(self).phase,
    {
        match outcome {
            Err(cause) => match self.step {
                WriterStep::Open => failed("open failed: ", cause.as_str()),
                WriterStep::EnsureTable => failed("ensure spike table failed: ", cause.as_str()),
                WriterStep::InsertEvent => insert_failed(self.phase.as_str(), cause.as_str()),
                WriterStep::Checkpoint => failed("checkpoint failed: ", cause.as_str()),
            },
            Ok(()) => {
                let next: WriterStep = match self.step {
                    WriterStep::Open => WriterStep::EnsureTable,
                    WriterStep::EnsureTable => WriterStep::InsertEvent,
                    WriterStep::InsertEvent => WriterStep::Checkpoint,
                    WriterStep::Checkpoint => {
                        return Progress::Finished;
                    },
                };
                self.step = next;
                Progress::Continue(next)
            },
        }
    }
}

/// A visit succeeds exactly where its four steps do; otherwise its message is that of the first
/// step that failed.
pub proof fn law_visit_fails_with_its_first_failure(
    phase: Seq<char>,
    outcomes: Seq<Result<(), Seq<char>>>,
)
    ensures
        ({
            let run = writer_run(phase, outcomes);
            &&& run is Finished <==> outcomes.len() >= 4 && forall|i: int|
                0 <= i < 4 ==> #[trigger] outcomes[i] is Ok
            &&& run matches ProgressView::Failed(message) ==> exists|k: int|
                #![trigger outcomes[k]]
                0 <= k < 4 && k < outcomes.len() && outcomes[k] is Err && message == writer_step(
                    k,
                ).failure(phase, outcomes[k]->Err_0) && forall|i: int|
                    0 <= i < k ==> #[trigger] outcomes[i] is Ok
            &&& run matches ProgressView::Continue(step) ==> outcomes.len() < 4 && step
                == writer_step(outcomes.len() as int) && forall|i: int|
                0 <= i < outcomes.len() ==> #[trigger] outcomes[i] is Ok
        }),
    decreases outcomes.len(),
{
    if outcomes.len() > 0 {
        let n: int = outcomes.len() - 1;
        let rest = outcomes.drop_last();
        law_visit_fails_with_its_first_failure(phase, rest);
        assert forall|i: int| 0 <= i < n implies rest[i] == #[trigger] outcomes[i] by {}
        match writer_run(phase, rest) {
            ProgressView::Continue(step) => {
                assert(outcomes[n] == outcomes.last());
            },
            ProgressView::Failed(message) => {
                let k = choose|k: int|
                    #![trigger rest[k]]
                    0 <= k < 4 && k < rest.len() && rest[k] is Err && message == writer_step(
                        k,
                    ).failure(phase, rest[k]->Err_0) && forall|i: int|
                        0 <= i < k ==> #[trigger] rest[i] is Ok;
                assert(outcomes[k] == rest[k]);
            },
            ProgressView::Finished => {
                assert forall|i: int| 0 <= i < 4 implies #[trigger] outcomes[i] is Ok by {
                    assert(rest[i] is Ok);
                }
            },
        }
    }
}

/// A visit opens the catalogue, creates the table, inserts its trace and writes a checkpoint, in
/// this order, and ends with a failure as soon as one of them fails, with a message that says which
/// and why.
pub proof fn law_visit_goes_through_its_steps(
    phase: Seq<char>,
    outcomes: Seq<Result<(), Seq<char>>>,
    cause: Seq<char>,
)
    requires
        forall|i: int| 0 <= i < outcomes.len() ==> #[trigger] outcomes[i] is Ok,
    ensures
        ({
            let run = writer_run(phase, outcomes);
            let failed = writer_run(phase, outcomes.push(Err(cause)));
            &&& outcomes.len() == 0 ==> run == ProgressView::Continue(WriterStep::Open) && failed
                == ProgressView::<WriterStep>::Failed("open failed: "@ + cause)
            &&& outcomes.len() == 1 ==> run == ProgressView::Continue(WriterStep::EnsureTable)
                && failed == ProgressView::<WriterStep>::Failed(
                "ensure spike table failed: "@ + cause,
            )
            &&& outcomes.len() == 2 ==> run == ProgressView::Continue(WriterStep::InsertEvent)
                && failed == ProgressView::<WriterStep>::Failed(
                "insert spike event '"@ + phase + "' failed: "@ + cause,
            )
            &&& outcomes.len() == 3 ==> run == ProgressView::Continue(WriterStep::Checkpoint)
                && failed == ProgressView::<WriterStep>::Failed("checkpoint failed: "@ + cause)
            &&& outcomes.len() >= 4 ==> run is Finished && failed is Finished
        }),
    decreases outcomes.len(),
{
    assert(outcomes.push(Err(cause)).drop_last() =~= outcomes);
    if outcomes.len() > 0 {
        let rest = outcomes.drop_last();
        assert forall|i: int| 0 <= i < rest.len() implies #[trigger] rest[i] is Ok by {
            assert(rest[i] == outcomes[i]);
        }
        assert(outcomes[outcomes.len() - 1] is Ok);
        law_visit_goes_through_its_steps(phase, rest, cause);
    }
}

/// How `OpenAndWrite::advance` moves a visit: by the step that it stands at and what came of it, to
/// the step that it hands back, in the same phase and over the same catalogue.
pub proof fn law_visit_advances(
    before: OpenAndWrite,
    after: OpenAndWrite,
    outcome: Result<(), String>,
    r: Progress<WriterStep>,
)
    requires
        exists|m: &mut OpenAndWrite|
            *m == before && *final(m) == after && #[trigger] call_ensures(
                OpenAndWrite::advance,
                (m, outcome),
                r,
            ),
    ensures
        r@ == before.step.after(before.phase@, outcome_view(outcome)),
        r matches Progress::Continue(step) ==> after.step == step,
        !(r is Continue) ==> after.step == before.step,
        outcome matches Err(cause) ==> (r matches Progress::Failed(message) && message@ == match
            before.step {
            WriterStep::Open => "open failed: "@ + cause@,
            WriterStep::EnsureTable => "ensure spike table failed: "@ + cause@,
            WriterStep::InsertEvent => "insert spike event '"@ + before.phase@ + "' failed: "@
                + cause@,
            WriterStep::Checkpoint => "checkpoint failed: "@ + cause@,
        }),
        outcome is Ok ==> match before.step {
            WriterStep::Open => r == Progress::Continue(WriterStep::EnsureTable),
            WriterStep::EnsureTable => r == Progress::Continue(WriterStep::InsertEvent),
            WriterStep::InsertEvent => r == Progress::Continue(WriterStep::Checkpoint),
            WriterStep::Checkpoint => r is Finished,
        },
        after.phase == before.phase,
        after.catalogue_path == before.catalogue_path,
{
}

}
