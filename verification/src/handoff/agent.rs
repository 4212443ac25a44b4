//! The agent: it opens the catalogue, says that it is ready, and holds the catalogue until it is
//! asked to let go.
use crate::handoff::command::argument;
use crate::handoff::progress::{failed, Progress};
#[allow(unused_imports)]
use crate::handoff::progress::{outcome_view, ProgressView};
use crate::handoff::writer::insert_failed;
#[allow(unused_imports)]
use crate::handoff::writer::insert_failure;
use vstd::prelude::*;

verus! {

/// How long the agent sleeps between two looks for the release file.
pub const RELEASE_POLL_MILLIS: u64 = 100;

/// The steps of the agent.
#[derive(Clone, Copy, Debug, PartialEq, Eq)]
pub enum AgentStep {
    /// Open the catalogue.
    Open,
    /// Create the table of traces where it does not exist.
    EnsureTable,
    /// Insert the trace that the catalogue is open.
    InsertOpened,
    /// Write the ready file.
    SignalReady,
    /// Look for the release file; sleep where it is not there.
    AwaitRelease,
    /// Insert the trace that the release was asked for.
    InsertReleaseRequested,
    /// Write a checkpoint.
    Checkpoint,
}

/// What the agent learns.
#[derive(Debug, PartialEq, Eq)]
pub enum AgentEvent {
    /// The current step was performed, or failed with this cause.
    Performed(Result<(), String>),
    /// Whether the release file is there.
    ReleaseSeen(bool),
}

/// `AgentEvent` with the cause of a failure as a sequence.
pub enum AgentEventView {
    Performed(Result<(), Seq<char>>),
    ReleaseSeen(bool),
}

impl View for AgentEvent {
    type V = AgentEventView;

    open spec fn view(&self) -> AgentEventView {
        match *self {
            AgentEvent::Performed(outcome) => AgentEventView::Performed(outcome_view(outcome)),
            AgentEvent::ReleaseSeen(seen) => AgentEventView::ReleaseSeen(seen),
        }
    }
}

/// An agent.
#[derive(Debug, PartialEq, Eq)]
pub struct Agent {
    pub catalogue_path: String,
    pub ready_file: String,
    pub release_file: String,
    pub step: AgentStep,
}

impl AgentStep {
    /// The phase of the trace that this step inserts.
    pub open spec fn phase(self) -> Seq<char> {
        if self is InsertOpened {
            "agent_open"@
        } else {
            "agent_release_requested"@
        }
    }

    /// The message with which the agent fails at this step.
    pub open spec fn failure(self, cause: Seq<char>) -> Seq<char> {
        match self {
            AgentStep::Open => "agent open failed: "@ + cause,
            AgentStep::EnsureTable => "ensure spike table failed: "@ + cause,
            AgentStep::InsertOpened => insert_failure("agent_open"@, cause),
            AgentStep::SignalReady => "agent write ready failed: "@ + cause,
            AgentStep::AwaitRelease => cause,
            AgentStep::InsertReleaseRequested => insert_failure("agent_release_requested"@, cause),
            AgentStep::Checkpoint => "agent checkpoint failed: "@ + cause,
        }
    }

    /// Where the agent stands once this step has succeeded.
    pub open spec fn next(self) -> ProgressView<AgentStep> {
        match self {
            AgentStep::Open => ProgressView::Continue(AgentStep::EnsureTable),
            AgentStep::EnsureTable => ProgressView::Continue(AgentStep::InsertOpened),
            AgentStep::InsertOpened => ProgressView::Continue(AgentStep::SignalReady),
            AgentStep::SignalReady => ProgressView::Continue(AgentStep::AwaitRelease),
            AgentStep::AwaitRelease => ProgressView::Continue(AgentStep::InsertReleaseRequested),
            AgentStep::InsertReleaseRequested => ProgressView::Continue(AgentStep::Checkpoint),
            AgentStep::Checkpoint => ProgressView::Finished,
        }
    }

    /// Where the agent stands once it has learned of an event at this step. While it waits for its
    /// release, only the release file moves it; at any other step the file does not.
    pub open spec fn after(self, event: AgentEventView) -> ProgressView<AgentStep> {
        match event {
            AgentEventView::Performed(outcome) => if self is AwaitRelease {
                ProgressView::Continue(self)
            } else {
                match outcome {
                    Ok(()) => self.next(),
                    Err(cause) => ProgressView::Failed(self.failure(cause)),
                }
            },
            AgentEventView::ReleaseSeen(seen) => if self is AwaitRelease && seen {
                self.next()
            } else {
                ProgressView::Continue(self)
            },
        }
    }
}

/// Where the agent stands once it has learned of the given events, one after the other.
pub open spec fn agent_run(events: Seq<AgentEventView>) -> ProgressView<AgentStep>
    decreases events.len(),
{
    if events.len() == 0 {
        ProgressView::Continue(AgentStep::Open)
    } else {
        match agent_run(events.drop_last()) {
            ProgressView::Continue(step) => step.after(events.last()),
            ended => ended,
        }
    }
}

/// An agent for the catalogue, the ready file and the release file that the arguments name behind
/// the command.
pub fn run_agent(args: &Vec<String>) -> (r: Result<Agent, String>)
    ensures
        match r {
            Ok(agent) => {
                &&& args@.len() > 4
                &&& agent.catalogue_path@ == args@[2]@
                &&& agent.ready_file@ == args@[3]@
                &&& agent.release_file@ == args@[4]@
                &&& agent.step is Open
            },
            Err(message) => {
                ||| args@.len() <= 2 && message@ == "agent requires <catalogue-path>"@
                ||| args@.len() == 3 && message@ == "agent requires <ready-file>"@
                ||| args@.len() == 4 && message@ == "agent requires <release-file>"@
            },
        },
{
    let catalogue_path: String = match argument(args, 2, "agent requires <catalogue-path>") {
        Ok(s) => s,
        Err(message) => {
            return Err(message);
        },
    };
    let ready_file: String = match argument(args, 3, "agent requires <ready-file>") {
        Ok(s) => s,
        Err(message) => {
            return Err(message);
        },
    };
    let release_file: String = match argument(args, 4, "agent requires <release-file>") {
        Ok(s) => s,
        Err(message) => {
            return Err(message);
        },
    };
    Ok(Agent { catalogue_path, ready_file, release_file, step: AgentStep::Open })
}

impl Agent {
    /// The phase of the trace that the current step inserts.
    pub fn phase(&self) -> (r: &'static str)
        requires
            self.step is InsertOpened || self.step is InsertReleaseRequested,
        ensures
            r@ == self.step.phase(),
    {
        match self.step {
            AgentStep::InsertOpened => "agent_open",
            _ => "agent_release_requested",
        }
    }

    /// Where the agent stands once the current step has failed.
    fn fail(&self, cause: &str) -> (r: Progress<AgentStep>)
        requires
            !(self.step is AwaitRelease),
        ensures
            r@ == ProgressView::<AgentStep>::Failed(self.step.failure(cause@)),
    {
        match self.step {
            AgentStep::Open => failed("agent open failed: ", cause),
            AgentStep::EnsureTable => failed("ensure spike table failed: ", cause),
            AgentStep::InsertOpened => insert_failed("agent_open", cause),
            AgentStep::SignalReady => failed("agent write ready failed: ", cause),
            AgentStep::InsertReleaseRequested => insert_failed("agent_release_requested", cause),
            _ => failed("agent checkpoint failed: ", cause),
        }
    }

    /// Moves on to the step behind the current one, where there is one.
    fn proceed(&mut self) -> (r: Progress<AgentStep>)
        ensures
            r@ == old(self).step.next(),
            *final(self) == (Agent {
                step: match r {
                    Progress::Continue(step) => step,
                    _ => old(self).step,
                },
                ..*old(self)
            }),
    {
        let next: AgentStep = match self.step {
            AgentStep::Open => AgentStep::EnsureTable,
            AgentStep::EnsureTable => AgentStep::InsertOpened,
            AgentStep::InsertOpened => AgentStep::SignalReady,
            AgentStep::SignalReady => AgentStep::AwaitRelease,
            AgentStep::AwaitRelease => AgentStep::InsertReleaseRequested,
            AgentStep::InsertReleaseRequested => AgentStep::Checkpoint,
            AgentStep::Checkpoint => {
                return Progress::Finished;
            },
        };
        self.step = next;
        Progress::Continue(next)
    }

    /// Takes an event, and moves on to the next step where the event says so.
    pub fn advance(&mut self, event: AgentEvent) -> (r: Progress<AgentStep>)
        ensures
            r@ == old(self).step.after(event@),
            *final(self) == (Agent {
                step: match r {
                    Progress::Continue(step) => step,
                    _ => old(self).step,
                },
                ..*old(self)
            }),
    {
        let waiting: bool = matches!(self.step, AgentStep::AwaitRelease);
        match event {
            AgentEvent::Performed(outcome) => {
                if waiting {
                    return Progress::Continue(self.step);
                }
                match outcome {
                    Ok(()) => self.proceed(),
                    Err(cause) => self.fail(cause.as_str()),
                }
            },
            AgentEvent::ReleaseSeen(seen) => {
                if waiting && seen {
                    self.proceed()
                } else {
                    Progress::Continue(self.step)
                }
            },
        }
    }
}

/// Whether the agent has left its catalogue to others: its release has been seen.
pub open spec fn is_releasing(at: ProgressView<AgentStep>) -> bool {
    match at {
        ProgressView::Continue(step) => step is InsertReleaseRequested || step is Checkpoint,
        ProgressView::Finished => true,
        ProgressView::Failed(message) => false,
    }
}

/// The agent holds the catalogue until it sees the release file: it does not move past its wait,
/// and does not end without a failure, unless the file was there at a look during the wait.
pub proof fn law_agent_holds_until_release(events: Seq<AgentEventView>)
    requires
        is_releasing(agent_run(events)),
    ensures
        exists|i: int|
            #![trigger events[i]]
            0 <= i < events.len() && events[i] == AgentEventView::ReleaseSeen(true) && agent_run(
                events.take(i),
            ) == ProgressView::Continue(AgentStep::AwaitRelease),
    decreases events.len(),
{
    let n: int = events.len() - 1;
    let rest = events.drop_last();
    assert(events.take(n) =~= rest);
    if is_releasing(agent_run(rest)) {
        law_agent_holds_until_release(rest);
        let i = choose|i: int|
            #![trigger rest[i]]
            0 <= i < rest.len() && rest[i] == AgentEventView::ReleaseSeen(true) && agent_run(
                rest.take(i),
            ) == ProgressView::Continue(AgentStep::AwaitRelease);
        assert(rest.take(i) =~= events.take(i));
        assert(events[i] == rest[i]);
    } else {
        assert(events[n] == events.last());
    }
}

/// Whether the agent has come past the step that says that it is ready.
pub open spec fn has_signalled(at: ProgressView<AgentStep>) -> bool {
    is_releasing(at) || at == ProgressView::Continue(AgentStep::AwaitRelease)
}

/// The agent says that it is ready only once it holds the catalogue: it has opened it, created
/// the table and left its trace, each with success and in this order.
pub proof fn law_agent_is_ready_once_it_holds_the_catalogue(events: Seq<AgentEventView>)
    requires
        has_signalled(agent_run(events)),
    ensures
        exists|a: int, b: int, c: int, d: int|
            0 <= a < b < c < d < events.len() && #[trigger] performed_at(
                events,
                a,
                AgentStep::Open,
            ) && #[trigger] performed_at(events, b, AgentStep::EnsureTable)
                && #[trigger] performed_at(events, c, AgentStep::InsertOpened)
                && #[trigger] performed_at(events, d, AgentStep::SignalReady),
{
    let d = lemma_came_from(events, AgentStep::SignalReady);
    let c = lemma_came_from(events.take(d), AgentStep::InsertOpened);
    assert(events.take(d).take(c) =~= events.take(c));
    let b = lemma_came_from(events.take(c), AgentStep::EnsureTable);
    assert(events.take(c).take(b) =~= events.take(b));
    let a = lemma_came_from(events.take(b), AgentStep::Open);
    assert(events.take(b).take(a) =~= events.take(a));
    assert(performed_at(events, a, AgentStep::Open));
    assert(performed_at(events, b, AgentStep::EnsureTable));
    assert(performed_at(events, c, AgentStep::InsertOpened));
    assert(performed_at(events, d, AgentStep::SignalReady));
}

/// Whether the event at `i` says that the agent performed `step`, at which it then stood.
pub open spec fn performed_at(events: Seq<AgentEventView>, i: int, step: AgentStep) -> bool {
    &&& 0 <= i < events.len()
    &&& agent_run(events.take(i)) == ProgressView::Continue(step)
    &&& events[i] matches AgentEventView::Performed(outcome) && outcome is Ok
}

/// How far a step is from the start.
spec fn rank(step: AgentStep) -> int {
    match step {
        AgentStep::Open => 0,
        AgentStep::EnsureTable => 1,
        AgentStep::InsertOpened => 2,
        AgentStep::SignalReady => 3,
        AgentStep::AwaitRelease => 4,
        AgentStep::InsertReleaseRequested => 5,
        AgentStep::Checkpoint => 6,
    }
}

/// How far the agent has come.
spec fn reached(at: ProgressView<AgentStep>) -> int {
    match at {
        ProgressView::Continue(step) => rank(step),
        ProgressView::Finished => 7,
        ProgressView::Failed(message) => -1,
    }
}

/// Whoever stands past a step that is performed has performed it.
proof fn lemma_came_from(events: Seq<AgentEventView>, step: AgentStep) -> (i: int)
    requires
        reached(agent_run(events)) > rank(step),
        rank(step) < 4,
    ensures
        performed_at(events, i, step),
    decreases events.len(),
{
    let n: int = events.len() - 1;
    let rest = events.drop_last();
    assert(events.take(n) =~= rest);
    if reached(agent_run(rest)) > rank(step) {
        let i = lemma_came_from(rest, step);
        assert(rest.take(i) =~= events.take(i));
        i
    } else {
        n
    }
}

/// One more event moves the agent from where it stood.
proof fn lemma_one_more_event(events: Seq<AgentEventView>, event: AgentEventView)
    ensures
        agent_run(events.push(event)) == match agent_run(events) {
            ProgressView::Continue(step) => step.after(event),
            ended => ended,
        },
{
    assert(events.push(event).drop_last() =~= events);
}

/// The agent starts by opening the catalogue, and each step that succeeds leads to the next: the
/// table, the trace that the catalogue is open, the ready file, the wait; once the release is seen,
/// the trace of it, the checkpoint and the end. While it waits, nothing else moves it; while it does
/// not wait, a look for the release does not.
pub proof fn law_agent_goes_through_its_steps(
    events: Seq<AgentEventView>,
    step: AgentStep,
    seen: bool,
    outcome: Result<(), Seq<char>>,
)
    requires
        agent_run(events) == ProgressView::Continue(step),
        outcome is Ok,
    ensures
        agent_run(Seq::empty()) == ProgressView::Continue(AgentStep::Open),
        ({
            let done = agent_run(events.push(AgentEventView::Performed(outcome)));
            let looked = agent_run(events.push(AgentEventView::ReleaseSeen(seen)));
            &&& step is Open ==> done == ProgressView::Continue(AgentStep::EnsureTable)
            &&& step is EnsureTable ==> done == ProgressView::Continue(AgentStep::InsertOpened)
            &&& step is InsertOpened ==> done == ProgressView::Continue(AgentStep::SignalReady)
            &&& step is SignalReady ==> done == ProgressView::Continue(AgentStep::AwaitRelease)
            &&& step is AwaitRelease ==> done == ProgressView::Continue(AgentStep::AwaitRelease)
            &&& step is InsertReleaseRequested ==> done == ProgressView::Continue(
                AgentStep::Checkpoint,
            )
            &&& step is Checkpoint ==> done is Finished
            &&& step is AwaitRelease && seen ==> looked == ProgressView::Continue(
                AgentStep::InsertReleaseRequested,
            )
            &&& !(step is AwaitRelease && seen) ==> looked == ProgressView::Continue(step)
        }),
{
    lemma_one_more_event(events, AgentEventView::Performed(outcome));
    lemma_one_more_event(events, AgentEventView::ReleaseSeen(seen));
}

/// A step that fails ends the agent, with a message that says which step it was and why; the wait
/// cannot fail.
pub proof fn law_agent_fails_with_its_step(
    events: Seq<AgentEventView>,
    step: AgentStep,
    cause: Seq<char>,
)
    requires
        agent_run(events) == ProgressView::Continue(step),
    ensures
        ({
            let failed = agent_run(events.push(AgentEventView::Performed(Err(cause))));
            &&& step is Open ==> failed == ProgressView::<AgentStep>::Failed(
                "agent open failed: "@ + cause,
            )
            &&& step is EnsureTable ==> failed == ProgressView::<AgentStep>::Failed(
                "ensure spike table failed: "@ + cause,
            )
            &&& step is InsertOpened ==> failed == ProgressView::<AgentStep>::Failed(
                "insert spike event '"@ + "agent_open"@ + "' failed: "@ + cause,
            )
            &&& step is SignalReady ==> failed == ProgressView::<AgentStep>::Failed(
                "agent write ready failed: "@ + cause,
            )
            &&& step is AwaitRelease ==> failed == ProgressView::Continue(step)
            &&& step is InsertReleaseRequested ==> failed == ProgressView::<AgentStep>::Failed(
                "insert spike event '"@ + "agent_release_requested"@ + "' failed: "@ + cause,
            )
            &&& step is Checkpoint ==> failed == ProgressView::<AgentStep>::Failed(
                "agent checkpoint failed: "@ + cause,
            )
        }),
{
    lemma_one_more_event(events, AgentEventView::Performed(Err(cause)));
}

/// The agent that has been looking in vain for its release, however often, still waits.
proof fn lemma_agent_waits(before: Seq<AgentEventView>, looks: nat)
    requires
        agent_run(before) == ProgressView::Continue(AgentStep::AwaitRelease),
    ensures
        agent_run(before + Seq::new(looks, |i: int| AgentEventView::ReleaseSeen(false)))
            == ProgressView::Continue(AgentStep::AwaitRelease),
    decreases looks,
{
    let vain = Seq::new(looks, |i: int| AgentEventView::ReleaseSeen(false));
    if looks == 0 {
        assert(before + vain =~= before);
    } else {
        let fewer = Seq::new((looks - 1) as nat, |i: int| AgentEventView::ReleaseSeen(false));
        lemma_agent_waits(before, (looks - 1) as nat);
        assert((before + vain).drop_last() =~= before + fewer);
    }
}

/// An agent whose steps all succeed lets go of the catalogue once it is asked to, however long that
/// takes: it ends without a failure two steps behind the look at which it sees the release.
pub proof fn law_agent_lets_go_once_it_is_asked(looks: nat)
    ensures
        ({
            let done = AgentEventView::Performed(Ok(()));
            let waiting = seq![done, done, done, done] + Seq::new(
                looks,
                |i: int| AgentEventView::ReleaseSeen(false),
            );
            &&& agent_run(waiting) == ProgressView::Continue(AgentStep::AwaitRelease)
            &&& agent_run(
                waiting.push(AgentEventView::ReleaseSeen(true)).push(done).push(done),
            ) is Finished
        }),
{
    let done = AgentEventView::Performed(Ok(()));
    let e0 = Seq::<AgentEventView>::empty();
    lemma_one_more_event(e0, done);
    lemma_one_more_event(e0.push(done), done);
    lemma_one_more_event(e0.push(done).push(done), done);
    lemma_one_more_event(e0.push(done).push(done).push(done), done);
    let four = e0.push(done).push(done).push(done).push(done);
    assert(seq![done, done, done, done] =~= four);
    lemma_agent_waits(four, looks);
    let waiting = four + Seq::new(looks, |i: int| AgentEventView::ReleaseSeen(false));
    let seen = waiting.push(AgentEventView::ReleaseSeen(true));
    lemma_one_more_event(waiting, AgentEventView::ReleaseSeen(true));
    lemma_one_more_event(seen, done);
    lemma_one_more_event(seen.push(done), done);
}

/// How `Agent::advance` moves the agent: as the event says at the step that it stands at, to the
/// step that it hands back, with the same files.
pub proof fn law_agent_advances(
    before: Agent,
    after: Agent,
    event: AgentEvent,
    r: Progress<AgentStep>,
)
    requires
        exists|m: &mut Agent|
            *m == before && *final(m) == after && #[trigger] call_ensures(
                Agent::advance,
                (m, event),
                r,
            ),
    ensures
        r@ == before.step.after(event@),
        r matches Progress::Continue(step) ==> after.step == step,
        !(r is Continue) ==> after.step == before.step,
        before.step is AwaitRelease ==> (r is Continue && (after.step is InsertReleaseRequested
            <==> event == AgentEvent::ReleaseSeen(true)) && (after.step is AwaitRelease <==> event
            != AgentEvent::ReleaseSeen(true))),
        after.catalogue_path == before.catalogue_path,
        after.ready_file == before.ready_file,
        after.release_file == before.release_file,
{
}

/// The phase of a trace says what the agent was doing when it left it.
pub proof fn law_agent_phases(agent: &Agent, r: &'static str)
    requires
        agent.step is InsertOpened || agent.step is InsertReleaseRequested,
        call_ensures(Agent::phase, (agent,), r),
    ensures
        agent.step is InsertOpened ==> r@ == "agent_open"@,
        agent.step is InsertReleaseRequested ==> r@ == "agent_release_requested"@,
{
}

}
