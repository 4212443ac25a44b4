//! The app: it starts an agent, makes sure that it cannot write while the agent holds the
//! catalogue, asks for the release, and writes once the agent is gone.
use crate::handoff::command::argument;
use crate::handoff::progress::{failed, Progress};
#[allow(unused_imports)]
use crate::handoff::progress::{outcome_view, ProgressView};
use vstd::prelude::*;

verus! {

/// How long the app waits for the agent to be ready.
pub const READY_TIMEOUT_NANOS: u128 = 10_000_000_000;

/// How long the app sleeps between two looks for the ready file.
pub const READY_POLL_MILLIS: u64 = 50;

/// What to do after a look for a file.
#[derive(Clone, Copy, Debug, PartialEq, Eq)]
pub enum WaitDecision {
    /// The file is there.
    Ready,
    /// Sleep, and look again.
    Sleep,
    /// The time is up.
    TimedOut,
}

/// What to do after a look for a file: while there is time, take it where it is there and sleep
/// where it is not; once the time is up, give up.
pub fn wait_for_file(elapsed: u128, timeout: u128, found: bool) -> (r: WaitDecision)
    ensures
        r == if elapsed >= timeout {
            WaitDecision::TimedOut
        } else if found {
            WaitDecision::Ready
        } else {
            WaitDecision::Sleep
        },
{
    if elapsed < timeout {
        if found {
            WaitDecision::Ready
        } else {
            WaitDecision::Sleep
        }
    } else {
        WaitDecision::TimedOut
    }
}

/// Whether a process that was waited for succeeded; the message names it and its status where it
/// did not.
pub fn ensure_success(success: bool, status: &str, label: &str) -> (r: Result<(), String>)
    ensures
        success ==> r is Ok,
        !success ==> (r matches Err(m) && m@ == label@ + " exited with "@ + status@),
{
    if success {
        Ok(())
    } else {
        let mut message: String = label.to_owned();
        message.append(" exited with ");
        message.append(status);
        Err(message)
    }
}

/// The steps of the app.
#[derive(Clone, Copy, Debug, PartialEq, Eq)]
pub enum AppStep {
    /// Create the directory of the catalogue, where it has one.
    CreateParent,
    /// Read the clock.
    ReadClock,
    /// Create the directory of the signal files.
    CreateControlDir,
    /// Find the program to run as the agent.
    FindProgram,
    /// Start the agent.
    SpawnAgent,
    /// Look for the ready file; sleep where it is not there.
    AwaitReady,
    /// Kill the agent, which was not ready in time.
    KillAgent,
    /// Try to write while the agent holds the catalogue.
    ProbeOverlap,
    /// Write the release file after that write succeeded.
    ReleaseAfterOverlap,
    /// Wait for the agent after that write succeeded.
    WaitAfterOverlap,
    /// Write the release file.
    Release,
    /// Wait for the agent.
    WaitAgent,
    /// Write now that the agent is gone.
    WriteAfterRelease,
    /// Open the catalogue to count the traces.
    OpenForCount,
    /// Count the traces.
    CountEvents,
}

/// What the app learns.
#[derive(Debug, PartialEq, Eq)]
pub enum AppEvent {
    /// The current step was performed, or failed with this cause.
    Performed(Result<(), String>),
    /// A look for the ready file, so long after the wait began.
    ReadyLooked { elapsed: u128, found: bool },
    /// The agent ended, with this status.
    AgentExited { success: bool, status: String },
}

/// `AppEvent` with its texts as sequences.
pub enum AppEventView {
    Performed(Result<(), Seq<char>>),
    ReadyLooked { elapsed: u128, found: bool },
    AgentExited { success: bool, status: Seq<char> },
}

impl View for AppEvent {
    type V = AppEventView;

    open spec fn view(&self) -> AppEventView {
        match *self {
            AppEvent::Performed(outcome) => AppEventView::Performed(outcome_view(outcome)),
            AppEvent::ReadyLooked { elapsed, found } => AppEventView::ReadyLooked {
                elapsed,
                found,
            },
            AppEvent::AgentExited { success, status } => AppEventView::AgentExited {
                success,
                status: status@,
            },
        }
    }
}

/// The app's part of a handoff.
#[derive(Debug, PartialEq, Eq)]
pub struct Orchestrator {
    pub catalogue_path: String,
    pub step: AppStep,
}

impl AppStep {
    /// The phase of the trace that this step leaves.
    pub open spec fn phase(self) -> Seq<char> {
        if self is ProbeOverlap {
            "app_overlapping_writer_probe"@
        } else {
            "app_after_release"@
        }
    }

    /// What the message of a failure at this step starts with.
    pub open spec fn failure_prefix(self) -> Seq<char> {
        match self {
            AppStep::CreateParent => "create catalogue parent failed: "@,
            AppStep::ReadClock => "system clock before epoch: "@,
            AppStep::CreateControlDir => "create control dir failed: "@,
            AppStep::FindProgram => "current_exe failed: "@,
            AppStep::SpawnAgent => "spawn agent failed: "@,
            AppStep::Release => "write release file failed: "@,
            AppStep::WaitAgent => "wait for agent failed: "@,
            AppStep::WriteAfterRelease => "app open after agent release failed: "@,
            AppStep::OpenForCount => "count open failed: "@,
            _ => "count query failed: "@,
        }
    }

    /// Where the app stands once this step has succeeded, for the steps at which a failure ends
    /// it.
    pub open spec fn next(self) -> ProgressView<AppStep> {
        match self {
            AppStep::CreateParent => ProgressView::Continue(AppStep::ReadClock),
            AppStep::ReadClock => ProgressView::Continue(AppStep::CreateControlDir),
            AppStep::CreateControlDir => ProgressView::Continue(AppStep::FindProgram),
            AppStep::FindProgram => ProgressView::Continue(AppStep::SpawnAgent),
            AppStep::SpawnAgent => ProgressView::Continue(AppStep::AwaitReady),
            AppStep::Release => ProgressView::Continue(AppStep::WaitAgent),
            AppStep::WaitAgent => ProgressView::Continue(AppStep::WriteAfterRelease),
            AppStep::WriteAfterRelease => ProgressView::Continue(AppStep::OpenForCount),
            AppStep::OpenForCount => ProgressView::Continue(AppStep::CountEvents),
            _ => ProgressView::Finished,
        }
    }

    /// Where the app stands once this step has been performed, or has failed.
    pub open spec fn after_performed(
        self,
        ready_file: Seq<char>,
        outcome: Result<(), Seq<char>>,
    ) -> ProgressView<AppStep> {
        match self {
            AppStep::AwaitReady => ProgressView::Continue(self),
            AppStep::KillAgent => ProgressView::Failed("timed out waiting for "@ + ready_file),
            AppStep::ProbeOverlap => if outcome is Ok {
                ProgressView::Continue(AppStep::ReleaseAfterOverlap)
            } else {
                ProgressView::Continue(AppStep::Release)
            },
            AppStep::ReleaseAfterOverlap => ProgressView::Continue(AppStep::WaitAfterOverlap),
            AppStep::WaitAfterOverlap => ProgressView::Failed(overlap_message()),
            AppStep::WaitAgent => match outcome {
                Ok(()) => ProgressView::Continue(self),
                Err(cause) => ProgressView::Failed(self.failure_prefix() + cause),
            },
            _ => match outcome {
                Ok(()) => self.next(),
                Err(cause) => ProgressView::Failed(self.failure_prefix() + cause),
            },
        }
    }

    /// Where the app stands once it has learned of an event at this step. A look for the ready
    /// file matters only while the app waits for it, and the agent's end only while the app waits
    /// for that.
    pub open spec fn after(self, ready_file: Seq<char>, event: AppEventView) -> ProgressView<
        AppStep,
    > {
        match event {
            AppEventView::Performed(outcome) => self.after_performed(ready_file, outcome),
            AppEventView::ReadyLooked { elapsed, found } => if !(self is AwaitReady) {
                ProgressView::Continue(self)
            } else if elapsed >= READY_TIMEOUT_NANOS {
                ProgressView::Continue(AppStep::KillAgent)
            } else if found {
                ProgressView::Continue(AppStep::ProbeOverlap)
            } else {
                ProgressView::Continue(self)
            },
            AppEventView::AgentExited { success, status } => match self {
                AppStep::WaitAgent => if success {
                    self.next()
                } else {
                    ProgressView::Failed("agent"@ + " exited with "@ + status)
                },
                AppStep::WaitAfterOverlap => ProgressView::Failed(overlap_message()),
                _ => ProgressView::Continue(self),
            },
        }
    }
}

/// The message of a write that succeeded while the agent held the catalogue.
pub open spec fn overlap_message() -> Seq<char> {
    "overlapping app writer unexpectedly opened and wrote while agent held catalogue"@
}

/// Where the app stands once it has learned of the given events, one after the other.
pub open spec fn app_run(ready_file: Seq<char>, events: Seq<AppEventView>) -> ProgressView<AppStep>
    decreases events.len(),
{
    if events.len() == 0 {
        ProgressView::Continue(AppStep::CreateParent)
    } else {
        match app_run(ready_file, events.drop_last()) {
            ProgressView::Continue(step) => step.after(ready_file, events.last()),
            ended => ended,
        }
    }
}

/// The app's part of a handoff of the catalogue that the argument behind the command names.
pub fn run_orchestrator(args: &Vec<String>) -> (r: Result<Orchestrator, String>)
    ensures
        match r {
            Ok(app) => {
                &&& args@.len() > 2
                &&& app.catalogue_path@ == args@[2]@
                &&& app.step is CreateParent
            },
            Err(message) => args@.len() <= 2 && message@ == "run requires <catalogue-path>"@,
        },
{
    match argument(args, 2, "run requires <catalogue-path>") {
        Ok(catalogue_path) => Ok(Orchestrator { catalogue_path, step: AppStep::CreateParent }),
        Err(message) => Err(message),
    }
}

impl Orchestrator {
    /// The phase of the trace that the current step leaves.
    pub fn phase(&self) -> (r: &'static str)
        requires
            self.step is ProbeOverlap || self.step is WriteAfterRelease,
        ensures
            r@ == self.step.phase(),
    {
        match self.step {
            AppStep::ProbeOverlap => "app_overlapping_writer_probe",
            _ => "app_after_release",
        }
    }

    /// Where the app stands once the current step has failed, for the steps at which a failure
    /// ends it.
    fn fail(&self, cause: &str) -> (r: Progress<AppStep>)
        ensures
            r@ == ProgressView::<AppStep>::Failed(self.step.failure_prefix() + cause@),
    {
        match self.step {
            AppStep::CreateParent => failed("create catalogue parent failed: ", cause),
            AppStep::ReadClock => failed("system clock before epoch: ", cause),
            AppStep::CreateControlDir => failed("create control dir failed: ", cause),
            AppStep::FindProgram => failed("current_exe failed: ", cause),
            AppStep::SpawnAgent => failed("spawn agent failed: ", cause),
            AppStep::Release => failed("write release file failed: ", cause),
            AppStep::WaitAgent => failed("wait for agent failed: ", cause),
            AppStep::WriteAfterRelease => failed("app open after agent release failed: ", cause),
            AppStep::OpenForCount => failed("count open failed: ", cause),
            _ => failed("count query failed: ", cause),
        }
    }

    /// Moves to a step.
    fn go_to(&mut self, step: AppStep) -> (r: Progress<AppStep>)
        ensures
            r@ == ProgressView::<AppStep>::Continue(step),
            *final(self) == (Orchestrator { step, ..*old(self) }),
    {
        self.step = step;
        Progress::Continue(step)
    }

    /// Moves on to the step behind the current one, where there is one.
    fn proceed(&mut self) -> (r: Progress<AppStep>)
        ensures
            r@ == old(self).step.next(),
            *final(self) == (Orchestrator {
                step: match r {
                    Progress::Continue(step) => step,
                    _ => old(self).step,
                },
                ..*old(self)
            }),
    {
        match self.step {
            AppStep::CreateParent => self.go_to(AppStep::ReadClock),
            AppStep::ReadClock => self.go_to(AppStep::CreateControlDir),
            AppStep::CreateControlDir => self.go_to(AppStep::FindProgram),
            AppStep::FindProgram => self.go_to(AppStep::SpawnAgent),
            AppStep::SpawnAgent => self.go_to(AppStep::AwaitReady),
            AppStep::Release => self.go_to(AppStep::WaitAgent),
            AppStep::WaitAgent => self.go_to(AppStep::WriteAfterRelease),
            AppStep::WriteAfterRelease => self.go_to(AppStep::OpenForCount),
            AppStep::OpenForCount => self.go_to(AppStep::CountEvents),
            _ => Progress::Finished,
        }
    }

    /// Takes what came of the current step.
    fn performed(&mut self, ready_file: &str, outcome: Result<(), String>) -> (r: Progress<AppStep>)
        ensures
            r@ == old(self).step.after_performed(ready_file@, outcome_view(outcome)),
            *final(self) == (Orchestrator {
                step: match r {
                    Progress::Continue(step) => step,
                    _ => old(self).step,
                },
                ..*old(self)
            }),
    {
        match self.step {
            AppStep::AwaitReady => self.go_to(AppStep::AwaitReady),
            AppStep::KillAgent => failed("timed out waiting for ", ready_file),
            AppStep::ProbeOverlap => match outcome {
                Ok(()) => self.go_to(AppStep::ReleaseAfterOverlap),
                Err(cause) => self.go_to(AppStep::Release),
            },
            AppStep::ReleaseAfterOverlap => self.go_to(AppStep::WaitAfterOverlap),
            AppStep::WaitAfterOverlap => Progress::Failed(
                "overlapping app writer unexpectedly opened and wrote while agent held catalogue".to_owned(),
            ),
            AppStep::WaitAgent => match outcome {
                Ok(()) => self.go_to(AppStep::WaitAgent),
                Err(cause) => self.fail(cause.as_str()),
            },
            _ => match outcome {
                Ok(()) => self.proceed(),
                Err(cause) => self.fail(cause.as_str()),
            },
        }
    }

    /// Takes an event, and moves on to the next step where the event says so. `ready_file` is how
    /// the ready file is shown where the agent was not ready in time.
    pub fn advance(&mut self, ready_file: &str, event: AppEvent) -> (r: Progress<AppStep>)
        ensures
            r@ == old(self).step.after(ready_file@, event@),
            *final(self) == (Orchestrator {
                step: match r {
                    Progress::Continue(step) => step,
                    _ => old(self).step,
                },
                ..*old(self)
            }),
    {
        match event {
            AppEvent::Performed(outcome) => self.performed(ready_file, outcome),
            AppEvent::ReadyLooked { elapsed, found } => match self.step {
                AppStep::AwaitReady => match wait_for_file(elapsed, READY_TIMEOUT_NANOS, found) {
                    WaitDecision::Ready => self.go_to(AppStep::ProbeOverlap),
                    WaitDecision::Sleep => self.go_to(AppStep::AwaitReady),
                    WaitDecision::TimedOut => self.go_to(AppStep::KillAgent),
                },
                step => Progress::Continue(step),
            },
            AppEvent::AgentExited { success, status } => match self.step {
                AppStep::WaitAgent => match ensure_success(success, status.as_str(), "agent") {
                    Ok(()) => self.proceed(),
                    Err(message) => Progress::Failed(message),
                },
                AppStep::WaitAfterOverlap => Progress::Failed(
                    "overlapping app writer unexpectedly opened and wrote while agent held catalogue".to_owned(),
                ),
                step => Progress::Continue(step),
            },
        }
    }
}

/// Whether the agent is gone as far as the app knows, so that the app may write.
pub open spec fn agent_is_gone(at: ProgressView<AppStep>) -> bool {
    match at {
        ProgressView::Continue(step) => step is WriteAfterRelease || step is OpenForCount
            || step is CountEvents,
        ProgressView::Finished => true,
        ProgressView::Failed(message) => false,
    }
}

/// Whether the app has asked for the release on the way to its own write.
pub open spec fn has_released(at: ProgressView<AppStep>) -> bool {
    agent_is_gone(at) || at == ProgressView::Continue(AppStep::WaitAgent)
}

/// Whether the app's overlapping write was refused.
pub open spec fn overlap_was_refused(at: ProgressView<AppStep>) -> bool {
    has_released(at) || at == ProgressView::Continue(AppStep::Release)
}

/// Whether the app's overlapping write succeeded.
pub open spec fn overlap_happened(at: ProgressView<AppStep>) -> bool {
    ||| at == ProgressView::Continue(AppStep::ReleaseAfterOverlap)
    ||| at == ProgressView::Continue(AppStep::WaitAfterOverlap)
    ||| at == ProgressView::<AppStep>::Failed(overlap_message())
}

/// The app writes after the handoff only once the agent has ended with success: no handoff passes
/// without it.
pub proof fn law_app_writes_once_the_agent_is_gone(
    ready_file: Seq<char>,
    events: Seq<AppEventView>,
)
    requires
        agent_is_gone(app_run(ready_file, events)),
    ensures
        exists|i: int|
            #![trigger events[i]]
            0 <= i < events.len() && (events[i] matches AppEventView::AgentExited {
                success,
                ..
            } && success) && app_run(ready_file, events.take(i)) == ProgressView::Continue(
                AppStep::WaitAgent,
            ),
    decreases events.len(),
{
    let n: int = events.len() - 1;
    let rest = events.drop_last();
    assert(events.take(n) =~= rest);
    if agent_is_gone(app_run(ready_file, rest)) {
        law_app_writes_once_the_agent_is_gone(ready_file, rest);
        let i = choose|i: int|
            #![trigger rest[i]]
            0 <= i < rest.len() && (rest[i] matches AppEventView::AgentExited { success, .. }
                && success) && app_run(ready_file, rest.take(i)) == ProgressView::Continue(
                AppStep::WaitAgent,
            );
        assert(rest.take(i) =~= events.take(i));
        assert(events[i] == rest[i]);
    } else {
        assert(events[n] == events.last());
    }
}

/// The app waits for the agent only once it has asked for the release.
pub proof fn law_app_asks_before_it_waits(ready_file: Seq<char>, events: Seq<AppEventView>)
    requires
        has_released(app_run(ready_file, events)),
    ensures
        exists|i: int|
            #![trigger events[i]]
            0 <= i < events.len() && (events[i] matches AppEventView::Performed(outcome)
                && outcome is Ok) && app_run(ready_file, events.take(i)) == ProgressView::Continue(AppStep::Release),
    decreases events.len(),
{
    let n: int = events.len() - 1;
    let rest = events.drop_last();
    assert(events.take(n) =~= rest);
    if has_released(app_run(ready_file, rest)) {
        law_app_asks_before_it_waits(ready_file, rest);
        let i = choose|i: int|
            #![trigger rest[i]]
            0 <= i < rest.len() && (rest[i] matches AppEventView::Performed(outcome)
                && outcome is Ok) && app_run(ready_file, rest.take(i)) == ProgressView::Continue(AppStep::Release);
        assert(rest.take(i) =~= events.take(i));
        assert(events[i] == rest[i]);
    } else {
        assert(events[n] == events.last());
    }
}

/// A handoff gets as far as the release, and so passes, only where the app's write was refused
/// while the agent held the catalogue.
pub proof fn law_handoff_passes_only_if_overlap_is_refused(
    ready_file: Seq<char>,
    events: Seq<AppEventView>,
)
    requires
        overlap_was_refused(app_run(ready_file, events)),
    ensures
        exists|i: int|
            #![trigger events[i]]
            0 <= i < events.len() && (events[i] matches AppEventView::Performed(outcome)
                && outcome is Err) && app_run(ready_file, events.take(i)) == ProgressView::Continue(
                AppStep::ProbeOverlap,
            ),
    decreases events.len(),
{
    let n: int = events.len() - 1;
    let rest = events.drop_last();
    assert(events.take(n) =~= rest);
    if overlap_was_refused(app_run(ready_file, rest)) {
        law_handoff_passes_only_if_overlap_is_refused(ready_file, rest);
        let i = choose|i: int|
            #![trigger rest[i]]
            0 <= i < rest.len() && (rest[i] matches AppEventView::Performed(outcome)
                && outcome is Err) && app_run(ready_file, rest.take(i)) == ProgressView::Continue(
                AppStep::ProbeOverlap,
            );
        assert(rest.take(i) =~= events.take(i));
        assert(events[i] == rest[i]);
    } else {
        assert(events[n] == events.last());
    }
}

/// Once the app's write has succeeded while the agent held the catalogue, the handoff cannot pass:
/// whatever comes, the release is still asked for, the agent is still waited for, and the message
/// says what happened.
pub proof fn law_overlap_never_passes(
    ready_file: Seq<char>,
    before: Seq<AppEventView>,
    later: Seq<AppEventView>,
)
    requires
        app_run(ready_file, before) == ProgressView::Continue(AppStep::ProbeOverlap),
    ensures
        overlap_happened(
            app_run(ready_file, before.push(AppEventView::Performed(Ok(()))) + later),
        ),
    decreases later.len(),
{
    let start = before.push(AppEventView::Performed(Ok(())));
    if later.len() == 0 {
        assert(start + later =~= start);
        assert(start.drop_last() =~= before);
    } else {
        law_overlap_never_passes(ready_file, before, later.drop_last());
        assert((start + later).drop_last() =~= start + later.drop_last());
    }
}

/// One more event moves the app from where it stood.
proof fn lemma_one_more_event(
    ready_file: Seq<char>,
    events: Seq<AppEventView>,
    event: AppEventView,
)
    ensures
        app_run(ready_file, events.push(event)) == match app_run(ready_file, events) {
            ProgressView::Continue(step) => step.after(ready_file, event),
            ended => ended,
        },
{
    assert(events.push(event).drop_last() =~= events);
}

/// The wait for the agent ends: every look ten seconds or more behind its start leads to the
/// agent's kill, whether or not the file is there; every earlier look at which the file is there
/// leads on, and only an earlier look at which it is not leaves the app waiting.
pub proof fn law_wait_ends_at_the_timeout(
    ready_file: Seq<char>,
    events: Seq<AppEventView>,
    elapsed: u128,
    found: bool,
)
    requires
        app_run(ready_file, events) == ProgressView::Continue(AppStep::AwaitReady),
    ensures
        ({
            let looked = app_run(
                ready_file,
                events.push(AppEventView::ReadyLooked { elapsed, found }),
            );
            &&& elapsed >= 10_000_000_000 ==> looked == ProgressView::Continue(AppStep::KillAgent)
            &&& elapsed < 10_000_000_000 && found ==> looked == ProgressView::Continue(
                AppStep::ProbeOverlap,
            )
            &&& elapsed < 10_000_000_000 && !found ==> looked == ProgressView::Continue(
                AppStep::AwaitReady,
            )
        }),
{
    lemma_one_more_event(ready_file, events, AppEventView::ReadyLooked { elapsed, found });
}

/// Once the agent was to be killed the app fails, whether or not the kill succeeds, and names the
/// file that it waited for.
pub proof fn law_killed_agent_fails_the_handoff(
    ready_file: Seq<char>,
    events: Seq<AppEventView>,
    outcome: Result<(), Seq<char>>,
)
    requires
        app_run(ready_file, events) == ProgressView::Continue(AppStep::KillAgent),
    ensures
        app_run(ready_file, events.push(AppEventView::Performed(outcome))) == ProgressView::<
            AppStep,
        >::Failed("timed out waiting for "@ + ready_file),
{
    lemma_one_more_event(ready_file, events, AppEventView::Performed(outcome));
}

/// The app starts with the directory of the catalogue, and each step that succeeds leads to the
/// next: the clock, the directory of the signal files, the program, the agent, the wait; behind the
/// release the wait for the agent's end; behind its own write the count. Success alone does not end
/// either wait.
pub proof fn law_app_goes_through_its_steps(
    ready_file: Seq<char>,
    events: Seq<AppEventView>,
    step: AppStep,
    outcome: Result<(), Seq<char>>,
)
    requires
        app_run(ready_file, events) == ProgressView::Continue(step),
        outcome is Ok,
    ensures
        app_run(ready_file, Seq::empty()) == ProgressView::Continue(AppStep::CreateParent),
        ({
            let done = app_run(ready_file, events.push(AppEventView::Performed(outcome)));
            &&& step is CreateParent ==> done == ProgressView::Continue(AppStep::ReadClock)
            &&& step is ReadClock ==> done == ProgressView::Continue(AppStep::CreateControlDir)
            &&& step is CreateControlDir ==> done == ProgressView::Continue(AppStep::FindProgram)
            &&& step is FindProgram ==> done == ProgressView::Continue(AppStep::SpawnAgent)
            &&& step is SpawnAgent ==> done == ProgressView::Continue(AppStep::AwaitReady)
            &&& step is AwaitReady ==> done == ProgressView::Continue(AppStep::AwaitReady)
            &&& step is ProbeOverlap ==> done == ProgressView::Continue(
                AppStep::ReleaseAfterOverlap,
            )
            &&& step is Release ==> done == ProgressView::Continue(AppStep::WaitAgent)
            &&& step is WaitAgent ==> done == ProgressView::Continue(AppStep::WaitAgent)
            &&& step is WriteAfterRelease ==> done == ProgressView::Continue(AppStep::OpenForCount)
            &&& step is OpenForCount ==> done == ProgressView::Continue(AppStep::CountEvents)
            &&& step is CountEvents ==> done is Finished
        }),
{
    lemma_one_more_event(ready_file, events, AppEventView::Performed(outcome));
}

/// A step that fails ends the app, with a message that says which step it was and why. Three
/// failures do not: the refusal of the overlapping write, which leads to the release, and what
/// fails once that write has succeeded.
pub proof fn law_app_fails_with_its_step(
    ready_file: Seq<char>,
    events: Seq<AppEventView>,
    step: AppStep,
    cause: Seq<char>,
)
    requires
        app_run(ready_file, events) == ProgressView::Continue(step),
    ensures
        ({
            let failed = app_run(ready_file, events.push(AppEventView::Performed(Err(cause))));
            &&& step is CreateParent ==> failed == ProgressView::<AppStep>::Failed(
                "create catalogue parent failed: "@ + cause,
            )
            &&& step is ReadClock ==> failed == ProgressView::<AppStep>::Failed(
                "system clock before epoch: "@ + cause,
            )
            &&& step is CreateControlDir ==> failed == ProgressView::<AppStep>::Failed(
                "create control dir failed: "@ + cause,
            )
            &&& step is FindProgram ==> failed == ProgressView::<AppStep>::Failed(
                "current_exe failed: "@ + cause,
            )
            &&& step is SpawnAgent ==> failed == ProgressView::<AppStep>::Failed(
                "spawn agent failed: "@ + cause,
            )
            &&& step is ProbeOverlap ==> failed == ProgressView::Continue(AppStep::Release)
            &&& step is ReleaseAfterOverlap ==> failed == ProgressView::Continue(
                AppStep::WaitAfterOverlap,
            )
            &&& step is Release ==> failed == ProgressView::<AppStep>::Failed(
                "write release file failed: "@ + cause,
            )
            &&& step is WaitAgent ==> failed == ProgressView::<AppStep>::Failed(
                "wait for agent failed: "@ + cause,
            )
            &&& step is WriteAfterRelease ==> failed == ProgressView::<AppStep>::Failed(
                "app open after agent release failed: "@ + cause,
            )
            &&& step is OpenForCount ==> failed == ProgressView::<AppStep>::Failed(
                "count open failed: "@ + cause,
            )
            &&& step is CountEvents ==> failed == ProgressView::<AppStep>::Failed(
                "count query failed: "@ + cause,
            )
        }),
{
    lemma_one_more_event(ready_file, events, AppEventView::Performed(Err(cause)));
}

/// The agent's end leads on to the app's own write where the agent succeeded, and ends the app with
/// the agent's status where it did not. At any step but the two waits for it, it moves nothing, and
/// neither does a look for the ready file outside the wait for that.
pub proof fn law_agents_end_decides(
    ready_file: Seq<char>,
    events: Seq<AppEventView>,
    step: AppStep,
    success: bool,
    status: Seq<char>,
    elapsed: u128,
    found: bool,
)
    requires
        app_run(ready_file, events) == ProgressView::Continue(step),
    ensures
        ({
            let ended = app_run(
                ready_file,
                events.push(AppEventView::AgentExited { success, status }),
            );
            let looked = app_run(
                ready_file,
                events.push(AppEventView::ReadyLooked { elapsed, found }),
            );
            &&& step is WaitAgent && success ==> ended == ProgressView::Continue(
                AppStep::WriteAfterRelease,
            )
            &&& step is WaitAgent && !success ==> ended == ProgressView::<AppStep>::Failed(
                "agent"@ + " exited with "@ + status,
            )
            &&& !(step is WaitAgent) && !(step is WaitAfterOverlap) ==> ended
                == ProgressView::Continue(step)
            &&& !(step is AwaitReady) ==> looked == ProgressView::Continue(step)
        }),
{
    lemma_one_more_event(ready_file, events, AppEventView::AgentExited { success, status });
    lemma_one_more_event(ready_file, events, AppEventView::ReadyLooked { elapsed, found });
}

/// A write that succeeds while the agent holds the catalogue fails the handoff with a message of its
/// own: behind it the release is written and the agent is waited for, and what comes of either does
/// not matter.
pub proof fn law_overlap_fails_the_handoff(
    ready_file: Seq<char>,
    events: Seq<AppEventView>,
    probed: Result<(), Seq<char>>,
    released: Result<(), Seq<char>>,
    waited: Result<(), Seq<char>>,
    success: bool,
    status: Seq<char>,
)
    requires
        app_run(ready_file, events) == ProgressView::Continue(AppStep::ProbeOverlap),
        probed is Ok,
    ensures
        ({
            let failed = ProgressView::<AppStep>::Failed(
                "overlapping app writer unexpectedly opened and wrote while agent held catalogue"@,
            );
            let asked = events.push(AppEventView::Performed(probed)).push(
                AppEventView::Performed(released),
            );
            &&& app_run(ready_file, asked) == ProgressView::Continue(AppStep::WaitAfterOverlap)
            &&& app_run(ready_file, asked.push(AppEventView::Performed(waited))) == failed
            &&& app_run(ready_file, asked.push(AppEventView::AgentExited { success, status }))
                == failed
        }),
{
    let wrote = events.push(AppEventView::Performed(probed));
    let asked = wrote.push(AppEventView::Performed(released));
    lemma_one_more_event(ready_file, events, AppEventView::Performed(probed));
    lemma_one_more_event(ready_file, wrote, AppEventView::Performed(released));
    lemma_one_more_event(ready_file, asked, AppEventView::Performed(waited));
    lemma_one_more_event(ready_file, asked, AppEventView::AgentExited { success, status });
}

/// Looks in vain within the time leave the app waiting.
proof fn lemma_app_waits(ready_file: Seq<char>, before: Seq<AppEventView>, looks: Seq<u128>)
    requires
        app_run(ready_file, before) == ProgressView::Continue(AppStep::AwaitReady),
        forall|i: int| 0 <= i < looks.len() ==> #[trigger] looks[i] < 10_000_000_000,
    ensures
        app_run(
            ready_file,
            before + looks.map_values(
                |elapsed: u128| AppEventView::ReadyLooked { elapsed, found: false },
            ),
        ) == ProgressView::Continue(AppStep::AwaitReady),
    decreases looks.len(),
{
    let look = |elapsed: u128| AppEventView::ReadyLooked { elapsed, found: false };
    if looks.len() == 0 {
        assert(before + looks.map_values(look) =~= before);
    } else {
        let fewer = looks.drop_last();
        assert forall|i: int| 0 <= i < fewer.len() implies #[trigger] fewer[i] < 10_000_000_000 by {
            assert(fewer[i] == looks[i]);
        }
        lemma_app_waits(ready_file, before, fewer);
        assert(looks[looks.len() - 1] < 10_000_000_000);
        assert((before + looks.map_values(look)).drop_last() =~= before + fewer.map_values(look));
        assert((before + looks.map_values(look)).last() == look(looks.last()));
    }
}

/// A handoff passes where it should: the agent is ready in time, after any number of looks in vain,
/// the overlapping write is refused, the agent ends with success, and every other step succeeds.
pub proof fn law_handoff_passes(
    ready_file: Seq<char>,
    looks: Seq<u128>,
    ready_at: u128,
    refusal: Seq<char>,
    status: Seq<char>,
)
    requires
        forall|i: int| 0 <= i < looks.len() ==> #[trigger] looks[i] < 10_000_000_000,
        ready_at < 10_000_000_000,
    ensures
        ({
            let done = AppEventView::Performed(Ok(()));
            let waiting = seq![done, done, done, done, done] + looks.map_values(
                |elapsed: u128| AppEventView::ReadyLooked { elapsed, found: false },
            );
            app_run(
                ready_file,
                waiting.push(AppEventView::ReadyLooked { elapsed: ready_at, found: true }).push(
                    AppEventView::Performed(Err(refusal)),
                ).push(done).push(AppEventView::AgentExited { success: true, status }).push(
                    done,
                ).push(done).push(done),
            ) is Finished
        }),
{
    let done = AppEventView::Performed(Ok(()));
    let e0 = Seq::<AppEventView>::empty();
    lemma_one_more_event(ready_file, e0, done);
    lemma_one_more_event(ready_file, e0.push(done), done);
    lemma_one_more_event(ready_file, e0.push(done).push(done), done);
    lemma_one_more_event(ready_file, e0.push(done).push(done).push(done), done);
    lemma_one_more_event(ready_file, e0.push(done).push(done).push(done).push(done), done);
    let five = e0.push(done).push(done).push(done).push(done).push(done);
    assert(seq![done, done, done, done, done] =~= five);
    lemma_app_waits(ready_file, five, looks);
    let waiting = five + looks.map_values(
        |elapsed: u128| AppEventView::ReadyLooked { elapsed, found: false },
    );
    let look = AppEventView::ReadyLooked { elapsed: ready_at, found: true };
    let refused = AppEventView::Performed(Err(refusal));
    let ended = AppEventView::AgentExited { success: true, status };
    let a = waiting.push(look);
    let b = a.push(refused);
    let c = b.push(done);
    let d = c.push(ended);
    lemma_one_more_event(ready_file, waiting, look);
    lemma_one_more_event(ready_file, a, refused);
    lemma_one_more_event(ready_file, b, done);
    lemma_one_more_event(ready_file, c, ended);
    lemma_one_more_event(ready_file, d, done);
    lemma_one_more_event(ready_file, d.push(done), done);
    lemma_one_more_event(ready_file, d.push(done).push(done), done);
}

/// How `Orchestrator::advance` moves the app: as the event says at the step that it stands at, to the
/// step that it hands back, over the same catalogue.
pub proof fn law_app_advances(
    before: Orchestrator,
    after: Orchestrator,
    ready_file: &str,
    event: AppEvent,
    r: Progress<AppStep>,
)
    requires
        exists|m: &mut Orchestrator|
            *m == before && *final(m) == after && #[trigger] call_ensures(
                Orchestrator::advance,
                (m, ready_file, event),
                r,
            ),
    ensures
        r@ == before.step.after(ready_file@, event@),
        r matches Progress::Continue(step) ==> after.step == step,
        !(r is Continue) ==> after.step == before.step,
        after.catalogue_path == before.catalogue_path,
{
}

/// At the wait for the agent, `Orchestrator::advance` goes by the look alone: at ten seconds or more
/// it moves to the kill, whether or not the file was found; before that it moves on where the file
/// was found, and stays where it was not.
pub proof fn law_look_for_the_ready_file(
    before: Orchestrator,
    after: Orchestrator,
    ready_file: &str,
    elapsed: u128,
    found: bool,
    r: Progress<AppStep>,
)
    requires
        before.step is AwaitReady,
        exists|m: &mut Orchestrator|
            *m == before && *final(m) == after && #[trigger] call_ensures(
                Orchestrator::advance,
                (m, ready_file, (AppEvent::ReadyLooked { elapsed, found })),
                r,
            ),
    ensures
        r is Continue,
        elapsed >= 10_000_000_000 ==> after.step is KillAgent,
        elapsed < 10_000_000_000 && found ==> after.step is ProbeOverlap,
        elapsed < 10_000_000_000 && !found ==> after.step is AwaitReady,
        r == Progress::Continue(after.step),
{
}

/// A look for a file is decided by the time first: past the timeout it is given up, before that it
/// is ready where it was found and slept for where it was not. A process is taken as it ended.
pub proof fn law_looks_and_ends_are_told(
    elapsed: u128,
    timeout: u128,
    found: bool,
    decision: WaitDecision,
    success: bool,
    status: &str,
    label: &str,
    r: Result<(), String>,
)
    requires
        call_ensures(wait_for_file, (elapsed, timeout, found), decision),
        call_ensures(ensure_success, (success, status, label), r),
    ensures
        decision is TimedOut <==> elapsed >= timeout,
        decision is Ready <==> elapsed < timeout && found,
        decision is Sleep <==> elapsed < timeout && !found,
        r is Ok <==> success,
        r matches Err(message) ==> message@ == label@ + " exited with "@ + status@,
{
}

/// The phase of a trace says what the app was doing when it left it.
pub proof fn law_app_phases(app: &Orchestrator, r: &'static str)
    requires
        app.step is ProbeOverlap || app.step is WriteAfterRelease,
        call_ensures(Orchestrator::phase, (app,), r),
    ensures
        app.step is ProbeOverlap ==> r@ == "app_overlapping_writer_probe"@,
        app.step is WriteAfterRelease ==> r@ == "app_after_release"@,
{
}

}
