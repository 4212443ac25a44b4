use photolibrariancore::handoff::agent::{run_agent, Agent, AgentEvent, AgentStep};
use photolibrariancore::handoff::command::{invocation, run_open_once, usage_lines, Invocation};
use photolibrariancore::handoff::orchestrator::{
    ensure_success, run_orchestrator, wait_for_file, AppEvent, AppStep, Orchestrator, WaitDecision,
    READY_TIMEOUT_NANOS,
};
use photolibrariancore::handoff::progress::Progress;
use photolibrariancore::handoff::statements::{
    control_dir_name, count_spike_events_sql, ensure_spike_table_sql, insert_spike_event_sql,
    ready_contents, ready_file_name, release_contents, release_file_name, spike_event,
};
use photolibrariancore::handoff::writer::{OpenAndWrite, WriterStep};

fn args(list: &[&str]) -> Vec<String> {
    list.iter().map(|s| s.to_string()).collect()
}

fn cause(text: &str) -> Result<(), String> {
    Err(text.to_string())
}

#[test]
fn commands() {
    assert_eq!(invocation(&args(&["p", "run"])), Invocation::Run);
    assert_eq!(invocation(&args(&["p", "agent"])), Invocation::Agent);
    assert_eq!(invocation(&args(&["p", "open-once", "x"])), Invocation::OpenOnce);
    assert_eq!(invocation(&args(&["p", "Run"])), Invocation::Unknown);
    assert_eq!(invocation(&args(&["run"])), Invocation::Unknown);
    assert_eq!(invocation(&args(&[])), Invocation::Unknown);
}

#[test]
fn usage_names_the_program() {
    assert_eq!(
        usage_lines(&args(&["spike", "x"])),
        vec![
            "Usage:",
            "  spike run <catalogue-path>",
            "  spike agent <catalogue-path> <ready-file> <release-file>",
            "  spike open-once <catalogue-path> <phase>",
        ]
    );
    assert_eq!(usage_lines(&args(&[]))[1], "  duckdb_handoff_spike run <catalogue-path>");
}

#[test]
fn missing_arguments() {
    assert_eq!(
        run_open_once(&args(&["p", "open-once"])),
        Err("open-once requires <catalogue-path>".to_string())
    );
    assert_eq!(
        run_open_once(&args(&["p", "open-once", "c"])),
        Err("open-once requires <phase>".to_string())
    );
    assert_eq!(
        run_orchestrator(&args(&["p", "run"])),
        Err("run requires <catalogue-path>".to_string())
    );
    assert_eq!(
        run_agent(&args(&["p", "agent"])),
        Err("agent requires <catalogue-path>".to_string())
    );
    assert_eq!(
        run_agent(&args(&["p", "agent", "c"])),
        Err("agent requires <ready-file>".to_string())
    );
    assert_eq!(
        run_agent(&args(&["p", "agent", "c", "r"])),
        Err("agent requires <release-file>".to_string())
    );
}

#[test]
fn statements_over_the_table() {
    assert_eq!(
        ensure_spike_table_sql(),
        "CREATE TABLE IF NOT EXISTS _photolib_h1_handoff_spike (
            phase TEXT NOT NULL,
            detail TEXT,
            pid BIGINT,
            event_at TIMESTAMP DEFAULT CURRENT_TIMESTAMP
        );"
    );
    assert_eq!(
        insert_spike_event_sql(),
        "INSERT INTO _photolib_h1_handoff_spike (phase, detail, pid) VALUES (?1, ?2, ?3)"
    );
    assert_eq!(count_spike_events_sql(), "SELECT COUNT(*) FROM _photolib_h1_handoff_spike");
    let event = spike_event("agent_open", u32::MAX);
    assert_eq!(event.phase, "agent_open");
    assert_eq!(event.detail, "duckdb handoff spike");
    assert_eq!(event.pid, 4294967295);
    assert_eq!(control_dir_name(42, 1700000000000), "photolib_h1_handoff_42_1700000000000");
}

#[test]
fn visit_that_succeeds() {
    let mut visit = run_open_once(&args(&["p", "open-once", "c.db", "now"])).unwrap();
    assert_eq!(visit.catalogue_path, "c.db");
    assert_eq!(visit.phase, "now");
    assert_eq!(visit.step, WriterStep::Open);
    assert_eq!(visit.advance(Ok(())), Progress::Continue(WriterStep::EnsureTable));
    assert_eq!(visit.advance(Ok(())), Progress::Continue(WriterStep::InsertEvent));
    assert_eq!(visit.advance(Ok(())), Progress::Continue(WriterStep::Checkpoint));
    assert_eq!(visit.advance(Ok(())), Progress::Finished);
}

#[test]
fn visit_fails_with_the_first_failure() {
    let messages = [
        "open failed: e",
        "ensure spike table failed: e",
        "insert spike event 'now' failed: e",
        "checkpoint failed: e",
    ];
    for (k, message) in messages.iter().enumerate() {
        let mut visit = OpenAndWrite::new("c.db".to_string(), "now".to_string());
        for _ in 0..k {
            visit.advance(Ok(()));
        }
        assert_eq!(visit.advance(cause("e")), Progress::Failed(message.to_string()));
    }
}

fn agent() -> Agent {
    run_agent(&args(&["p", "agent", "c.db", "ready", "release"])).unwrap()
}

#[test]
fn agent_holds_the_catalogue_until_the_release() {
    let mut a = agent();
    assert_eq!(a.ready_file, "ready");
    assert_eq!(a.release_file, "release");
    let done = || AgentEvent::Performed(Ok(()));
    assert_eq!(a.advance(AgentEvent::ReleaseSeen(true)), Progress::Continue(AgentStep::Open));
    assert_eq!(a.advance(done()), Progress::Continue(AgentStep::EnsureTable));
    assert_eq!(a.advance(done()), Progress::Continue(AgentStep::InsertOpened));
    assert_eq!(a.phase(), "agent_open");
    assert_eq!(a.advance(done()), Progress::Continue(AgentStep::SignalReady));
    assert_eq!(a.advance(done()), Progress::Continue(AgentStep::AwaitRelease));
    for _ in 0..3 {
        let look = a.advance(AgentEvent::ReleaseSeen(false));
        assert_eq!(look, Progress::Continue(AgentStep::AwaitRelease));
    }
    assert_eq!(a.advance(done()), Progress::Continue(AgentStep::AwaitRelease));
    let seen = a.advance(AgentEvent::ReleaseSeen(true));
    assert_eq!(seen, Progress::Continue(AgentStep::InsertReleaseRequested));
    assert_eq!(a.phase(), "agent_release_requested");
    assert_eq!(a.advance(done()), Progress::Continue(AgentStep::Checkpoint));
    assert_eq!(a.advance(done()), Progress::Finished);
}

#[test]
fn agent_failures() {
    let messages = [
        (AgentStep::Open, "agent open failed: e"),
        (AgentStep::EnsureTable, "ensure spike table failed: e"),
        (AgentStep::InsertOpened, "insert spike event 'agent_open' failed: e"),
        (AgentStep::SignalReady, "agent write ready failed: e"),
        (
            AgentStep::InsertReleaseRequested,
            "insert spike event 'agent_release_requested' failed: e",
        ),
        (AgentStep::Checkpoint, "agent checkpoint failed: e"),
    ];
    for (step, message) in messages {
        let mut a = agent();
        a.step = step;
        assert_eq!(
            a.advance(AgentEvent::Performed(cause("e"))),
            Progress::Failed(message.to_string())
        );
    }
}

fn done() -> AppEvent {
    AppEvent::Performed(Ok(()))
}

fn look(elapsed: u128, found: bool) -> AppEvent {
    AppEvent::ReadyLooked { elapsed, found }
}

fn app() -> Orchestrator {
    run_orchestrator(&args(&["p", "run", "c.db"])).unwrap()
}

fn app_at(step: AppStep) -> Orchestrator {
    let mut a = app();
    a.step = step;
    a
}

#[test]
fn handoff_that_passes() {
    let mut a = app();
    assert_eq!(a.catalogue_path, "c.db");
    for step in [
        AppStep::ReadClock,
        AppStep::CreateControlDir,
        AppStep::FindProgram,
        AppStep::SpawnAgent,
        AppStep::AwaitReady,
    ] {
        assert_eq!(a.advance("r", done()), Progress::Continue(step));
    }
    assert_eq!(a.advance("r", look(0, false)), Progress::Continue(AppStep::AwaitReady));
    let last = READY_TIMEOUT_NANOS - 1;
    assert_eq!(a.advance("r", look(last, true)), Progress::Continue(AppStep::ProbeOverlap));
    let refused = AppEvent::Performed(cause("locked"));
    assert_eq!(a.advance("r", refused), Progress::Continue(AppStep::Release));
    assert_eq!(a.advance("r", done()), Progress::Continue(AppStep::WaitAgent));
    let gone = AppEvent::AgentExited { success: true, status: "exit status: 0".to_string() };
    assert_eq!(a.advance("r", gone), Progress::Continue(AppStep::WriteAfterRelease));
    assert_eq!(a.advance("r", done()), Progress::Continue(AppStep::OpenForCount));
    assert_eq!(a.advance("r", done()), Progress::Continue(AppStep::CountEvents));
    assert_eq!(a.advance("r", done()), Progress::Finished);
}

#[test]
fn overlapping_write_fails_the_handoff() {
    let mut a = app_at(AppStep::ProbeOverlap);
    assert_eq!(a.advance("r", done()), Progress::Continue(AppStep::ReleaseAfterOverlap));
    let ignored = AppEvent::Performed(cause("disk full"));
    assert_eq!(a.advance("r", ignored), Progress::Continue(AppStep::WaitAfterOverlap));
    assert_eq!(
        a.advance("r", done()),
        Progress::Failed(
            "overlapping app writer unexpectedly opened and wrote while agent held catalogue"
                .to_string()
        )
    );
}

#[test]
fn agent_that_is_not_ready_in_time_is_killed() {
    let mut a = app_at(AppStep::AwaitReady);
    let late = look(READY_TIMEOUT_NANOS, true);
    assert_eq!(a.advance("/tmp/r", late), Progress::Continue(AppStep::KillAgent));
    assert_eq!(
        a.advance("/tmp/r", AppEvent::Performed(cause("gone already"))),
        Progress::Failed("timed out waiting for /tmp/r".to_string())
    );
}

#[test]
fn app_failures() {
    let messages = [
        (AppStep::CreateParent, "create catalogue parent failed: e"),
        (AppStep::ReadClock, "system clock before epoch: e"),
        (AppStep::CreateControlDir, "create control dir failed: e"),
        (AppStep::FindProgram, "current_exe failed: e"),
        (AppStep::SpawnAgent, "spawn agent failed: e"),
        (AppStep::Release, "write release file failed: e"),
        (AppStep::WaitAgent, "wait for agent failed: e"),
        (AppStep::WriteAfterRelease, "app open after agent release failed: e"),
        (AppStep::OpenForCount, "count open failed: e"),
        (AppStep::CountEvents, "count query failed: e"),
    ];
    for (step, message) in messages {
        let mut a = app_at(step);
        assert_eq!(
            a.advance("r", AppEvent::Performed(cause("e"))),
            Progress::Failed(message.to_string())
        );
    }
    let failed = AppEvent::AgentExited { success: false, status: "exit status: 1".to_string() };
    assert_eq!(
        app_at(AppStep::WaitAgent).advance("r", failed),
        Progress::Failed("agent exited with exit status: 1".to_string())
    );
}

#[test]
fn looks_for_a_file() {
    assert_eq!(wait_for_file(0, 10, true), WaitDecision::Ready);
    assert_eq!(wait_for_file(9, 10, false), WaitDecision::Sleep);
    assert_eq!(wait_for_file(10, 10, true), WaitDecision::TimedOut);
    assert_eq!(wait_for_file(0, 0, true), WaitDecision::TimedOut);
}

#[test]
fn status_of_a_process() {
    assert_eq!(ensure_success(true, "exit status: 0", "agent"), Ok(()));
    assert_eq!(
        ensure_success(false, "signal: 9", "agent"),
        Err("agent exited with signal: 9".to_string())
    );
}

#[test]
fn signal_files_and_phases() {
    assert_eq!(ready_file_name(), "agent.ready");
    assert_eq!(release_file_name(), "agent.release");
    assert_eq!(ready_contents(), "ready");
    assert_eq!(release_contents(), "release");
    let at = |step: AppStep| Orchestrator { catalogue_path: "c".to_string(), step };
    assert_eq!(at(AppStep::ProbeOverlap).phase(), "app_overlapping_writer_probe");
    assert_eq!(at(AppStep::WriteAfterRelease).phase(), "app_after_release");
}
