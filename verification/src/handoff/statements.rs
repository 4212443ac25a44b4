//! The table in which the handoff leaves its traces, the statements over it, and the files with
//! which the two processes signal to each other.
use crate::text::push_decimal;
#[allow(unused_imports)]
use crate::text::{decimal, is_digit, law_numeral_reads_back};
use vstd::prelude::*;

verus! {

/// One trace: who came by, and from which process.
#[derive(Debug, PartialEq, Eq)]
pub struct SpikeEvent {
    pub phase: String,
    pub detail: String,
    pub pid: i64,
}

/// The name of the table.
pub open spec fn spike_table() -> Seq<char> {
    "_photolib_h1_handoff_spike"@
}

/// The statement that creates the table where it does not exist.
pub fn ensure_spike_table_sql() -> (r: String)
    ensures
        r@ == "CREATE TABLE IF NOT EXISTS "@ + spike_table() + " (
            phase TEXT NOT NULL,
            detail TEXT,
            pid BIGINT,
            event_at TIMESTAMP DEFAULT CURRENT_TIMESTAMP
        );"@,
{
    let mut sql: String = "CREATE TABLE IF NOT EXISTS ".to_owned();
    sql.append("_photolib_h1_handoff_spike");
    sql.append(
        " (
            phase TEXT NOT NULL,
            detail TEXT,
            pid BIGINT,
            event_at TIMESTAMP DEFAULT CURRENT_TIMESTAMP
        );",
    );
    sql
}

/// The statement that inserts a trace.
pub fn insert_spike_event_sql() -> (r: String)
    ensures
        r@ == "INSERT INTO "@ + spike_table() + " (phase, detail, pid) VALUES (?1, ?2, ?3)"@,
{
    let mut sql: String = "INSERT INTO ".to_owned();
    sql.append("_photolib_h1_handoff_spike");
    sql.append(" (phase, detail, pid) VALUES (?1, ?2, ?3)");
    sql
}

/// The trace that a process leaves in a phase.
pub fn spike_event(phase: &str, pid: u32) -> (r: SpikeEvent)
    ensures
        r.phase@ == phase@,
        r.detail@ == "duckdb handoff spike"@,
        r.pid == pid,
{
    SpikeEvent {
        phase: phase.to_owned(),
        detail: "duckdb handoff spike".to_owned(),
        pid: pid as i64,
    }
}

/// The query that counts the traces.
pub fn count_spike_events_sql() -> (r: String)
    ensures
        r@ == "SELECT COUNT(*) FROM "@ + spike_table(),
{
    let mut sql: String = "SELECT COUNT(*) FROM ".to_owned();
    sql.append("_photolib_h1_handoff_spike");
    sql
}

/// The name of the directory through which one run of the app and its agent signal to each other.
pub open spec fn control_dir(pid: u32, millis: u128) -> Seq<char> {
    "photolib_h1_handoff_"@ + decimal(pid as nat) + "_"@ + decimal(millis as nat)
}

/// The name of the directory through which one run of the app and its agent signal to each other,
/// from the app's process and the milliseconds since the epoch.
pub fn control_dir_name(pid: u32, millis: u128) -> (r: String)
    ensures
        r@ == control_dir(pid, millis),
{
    let mut name: String = "photolib_h1_handoff_".to_owned();
    push_decimal(&mut name, pid as u128);
    name.append("_");
    push_decimal(&mut name, millis);
    name
}

/// The name of the file with which the agent says that it is ready.
pub fn ready_file_name() -> (r: &'static str)
    ensures
        r@ == "agent.ready"@,
{
    "agent.ready"
}

/// The name of the file with which the app asks for the release.
pub fn release_file_name() -> (r: &'static str)
    ensures
        r@ == "agent.release"@,
{
    "agent.release"
}

/// What the ready file holds.
pub fn ready_contents() -> (r: &'static str)
    ensures
        r@ == "ready"@,
{
    "ready"
}

/// What the release file holds.
pub fn release_contents() -> (r: &'static str)
    ensures
        r@ == "release"@,
{
    "release"
}

/// Two runs share a directory only where they are the same process at the same time.
pub proof fn law_runs_have_directories_of_their_own(pid: u32, millis: u128, other: u32, later: u128)
    requires
        control_dir(pid, millis) == control_dir(other, later),
    ensures
        pid == other,
        millis == later,
{
    reveal_strlit("_");
    let head = "photolib_h1_handoff_"@;
    let a = decimal(pid as nat);
    let b = decimal(other as nat);
    let c = decimal(millis as nat);
    let d = decimal(later as nat);
    law_numeral_reads_back(pid as nat);
    law_numeral_reads_back(other as nat);
    law_numeral_reads_back(millis as nat);
    law_numeral_reads_back(later as nat);
    let x = control_dir(pid, millis);
    let y = control_dir(other, later);
    let h: int = head.len() as int;
    assert(x[h + a.len()] == '_');
    assert(y[h + b.len()] == '_');
    if a.len() < b.len() {
        assert(y[h + a.len()] == b[a.len() as int]);
        assert(is_digit(b[a.len() as int]));
    }
    if b.len() < a.len() {
        assert(x[h + b.len()] == a[b.len() as int]);
        assert(is_digit(a[b.len() as int]));
    }
    assert(a =~= x.subrange(h, h + a.len()));
    assert(b =~= y.subrange(h, h + b.len()));
    assert(c =~= x.skip(h + a.len() + 1));
    assert(d =~= y.skip(h + b.len() + 1));
}

/// A trace holds the phase and the process that left it, and a directory is named by its run.
pub proof fn law_traces_and_directories(
    phase: &str,
    pid: u32,
    event: SpikeEvent,
    millis: u128,
    dir: String,
)
    requires
        call_ensures(spike_event, (phase, pid), event),
        call_ensures(control_dir_name, (pid, millis), dir),
    ensures
        event.phase@ == phase@,
        event.detail@ == "duckdb handoff spike"@,
        event.pid == pid,
        dir@ == "photolib_h1_handoff_"@ + decimal(pid as nat) + "_"@ + decimal(millis as nat),
{
}

}
