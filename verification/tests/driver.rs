use photolibrariancore::repro::driver::{Driver, DriverStep, Phase, Totals};
use photolibrariancore::repro::receipts::{
    trip_record, warning_record, ChunkVerdict, WritebackReceipt, WritebackWarning,
};
use photolibrariancore::repro::results::{repro_result, ResultShape};
use photolibrariancore::repro::settings::ReproSettings;

fn settings(max_passes: usize, chunk_size: usize, stop_on_trip: bool) -> ReproSettings {
    ReproSettings {
        db_path: "c.db".to_string(),
        arm: "A".to_string(),
        max_passes,
        chunk_size,
        max_candidates: 0,
        skip_candidates: 0,
        progress_every: 2,
        stop_on_trip,
        migrate: true,
        drop_indexes: false,
        shape: ResultShape { face_every: 4, keyword_every: 8, incomplete_every: 3 },
        checkpoint_every: 2,
    }
}

fn receipt(updated: u64) -> WritebackReceipt {
    WritebackReceipt {
        updated,
        failure_stage: None,
        failed_reason: None,
        source_image_id: None,
        target_image_id: None,
        warnings: Vec::new(),
    }
}

fn warning(code: &str) -> WritebackWarning {
    WritebackWarning {
        reason_code: code.to_string(),
        source_image_id: -5,
        target_image_id: 6,
        row_count: 2,
        matching_rows: 1,
        distinct_rowids: 1,
        detail: "d".to_string(),
    }
}

fn failure(stage: Option<&str>, reason: Option<&str>) -> WritebackReceipt {
    WritebackReceipt {
        failure_stage: stage.map(String::from),
        failed_reason: reason.map(String::from),
        ..receipt(0)
    }
}

#[test]
fn run_goes_over_every_candidate_in_every_pass() {
    let queue = vec![10i64, 20, 30, 40, 50];
    let mut run = Driver::new(settings(2, 2, true), queue.clone());
    let mut written: Vec<i64> = Vec::new();
    let mut steps: Vec<DriverStep> = Vec::new();
    loop {
        let step = run.poll(0, 1);
        steps.push(step);
        match step {
            DriverStep::StartPass { pass } => run.begin_pass(format!("RUN-{}", pass)),
            DriverStep::WriteChunk { start, end } => {
                let rows = run.chunk_results();
                assert_eq!(rows.len(), end - start);
                for (i, row) in rows.iter().enumerate() {
                    let expected = repro_result(
                        queue[start + i],
                        start + i,
                        &format!("RUN-{}", run.pass),
                        &run.settings.shape,
                    );
                    assert_eq!(*row, expected);
                    written.push(row.id);
                }
                assert_eq!(run.retry_results(), rows);
                let answer = receipt(3);
                assert!(run.check_room(&answer));
                assert_eq!(run.record_receipt(&answer), ChunkVerdict::Clean);
                run.finish_chunk();
            }
            DriverStep::PassDone { .. } => {}
            DriverStep::OutOfTime | DriverStep::Finished => break,
        }
    }
    assert_eq!(written, vec![10, 20, 30, 40, 50, 10, 20, 30, 40, 50]);
    assert_eq!(
        steps,
        vec![
            DriverStep::StartPass { pass: 1 },
            DriverStep::WriteChunk { start: 0, end: 2 },
            DriverStep::WriteChunk { start: 2, end: 4 },
            DriverStep::WriteChunk { start: 4, end: 5 },
            DriverStep::PassDone { pass: 1 },
            DriverStep::StartPass { pass: 2 },
            DriverStep::WriteChunk { start: 0, end: 2 },
            DriverStep::WriteChunk { start: 2, end: 4 },
            DriverStep::WriteChunk { start: 4, end: 5 },
            DriverStep::PassDone { pass: 2 },
            DriverStep::Finished,
        ]
    );
    assert_eq!(run.phase, Phase::Finished);
    assert_eq!(
        run.totals,
        Totals {
            chunks: 6,
            sources: 10,
            target_updates: 18,
            trips: 0,
            other_failures: 0,
            count_anomalies: 0,
            chunk_retries: 0,
            checkpoints: 0,
        }
    );
    assert_eq!(run.first_trip, None);
}

#[test]
fn chunks_longer_than_the_queue() {
    let mut run = Driver::new(settings(1, usize::MAX, true), vec![1, 2, 3]);
    run.poll(0, 1);
    run.begin_pass("R".to_string());
    assert_eq!(run.poll(0, 1), DriverStep::WriteChunk { start: 0, end: 3 });
    run.record_receipt(&receipt(3));
    run.finish_chunk();
    assert_eq!(run.poll(0, 1), DriverStep::PassDone { pass: 1 });
}

#[test]
fn time_is_looked_at_before_each_chunk() {
    let mut run = Driver::new(settings(1, 1, true), vec![1, 2]);
    assert_eq!(run.poll(9, 5), DriverStep::StartPass { pass: 1 });
    run.begin_pass("R".to_string());
    assert_eq!(run.poll(4, 5), DriverStep::WriteChunk { start: 0, end: 1 });
    run.record_receipt(&receipt(1));
    run.finish_chunk();
    assert_eq!(run.poll(5, 5), DriverStep::OutOfTime);
    assert_eq!(run.phase, Phase::Stopped);
}

fn at_first_chunk(stop_on_trip: bool) -> Driver {
    let mut run = Driver::new(settings(3, 2, stop_on_trip), vec![1, 2, 3]);
    run.poll(0, 1);
    run.begin_pass("R".to_string());
    run.poll(0, 1);
    run
}

#[test]
fn invariant_trip_stops_the_run() {
    let mut run = at_first_chunk(true);
    let answer = failure(Some("apply"), Some("the one-target/one-row invariant was broken"));
    assert_eq!(
        run.record_receipt(&answer),
        ChunkVerdict::Failed {
            stage: "apply".to_string(),
            reason: "the one-target/one-row invariant was broken".to_string(),
            invariant_trip: true,
        }
    );
    assert_eq!(run.phase, Phase::Stopped);
    assert_eq!(run.totals.trips, 1);
    assert_eq!(run.totals.other_failures, 0);
    assert_eq!(
        run.first_trip.as_deref(),
        Some("arm=A pass=1 chunk=0 stage=apply reason=the one-target/one-row invariant was broken")
    );
    assert_eq!(run.retry_results(), {
        let again = at_first_chunk(true);
        again.chunk_results()
    });
}

#[test]
fn failures_are_counted_where_the_run_goes_on() {
    let mut run = at_first_chunk(false);
    assert_eq!(
        run.record_receipt(&failure(Some("plan"), None)),
        ChunkVerdict::Failed {
            stage: "plan".to_string(),
            reason: "(no reason)".to_string(),
            invariant_trip: false,
        }
    );
    assert_eq!(run.phase, Phase::Recorded);
    run.finish_chunk();
    run.poll(0, 1);
    let second = run.record_receipt(&failure(None, Some("one-target/one-row invariant")));
    assert_eq!(
        second,
        ChunkVerdict::Failed {
            stage: "unknown".to_string(),
            reason: "one-target/one-row invariant".to_string(),
            invariant_trip: true,
        }
    );
    assert_eq!(run.totals.trips, 1);
    assert_eq!(run.totals.other_failures, 1);
    assert_eq!(
        run.first_trip.as_deref(),
        Some("arm=A pass=1 chunk=0 stage=plan reason=(no reason)")
    );
}

#[test]
fn zero_rows_are_another_failure_and_do_not_stop() {
    let mut run = at_first_chunk(true);
    assert_eq!(run.record_receipt(&receipt(0)), ChunkVerdict::ZeroRows);
    assert_eq!(run.phase, Phase::Recorded);
    assert_eq!(run.totals.other_failures, 1);
    assert_eq!(run.first_trip, None);
}

#[test]
fn every_warning_is_counted() {
    let mut run = at_first_chunk(false);
    let mut answer = failure(Some("apply"), Some("x"));
    answer.warnings = vec![
        warning("focus_writeback_count_anomaly"),
        warning("focus_writeback_chunk_retried"),
        warning("something else"),
    ];
    run.record_receipt(&answer);
    assert_eq!(run.totals.count_anomalies, 2);
    assert_eq!(run.totals.chunk_retries, 1);
    let first = "arm=A pass=1 chunk=0 focus_writeback_count_anomaly source=-5 target=6 row_count=2";
    assert_eq!(run.first_warning.as_deref(), Some(first));
    run.finish_chunk();
    run.poll(0, 1);
    let mut clean = receipt(1);
    clean.warnings = vec![warning("focus_writeback_chunk_retried")];
    assert_eq!(run.record_receipt(&clean), ChunkVerdict::Clean);
    assert_eq!(run.totals.chunk_retries, 2);
    assert_eq!(run.first_warning.as_deref(), Some(first));
}

#[test]
fn checkpoints_and_progress() {
    let mut run = at_first_chunk(false);
    run.record_receipt(&receipt(1));
    assert!(!run.checkpoint_due());
    assert!(run.progress_due());
    run.finish_chunk();
    run.poll(0, 1);
    run.record_receipt(&receipt(1));
    assert!(run.checkpoint_due());
    assert!(!run.progress_due());
    run.record_checkpoint();
    assert_eq!(run.totals.checkpoints, 1);
    let mut never = Driver::new(ReproSettings { checkpoint_every: 0, ..settings(1, 1, true) }, vec![1]);
    assert!(!never.checkpoint_due());
    never.poll(0, 1);
}

#[test]
fn counts_that_would_overflow_have_no_room() {
    let mut run = at_first_chunk(false);
    run.record_receipt(&receipt(u64::MAX));
    run.finish_chunk();
    run.poll(0, 1);
    assert!(!run.check_room(&receipt(1)));
    assert!(run.check_room(&receipt(0)));
}

#[test]
fn records_of_a_run() {
    assert_eq!(trip_record("B", 2, 31, "apply", "why"), "arm=B pass=2 chunk=31 stage=apply reason=why");
    assert_eq!(
        warning_record("C", 1, 0, &warning("w")),
        "arm=C pass=1 chunk=0 w source=-5 target=6 row_count=2"
    );
}

#[test]
fn other_failures_do_not_stop_the_run() {
    let mut run = at_first_chunk(true);
    run.record_receipt(&failure(Some("plan"), None));
    assert_eq!(run.phase, Phase::Recorded);
    assert_eq!(run.totals.trips, 0);
    assert_eq!(run.totals.other_failures, 1);
    run.finish_chunk();
    run.poll(0, 1);
    run.record_receipt(&failure(Some("apply"), Some("one-target/one-row invariant")));
    assert_eq!(run.phase, Phase::Stopped);
    assert_eq!(run.totals.trips, 1);
}

#[test]
fn warnings_on_a_retry_are_counted() {
    let mut run = at_first_chunk(true);
    run.record_receipt(&failure(Some("apply"), Some("one-target/one-row invariant")));
    let before = run.totals;
    let mut again = receipt(7);
    again.warnings =
        vec![warning("focus_writeback_chunk_retried"), warning("focus_writeback_count_anomaly")];
    assert!(run.check_warning_room(&again));
    run.record_retry(&again);
    assert_eq!(run.totals, Totals { count_anomalies: 1, chunk_retries: 1, ..before });
    assert_eq!(run.phase, Phase::Stopped);
    assert_eq!(
        run.first_warning.as_deref(),
        Some("arm=A pass=1 chunk=0 focus_writeback_chunk_retried source=-5 target=6 row_count=2")
    );
}
