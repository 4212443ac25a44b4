use photolibrariancore::repro::rows::readable_rows;
use photolibrariancore::repro::forensics::{
    counted_line, dump_label, prepare_failed_line, row_count_sql, row_state_line, row_state_sql,
    rows_to_dump, selected_line, snapshot_lines, DumpMoment, DumpRole, RowDump, RowState,
};

fn dump(role: DumpRole, image_id: i64) -> RowDump {
    RowDump { role, image_id }
}

#[test]
fn rows_behind_a_failure() {
    assert_eq!(
        rows_to_dump(Some(1), &vec![1, 2, 3], Some(2)),
        vec![
            dump(DumpRole::Source, 1),
            dump(DumpRole::Twin, 2),
            dump(DumpRole::Twin, 3),
            dump(DumpRole::Target, 2),
        ]
    );
    assert_eq!(rows_to_dump(Some(1), &vec![1], Some(1)), vec![dump(DumpRole::Source, 1)]);
    assert_eq!(rows_to_dump(None, &vec![5], Some(1)), vec![dump(DumpRole::Target, 1)]);
    assert!(rows_to_dump(None, &vec![], None).is_empty());
}

#[test]
fn labels_of_snapshots() {
    assert_eq!(dump_label(DumpMoment::PostRollback, DumpRole::Source), "post-rollback SOURCE");
    assert_eq!(dump_label(DumpMoment::PostRollback, DumpRole::Twin), "post-rollback TWIN");
    assert_eq!(dump_label(DumpMoment::PostRollback, DumpRole::Target), "post-rollback TARGET");
    assert_eq!(dump_label(DumpMoment::PostCommit, DumpRole::Source), "post-COMMIT SOURCE");
    assert_eq!(dump_label(DumpMoment::PostCommit, DumpRole::Twin), "post-COMMIT TWIN");
    assert_eq!(dump_label(DumpMoment::PostCommit, DumpRole::Target), "post-COMMIT TARGET");
}

#[test]
fn lines_of_a_snapshot() {
    let row = RowState {
        rowid: "1".to_string(),
        id: "2".to_string(),
        path: "3".to_string(),
        kind: "4".to_string(),
        stem: "5".to_string(),
        dir: "6".to_string(),
        attempt: "7".to_string(),
        version: "8".to_string(),
        status: "9".to_string(),
        score: "10".to_string(),
        scored_at: "11".to_string(),
    };
    assert_eq!(
        row_state_line(&row),
        "rowid=1 id=2 path=3 kind=4 stem=5 dir=6 attempt=7 version=8 status=9 score=10 scored_at=11"
    );
    assert_eq!(selected_line("L", -3, 2), "L SELECT for id=-3 returned 2 row(s)");
    assert_eq!(counted_line("L", 3, 2, 1), "L COUNT(*)=2 COUNT(DISTINCT rowid)=1 for id=3");
    assert!(row_state_sql().ends_with("FROM images WHERE id = ?1"));
    assert_eq!(
        row_count_sql(),
        "SELECT COUNT(*), COUNT(DISTINCT rowid) FROM images WHERE id = ?1"
    );
}

fn row(mark: &str) -> RowState {
    let text = || mark.to_string();
    RowState {
        rowid: text(),
        id: text(),
        path: text(),
        kind: text(),
        stem: text(),
        dir: text(),
        attempt: text(),
        version: text(),
        status: text(),
        score: text(),
        scored_at: text(),
    }
}

#[test]
fn whole_snapshot() {
    let rows = Ok(readable_rows(vec![Some(row("a")), None, Some(row("b"))]));
    assert_eq!(
        snapshot_lines("L", 4, &rows, &Ok((2, 1))),
        vec![
            format!("L row#1 {}", row_state_line(&row("a"))),
            format!("L row#2 {}", row_state_line(&row("b"))),
            "L SELECT for id=4 returned 2 row(s)".to_string(),
            "L COUNT(*)=2 COUNT(DISTINCT rowid)=1 for id=4".to_string(),
        ]
    );
    assert_eq!(
        snapshot_lines("L", 4, &Ok(Vec::new()), &Err("gone".to_string())),
        vec!["L SELECT for id=4 returned 0 row(s)", "L count query failed: gone"]
    );
    assert_eq!(
        snapshot_lines("L", 4, &Err("locked".to_string()), &Ok((1, 1))),
        vec![
            "L row-state query failed: locked",
            "L COUNT(*)=1 COUNT(DISTINCT rowid)=1 for id=4",
        ]
    );
    assert_eq!(prepare_failed_line("L", "no table"), "L row-state prepare failed: no table");
}
