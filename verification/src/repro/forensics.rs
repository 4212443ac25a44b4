//! The snapshot that is taken of the rows behind a failed or doubtful write.
use crate::text::{push_decimal, push_signed};
#[allow(unused_imports)]
use crate::text::{decimal, signed_decimal};
use vstd::prelude::*;

verus! {

/// When a snapshot is taken.
#[derive(Clone, Copy, Debug, PartialEq, Eq)]
pub enum DumpMoment {
    /// The failed chunk has been rolled back.
    PostRollback,
    /// The chunk has been committed on its retry.
    PostCommit,
}

/// Which row of a failed write a snapshot is of.
#[derive(Clone, Copy, Debug, PartialEq, Eq)]
pub enum DumpRole {
    /// The image that was analysed.
    Source,
    /// Another row that the same analysis is written to.
    Twin,
    /// The row at which the write failed.
    Target,
}

/// One snapshot to take.
#[derive(Clone, Copy, Debug, PartialEq, Eq)]
pub struct RowDump {
    pub role: DumpRole,
    pub image_id: i64,
}

/// What a row of the catalogue held, each column as it is printed.
#[derive(Debug, PartialEq, Eq)]
pub struct RowState {
    pub rowid: String,
    pub id: String,
    pub path: String,
    pub kind: String,
    pub stem: String,
    pub dir: String,
    pub attempt: String,
    pub version: String,
    pub status: String,
    pub score: String,
    pub scored_at: String,
}

/// The twins of a source: the rows that its analysis is written to, without the source itself.
pub open spec fn twins(targets: Seq<i64>, source: i64) -> Seq<RowDump>
    decreases targets.len(),
{
    if targets.len() == 0 {
        Seq::empty()
    } else if targets.last() != source {
        twins(targets.drop_last(), source).push(
            RowDump { role: DumpRole::Twin, image_id: targets.last() },
        )
    } else {
        twins(targets.drop_last(), source)
    }
}

/// The snapshots behind a failed write: the source and its twins where the source is known, then
/// the target where it is known and is not the source.
pub open spec fn dumps(source: Option<i64>, targets: Seq<i64>, target: Option<i64>) -> Seq<RowDump> {
    let first = match source {
        Some(id) => seq![RowDump { role: DumpRole::Source, image_id: id }] + twins(targets, id),
        None => Seq::empty(),
    };
    match target {
        Some(id) => if source != Some(id) {
            first.push(RowDump { role: DumpRole::Target, image_id: id })
        } else {
            first
        },
        None => first,
    }
}

/// The label of a snapshot.
pub open spec fn dump_label_text(moment: DumpMoment, role: DumpRole) -> Seq<char> {
    match (moment, role) {
        (DumpMoment::PostRollback, DumpRole::Source) => "post-rollback SOURCE"@,
        (DumpMoment::PostRollback, DumpRole::Twin) => "post-rollback TWIN"@,
        (DumpMoment::PostRollback, DumpRole::Target) => "post-rollback TARGET"@,
        (DumpMoment::PostCommit, DumpRole::Source) => "post-COMMIT SOURCE"@,
        (DumpMoment::PostCommit, DumpRole::Twin) => "post-COMMIT TWIN"@,
        (DumpMoment::PostCommit, DumpRole::Target) => "post-COMMIT TARGET"@,
    }
}

/// The line that shows a row.
pub open spec fn row_state_text(row: RowState) -> Seq<char> {
    "rowid="@ + row.rowid@ + " id="@ + row.id@ + " path="@ + row.path@ + " kind="@ + row.kind@
        + " stem="@ + row.stem@ + " dir="@ + row.dir@ + " attempt="@ + row.attempt@ + " version="@
        + row.version@ + " status="@ + row.status@ + " score="@ + row.score@ + " scored_at="@
        + row.scored_at@
}

/// The line that says how many rows an identifier selects.
pub open spec fn selected_text(label: Seq<char>, image_id: i64, seen: usize) -> Seq<char> {
    label + " SELECT for id="@ + signed_decimal(image_id as int) + " returned "@ + decimal(
        seen as nat,
    ) + " row(s)"@
}

/// The line that says how often the engine counts an identifier.
pub open spec fn counted_text(label: Seq<char>, image_id: i64, count: i64, rowids: i64) -> Seq<
    char,
> {
    label + " COUNT(*)="@ + signed_decimal(count as int) + " COUNT(DISTINCT rowid)="@
        + signed_decimal(rowids as int) + " for id="@ + signed_decimal(image_id as int)
}

/// The line that shows the `k`th row of an identifier.
pub open spec fn numbered_row_text(label: Seq<char>, k: nat, row: RowState) -> Seq<char> {
    label + " row#"@ + decimal(k) + " "@ + row_state_text(row)
}

/// The lines that show the rows of an identifier, numbered from one, and how many there are; where
/// they could not be queried, the line that says so.
pub open spec fn row_lines(
    label: Seq<char>,
    image_id: i64,
    rows: Result<Vec<RowState>, String>,
) -> Seq<Seq<char>> {
    match rows {
        Ok(rows) => Seq::new(
            rows@.len(),
            |k: int| numbered_row_text(label, (k + 1) as nat, rows@[k]),
        ).push(selected_text(label, image_id, rows@.len() as usize)),
        Err(cause) => seq![label + " row-state query failed: "@ + cause@],
    }
}

/// The line that says how often the engine counts an identifier, or that it could not be asked.
pub open spec fn count_line(
    label: Seq<char>,
    image_id: i64,
    counted: Result<(i64, i64), String>,
) -> Seq<char> {
    match counted {
        Ok((count, rowids)) => counted_text(label, image_id, count, rowids),
        Err(cause) => label + " count query failed: "@ + cause@,
    }
}

/// The query for the rows of an identifier.
pub fn row_state_sql() -> (r: &'static str)
    ensures
        r@
            == "SELECT rowid, id, file_path, image_kind, file_stem, directory_path,
                      focus_analysis_attempt_id, focus_algorithm_version,
                      focus_analysis_status, focus_score,
                      CAST(focus_scored_at AS VARCHAR)
               FROM images WHERE id = ?1"@,
{
    "SELECT rowid, id, file_path, image_kind, file_stem, directory_path,
                      focus_analysis_attempt_id, focus_algorithm_version,
                      focus_analysis_status, focus_score,
                      CAST(focus_scored_at AS VARCHAR)
               FROM images WHERE id = ?1"
}

/// The query that counts the rows of an identifier.
pub fn row_count_sql() -> (r: &'static str)
    ensures
        r@ == "SELECT COUNT(*), COUNT(DISTINCT rowid) FROM images WHERE id = ?1"@,
{
    "SELECT COUNT(*), COUNT(DISTINCT rowid) FROM images WHERE id = ?1"
}

/// The label of a snapshot.
pub fn dump_label(moment: DumpMoment, role: DumpRole) -> (r: &'static str)
    ensures
        r@ == dump_label_text(moment, role),
{
    match (moment, role) {
        (DumpMoment::PostRollback, DumpRole::Source) => "post-rollback SOURCE",
        (DumpMoment::PostRollback, DumpRole::Twin) => "post-rollback TWIN",
        (DumpMoment::PostRollback, DumpRole::Target) => "post-rollback TARGET",
        (DumpMoment::PostCommit, DumpRole::Source) => "post-COMMIT SOURCE",
        (DumpMoment::PostCommit, DumpRole::Twin) => "post-COMMIT TWIN",
        (DumpMoment::PostCommit, DumpRole::Target) => "post-COMMIT TARGET",
    }
}

/// The snapshots to take behind a failed write, in order. `targets` are the rows that the source's
/// analysis is written to, where they could be read.
pub fn rows_to_dump(source: Option<i64>, targets: &Vec<i64>, target: Option<i64>) -> (r: Vec<
    RowDump,
>)
    ensures
        r@ == dumps(source, targets@, target),
{
    let mut out: Vec<RowDump> = Vec::new();
    if let Some(id) = source {
        out.push(RowDump { role: DumpRole::Source, image_id: id });
        let mut k: usize = 0;
        let ghost head = out@;
        assert(targets@.take(0) =~= Seq::<i64>::empty());
        while k < targets.len()
            invariant
                k <= targets@.len(),
                out@ =~= head + twins(targets@.take(k as int), id),
            decreases targets.len() - k,
        {
            assert(targets@.take(k + 1).drop_last() =~= targets@.take(k as int));
            if targets[k] != id {
                out.push(RowDump { role: DumpRole::Twin, image_id: targets[k] });
            }
            k = k + 1;
        }
        assert(targets@.take(targets@.len() as int) =~= targets@);
    }
    if let Some(t) = target {
        let same: bool = match source {
            Some(id) => id == t,
            None => false,
        };
        if !same {
            out.push(RowDump { role: DumpRole::Target, image_id: t });
        }
    }
    out
}

/// The line that shows a row.
pub fn row_state_line(row: &RowState) -> (r: String)
    ensures
        r@ == row_state_text(*row),
{
    let mut out: String = "rowid=".to_owned();
    out.append(row.rowid.as_str());
    out.append(" id=");
    out.append(row.id.as_str());
    out.append(" path=");
    out.append(row.path.as_str());
    out.append(" kind=");
    out.append(row.kind.as_str());
    out.append(" stem=");
    out.append(row.stem.as_str());
    out.append(" dir=");
    out.append(row.dir.as_str());
    out.append(" attempt=");
    out.append(row.attempt.as_str());
    out.append(" version=");
    out.append(row.version.as_str());
    out.append(" status=");
    out.append(row.status.as_str());
    out.append(" score=");
    out.append(row.score.as_str());
    out.append(" scored_at=");
    out.append(row.scored_at.as_str());
    out
}

/// The line that says how many rows an identifier selects.
pub fn selected_line(label: &str, image_id: i64, seen: usize) -> (r: String)
    ensures
        r@ == selected_text(label@, image_id, seen),
{
    let mut out: String = label.to_owned();
    out.append(" SELECT for id=");
    push_signed(&mut out, image_id);
    out.append(" returned ");
    push_decimal(&mut out, seen as u128);
    out.append(" row(s)");
    out
}

/// The line that says how often the engine counts an identifier, and in how many distinct rows.
pub fn counted_line(label: &str, image_id: i64, count: i64, rowids: i64) -> (r: String)
    ensures
        r@ == counted_text(label@, image_id, count, rowids),
{
    let mut out: String = label.to_owned();
    out.append(" COUNT(*)=");
    push_signed(&mut out, count);
    out.append(" COUNT(DISTINCT rowid)=");
    push_signed(&mut out, rowids);
    out.append(" for id=");
    push_signed(&mut out, image_id);
    out
}

/// The line of a failure: what failed, and its cause.
fn failure_line(label: &str, what: &str, cause: &str) -> (r: String)
    ensures
        r@ == label@ + what@ + cause@,
{
    let mut out: String = label.to_owned();
    out.append(what);
    out.append(cause);
    out
}

/// The line of a snapshot whose query could not be prepared, and which ends there.
pub fn prepare_failed_line(label: &str, cause: &str) -> (r: String)
    ensures
        r@ == label@ + " row-state prepare failed: "@ + cause@,
{
    failure_line(label, " row-state prepare failed: ", cause)
}

/// The line that shows the `k`th row of an identifier.
fn numbered_row_line(label: &str, k: usize, row: &RowState) -> (r: String)
    ensures
        r@ == numbered_row_text(label@, k as nat, *row),
{
    let mut out: String = label.to_owned();
    out.append(" row#");
    push_decimal(&mut out, k as u128);
    out.append(" ");
    out.append(row_state_line(row).as_str());
    out
}

/// The lines of a snapshot: each row, numbered from one, then how many there are, or that they
/// could not be queried; last how often the engine counts the identifier, or that it could not be
/// asked.
pub fn snapshot_lines(
    label: &str,
    image_id: i64,
    rows: &Result<Vec<RowState>, String>,
    counted: &Result<(i64, i64), String>,
) -> (r: Vec<String>)
    ensures
        r@.map_values(|line: String| line@) == row_lines(label@, image_id, *rows).push(
            count_line(label@, image_id, *counted),
        ),
{
    let mut out: Vec<String> = Vec::new();
    match rows {
        Ok(rows) => {
            let mut k: usize = 0;
            while k < rows.len()
                invariant
                    k <= rows@.len(),
                    out@.map_values(|line: String| line@) =~= Seq::new(
                        k as nat,
                        |i: int| numbered_row_text(label@, (i + 1) as nat, rows@[i]),
                    ),
                decreases rows.len() - k,
            {
                let ghost before = out@.map_values(|line: String| line@);
                let line: String = numbered_row_line(label, k + 1, &rows[k]);
                out.push(line);
                assert(out@.map_values(|line: String| line@) =~= before.push(line@));
                k = k + 1;
            }
            out.push(selected_line(label, image_id, rows.len()));
        },
        Err(cause) => {
            out.push(failure_line(label, " row-state query failed: ", cause.as_str()));
        },
    }
    assert(out@.map_values(|line: String| line@) =~= row_lines(label@, image_id, *rows));
    match counted {
        Ok((count, rowids)) => {
            out.push(counted_line(label, image_id, *count, *rowids));
        },
        Err(cause) => {
            out.push(failure_line(label, " count query failed: ", cause.as_str()));
        },
    }
    out
}

/// No row is shown twice for the image that was analysed: where it is known it comes first, and
/// none of the other snapshots is of it.
pub proof fn law_source_is_dumped_once(
    source: i64,
    targets: Seq<i64>,
    target: Option<i64>,
    k: int,
)
    requires
        0 <= k < dumps(Some(source), targets, target).len(),
    ensures
        dumps(Some(source), targets, target)[k].image_id == source <==> k == 0,
{
    lemma_twins_leave_out_the_source(targets, source);
    let first = seq![RowDump { role: DumpRole::Source, image_id: source }] + twins(targets, source);
    if 0 < k < first.len() {
        assert(first[k] == twins(targets, source)[k - 1]);
    }
}

proof fn lemma_twins_leave_out_the_source(targets: Seq<i64>, source: i64)
    ensures
        forall|i: int|
            0 <= i < twins(targets, source).len() ==> (#[trigger] twins(targets, source)[i]).image_id
                != source,
    decreases targets.len(),
{
    if targets.len() > 0 {
        lemma_twins_leave_out_the_source(targets.drop_last(), source);
    }
}

/// The snapshots are that of the source, those of the rows that its analysis is written to without
/// the source, in order, and that of the target where it is another row than the source; without a
/// source there is the target's alone.
pub proof fn law_snapshots_behind_a_failure(
    source: i64,
    targets: Seq<i64>,
    target: i64,
)
    ensures
        ({
            let others = targets.filter(|t: i64| t != source).map_values(
                |t: i64| RowDump { role: DumpRole::Twin, image_id: t },
            );
            let first = seq![RowDump { role: DumpRole::Source, image_id: source }];
            let last = seq![RowDump { role: DumpRole::Target, image_id: target }];
            &&& dumps(Some(source), targets, None) == first + others
            &&& target == source ==> dumps(Some(source), targets, Some(target)) == first + others
            &&& target != source ==> dumps(Some(source), targets, Some(target)) == first + others
                + last
            &&& dumps(None, targets, Some(target)) == last
            &&& dumps(None, targets, None) == Seq::<RowDump>::empty()
        }),
{
    lemma_twins_are_the_others(targets, source);
    let first = seq![RowDump { role: DumpRole::Source, image_id: source }];
    let last = seq![RowDump { role: DumpRole::Target, image_id: target }];
    assert((first + twins(targets, source)).push(last[0]) =~= first + twins(targets, source)
        + last);
    assert(Seq::<RowDump>::empty().push(last[0]) =~= last);
}

proof fn lemma_twins_are_the_others(targets: Seq<i64>, source: i64)
    ensures
        twins(targets, source) == targets.filter(|t: i64| t != source).map_values(
            |t: i64| RowDump { role: DumpRole::Twin, image_id: t },
        ),
    decreases targets.len(),
{
    reveal(Seq::filter);
    let f = |t: i64| RowDump { role: DumpRole::Twin, image_id: t };
    let p = |t: i64| t != source;
    if targets.len() > 0 {
        lemma_twins_are_the_others(targets.drop_last(), source);
        let before = targets.drop_last().filter(p);
        assert(before.push(targets.last()).map_values(f) =~= before.map_values(f).push(
            f(targets.last()),
        ));
    }
    assert(twins(targets, source) =~= targets.filter(p).map_values(f));
}

/// A snapshot shows every row of the identifier once, numbered from one, then how many there are;
/// where they could not be queried it shows the cause in their place.
pub proof fn law_snapshot_shows_every_row(
    label: Seq<char>,
    image_id: i64,
    rows: Vec<RowState>,
    cause: String,
    count: i64,
    rowids: i64,
)
    ensures
        ({
            let lines = row_lines(label, image_id, Ok(rows));
            &&& lines.len() == rows@.len() + 1
            &&& forall|k: int|
                0 <= k < rows@.len() ==> #[trigger] lines[k] == label + " row#"@ + decimal(
                    (k + 1) as nat,
                ) + " "@ + row_state_text(rows@[k])
            &&& lines[rows@.len() as int] == label + " SELECT for id="@ + signed_decimal(
                image_id as int,
            ) + " returned "@ + decimal(rows@.len()) + " row(s)"@
        }),
        row_lines(label, image_id, Err(cause)) == seq![
            label + " row-state query failed: "@ + cause@,
        ],
        count_line(label, image_id, Ok((count, rowids))) == label + " COUNT(*)="@ + signed_decimal(
            count as int,
        ) + " COUNT(DISTINCT rowid)="@ + signed_decimal(rowids as int) + " for id="@
            + signed_decimal(image_id as int),
        count_line(label, image_id, Err(cause)) == label + " count query failed: "@ + cause@,
{
    assert(rows.len() == rows@.len());
}

/// What `rows_to_dump` and `snapshot_lines` hand back: the snapshots to take, and the lines of one.
pub proof fn law_snapshots_are_taken(
    source: Option<i64>,
    targets: &Vec<i64>,
    target: Option<i64>,
    taken: Vec<RowDump>,
    label: &str,
    image_id: i64,
    rows: &Result<Vec<RowState>, String>,
    counted: &Result<(i64, i64), String>,
    lines: Vec<String>,
)
    requires
        call_ensures(rows_to_dump, (source, targets, target), taken),
        call_ensures(snapshot_lines, (label, image_id, rows, counted), lines),
    ensures
        taken@ == dumps(source, targets@, target),
        lines@.map_values(|line: String| line@) == row_lines(label@, image_id, *rows).push(
            count_line(label@, image_id, *counted),
        ),
{
}

/// A label says when the snapshot is taken and of which row it is; no two of them are the same.
pub proof fn law_labels_tell_moment_and_row(
    moment: DumpMoment,
    role: DumpRole,
    other_moment: DumpMoment,
    other_role: DumpRole,
)
    ensures
        ({
            let when = if moment is PostRollback {
                "post-rollback"@
            } else {
                "post-COMMIT"@
            };
            let which = match role {
                DumpRole::Source => " SOURCE"@,
                DumpRole::Twin => " TWIN"@,
                DumpRole::Target => " TARGET"@,
            };
            dump_label_text(moment, role) == when + which
        }),
        dump_label_text(moment, role) == dump_label_text(other_moment, other_role) ==> moment
            == other_moment && role == other_role,
{
    reveal_strlit("post-rollback");
    reveal_strlit("post-COMMIT");
    reveal_strlit(" SOURCE");
    reveal_strlit(" TWIN");
    reveal_strlit(" TARGET");
    reveal_strlit("post-rollback SOURCE");
    reveal_strlit("post-rollback TWIN");
    reveal_strlit("post-rollback TARGET");
    reveal_strlit("post-COMMIT SOURCE");
    reveal_strlit("post-COMMIT TWIN");
    reveal_strlit("post-COMMIT TARGET");
    assert("post-rollback SOURCE"@ =~= "post-rollback"@ + " SOURCE"@);
    assert("post-rollback TWIN"@ =~= "post-rollback"@ + " TWIN"@);
    assert("post-rollback TARGET"@ =~= "post-rollback"@ + " TARGET"@);
    assert("post-COMMIT SOURCE"@ =~= "post-COMMIT"@ + " SOURCE"@);
    assert("post-COMMIT TWIN"@ =~= "post-COMMIT"@ + " TWIN"@);
    assert("post-COMMIT TARGET"@ =~= "post-COMMIT"@ + " TARGET"@);
    assert("post-rollback SOURCE"@[15] == 'O' && "post-rollback TARGET"@[15] == 'A');
    assert("post-COMMIT SOURCE"@[13] == 'O' && "post-COMMIT TARGET"@[13] == 'A');
    assert("post-rollback TWIN"@[5] == 'r' && "post-COMMIT SOURCE"@[5] == 'C'
        && "post-COMMIT TARGET"@[5] == 'C' && "post-COMMIT TWIN"@[5] == 'C');
    assert("post-rollback SOURCE"@[5] == 'r' && "post-rollback TARGET"@[5] == 'r');
    assert("post-rollback SOURCE"@.len() == 20 && "post-rollback TARGET"@.len() == 20
        && "post-rollback TWIN"@.len() == 18 && "post-COMMIT SOURCE"@.len() == 18
        && "post-COMMIT TARGET"@.len() == 18 && "post-COMMIT TWIN"@.len() == 16);
}

}
