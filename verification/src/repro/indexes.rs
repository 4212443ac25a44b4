//! The secondary indexes over the columns that the writeback assigns, and the statements that drop
//! them.
use crate::repro::rows::readable_rows;
#[allow(unused_imports)]
use crate::repro::rows::readable;
use crate::text::{chars_of, found_at, identifier_char};
#[allow(unused_imports)]
use crate::text::{is_identifier_char, occurs_at};
use vstd::prelude::*;

verus! {

/// One index of the `images` table, as the engine lists it.
#[derive(Debug, PartialEq, Eq)]
pub struct IndexRow {
    pub name: String,
    pub is_unique: bool,
    pub is_primary: bool,
    pub expressions: String,
}

/// `IndexRow` with its texts as sequences.
pub struct IndexView {
    pub name: Seq<char>,
    pub is_unique: bool,
    pub is_primary: bool,
    pub expressions: Seq<char>,
}

impl View for IndexRow {
    type V = IndexView;

    open spec fn view(&self) -> IndexView {
        IndexView {
            name: self.name@,
            is_unique: self.is_unique,
            is_primary: self.is_primary,
            expressions: self.expressions@,
        }
    }
}

/// One index to drop, with the statement that drops it.
#[derive(Debug, PartialEq, Eq)]
pub struct IndexDrop {
    pub name: String,
    pub sql: String,
}

/// The columns of `images` that the writeback assigns.
pub open spec fn assigned_columns() -> Seq<Seq<char>> {
    seq![
        "focus_score"@,
        "focus_basis"@,
        "focus_human_score"@,
        "focus_animal_score"@,
        "focus_foreground_score"@,
        "focus_saliency_score"@,
        "focus_animal_pose_score"@,
        "focus_whole_image_score"@,
        "focus_algorithm_version"@,
        "focus_analysis_status"@,
        "focus_analysis_attempt_id"@,
        "focus_scored_at"@,
        "face_count"@,
        "face_quality_best"@,
        "face_quality_average"@,
        "face_quality_min"@,
        "face_eyes_open_count"@,
        "face_blink_risk_count"@,
    ]
}

/// Whether a column occurs in an index expression at `at`, and is not part of a longer name there.
pub open spec fn named_at(expressions: Seq<char>, column: Seq<char>, at: int) -> bool {
    &&& occurs_at(expressions, column, at)
    &&& at == 0 || !is_identifier_char(expressions[at - 1])
    &&& at + column.len() == expressions.len() || !is_identifier_char(
        expressions[at + column.len()],
    )
}

/// Whether an index expression names a column: the column occurs in it as a whole name.
pub open spec fn names_column(expressions: Seq<char>, column: Seq<char>) -> bool {
    exists|at: int| named_at(expressions, column, at)
}

/// Whether an index expression names a column that the writeback assigns.
pub open spec fn covers_assigned(expressions: Seq<char>) -> bool {
    exists|j: int|
        0 <= j < assigned_columns().len() && names_column(
            expressions,
            #[trigger] assigned_columns()[j],
        )
}

/// Whether an index is to be dropped: it is neither unique nor primary, and its expression names
/// a column that the writeback assigns.
pub open spec fn is_dropped(index: IndexView) -> bool {
    !index.is_unique && !index.is_primary && covers_assigned(index.expressions)
}

/// The statement that drops an index.
pub open spec fn drop_sql(name: Seq<char>) -> Seq<char> {
    "DROP INDEX IF EXISTS \""@ + name + "\";"@
}

/// The indexes, by their names, that are to be dropped, in the order in which they are listed.
pub open spec fn dropped_indexes(indexes: Seq<IndexView>) -> Seq<Seq<char>>
    decreases indexes.len(),
{
    if indexes.len() == 0 {
        Seq::empty()
    } else if is_dropped(indexes.last()) {
        dropped_indexes(indexes.drop_last()).push(indexes.last().name)
    } else {
        dropped_indexes(indexes.drop_last())
    }
}

/// The names whose statement succeeded, in order.
pub open spec fn names_dropped(names: Seq<Seq<char>>, succeeded: Seq<bool>) -> Seq<Seq<char>>
    recommends
        names.len() == succeeded.len(),
    decreases names.len(),
{
    if names.len() == 0 {
        Seq::empty()
    } else if succeeded.last() {
        names_dropped(names.drop_last(), succeeded.drop_last()).push(names.last())
    } else {
        names_dropped(names.drop_last(), succeeded.drop_last())
    }
}

/// The query that lists the indexes of `images`.
pub fn images_indexes_sql() -> (r: &'static str)
    ensures
        r@ == "SELECT index_name, is_unique, is_primary, CAST(expressions AS VARCHAR)
         FROM duckdb_indexes()
         WHERE table_name = 'images'
         ORDER BY index_name"@,
{
    "SELECT index_name, is_unique, is_primary, CAST(expressions AS VARCHAR)
         FROM duckdb_indexes()
         WHERE table_name = 'images'
         ORDER BY index_name"
}

/// One listed index from the columns of its row, each where it could be read. A row whose name
/// cannot be read is left out; a flag that cannot be read is taken as unset, and an expression as
/// empty.
pub fn index_row(
    name: Option<String>,
    is_unique: Option<bool>,
    is_primary: Option<bool>,
    expressions: Option<String>,
) -> (r: Option<IndexRow>)
    ensures
        r is None <==> name is None,
        r matches Some(row) ==> {
            &&& row.name@ == name->0@
            &&& row.is_unique == (is_unique == Some(true))
            &&& row.is_primary == (is_primary == Some(true))
            &&& row.expressions@ == match expressions {
                Some(e) => e@,
                None => Seq::<char>::empty(),
            }
        },
{
    match name {
        None => None,
        Some(name) => Some(
            IndexRow {
                name,
                is_unique: match is_unique {
                    Some(b) => b,
                    None => false,
                },
                is_primary: match is_primary {
                    Some(b) => b,
                    None => false,
                },
                expressions: match expressions {
                    Some(e) => e,
                    None => String::new(),
                },
            },
        ),
    }
}

/// The listed indexes, in order: a row that could not be read is left out.
pub fn images_indexes(rows: Vec<Option<IndexRow>>) -> (r: Vec<IndexRow>)
    ensures
        r@ == readable(rows@),
{
    readable_rows(rows)
}

/// The columns of `images` that the writeback assigns.
pub fn updated_columns() -> (r: Vec<&'static str>)
    ensures
        r@.map_values(|c: &'static str| c@) == assigned_columns(),
{
    let r: Vec<&'static str> =
        vec![
        "focus_score",
        "focus_basis",
        "focus_human_score",
        "focus_animal_score",
        "focus_foreground_score",
        "focus_saliency_score",
        "focus_animal_pose_score",
        "focus_whole_image_score",
        "focus_algorithm_version",
        "focus_analysis_status",
        "focus_analysis_attempt_id",
        "focus_scored_at",
        "face_count",
        "face_quality_best",
        "face_quality_average",
        "face_quality_min",
        "face_eyes_open_count",
        "face_blink_risk_count",
    ];
    assert(r@.map_values(|c: &'static str| c@) =~= assigned_columns());
    r
}

/// Whether a column occurs in an index expression at `at`, and is not part of a longer name there.
fn named_here(expressions: &Vec<char>, column: &Vec<char>, at: usize) -> (r: bool)
    ensures
        r == named_at(expressions@, column@, at as int),
{
    if !found_at(expressions, column, at) {
        return false;
    }
    assert(at + column.len() <= expressions.len());
    let end: usize = at + column.len();
    (at == 0 || !identifier_char(expressions[at - 1])) && (end == expressions.len()
        || !identifier_char(expressions[end]))
}

/// Whether an index expression names a column.
pub fn mentions_column(expressions: &str, column: &str) -> (r: bool)
    ensures
        r == names_column(expressions@, column@),
{
    let e: Vec<char> = chars_of(expressions);
    let c: Vec<char> = chars_of(column);
    if c.len() > e.len() {
        return false;
    }
    let last: usize = e.len() - c.len();
    let mut at: usize = 0;
    while at < last
        invariant
            e@ == expressions@,
            c@ == column@,
            last + c.len() == e.len(),
            at <= last,
            forall|k: int| 0 <= k < at ==> !named_at(e@, c@, k),
        decreases last - at,
    {
        if named_here(&e, &c, at) {
            assert(named_at(expressions@, column@, at as int));
            return true;
        }
        at = at + 1;
    }
    let r: bool = named_here(&e, &c, last);
    assert(r ==> named_at(expressions@, column@, last as int));
    r
}

/// Whether an index expression names a column that the writeback assigns.
fn covers_updated_column(expressions: &str) -> (r: bool)
    ensures
        r == covers_assigned(expressions@),
{
    let columns: Vec<&'static str> = updated_columns();
    let ghost names = columns@.map_values(|c: &'static str| c@);
    let mut j: usize = 0;
    while j < columns.len()
        invariant
            j <= columns@.len(),
            names == columns@.map_values(|c: &'static str| c@),
            names == assigned_columns(),
            forall|k: int|
                0 <= k < j ==> !names_column(expressions@, #[trigger] assigned_columns()[k]),
        decreases columns.len() - j,
    {
        assert(names[j as int] == columns@[j as int]@);
        if mentions_column(expressions, columns[j]) {
            assert(names_column(expressions@, assigned_columns()[j as int]));
            return true;
        }
        j = j + 1;
    }
    false
}

/// Every index that is neither unique nor primary and whose expression names a column that the
/// writeback assigns, with the statement that drops it.
pub fn drop_updated_column_indexes(indexes: &Vec<IndexRow>) -> (r: Vec<IndexDrop>)
    ensures
        r@.map_values(|d: IndexDrop| d.name@) == dropped_indexes(
            indexes@.map_values(|i: IndexRow| i@),
        ),
        forall|k: int| 0 <= k < r@.len() ==> (#[trigger] r@[k]).sql@ == drop_sql(r@[k].name@),
{
    let ghost views = indexes@.map_values(|i: IndexRow| i@);
    let mut out: Vec<IndexDrop> = Vec::new();
    let mut k: usize = 0;
    assert(views.take(0) =~= Seq::<IndexView>::empty());
    while k < indexes.len()
        invariant
            k <= indexes@.len(),
            views == indexes@.map_values(|i: IndexRow| i@),
            out@.map_values(|d: IndexDrop| d.name@) =~= dropped_indexes(views.take(k as int)),
            forall|i: int|
                0 <= i < out@.len() ==> (#[trigger] out@[i]).sql@ == drop_sql(out@[i].name@),
        decreases indexes.len() - k,
    {
        let index: &IndexRow = &indexes[k];
        assert(views.take(k + 1).drop_last() =~= views.take(k as int));
        assert(views.take(k + 1).last() == index@);
        if !index.is_unique && !index.is_primary && covers_updated_column(
            index.expressions.as_str(),
        ) {
            let mut sql: String = "DROP INDEX IF EXISTS \"".to_owned();
            sql.append(index.name.as_str());
            sql.append("\";");
            let ghost before = out@.map_values(|d: IndexDrop| d.name@);
            out.push(IndexDrop { name: index.name.clone(), sql });
            assert(out@.map_values(|d: IndexDrop| d.name@) =~= before.push(index.name@));
        }
        k = k + 1;
    }
    assert(views.take(indexes@.len() as int) =~= views);
    out
}

/// The names of the indexes whose statement succeeded, in order.
pub fn dropped_names(planned: Vec<IndexDrop>, succeeded: &Vec<bool>) -> (r: Vec<String>)
    requires
        planned@.len() == succeeded@.len(),
    ensures
        r@.map_values(|n: String| n@) == names_dropped(
            planned@.map_values(|d: IndexDrop| d.name@),
            succeeded@,
        ),
{
    let ghost names = planned@.map_values(|d: IndexDrop| d.name@);
    let mut out: Vec<String> = Vec::new();
    let mut k: usize = 0;
    assert(names.take(0) =~= Seq::<Seq<char>>::empty());
    while k < planned.len()
        invariant
            k <= planned@.len(),
            planned@.len() == succeeded@.len(),
            names == planned@.map_values(|d: IndexDrop| d.name@),
            out@.map_values(|n: String| n@) =~= names_dropped(
                names.take(k as int),
                succeeded@.take(k as int),
            ),
        decreases planned.len() - k,
    {
        assert(names.take(k + 1).drop_last() =~= names.take(k as int));
        assert(names.take(k + 1).last() == planned@[k as int].name@);
        assert(succeeded@.take(k + 1).drop_last() =~= succeeded@.take(k as int));
        if succeeded[k] {
            let ghost before = out@.map_values(|n: String| n@);
            out.push(planned[k].name.clone());
            assert(out@.map_values(|n: String| n@) =~= before.push(planned@[k as int].name@));
        }
        k = k + 1;
    }
    assert(names.take(planned@.len() as int) =~= names);
    assert(succeeded@.take(planned@.len() as int) =~= succeeded@);
    out
}

/// An index is among the dropped ones exactly where some listed index of that name is neither
/// unique nor primary and covers an assigned column: primary keys, unique indexes and indexes on
/// other columns stay.
pub proof fn law_only_secondary_indexes_go(indexes: Seq<IndexView>, name: Seq<char>)
    ensures
        dropped_indexes(indexes).contains(name) <==> exists|k: int|
            0 <= k < indexes.len() && #[trigger] indexes[k].name == name && is_dropped(indexes[k]),
    decreases indexes.len(),
{
    if indexes.len() > 0 {
        let rest = indexes.drop_last();
        let n: int = indexes.len() - 1;
        law_only_secondary_indexes_go(rest, name);
        let before = dropped_indexes(rest);
        if is_dropped(indexes.last()) {
            lemma_push_contains(before, indexes.last().name, name);
            assert(indexes[n] == indexes.last());
        }
        assert forall|k: int| 0 <= k < rest.len() implies rest[k] == #[trigger] indexes[k] by {}
        if exists|k: int|
            0 <= k < indexes.len() && #[trigger] indexes[k].name == name && is_dropped(indexes[k]) {
            let k = choose|k: int|
                0 <= k < indexes.len() && #[trigger] indexes[k].name == name && is_dropped(
                    indexes[k],
                );
            if k < n {
                assert(rest[k].name == name && is_dropped(rest[k]));
            }
        }
    }
}

/// An index is reported as dropped exactly where its statement was planned and succeeded.
pub proof fn law_reported_names_were_dropped(
    names: Seq<Seq<char>>,
    succeeded: Seq<bool>,
    name: Seq<char>,
)
    requires
        names.len() == succeeded.len(),
    ensures
        names_dropped(names, succeeded).contains(name) <==> exists|k: int|
            0 <= k < names.len() && #[trigger] names[k] == name && succeeded[k],
    decreases names.len(),
{
    if names.len() > 0 {
        let rest = names.drop_last();
        let n: int = names.len() - 1;
        law_reported_names_were_dropped(rest, succeeded.drop_last(), name);
        let before = names_dropped(rest, succeeded.drop_last());
        if succeeded[n] {
            lemma_push_contains(before, names[n], name);
        }
        assert forall|k: int| 0 <= k < rest.len() implies rest[k] == #[trigger] names[k] by {}
        if exists|k: int| 0 <= k < names.len() && #[trigger] names[k] == name && succeeded[k] {
            let k = choose|k: int|
                0 <= k < names.len() && #[trigger] names[k] == name && succeeded[k];
            if k < n {
                assert(rest[k] == name && succeeded.drop_last()[k]);
            }
        }
    }
}

/// An expression names a column exactly where it is the column with something, or nothing, before
/// and behind it, and what touches the column there cannot stand in a name.
pub proof fn law_named_column_is_a_whole_name(expressions: Seq<char>, column: Seq<char>)
    ensures
        names_column(expressions, column) <==> exists|a: Seq<char>, b: Seq<char>|
            expressions == #[trigger] (a + column + b) && (a.len() > 0 ==> !is_identifier_char(
                a.last(),
            )) && (b.len() > 0 ==> !is_identifier_char(b[0])),
{
    let n = column.len();
    if names_column(expressions, column) {
        let at = choose|at: int| named_at(expressions, column, at);
        let a = expressions.take(at);
        let b = expressions.skip(at + n);
        assert(expressions.subrange(at, at + n) == column);
        assert(expressions =~= a + expressions.subrange(at, at + n) + b);
        assert(expressions == a + column + b);
        if a.len() > 0 {
            assert(a.last() == expressions[at - 1]);
        }
        if b.len() > 0 {
            assert(b[0] == expressions[at + n]);
        }
    }
    if exists|a: Seq<char>, b: Seq<char>|
        expressions == #[trigger] (a + column + b) && (a.len() > 0 ==> !is_identifier_char(
            a.last(),
        )) && (b.len() > 0 ==> !is_identifier_char(b[0])) {
        let (a, b) = choose|a: Seq<char>, b: Seq<char>|
            expressions == #[trigger] (a + column + b) && (a.len() > 0 ==> !is_identifier_char(
                a.last(),
            )) && (b.len() > 0 ==> !is_identifier_char(b[0]));
        let at: int = a.len() as int;
        assert(expressions.subrange(at, at + n) =~= column);
        if at > 0 {
            assert(expressions[at - 1] == a.last());
        }
        if at + n < expressions.len() {
            assert(expressions[at + n] == b[0]);
        }
        assert(named_at(expressions, column, at));
    }
}

/// What the names of the assigned columns that speak of focus go on with.
pub open spec fn focus_parts() -> Seq<Seq<char>> {
    seq![
        "score"@,
        "basis"@,
        "human_score"@,
        "animal_score"@,
        "foreground_score"@,
        "saliency_score"@,
        "animal_pose_score"@,
        "whole_image_score"@,
        "algorithm_version"@,
        "analysis_status"@,
        "analysis_attempt_id"@,
        "scored_at"@,
    ]
}

/// What the names of the assigned columns that speak of faces go on with.
pub open spec fn face_parts() -> Seq<Seq<char>> {
    seq![
        "count"@,
        "quality_best"@,
        "quality_average"@,
        "quality_min"@,
        "eyes_open_count"@,
        "blink_risk_count"@,
    ]
}

/// The writeback assigns twelve columns on focus and six on faces, and no other.
pub proof fn law_writeback_assigns_focus_and_faces()
    ensures
        assigned_columns() == focus_parts().map_values(|part: Seq<char>| "focus_"@ + part)
            + face_parts().map_values(|part: Seq<char>| "face_"@ + part),
{
    reveal_strlit("focus_");
    reveal_strlit("face_");
    reveal_strlit("score");
    reveal_strlit("basis");
    reveal_strlit("human_score");
    reveal_strlit("animal_score");
    reveal_strlit("foreground_score");
    reveal_strlit("saliency_score");
    reveal_strlit("animal_pose_score");
    reveal_strlit("whole_image_score");
    reveal_strlit("algorithm_version");
    reveal_strlit("analysis_status");
    reveal_strlit("analysis_attempt_id");
    reveal_strlit("scored_at");
    reveal_strlit("count");
    reveal_strlit("quality_best");
    reveal_strlit("quality_average");
    reveal_strlit("quality_min");
    reveal_strlit("eyes_open_count");
    reveal_strlit("blink_risk_count");
    reveal_strlit("focus_score");
    reveal_strlit("focus_basis");
    reveal_strlit("focus_human_score");
    reveal_strlit("focus_animal_score");
    reveal_strlit("focus_foreground_score");
    reveal_strlit("focus_saliency_score");
    reveal_strlit("focus_animal_pose_score");
    reveal_strlit("focus_whole_image_score");
    reveal_strlit("focus_algorithm_version");
    reveal_strlit("focus_analysis_status");
    reveal_strlit("focus_analysis_attempt_id");
    reveal_strlit("focus_scored_at");
    reveal_strlit("face_count");
    reveal_strlit("face_quality_best");
    reveal_strlit("face_quality_average");
    reveal_strlit("face_quality_min");
    reveal_strlit("face_eyes_open_count");
    reveal_strlit("face_blink_risk_count");
    assert("focus_score"@ =~= "focus_"@ + "score"@);
    assert("focus_basis"@ =~= "focus_"@ + "basis"@);
    assert("focus_human_score"@ =~= "focus_"@ + "human_score"@);
    assert("focus_animal_score"@ =~= "focus_"@ + "animal_score"@);
    assert("focus_foreground_score"@ =~= "focus_"@ + "foreground_score"@);
    assert("focus_saliency_score"@ =~= "focus_"@ + "saliency_score"@);
    assert("focus_animal_pose_score"@ =~= "focus_"@ + "animal_pose_score"@);
    assert("focus_whole_image_score"@ =~= "focus_"@ + "whole_image_score"@);
    assert("focus_algorithm_version"@ =~= "focus_"@ + "algorithm_version"@);
    assert("focus_analysis_status"@ =~= "focus_"@ + "analysis_status"@);
    assert("focus_analysis_attempt_id"@ =~= "focus_"@ + "analysis_attempt_id"@);
    assert("focus_scored_at"@ =~= "focus_"@ + "scored_at"@);
    assert("face_count"@ =~= "face_"@ + "count"@);
    assert("face_quality_best"@ =~= "face_"@ + "quality_best"@);
    assert("face_quality_average"@ =~= "face_"@ + "quality_average"@);
    assert("face_quality_min"@ =~= "face_"@ + "quality_min"@);
    assert("face_eyes_open_count"@ =~= "face_"@ + "eyes_open_count"@);
    assert("face_blink_risk_count"@ =~= "face_"@ + "blink_risk_count"@);
    assert(assigned_columns() =~= focus_parts().map_values(|part: Seq<char>| "focus_"@ + part)
        + face_parts().map_values(|part: Seq<char>| "face_"@ + part));
}

/// The plan is, in the order in which they are listed, the names of the indexes that are neither
/// unique nor primary and whose expression names an assigned column.
pub proof fn law_plan_is_the_secondary_indexes(indexes: Seq<IndexView>)
    ensures
        dropped_indexes(indexes) == indexes.filter(
            |i: IndexView|
                !i.is_unique && !i.is_primary && exists|column: Seq<char>|
                    assigned_columns().contains(column) && #[trigger] names_column(
                        i.expressions,
                        column,
                    ),
        ).map_values(|i: IndexView| i.name),
    decreases indexes.len(),
{
    reveal(Seq::filter);
    let p = |i: IndexView|
        !i.is_unique && !i.is_primary && exists|column: Seq<char>|
            assigned_columns().contains(column) && #[trigger] names_column(i.expressions, column);
    let name = |i: IndexView| i.name;
    if indexes.len() > 0 {
        let rest = indexes.drop_last();
        let last = indexes.last();
        law_plan_is_the_secondary_indexes(rest);
        if covers_assigned(last.expressions) {
            let j = choose|j: int|
                0 <= j < assigned_columns().len() && names_column(
                    last.expressions,
                    #[trigger] assigned_columns()[j],
                );
            assert(assigned_columns().contains(assigned_columns()[j]));
        }
        if exists|column: Seq<char>|
            assigned_columns().contains(column) && #[trigger] names_column(
                last.expressions,
                column,
            ) {
            let column = choose|column: Seq<char>|
                assigned_columns().contains(column) && #[trigger] names_column(
                    last.expressions,
                    column,
                );
            let j = choose|j: int|
                0 <= j < assigned_columns().len() && assigned_columns()[j] == column;
            assert(names_column(last.expressions, assigned_columns()[j]));
        }
        assert(is_dropped(last) == p(last));
        assert(rest.filter(p).push(last).map_values(name) =~= rest.filter(p).map_values(name).push(
            last.name,
        ));
    }
    assert(dropped_indexes(indexes) =~= indexes.filter(p).map_values(name));
}

/// What is reported of two plans, one behind the other, is what is reported of each, and of a
/// single statement it is its name where it succeeded.
pub proof fn law_reports_keep_their_order(
    a: Seq<Seq<char>>,
    b: Seq<Seq<char>>,
    s: Seq<bool>,
    t: Seq<bool>,
    name: Seq<char>,
)
    requires
        a.len() == s.len(),
        b.len() == t.len(),
    ensures
        names_dropped(a + b, s + t) == names_dropped(a, s) + names_dropped(b, t),
        names_dropped(seq![name], seq![true]) == seq![name],
        names_dropped(seq![name], seq![false]) == Seq::<Seq<char>>::empty(),
    decreases b.len(),
{
    reveal_with_fuel(names_dropped, 2);
    assert(seq![name].drop_last() =~= Seq::<Seq<char>>::empty());
    assert(names_dropped(seq![name], seq![true]) =~= seq![name]);
    if b.len() == 0 {
        assert(a + b =~= a);
        assert(s + t =~= s);
    } else {
        law_reports_keep_their_order(a, b.drop_last(), s, t.drop_last(), name);
        assert((a + b).drop_last() =~= a + b.drop_last());
        assert((s + t).drop_last() =~= s + t.drop_last());
    }
}

/// A statement names its index as it is, in quotes; two indexes never share a statement.
pub proof fn law_statement_drops_its_index(name: Seq<char>, other: Seq<char>)
    ensures
        drop_sql(name) == "DROP INDEX IF EXISTS \""@ + name + "\";"@,
        drop_sql(name) == drop_sql(other) ==> name == other,
{
    let a = drop_sql(name);
    let b = drop_sql(other);
    let head: int = "DROP INDEX IF EXISTS \""@.len() as int;
    let foot: int = "\";"@.len() as int;
    assert(a.subrange(head, a.len() - foot) =~= name);
    assert(b.subrange(head, b.len() - foot) =~= other);
}

/// The indexes without those of the given names.
pub open spec fn without_names(indexes: Seq<IndexView>, names: Seq<Seq<char>>) -> Seq<IndexView>
    decreases indexes.len(),
{
    if indexes.len() == 0 {
        Seq::empty()
    } else if names.contains(indexes.last().name) {
        without_names(indexes.drop_last(), names)
    } else {
        without_names(indexes.drop_last(), names).push(indexes.last())
    }
}

/// The indexes that are listed behind the given statements, each of which, where it succeeds, takes
/// away the index of its name and touches no other.
pub open spec fn after_drops(
    indexes: Seq<IndexView>,
    names: Seq<Seq<char>>,
    succeeded: Seq<bool>,
) -> Seq<IndexView>
    recommends
        names.len() == succeeded.len(),
    decreases names.len(),
{
    if names.len() == 0 {
        indexes
    } else {
        let before = after_drops(indexes, names.drop_last(), succeeded.drop_last());
        if succeeded.last() {
            without_names(before, seq![names.last()])
        } else {
            before
        }
    }
}

/// What is left without the given names is what was listed under other names.
proof fn lemma_without_names(indexes: Seq<IndexView>, names: Seq<Seq<char>>, index: IndexView)
    ensures
        without_names(indexes, names).contains(index) <==> indexes.contains(index)
            && !names.contains(index.name),
    decreases indexes.len(),
{
    if indexes.len() > 0 {
        let rest = indexes.drop_last();
        lemma_without_names(rest, names, index);
        lemma_push_contains(rest, indexes.last(), index);
        assert(rest.push(indexes.last()) =~= indexes);
        lemma_push_contains(without_names(rest, names), indexes.last(), index);
    }
}

/// What is in a list that has grown by one.
proof fn lemma_push_contains<A>(s: Seq<A>, a: A, x: A)
    ensures
        s.push(a).contains(x) <==> s.contains(x) || x == a,
{
    if s.contains(x) {
        let i = choose|i: int| 0 <= i < s.len() && s[i] == x;
        assert(s.push(a)[i] == x);
    }
    assert(s.push(a)[s.len() as int] == a);
}

/// Leaving out no name leaves everything.
proof fn lemma_without_nothing(indexes: Seq<IndexView>)
    ensures
        without_names(indexes, Seq::empty()) == indexes,
    decreases indexes.len(),
{
    if indexes.len() > 0 {
        lemma_without_nothing(indexes.drop_last());
        assert(indexes.drop_last().push(indexes.last()) =~= indexes);
    }
}

/// Leaving out some names and then one more is leaving out all of them.
proof fn lemma_without_one_more(indexes: Seq<IndexView>, names: Seq<Seq<char>>, name: Seq<char>)
    ensures
        without_names(without_names(indexes, names), seq![name]) == without_names(
            indexes,
            names.push(name),
        ),
    decreases indexes.len(),
{
    if indexes.len() > 0 {
        let rest = indexes.drop_last();
        let last = indexes.last();
        lemma_without_one_more(rest, names, name);
        lemma_push_contains(names, name, last.name);
        assert(seq![name].contains(last.name) <==> last.name == name) by {
            assert(seq![name][0] == name);
        }
        if !names.contains(last.name) {
            assert(without_names(rest, names).push(last).drop_last() =~= without_names(rest, names));
        }
    }
}

/// Dropping changes nothing else: what is listed behind the statements is what was listed before,
/// without the indexes whose names are reported.
pub proof fn law_drops_change_nothing_else(
    indexes: Seq<IndexView>,
    names: Seq<Seq<char>>,
    succeeded: Seq<bool>,
)
    requires
        names.len() == succeeded.len(),
    ensures
        after_drops(indexes, names, succeeded) == without_names(
            indexes,
            names_dropped(names, succeeded),
        ),
    decreases names.len(),
{
    if names.len() == 0 {
        lemma_without_nothing(indexes);
    } else {
        let reported = names_dropped(names.drop_last(), succeeded.drop_last());
        law_drops_change_nothing_else(indexes, names.drop_last(), succeeded.drop_last());
        lemma_without_one_more(indexes, reported, names.last());
    }
}

/// A listed index is still listed behind the statements exactly where its name is not reported.
pub proof fn law_unreported_indexes_stay(
    indexes: Seq<IndexView>,
    names: Seq<Seq<char>>,
    succeeded: Seq<bool>,
    k: int,
)
    requires
        names.len() == succeeded.len(),
        0 <= k < indexes.len(),
    ensures
        after_drops(indexes, names, succeeded).contains(indexes[k]) <==> !names_dropped(
            names,
            succeeded,
        ).contains(indexes[k].name),
{
    law_drops_change_nothing_else(indexes, names, succeeded);
    lemma_without_names(indexes, names_dropped(names, succeeded), indexes[k]);
    assert(indexes.contains(indexes[k]));
}

/// Every listed index that is unique, primary or over other columns is still listed behind the
/// drops, whichever of them succeed, unless one that is to be dropped bears its name.
pub proof fn law_other_indexes_stay(indexes: Seq<IndexView>, succeeded: Seq<bool>, k: int)
    requires
        succeeded.len() == dropped_indexes(indexes).len(),
        0 <= k < indexes.len(),
        !is_dropped(indexes[k]),
        forall|j: int|
            0 <= j < indexes.len() && is_dropped(#[trigger] indexes[j]) ==> indexes[j].name
                != indexes[k].name,
    ensures
        after_drops(indexes, dropped_indexes(indexes), succeeded).contains(indexes[k]),
{
    let planned = dropped_indexes(indexes);
    law_unreported_indexes_stay(indexes, planned, succeeded, k);
    law_reported_names_were_dropped(planned, succeeded, indexes[k].name);
    law_only_secondary_indexes_go(indexes, indexes[k].name);
}

/// Once every planned statement has succeeded, a second plan over what is left is empty.
pub proof fn law_second_plan_is_empty(indexes: Seq<IndexView>, succeeded: Seq<bool>)
    requires
        succeeded.len() == dropped_indexes(indexes).len(),
        forall|i: int| 0 <= i < succeeded.len() ==> succeeded[i],
    ensures
        dropped_indexes(after_drops(indexes, dropped_indexes(indexes), succeeded)).len() == 0,
{
    let planned = dropped_indexes(indexes);
    let reported = names_dropped(planned, succeeded);
    let left = after_drops(indexes, planned, succeeded);
    law_drops_change_nothing_else(indexes, planned, succeeded);
    if dropped_indexes(left).len() > 0 {
        let name = dropped_indexes(left)[0];
        assert(dropped_indexes(left).contains(name));
        law_only_secondary_indexes_go(left, name);
        let j = choose|j: int|
            0 <= j < left.len() && #[trigger] left[j].name == name && is_dropped(left[j]);
        assert(left.contains(left[j]));
        lemma_without_names(indexes, reported, left[j]);
        let i = choose|i: int| 0 <= i < indexes.len() && indexes[i] == left[j];
        assert(indexes[i].name == name);
        law_only_secondary_indexes_go(indexes, name);
        let p = choose|p: int| 0 <= p < planned.len() && planned[p] == name;
        law_reported_names_were_dropped(planned, succeeded, name);
        assert(planned[p] == name && succeeded[p]);
    }
}

/// What `index_row` hands back: a row wherever its name can be read, with each column in its own
/// field; a flag is set only where it can be read as set, and an expression that cannot be read is
/// empty.
pub proof fn law_listed_index(
    name: Option<String>,
    is_unique: Option<bool>,
    is_primary: Option<bool>,
    expressions: Option<String>,
    r: Option<IndexRow>,
)
    requires
        call_ensures(index_row, (name, is_unique, is_primary, expressions), r),
    ensures
        r is Some <==> name is Some,
        r matches Some(row) ==> {
            &&& name matches Some(text) && row.name@ == text@
            &&& row.is_unique <==> is_unique == Some(true)
            &&& row.is_primary <==> is_primary == Some(true)
            &&& expressions matches Some(text) ==> row.expressions@ == text@
            &&& expressions is None ==> row.expressions@.len() == 0
        },
{
}

/// What `drop_updated_column_indexes` plans: in the order in which they are listed, the indexes that
/// are neither unique nor primary and whose expression names an assigned column, each with the
/// statement that drops it.
pub proof fn law_planned_drops(indexes: &Vec<IndexRow>, r: Vec<IndexDrop>)
    requires
        call_ensures(drop_updated_column_indexes, (indexes,), r),
    ensures
        r@.map_values(|d: IndexDrop| d.name@) == indexes@.map_values(|i: IndexRow| i@).filter(
            |i: IndexView|
                !i.is_unique && !i.is_primary && exists|column: Seq<char>|
                    assigned_columns().contains(column) && #[trigger] names_column(
                        i.expressions,
                        column,
                    ),
        ).map_values(|i: IndexView| i.name),
        forall|k: int|
            0 <= k < r@.len() ==> (#[trigger] r@[k]).sql@ == "DROP INDEX IF EXISTS \""@ + r@[k].name@
                + "\";"@,
{
    law_plan_is_the_secondary_indexes(indexes@.map_values(|i: IndexRow| i@));
    assert forall|k: int| 0 <= k < r@.len() implies (#[trigger] r@[k]).sql@
        == "DROP INDEX IF EXISTS \""@ + r@[k].name@ + "\";"@ by {
        law_statement_drops_its_index(r@[k].name@, r@[k].name@);
    }
}

/// What `images_indexes` and `dropped_names` hand back: the rows that can be read, and the names
/// whose statement succeeded.
pub proof fn law_listed_and_reported(
    rows: Vec<Option<IndexRow>>,
    listed: Vec<IndexRow>,
    planned: Vec<IndexDrop>,
    succeeded: &Vec<bool>,
    reported: Vec<String>,
)
    requires
        call_ensures(images_indexes, (rows,), listed),
        planned@.len() == succeeded@.len(),
        call_ensures(dropped_names, (planned, succeeded), reported),
    ensures
        listed@ == readable(rows@),
        reported@.map_values(|n: String| n@) == names_dropped(
            planned@.map_values(|d: IndexDrop| d.name@),
            succeeded@,
        ),
{
}

}
