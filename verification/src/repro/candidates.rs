//! The queue of images that a run goes over.
#[allow(unused_imports)]
use crate::repro::rows::readable;
use vstd::prelude::*;

verus! {

/// The query that lists the queue, in the order of the identifiers.
pub open spec fn candidate_query(where_clause: Seq<char>) -> Seq<char> {
    "SELECT id FROM images "@ + where_clause + " ORDER BY id"@
}

/// The queue without its first `skip` entries; nothing where there are not more than that.
pub open spec fn after_skip(queue: Seq<i64>, skip: usize) -> Seq<i64> {
    if skip < queue.len() {
        queue.skip(skip as int)
    } else {
        Seq::empty()
    }
}

/// The first `cap` entries of the queue; all of it where `cap` is 0.
pub open spec fn capped(queue: Seq<i64>, cap: usize) -> Seq<i64> {
    if 0 < cap < queue.len() {
        queue.take(cap as int)
    } else {
        queue
    }
}

/// How many entries of a list are known to be more than one.
pub open spec fn count_above_one(counts: Seq<Option<usize>>) -> nat
    decreases counts.len(),
{
    if counts.len() == 0 {
        0
    } else {
        count_above_one(counts.drop_last()) + (if counts.last() matches Some(n) && n > 1 {
            1nat
        } else {
            0nat
        })
    }
}

/// The query that lists the queue, in the order of the identifiers.
pub fn repro_candidate_sql(where_clause: &str) -> (r: String)
    ensures
        r@ == candidate_query(where_clause@),
{
    let mut sql: String = "SELECT id FROM images ".to_owned();
    sql.append(where_clause);
    sql.append(" ORDER BY id");
    sql
}

/// The identifiers that could be read from the rows of the queue, in order: a row that could not
/// be read is left out.
pub fn repro_candidate_ids(rows: &Vec<Option<i64>>) -> (r: Vec<i64>)
    ensures
        r@ == readable(rows@),
{
    let mut out: Vec<i64> = Vec::new();
    let mut k: usize = 0;
    assert(rows@.take(0) =~= Seq::<Option<i64>>::empty());
    while k < rows.len()
        invariant
            k <= rows@.len(),
            out@ == readable(rows@.take(k as int)),
        decreases rows.len() - k,
    {
        assert(rows@.take(k + 1).drop_last() =~= rows@.take(k as int));
        match rows[k] {
            Some(id) => {
                out.push(id);
            },
            None => {},
        }
        k = k + 1;
    }
    assert(rows@.take(rows@.len() as int) =~= rows@);
    out
}

/// The part of the queue that a run goes over: without the entries that it skips, and no longer
/// than its cap.
pub fn select_candidates(queue: Vec<i64>, skip: usize, cap: usize) -> (r: Vec<i64>)
    ensures
        r@ == capped(after_skip(queue@, skip), cap),
{
    let mut skipped: Vec<i64> = queue;
    let mut kept: Vec<i64> = Vec::new();
    if skip < skipped.len() {
        kept = skipped.split_off(skip);
        assert(kept@ =~= queue@.skip(skip as int));
    }
    if cap > 0 && kept.len() > cap {
        let ghost before = kept@;
        kept.truncate(cap);
        assert(kept@ =~= before.take(cap as int));
    }
    kept
}

/// How many images of the queue the twin probe looks at.
pub fn probe_length(candidates: &Vec<i64>) -> (r: usize)
    ensures
        r == if candidates@.len() < 400 {
            candidates@.len()
        } else {
            400
        },
{
    if candidates.len() < 400 {
        candidates.len()
    } else {
        400
    }
}

/// How many of the probed images are written to more than one row, given for each the number of
/// its rows where it could be read.
pub fn count_expanded(target_counts: &Vec<Option<usize>>) -> (r: usize)
    ensures
        r == count_above_one(target_counts@),
        r <= target_counts@.len(),
{
    let mut expanded: usize = 0;
    let mut k: usize = 0;
    assert(target_counts@.take(0) =~= Seq::<Option<usize>>::empty());
    while k < target_counts.len()
        invariant
            k <= target_counts@.len(),
            expanded <= k,
            expanded == count_above_one(target_counts@.take(k as int)),
        decreases target_counts.len() - k,
    {
        assert(target_counts@.take(k + 1).drop_last() =~= target_counts@.take(k as int));
        if let Some(n) = target_counts[k] {
            if n > 1 {
                expanded = expanded + 1;
            }
        }
        k = k + 1;
    }
    assert(target_counts@.take(target_counts@.len() as int) =~= target_counts@);
    expanded
}

/// The selection starts behind the skipped entries and goes on without a gap up to its cap, or to
/// the end of the queue where the cap is 0 or is not reached.
pub proof fn law_selection_starts_behind_the_skip_and_ends_at_the_cap(
    queue: Seq<i64>,
    skip: usize,
    cap: usize,
)
    ensures
        ({
            let picked = capped(after_skip(queue, skip), cap);
            let left: int = if skip < queue.len() {
                queue.len() - skip
            } else {
                0
            };
            &&& cap == 0 ==> picked.len() == left
            &&& cap > 0 && left <= cap ==> picked.len() == left
            &&& cap > 0 && left > cap ==> picked.len() == cap
            &&& forall|i: int| 0 <= i < picked.len() ==> #[trigger] picked[i] == queue[skip + i]
        }),
{
}

/// The query holds the condition as it is, between the table and the order; two conditions never
/// give the same query.
pub proof fn law_query_holds_its_condition(where_clause: Seq<char>, other: Seq<char>)
    ensures
        candidate_query(where_clause) == "SELECT id FROM images "@ + where_clause
            + " ORDER BY id"@,
        candidate_query(where_clause) == candidate_query(other) ==> where_clause == other,
{
    let a = candidate_query(where_clause);
    let b = candidate_query(other);
    let head: int = "SELECT id FROM images "@.len() as int;
    let foot: int = " ORDER BY id"@.len() as int;
    assert(a.subrange(head, a.len() - foot) =~= where_clause);
    assert(b.subrange(head, b.len() - foot) =~= other);
}

/// The count is that of the images whose number of rows could be read and is more than one.
pub proof fn law_expanded_images_are_counted(counts: Seq<Option<usize>>)
    ensures
        count_above_one(counts) == counts.filter(
            |c: Option<usize>| c matches Some(n) && n > 1,
        ).len(),
    decreases counts.len(),
{
    reveal(Seq::filter);
    if counts.len() > 0 {
        law_expanded_images_are_counted(counts.drop_last());
    }
}

/// A run over part of the queue keeps the queue's order, and is over nothing exactly where it skips
/// the whole queue.
pub proof fn law_selection_is_a_slice(queue: Seq<i64>, skip: usize, cap: usize)
    ensures
        ({
            let picked = capped(after_skip(queue, skip), cap);
            &&& picked.len() == 0 <==> queue.len() <= skip
            &&& exists|from: int|
                0 <= from && from + picked.len() <= queue.len() && picked == #[trigger] queue.subrange(
                    from,
                    from + picked.len(),
                )
        }),
{
    let picked = capped(after_skip(queue, skip), cap);
    let from: int = if skip < queue.len() {
        skip as int
    } else {
        0
    };
    assert(picked =~= queue.subrange(from, from + picked.len()));
}

/// What `select_candidates` hands back: at most as many entries as the cap, where there is one, and
/// otherwise all behind the skipped ones; its entry `i` is the queue's entry `skip + i`.
pub proof fn law_selected_entries(queue: Vec<i64>, skip: usize, cap: usize, r: Vec<i64>)
    requires
        call_ensures(select_candidates, (queue, skip, cap), r),
    ensures
        cap > 0 ==> r@.len() <= cap,
        skip >= queue@.len() ==> r@.len() == 0,
        skip < queue@.len() && (cap == 0 || queue@.len() - skip <= cap) ==> r@.len() == queue@.len()
            - skip,
        skip < queue@.len() && cap > 0 && queue@.len() - skip > cap ==> r@.len() == cap,
        forall|i: int| 0 <= i < r@.len() ==> #[trigger] r@[i] == queue@[skip + i],
{
    law_selection_starts_behind_the_skip_and_ends_at_the_cap(queue@, skip, cap);
}

/// What the twin probe looks at and counts: the first 400 images, or all where there are fewer, and
/// of those the ones whose number of rows could be read and is more than one.
pub proof fn law_twin_probe(
    candidates: &Vec<i64>,
    length: usize,
    counts: &Vec<Option<usize>>,
    expanded: usize,
)
    requires
        call_ensures(probe_length, (candidates,), length),
        call_ensures(count_expanded, (counts,), expanded),
    ensures
        length <= 400 && length <= candidates@.len(),
        length == 400 || length == candidates@.len(),
        expanded == counts@.filter(|c: Option<usize>| c matches Some(n) && n > 1).len(),
{
    law_expanded_images_are_counted(counts@);
}

/// The queue is what can be read of its rows, in order, and the query holds its condition.
pub proof fn law_queue_is_what_can_be_read(
    rows: &Vec<Option<i64>>,
    ids: Vec<i64>,
    where_clause: &str,
    sql: String,
)
    requires
        call_ensures(repro_candidate_ids, (rows,), ids),
        call_ensures(repro_candidate_sql, (where_clause,), sql),
    ensures
        ids@ == readable(rows@),
        sql@ == "SELECT id FROM images "@ + where_clause@ + " ORDER BY id"@,
{
}

}
