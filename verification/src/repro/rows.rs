//! The rows that a query hands back, some of which may not be readable.
use vstd::prelude::*;

verus! {

/// The rows that could be read, in order.
pub open spec fn readable<T>(rows: Seq<Option<T>>) -> Seq<T>
    decreases rows.len(),
{
    if rows.len() == 0 {
        Seq::empty()
    } else {
        match rows.last() {
            Some(row) => readable(rows.drop_last()).push(row),
            None => readable(rows.drop_last()),
        }
    }
}

/// The rows that could be read, in order: a row that could not be read is left out.
pub fn readable_rows<T>(rows: Vec<Option<T>>) -> (r: Vec<T>)
    ensures
        r@ == readable(rows@),
{
    let ghost all = rows@;
    let mut out: Vec<T> = Vec::new();
    assert(all.take(0) =~= Seq::<Option<T>>::empty());
    for row in it: rows.into_iter()
        invariant
            it.seq() == all,
            out@ == readable(all.take(it.index() as int)),
    {
        assert(all.take(it.index() + 1).drop_last() =~= all.take(it.index() as int));
        if let Some(row) = row {
            out.push(row);
        }
    }
    assert(all.take(all.len() as int) =~= all);
    out
}

/// What can be read of one list behind another is what can be read of each, and of a single row it
/// is that row or nothing.
pub proof fn law_readable_rows_keep_their_order<T>(a: Seq<Option<T>>, b: Seq<Option<T>>, row: T)
    ensures
        readable(a + b) == readable(a) + readable(b),
        readable(seq![Some(row)]) == seq![row],
        readable(seq![None::<T>]) == Seq::<T>::empty(),
        readable(Seq::<Option<T>>::empty()) == Seq::<T>::empty(),
    decreases b.len(),
{
    reveal_with_fuel(readable, 2);
    assert(seq![Some(row)].drop_last() =~= Seq::<Option<T>>::empty());
    assert(seq![None::<T>].drop_last() =~= Seq::<Option<T>>::empty());
    assert(readable(seq![Some(row)]) =~= seq![row]);
    if b.len() == 0 {
        assert(a + b =~= a);
    } else {
        law_readable_rows_keep_their_order(a, b.drop_last(), row);
        assert((a + b).drop_last() =~= a + b.drop_last());
        assert((a + b).last() == b.last());
    }
}

}
