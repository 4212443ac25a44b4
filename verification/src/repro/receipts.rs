//! What the writeback answers for one chunk, and how the answer is read.
use crate::text::{contains_text, push_decimal, push_signed, same_text};
#[allow(unused_imports)]
use crate::text::{decimal, law_occurrence_is_a_part, occurs_in, signed_decimal};
use vstd::prelude::*;

verus! {

/// A warning on a receipt: the catalogue's own count of the rows that a write matched.
#[derive(Debug, PartialEq, Eq)]
pub struct WritebackWarning {
    pub reason_code: String,
    pub source_image_id: i64,
    pub target_image_id: i64,
    pub row_count: u64,
    pub matching_rows: i64,
    pub distinct_rowids: i64,
    pub detail: String,
}

/// What the writeback answers for one chunk.
#[derive(Debug, PartialEq, Eq)]
pub struct WritebackReceipt {
    pub updated: u64,
    pub failure_stage: Option<String>,
    pub failed_reason: Option<String>,
    pub source_image_id: Option<i64>,
    pub target_image_id: Option<i64>,
    pub warnings: Vec<WritebackWarning>,
}

/// What a receipt says of its chunk.
#[derive(Debug, PartialEq, Eq)]
pub enum ChunkVerdict {
    /// The chunk was written.
    Clean,
    /// The chunk was accepted and changed no row.
    ZeroRows,
    /// The chunk failed, and was rolled back.
    Failed { stage: String, reason: String, invariant_trip: bool },
}

/// The code of the warning that a chunk's first transaction was rolled back and replayed.
pub open spec fn retried_code() -> Seq<char> {
    "focus_writeback_chunk_retried"@
}

impl WritebackWarning {
    /// Whether the warning says that the chunk was replayed; every other one is a count anomaly
    /// that the catalogue confirmed.
    pub open spec fn is_retry(self) -> bool {
        self.reason_code@ == retried_code()
    }

    /// Whether the warning says that the chunk was replayed.
    pub fn says_retried(&self) -> (r: bool)
        ensures
            r == self.is_retry(),
    {
        same_text(self.reason_code.as_str(), "focus_writeback_chunk_retried")
    }
}

/// How many warnings say that a chunk was replayed.
pub open spec fn retries(warnings: Seq<WritebackWarning>) -> nat
    decreases warnings.len(),
{
    if warnings.len() == 0 {
        0
    } else {
        retries(warnings.drop_last()) + (if warnings.last().is_retry() {
            1nat
        } else {
            0nat
        })
    }
}

impl WritebackReceipt {
    /// Whether the chunk failed.
    pub open spec fn is_failure(self) -> bool {
        self.failure_stage is Some || self.failed_reason is Some
    }

    /// The stage at which the chunk failed.
    pub open spec fn stage(self) -> Seq<char> {
        match self.failure_stage {
            Some(s) => s@,
            None => "unknown"@,
        }
    }

    /// The reason for which the chunk failed.
    pub open spec fn reason(self) -> Seq<char> {
        match self.failed_reason {
            Some(s) => s@,
            None => "(no reason)"@,
        }
    }

    /// Whether the chunk failed because a write to one target did not change one row.
    pub open spec fn is_trip(self) -> bool {
        self.is_failure() && occurs_in(self.reason(), "one-target/one-row invariant"@)
    }

    /// Whether the chunk was accepted and changed no row.
    pub open spec fn is_zero_rows(self) -> bool {
        !self.is_failure() && self.updated == 0
    }

    /// How many of the warnings are count anomalies.
    pub open spec fn anomalies(self) -> int {
        self.warnings@.len() - retries(self.warnings@)
    }

    /// What the receipt says of its chunk, which held at least one source.
    pub fn verdict(&self) -> (r: ChunkVerdict)
        ensures
            match r {
                ChunkVerdict::Clean => !self.is_failure() && !self.is_zero_rows(),
                ChunkVerdict::ZeroRows => self.is_zero_rows(),
                ChunkVerdict::Failed { stage, reason, invariant_trip } => {
                    &&& self.is_failure()
                    &&& stage@ == self.stage()
                    &&& reason@ == self.reason()
                    &&& invariant_trip == self.is_trip()
                },
            },
    {
        if self.failure_stage.is_some() || self.failed_reason.is_some() {
            let stage: String = match &self.failure_stage {
                Some(s) => s.clone(),
                None => "unknown".to_owned(),
            };
            let reason: String = match &self.failed_reason {
                Some(s) => s.clone(),
                None => "(no reason)".to_owned(),
            };
            let invariant_trip: bool = contains_text(
                reason.as_str(),
                "one-target/one-row invariant",
            );
            ChunkVerdict::Failed { stage, reason, invariant_trip }
        } else if self.updated == 0 {
            ChunkVerdict::ZeroRows
        } else {
            ChunkVerdict::Clean
        }
    }

    /// How many of the warnings say that the chunk was replayed.
    pub fn count_retries(&self) -> (r: usize)
        ensures
            r == retries(self.warnings@),
            r <= self.warnings@.len(),
    {
        let mut seen: usize = 0;
        let mut k: usize = 0;
        assert(self.warnings@.take(0) =~= Seq::<WritebackWarning>::empty());
        while k < self.warnings.len()
            invariant
                k <= self.warnings@.len(),
                seen <= k,
                seen == retries(self.warnings@.take(k as int)),
            decreases self.warnings.len() - k,
        {
            assert(self.warnings@.take(k + 1).drop_last() =~= self.warnings@.take(k as int));
            if self.warnings[k].says_retried() {
                seen = seen + 1;
            }
            k = k + 1;
        }
        assert(self.warnings@.take(self.warnings@.len() as int) =~= self.warnings@);
        seen
    }
}

/// Where in a run a chunk stands, as its records start.
pub open spec fn place_text(arm: Seq<char>, pass: usize, chunk: usize) -> Seq<char> {
    "arm="@ + arm + " pass="@ + decimal(pass as nat) + " chunk="@ + decimal(chunk as nat)
}

/// The record of a failed chunk.
pub open spec fn trip_text(
    arm: Seq<char>,
    pass: usize,
    chunk: usize,
    stage: Seq<char>,
    reason: Seq<char>,
) -> Seq<char> {
    place_text(arm, pass, chunk) + " stage="@ + stage + " reason="@ + reason
}

/// The record of a warning.
pub open spec fn warning_text(
    arm: Seq<char>,
    pass: usize,
    chunk: usize,
    w: WritebackWarning,
) -> Seq<char> {
    place_text(arm, pass, chunk) + " "@ + w.reason_code@ + " source="@ + signed_decimal(
        w.source_image_id as int,
    ) + " target="@ + signed_decimal(w.target_image_id as int) + " row_count="@ + decimal(
        w.row_count as nat,
    )
}

/// Where in a run a chunk stands, as its records start.
fn place_record(arm: &str, pass: usize, chunk: usize) -> (r: String)
    ensures
        r@ == place_text(arm@, pass, chunk),
{
    let mut out: String = "arm=".to_owned();
    out.append(arm);
    out.append(" pass=");
    push_decimal(&mut out, pass as u128);
    out.append(" chunk=");
    push_decimal(&mut out, chunk as u128);
    out
}

/// The record of a failed chunk.
pub fn trip_record(arm: &str, pass: usize, chunk: usize, stage: &str, reason: &str) -> (r: String)
    ensures
        r@ == trip_text(arm@, pass, chunk, stage@, reason@),
{
    let mut out: String = place_record(arm, pass, chunk);
    out.append(" stage=");
    out.append(stage);
    out.append(" reason=");
    out.append(reason);
    out
}

/// The record of a warning.
pub fn warning_record(arm: &str, pass: usize, chunk: usize, w: &WritebackWarning) -> (r: String)
    ensures
        r@ == warning_text(arm@, pass, chunk, *w),
{
    let mut out: String = place_record(arm, pass, chunk);
    out.append(" ");
    out.append(w.reason_code.as_str());
    out.append(" source=");
    push_signed(&mut out, w.source_image_id);
    out.append(" target=");
    push_signed(&mut out, w.target_image_id);
    out.append(" row_count=");
    push_decimal(&mut out, w.row_count as u128);
    out
}

/// A chunk tripped the invariant exactly where the receipt gives a reason that holds the words for
/// it, whatever else the receipt says.
pub proof fn law_trip_is_told_by_its_reason(receipt: WritebackReceipt)
    ensures
        receipt.is_trip() <==> (receipt.failed_reason matches Some(reason) && exists|
            a: Seq<char>,
            b: Seq<char>,
        |
            reason@ == #[trigger] (a + "one-target/one-row invariant"@ + b)),
{
    reveal_strlit("(no reason)");
    reveal_strlit("one-target/one-row invariant");
    assert("(no reason)"@.len() < "one-target/one-row invariant"@.len());
    law_occurrence_is_a_part(receipt.reason(), "one-target/one-row invariant"@);
}

/// A receipt with a stage or a reason is that of a failed chunk, and shows both, with a word for
/// the one that is missing; any other is that of a chunk that was written, with rows or without.
pub proof fn law_receipt_says_what_came_of_its_chunk(receipt: WritebackReceipt)
    ensures
        receipt.is_failure() <==> receipt.failure_stage is Some || receipt.failed_reason is Some,
        receipt.is_zero_rows() <==> receipt.failure_stage is None && receipt.failed_reason is None
            && receipt.updated == 0,
        receipt.failure_stage matches Some(stage) ==> receipt.stage() == stage@,
        receipt.failure_stage is None ==> receipt.stage() == "unknown"@,
        receipt.failed_reason matches Some(reason) ==> receipt.reason() == reason@,
        receipt.failed_reason is None ==> receipt.reason() == "(no reason)"@,
{
}

/// The replays are the warnings with the code for them, and the anomalies are all the others.
pub proof fn law_replays_are_told_by_their_code(receipt: WritebackReceipt)
    ensures
        retries(receipt.warnings@) == receipt.warnings@.filter(
            |w: WritebackWarning| w.reason_code@ == "focus_writeback_chunk_retried"@,
        ).len(),
        receipt.anomalies() == receipt.warnings@.filter(
            |w: WritebackWarning| w.reason_code@ != "focus_writeback_chunk_retried"@,
        ).len(),
{
    lemma_replays(receipt.warnings@);
}

proof fn lemma_replays(warnings: Seq<WritebackWarning>)
    ensures
        retries(warnings) == warnings.filter(
            |w: WritebackWarning| w.reason_code@ == "focus_writeback_chunk_retried"@,
        ).len(),
        warnings.len() - retries(warnings) == warnings.filter(
            |w: WritebackWarning| w.reason_code@ != "focus_writeback_chunk_retried"@,
        ).len(),
    decreases warnings.len(),
{
    reveal(Seq::filter);
    if warnings.len() > 0 {
        lemma_replays(warnings.drop_last());
    }
}

/// A record names the arm, the pass and the chunk, and then what it is a record of.
pub proof fn law_records_name_their_chunk(
    arm: Seq<char>,
    pass: usize,
    chunk: usize,
    stage: Seq<char>,
    reason: Seq<char>,
    w: WritebackWarning,
)
    ensures
        trip_text(arm, pass, chunk, stage, reason) == "arm="@ + arm + " pass="@ + decimal(
            pass as nat,
        ) + " chunk="@ + decimal(chunk as nat) + " stage="@ + stage + " reason="@ + reason,
        warning_text(arm, pass, chunk, w) == "arm="@ + arm + " pass="@ + decimal(pass as nat)
            + " chunk="@ + decimal(chunk as nat) + " "@ + w.reason_code@ + " source="@
            + signed_decimal(w.source_image_id as int) + " target="@ + signed_decimal(
            w.target_image_id as int,
        ) + " row_count="@ + decimal(w.row_count as nat),
{
}

}
