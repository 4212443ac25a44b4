//! The decisions of a run: which chunk is written next, what a receipt changes, and when the run
//! is over. The caller performs each step and hands back what came of it.
use crate::repro::receipts::{
    trip_record, warning_record, ChunkVerdict, WritebackReceipt, WritebackWarning,
};
#[allow(unused_imports)]
use crate::repro::cadence::{is_multiple, lemma_multiples_leave_no_remainder};
#[allow(unused_imports)]
use crate::repro::receipts::{
    law_receipt_says_what_came_of_its_chunk, law_replays_are_told_by_their_code,
    law_trip_is_told_by_its_reason, retries, trip_text, warning_text,
};
use crate::repro::records::FocusAnalysisResult;
use crate::repro::results::repro_result;
#[allow(unused_imports)]
use crate::repro::results::result_row;
use crate::repro::settings::ReproSettings;
#[allow(unused_imports)]
use crate::repro::settings::settings_wf;
use vstd::prelude::*;

verus! {

/// The counts of a run.
#[derive(Clone, Copy, Debug, PartialEq, Eq)]
pub struct Totals {
    pub chunks: usize,
    pub sources: usize,
    pub target_updates: u64,
    pub trips: usize,
    pub other_failures: usize,
    pub count_anomalies: usize,
    pub chunk_retries: usize,
    pub checkpoints: usize,
}

/// Where a run stands.
#[derive(Clone, Copy, Debug, PartialEq, Eq)]
pub enum Phase {
    /// No pass is under way.
    BetweenPasses,
    /// A pass is under way, and its next chunk has not been written.
    Chunking,
    /// The receipt of the current chunk has been recorded.
    Recorded,
    /// The run was stopped early.
    Stopped,
    /// Every pass is over.
    Finished,
}

/// What is to be done next.
#[derive(Clone, Copy, Debug, PartialEq, Eq)]
pub enum DriverStep {
    /// Start this pass, under an attempt identifier of its own.
    StartPass { pass: usize },
    /// Write the candidates from `start` up to `end`.
    WriteChunk { start: usize, end: usize },
    /// The pass is over.
    PassDone { pass: usize },
    /// The time is up.
    OutOfTime,
    /// Every pass is over.
    Finished,
}

/// A run.
#[derive(Debug, PartialEq, Eq)]
pub struct Driver {
    pub settings: ReproSettings,
    pub candidates: Vec<i64>,
    pub phase: Phase,
    pub pass: usize,
    pub attempt_id: String,
    pub chunk_index: usize,
    pub chunk_start: usize,
    pub ordinal: usize,
    pub totals: Totals,
    pub first_trip: Option<String>,
    pub first_warning: Option<String>,
}

/// Where chunk `k` of a queue of `len` images starts.
pub open spec fn chunk_bound(k: int, chunk_size: int, len: int) -> int {
    if k * chunk_size < len {
        k * chunk_size
    } else {
        len
    }
}

/// The images of chunk `k`.
pub open spec fn chunk_images(candidates: Seq<i64>, chunk_size: int, k: int) -> Seq<i64> {
    candidates.subrange(
        chunk_bound(k, chunk_size, candidates.len() as int),
        chunk_bound(k + 1, chunk_size, candidates.len() as int),
    )
}

/// The images of the first `n` chunks, one chunk behind the other.
pub open spec fn images_of_chunks(candidates: Seq<i64>, chunk_size: int, n: nat) -> Seq<i64>
    decreases n,
{
    if n == 0 {
        Seq::empty()
    } else {
        images_of_chunks(candidates, chunk_size, (n - 1) as nat) + chunk_images(
            candidates,
            chunk_size,
            n - 1,
        )
    }
}

impl Driver {
    /// How long the queue is.
    pub open spec fn len(self) -> int {
        self.candidates@.len() as int
    }

    /// Where the current chunk ends.
    pub open spec fn chunk_end(self) -> int {
        if self.chunk_start + self.settings.chunk_size < self.len() {
            self.chunk_start + self.settings.chunk_size
        } else {
            self.len()
        }
    }

    /// How many images of the current pass have been counted.
    pub open spec fn counted(self) -> int {
        match self.phase {
            Phase::Chunking => self.chunk_start as int,
            Phase::Recorded => self.chunk_end(),
            _ => self.len(),
        }
    }

    /// What every run keeps: the chunks of a pass follow each other without a gap, an image's
    /// ordinal is its place in the queue, every image handed out is counted once, and no chunk
    /// fails more than once.
    pub open spec fn wf(self) -> bool {
        &&& settings_wf(self.settings)
        &&& 1 <= self.len() <= usize::MAX / 2
        &&& self.pass <= self.settings.max_passes
        &&& self.pass == 0 ==> self.phase is BetweenPasses && self.totals.sources == 0
        &&& self.chunk_start == chunk_bound(
            self.chunk_index as int,
            self.settings.chunk_size as int,
            self.len(),
        )
        &&& self.ordinal == self.chunk_start
        &&& self.phase is Recorded ==> self.chunk_start < self.len()
        &&& self.phase is BetweenPasses && self.pass > 0 ==> self.chunk_start == self.len()
        &&& self.phase is Finished ==> self.pass == self.settings.max_passes
        &&& self.pass > 0 && !(self.phase is Stopped) ==> self.totals.sources == (self.pass - 1)
            * self.len() + self.counted()
        &&& self.totals.trips + self.totals.other_failures <= self.totals.chunks
    }

    /// Whether the counts have room for the warnings on this receipt.
    pub open spec fn has_warning_room(self, receipt: WritebackReceipt) -> bool {
        &&& self.totals.count_anomalies + receipt.anomalies() <= usize::MAX
        &&& self.totals.chunk_retries + retries(receipt.warnings@) <= usize::MAX
    }

    /// The counts once the warnings on a receipt are counted.
    pub open spec fn totals_with_warnings(self, receipt: WritebackReceipt) -> Totals {
        Totals {
            count_anomalies: (self.totals.count_anomalies + receipt.anomalies()) as usize,
            chunk_retries: (self.totals.chunk_retries + retries(receipt.warnings@)) as usize,
            ..self.totals
        }
    }

    /// Whether `kept` is the record of the run's first warning once a receipt has been seen: the
    /// one that the run had, or that of the first warning on the receipt.
    pub open spec fn is_first_warning(
        self,
        receipt: WritebackReceipt,
        kept: Option<String>,
    ) -> bool {
        match kept {
            Some(text) => if self.first_warning is Some {
                kept == self.first_warning
            } else {
                receipt.warnings@.len() > 0 && text@ == warning_text(
                    self.settings.arm@,
                    self.pass,
                    self.chunk_index,
                    receipt.warnings@[0],
                )
            },
            None => self.first_warning is None && receipt.warnings@.len() == 0,
        }
    }

    /// Whether the counts have room for one more chunk with this receipt.
    pub open spec fn has_room(self, receipt: WritebackReceipt) -> bool {
        &&& self.totals.chunks < usize::MAX
        &&& self.totals.sources + (self.chunk_end() - self.chunk_start) <= usize::MAX
        &&& self.totals.target_updates + receipt.updated <= u64::MAX
        &&& self.has_warning_room(receipt)
    }

    /// The counts once the receipt of the current chunk is recorded.
    pub open spec fn totals_with(self, receipt: WritebackReceipt) -> Totals {
        let t = self.totals;
        Totals {
            chunks: (t.chunks + 1) as usize,
            sources: (t.sources + (self.chunk_end() - self.chunk_start)) as usize,
            target_updates: (t.target_updates + receipt.updated) as u64,
            trips: if receipt.is_trip() {
                (t.trips + 1) as usize
            } else {
                t.trips
            },
            other_failures: if receipt.is_failure() && !receipt.is_trip()
                || receipt.is_zero_rows() {
                (t.other_failures + 1) as usize
            } else {
                t.other_failures
            },
            count_anomalies: (t.count_anomalies + receipt.anomalies()) as usize,
            chunk_retries: (t.chunk_retries + retries(receipt.warnings@)) as usize,
            checkpoints: t.checkpoints,
        }
    }

    /// Whether `kept` is the record of the run's first failure once a receipt has been seen: the
    /// one that the run had, or that of the failure on the receipt.
    pub open spec fn is_first_trip(self, receipt: WritebackReceipt, kept: Option<String>) -> bool {
        match kept {
            Some(text) => if self.first_trip is Some {
                kept == self.first_trip
            } else {
                receipt.is_failure() && text@ == trip_text(
                    self.settings.arm@,
                    self.pass,
                    self.chunk_index,
                    receipt.stage(),
                    receipt.reason(),
                )
            },
            None => self.first_trip is None && !receipt.is_failure(),
        }
    }

    /// Where the run stands once the receipt of the current chunk is recorded.
    pub open spec fn phase_with(self, receipt: WritebackReceipt) -> Phase {
        if receipt.is_trip() && self.settings.stop_on_trip {
            Phase::Stopped
        } else {
            Phase::Recorded
        }
    }

    /// Whether a checkpoint is due behind the chunk that was just recorded.
    pub open spec fn is_checkpoint_due(self) -> bool {
        self.settings.checkpoint_every > 0 && self.totals.chunks % self.settings.checkpoint_every
            == 0
    }

    /// Whether a progress line is due behind the current chunk.
    pub open spec fn is_progress_due(self) -> bool {
        self.chunk_index % self.settings.progress_every == 0
    }

    /// What is to be done next.
    pub open spec fn next_step(self, elapsed: u128, budget: u128) -> DriverStep {
        if self.phase is BetweenPasses {
            if self.pass < self.settings.max_passes {
                DriverStep::StartPass { pass: (self.pass + 1) as usize }
            } else {
                DriverStep::Finished
            }
        } else if self.chunk_start >= self.len() {
            DriverStep::PassDone { pass: self.pass }
        } else if elapsed >= budget {
            DriverStep::OutOfTime
        } else {
            DriverStep::WriteChunk { start: self.chunk_start, end: self.chunk_end() as usize }
        }
    }

    /// Where a run stands once it has been told what to do next.
    pub open spec fn phase_after(self, step: DriverStep) -> Phase {
        match step {
            DriverStep::StartPass { .. } => Phase::BetweenPasses,
            DriverStep::WriteChunk { .. } => Phase::Chunking,
            DriverStep::PassDone { .. } => Phase::BetweenPasses,
            DriverStep::OutOfTime => Phase::Stopped,
            DriverStep::Finished => Phase::Finished,
        }
    }

    /// A run over the given candidates, before its first pass.
    pub fn new(settings: ReproSettings, candidates: Vec<i64>) -> (r: Driver)
        requires
            settings_wf(settings),
            1 <= candidates@.len() <= usize::MAX / 2,
        ensures
            r.wf(),
            r.settings == settings,
            r.candidates == candidates,
            r.phase is BetweenPasses,
            r.pass == 0,
            r.totals == (Totals {
                chunks: 0,
                sources: 0,
                target_updates: 0,
                trips: 0,
                other_failures: 0,
                count_anomalies: 0,
                chunk_retries: 0,
                checkpoints: 0,
            }),
            r.first_trip is None,
            r.first_warning is None,
    {
        Driver {
            settings,
            candidates,
            phase: Phase::BetweenPasses,
            pass: 0,
            attempt_id: String::new(),
            chunk_index: 0,
            chunk_start: 0,
            ordinal: 0,
            totals: Totals {
                chunks: 0,
                sources: 0,
                target_updates: 0,
                trips: 0,
                other_failures: 0,
                count_anomalies: 0,
                chunk_retries: 0,
                checkpoints: 0,
            },
            first_trip: None,
            first_warning: None,
        }
    }

    /// Where the current chunk ends.
    fn end_of_chunk(&self) -> (r: usize)
        requires
            self.wf(),
        ensures
            r == self.chunk_end(),
            self.chunk_start <= r <= self.candidates@.len(),
    {
        if self.settings.chunk_size < self.candidates.len() - self.chunk_start {
            self.chunk_start + self.settings.chunk_size
        } else {
            self.candidates.len()
        }
    }

    /// What is to be done next, given how long the run has taken and how long it may take, both
    /// in the same unit. The time is looked at before each chunk and nowhere else.
    pub fn poll(&mut self, elapsed: u128, budget: u128) -> (r: DriverStep)
        requires
            old(self).wf(),
            old(self).phase is BetweenPasses || old(self).phase is Chunking,
        ensures
            final(self).wf(),
            r == old(self).next_step(elapsed, budget),
            *final(self) == (Driver { phase: old(self).phase_after(r), ..*old(self) }),
    {
        match self.phase {
            Phase::BetweenPasses => {
                if self.pass < self.settings.max_passes {
                    DriverStep::StartPass { pass: self.pass + 1 }
                } else {
                    self.phase = Phase::Finished;
                    DriverStep::Finished
                }
            },
            _ => {
                if self.chunk_start >= self.candidates.len() {
                    self.phase = Phase::BetweenPasses;
                    DriverStep::PassDone { pass: self.pass }
                } else if elapsed >= budget {
                    self.phase = Phase::Stopped;
                    DriverStep::OutOfTime
                } else {
                    DriverStep::WriteChunk { start: self.chunk_start, end: self.end_of_chunk() }
                }
            },
        }
    }

    /// Starts the next pass, at the first candidate.
    pub fn begin_pass(&mut self, attempt_id: String)
        requires
            old(self).wf(),
            old(self).phase is BetweenPasses,
            old(self).pass < old(self).settings.max_passes,
        ensures
            final(self).wf(),
            *final(self) == (Driver {
                phase: Phase::Chunking,
                pass: (old(self).pass + 1) as usize,
                attempt_id,
                chunk_index: 0,
                chunk_start: 0,
                ordinal: 0,
                ..*old(self)
            }),
    {
        proof {
            let p: int = self.pass as int;
            let n: int = self.len();
            assert(p > 0 ==> (p - 1) * n + n == p * n) by (nonlinear_arith);
            assert(p == 0 ==> p * n == 0) by (nonlinear_arith);
        }
        self.phase = Phase::Chunking;
        self.pass = self.pass + 1;
        self.attempt_id = attempt_id;
        self.chunk_index = 0;
        self.chunk_start = 0;
        self.ordinal = 0;
    }

    /// The rows of the current chunk, the first of them at the ordinal `first`.
    fn rows_from(&self, first: usize) -> (r: Vec<FocusAnalysisResult>)
        requires
            self.wf(),
            self.chunk_start < self.len(),
            first == self.chunk_start,
        ensures
            r@.map_values(|row: FocusAnalysisResult| row@) == self.chunk_rows(),
    {
        let end: usize = self.end_of_chunk();
        let mut out: Vec<FocusAnalysisResult> = Vec::new();
        let mut at: usize = self.chunk_start;
        let mut ordinal: usize = first;
        while at < end
            invariant
                self.wf(),
                self.chunk_start <= at <= end,
                end == self.chunk_end(),
                end <= self.candidates@.len(),
                ordinal == at,
                out@.map_values(|row: FocusAnalysisResult| row@) =~= self.chunk_rows().take(
                    at - self.chunk_start,
                ),
            decreases end - at,
        {
            proof {
                self.lemma_ordinal_fits(ordinal);
            }
            let ghost before = out@.map_values(|row: FocusAnalysisResult| row@);
            let row: FocusAnalysisResult = repro_result(
                self.candidates[at],
                ordinal,
                self.attempt_id.as_str(),
                &self.settings.shape,
            );
            out.push(row);
            assert(out@.map_values(|row: FocusAnalysisResult| row@) =~= before.push(row@));
            ordinal = ordinal + 1;
            at = at + 1;
        }
        assert(self.chunk_rows().take(end - self.chunk_start) =~= self.chunk_rows());
        out
    }

    /// Twice the cadence of unscored rows fits wherever an unscored row comes up.
    proof fn lemma_ordinal_fits(self, ordinal: usize)
        requires
            self.wf(),
            ordinal < self.len(),
        ensures
            self.settings.shape.fits(ordinal),
    {
        let n = self.settings.shape.incomplete_every;
        if self.settings.shape.is_incomplete(ordinal) {
            assert(ordinal as int % n as int <= ordinal) by {
                vstd::arithmetic::div_mod::lemma_mod_decreases(ordinal as nat, n as nat);
            }
        }
    }

    /// The rows that the current chunk writes: one for each of its images, drawn at the image's
    /// place in the queue.
    pub open spec fn chunk_rows(self) -> Seq<crate::repro::records::FocusAnalysisView> {
        Seq::new(
            (self.chunk_end() - self.chunk_start) as nat,
            |i: int|
                result_row(
                    self.candidates@[self.chunk_start + i],
                    (self.chunk_start + i) as usize,
                    self.attempt_id@,
                    self.settings.shape,
                ),
        )
    }

    /// The rows that the current chunk writes.
    pub fn chunk_results(&self) -> (r: Vec<FocusAnalysisResult>)
        requires
            self.wf(),
            self.phase is Chunking,
            self.chunk_start < self.len(),
        ensures
            r@.map_values(|row: FocusAnalysisResult| row@) == self.chunk_rows(),
    {
        self.rows_from(self.ordinal)
    }

    /// The rows that the current chunk writes when it is written once more after it failed: the
    /// same rows.
    pub fn retry_results(&self) -> (r: Vec<FocusAnalysisResult>)
        requires
            self.wf(),
            self.chunk_start < self.len(),
        ensures
            r@.map_values(|row: FocusAnalysisResult| row@) == self.chunk_rows(),
    {
        self.rows_from(self.chunk_index * self.settings.chunk_size)
    }

    /// Whether the counts have room for one more chunk with this receipt.
    pub fn check_room(&self, receipt: &WritebackReceipt) -> (r: bool)
        requires
            self.wf(),
        ensures
            r == self.has_room(*receipt),
    {
        let size: usize = self.end_of_chunk() - self.chunk_start;
        self.totals.chunks < usize::MAX && self.totals.sources <= usize::MAX - size
            && self.totals.target_updates <= u64::MAX - receipt.updated && self.check_warning_room(
            receipt,
        )
    }

    /// Whether the counts have room for the warnings on this receipt.
    pub fn check_warning_room(&self, receipt: &WritebackReceipt) -> (r: bool)
        ensures
            r == self.has_warning_room(*receipt),
    {
        let seen: usize = receipt.count_retries();
        self.totals.count_anomalies <= usize::MAX - (receipt.warnings.len() - seen)
            && self.totals.chunk_retries <= usize::MAX - seen
    }

    /// Counts the warnings on a receipt, and keeps the record of the run's first warning.
    fn count_warnings(&mut self, receipt: &WritebackReceipt)
        requires
            old(self).has_warning_room(*receipt),
        ensures
            old(self).is_first_warning(*receipt, final(self).first_warning),
            *final(self) == (Driver {
                totals: old(self).totals_with_warnings(*receipt),
                first_warning: final(self).first_warning,
                ..*old(self)
            }),
    {
        let seen: usize = receipt.count_retries();
        self.totals.chunk_retries = self.totals.chunk_retries + seen;
        self.totals.count_anomalies = self.totals.count_anomalies + (receipt.warnings.len()
            - seen);
        if self.first_warning.is_none() && receipt.warnings.len() > 0 {
            self.first_warning = Some(
                warning_record(
                    self.settings.arm.as_str(),
                    self.pass,
                    self.chunk_index,
                    &receipt.warnings[0],
                ),
            );
        }
    }

    /// Records the receipt of the current chunk. Every warning on it is counted, whether the chunk
    /// failed or not; the first warning and the first failure of the run are kept. An invariant trip
    /// stops the run where the settings say so; any other failure is only counted.
    pub fn record_receipt(&mut self, receipt: &WritebackReceipt) -> (r: ChunkVerdict)
        requires
            old(self).wf(),
            old(self).phase is Chunking,
            old(self).chunk_start < old(self).len(),
            old(self).has_room(*receipt),
        ensures
            final(self).wf(),
            final(self).totals == old(self).totals_with(*receipt),
            final(self).phase == old(self).phase_with(*receipt),
            old(self).is_first_warning(*receipt, final(self).first_warning),
            old(self).is_first_trip(*receipt, final(self).first_trip),
            *final(self) == (Driver {
                phase: final(self).phase,
                totals: final(self).totals,
                first_trip: final(self).first_trip,
                first_warning: final(self).first_warning,
                ..*old(self)
            }),
            match r {
                ChunkVerdict::Clean => !receipt.is_failure() && !receipt.is_zero_rows(),
                ChunkVerdict::ZeroRows => receipt.is_zero_rows(),
                ChunkVerdict::Failed { stage, reason, invariant_trip } => {
                    &&& receipt.is_failure()
                    &&& stage@ == receipt.stage()
                    &&& reason@ == receipt.reason()
                    &&& invariant_trip == receipt.is_trip()
                },
            },
    {
        let size: usize = self.end_of_chunk() - self.chunk_start;
        let verdict: ChunkVerdict = receipt.verdict();
        self.totals.chunks = self.totals.chunks + 1;
        self.totals.sources = self.totals.sources + size;
        self.totals.target_updates = self.totals.target_updates + receipt.updated;
        self.count_warnings(receipt);
        self.phase = Phase::Recorded;
        match &verdict {
            ChunkVerdict::Failed { stage, reason, invariant_trip } => {
                if *invariant_trip {
                    self.totals.trips = self.totals.trips + 1;
                    if self.settings.stop_on_trip {
                        self.phase = Phase::Stopped;
                    }
                } else {
                    self.totals.other_failures = self.totals.other_failures + 1;
                }
                if self.first_trip.is_none() {
                    self.first_trip = Some(
                        trip_record(
                            self.settings.arm.as_str(),
                            self.pass,
                            self.chunk_index,
                            stage.as_str(),
                            reason.as_str(),
                        ),
                    );
                }
            },
            ChunkVerdict::ZeroRows => {
                self.totals.other_failures = self.totals.other_failures + 1;
            },
            ChunkVerdict::Clean => {},
        }
        verdict
    }

    /// Records the receipt of the current chunk written once more after it failed: its warnings are
    /// counted like those on any other receipt, and nothing else of it is.
    pub fn record_retry(&mut self, receipt: &WritebackReceipt)
        requires
            old(self).wf(),
            old(self).has_warning_room(*receipt),
        ensures
            final(self).wf(),
            old(self).is_first_warning(*receipt, final(self).first_warning),
            *final(self) == (Driver {
                totals: old(self).totals_with_warnings(*receipt),
                first_warning: final(self).first_warning,
                ..*old(self)
            }),
    {
        self.count_warnings(receipt);
    }

    /// Whether a checkpoint is due behind the chunk that was just recorded.
    pub fn checkpoint_due(&self) -> (r: bool)
        ensures
            r == self.is_checkpoint_due(),
    {
        self.settings.checkpoint_every > 0 && self.totals.chunks % self.settings.checkpoint_every
            == 0
    }

    /// Counts a checkpoint that succeeded.
    pub fn record_checkpoint(&mut self)
        requires
            old(self).wf(),
            old(self).totals.checkpoints < usize::MAX,
        ensures
            final(self).wf(),
            *final(self) == (Driver {
                totals: Totals {
                    checkpoints: (old(self).totals.checkpoints + 1) as usize,
                    ..old(self).totals
                },
                ..*old(self)
            }),
    {
        self.totals.checkpoints = self.totals.checkpoints + 1;
    }

    /// Whether a progress line is due behind the current chunk.
    pub fn progress_due(&self) -> (r: bool)
        requires
            self.wf(),
        ensures
            r == self.is_progress_due(),
    {
        self.chunk_index % self.settings.progress_every == 0
    }

    /// Moves on to the next chunk.
    pub fn finish_chunk(&mut self)
        requires
            old(self).wf(),
            old(self).phase is Recorded,
        ensures
            final(self).wf(),
            *final(self) == (Driver {
                phase: Phase::Chunking,
                chunk_index: (old(self).chunk_index + 1) as usize,
                chunk_start: old(self).chunk_end() as usize,
                ordinal: old(self).chunk_end() as usize,
                ..*old(self)
            }),
    {
        let end: usize = self.end_of_chunk();
        proof {
            let k: int = self.chunk_index as int;
            let c: int = self.settings.chunk_size as int;
            assert((k + 1) * c == k * c + c && k <= k * c) by (nonlinear_arith)
                requires
                    k >= 0,
                    c >= 1,
            ;
        }
        self.phase = Phase::Chunking;
        self.chunk_index = self.chunk_index + 1;
        self.chunk_start = end;
        self.ordinal = end;
    }
}

/// The chunks of a pass, one behind the other, are the queue: no image is left out, and none comes
/// twice.
pub proof fn law_chunks_follow_the_queue(candidates: Seq<i64>, chunk_size: int, n: nat)
    requires
        chunk_size >= 1,
    ensures
        images_of_chunks(candidates, chunk_size, n) == candidates.take(
            chunk_bound(n as int, chunk_size, candidates.len() as int),
        ),
        n >= candidates.len() ==> images_of_chunks(candidates, chunk_size, n) == candidates,
    decreases n,
{
    let len: int = candidates.len() as int;
    if n == 0 {
        assert(0 * chunk_size == 0);
        assert(candidates.take(chunk_bound(0, chunk_size, len)) =~= Seq::<i64>::empty());
    } else {
        let k: int = n - 1;
        law_chunks_follow_the_queue(candidates, chunk_size, k as nat);
        assert((k + 1) * chunk_size == k * chunk_size + chunk_size && k * chunk_size >= 0)
            by (nonlinear_arith)
            requires
                k >= 0,
                chunk_size >= 1,
        ;
        let a: int = chunk_bound(k, chunk_size, len);
        let b: int = chunk_bound(k + 1, chunk_size, len);
        assert(candidates.take(a) + candidates.subrange(a, b) =~= candidates.take(b));
    }
    assert(n <= n * chunk_size) by (nonlinear_arith)
        requires
            n >= 0,
            chunk_size >= 1,
    ;
    if n >= candidates.len() {
        assert(candidates.take(len) =~= candidates);
    }
}

/// A pass is over only once its chunks have gone over the whole queue.
pub proof fn law_pass_done_after_the_whole_queue(run: Driver, elapsed: u128, budget: u128)
    requires
        run.wf(),
        run.phase is Chunking,
        run.next_step(elapsed, budget) is PassDone,
    ensures
        images_of_chunks(
            run.candidates@,
            run.settings.chunk_size as int,
            run.chunk_index as nat,
        ) == run.candidates@,
{
    law_chunks_follow_the_queue(
        run.candidates@,
        run.settings.chunk_size as int,
        run.chunk_index as nat,
    );
    assert(run.candidates@.take(run.len()) =~= run.candidates@);
}

/// The chunk that is to be written is the next one of the queue: it holds at least one image, and
/// the run comes nearer to the end of the queue with it.
pub proof fn law_written_chunk_is_the_next(run: Driver, elapsed: u128, budget: u128)
    requires
        run.wf(),
        run.phase is Chunking,
        run.next_step(elapsed, budget) is WriteChunk,
    ensures
        run.next_step(elapsed, budget)->start == run.chunk_start,
        run.chunk_start < run.next_step(elapsed, budget)->end <= run.len(),
        run.candidates@.subrange(run.chunk_start as int, run.chunk_end()) == chunk_images(
            run.candidates@,
            run.settings.chunk_size as int,
            run.chunk_index as int,
        ),
{
    let k: int = run.chunk_index as int;
    let c: int = run.settings.chunk_size as int;
    assert((k + 1) * c == k * c + c) by (nonlinear_arith);
}

/// A run that ends on its own has handed out every image once in every pass.
pub proof fn law_finished_run_covers_every_pass(run: Driver)
    requires
        run.wf(),
        run.phase is Finished,
    ensures
        run.totals.sources == run.settings.max_passes * run.len(),
{
    let p: int = run.pass as int;
    let n: int = run.len();
    assert((p - 1) * n + n == p * n) by (nonlinear_arith);
}

/// No chunk is written once the time is up.
pub proof fn law_no_chunk_once_time_is_up(run: Driver, elapsed: u128, budget: u128)
    requires
        elapsed >= budget,
    ensures
        !(run.next_step(elapsed, budget) is WriteChunk),
{
}

/// Every warning on every receipt is counted exactly once, as a replay or as a count anomaly,
/// whether the chunk failed or not, and whether it was written for the first time or once more.
pub proof fn law_every_warning_is_counted(run: Driver, receipt: WritebackReceipt)
    requires
        run.has_warning_room(receipt),
    ensures
        run.totals_with_warnings(receipt).count_anomalies + run.totals_with_warnings(
            receipt,
        ).chunk_retries == run.totals.count_anomalies + run.totals.chunk_retries
            + receipt.warnings@.len(),
        run.totals_with(receipt).count_anomalies + run.totals_with(receipt).chunk_retries
            == run.totals.count_anomalies + run.totals.chunk_retries + receipt.warnings@.len(),
{
    lemma_retries_bounded(receipt.warnings@);
}

/// A chunk is counted as at most one failure, and as none exactly where its receipt is clean.
pub proof fn law_one_failure_per_chunk(run: Driver, receipt: WritebackReceipt)
    requires
        run.wf(),
        run.has_room(receipt),
    ensures
        ({
            let before = run.totals.trips + run.totals.other_failures;
            let after = run.totals_with(receipt).trips + run.totals_with(receipt).other_failures;
            after == before + (if receipt.is_failure() || receipt.is_zero_rows() {
                1int
            } else {
                0
            })
        }),
{
}

proof fn lemma_retries_bounded(warnings: Seq<WritebackWarning>)
    ensures
        retries(warnings) <= warnings.len(),
    decreases warnings.len(),
{
    if warnings.len() > 0 {
        lemma_retries_bounded(warnings.drop_last());
    }
}

/// While a pass is under way, images of the queue remain and there is time, the next chunk is
/// written, whatever has been counted so far: it starts where the last one ended, and holds as many
/// images as a chunk may, or all that remain.
pub proof fn law_run_goes_on_while_there_is_time(run: Driver, elapsed: u128, budget: u128)
    requires
        run.phase is Chunking,
        run.settings.chunk_size >= 1,
        run.chunk_start < run.candidates@.len(),
        elapsed < budget,
    ensures
        run.next_step(elapsed, budget) matches DriverStep::WriteChunk { start, end } && {
            &&& start == run.chunk_start
            &&& start < end <= run.candidates@.len()
            &&& end - start <= run.settings.chunk_size
            &&& end - start == run.settings.chunk_size || end == run.candidates@.len()
        },
{
    assert(run.candidates.len() == run.candidates@.len());
}

/// While a pass is under way, the time is up exactly where images of the queue remain and the time
/// has run out, and the pass is done exactly where none remain, however long it took.
pub proof fn law_pass_ends_with_the_queue_or_the_time(run: Driver, elapsed: u128, budget: u128)
    requires
        run.phase is Chunking,
    ensures
        run.next_step(elapsed, budget) is OutOfTime <==> elapsed >= budget && run.chunk_start
            < run.candidates@.len(),
        run.next_step(elapsed, budget) is PassDone <==> run.chunk_start >= run.candidates@.len(),
        run.next_step(elapsed, budget) matches DriverStep::PassDone { pass } ==> pass == run.pass,
        !(run.next_step(elapsed, budget) is StartPass),
        !(run.next_step(elapsed, budget) is Finished),
{
}

/// Between two passes the next one starts, whatever the time, until all of them are over.
pub proof fn law_passes_follow_each_other(run: Driver, elapsed: u128, budget: u128)
    requires
        run.phase is BetweenPasses,
    ensures
        run.pass < run.settings.max_passes ==> (run.next_step(
            elapsed,
            budget,
        ) matches DriverStep::StartPass { pass } && pass == run.pass + 1),
        run.pass >= run.settings.max_passes ==> run.next_step(elapsed, budget) is Finished,
{
}

/// Asking for the next step stops a run exactly where images of a pass remain and the time has run
/// out, finishes it exactly where all passes are over, and otherwise leaves it in its pass or
/// between two.
pub proof fn law_asking_stops_only_at_the_time(run: Driver, elapsed: u128, budget: u128)
    requires
        run.phase is Chunking || run.phase is BetweenPasses,
    ensures
        ({
            let phase = run.phase_after(run.next_step(elapsed, budget));
            let remain = run.phase is Chunking && run.chunk_start < run.candidates@.len();
            &&& phase is Stopped <==> remain && elapsed >= budget
            &&& phase is Chunking <==> remain && elapsed < budget
            &&& phase is Finished <==> run.phase is BetweenPasses && run.pass
                >= run.settings.max_passes
            &&& !(phase is Recorded)
        }),
{
}

/// What has been counted does not steer a run: two runs that stand at the same place of the same
/// queue, with the same settings, do the same next.
pub proof fn law_counts_do_not_steer(run: Driver, other: Driver, elapsed: u128, budget: u128)
    requires
        run.settings == other.settings,
        run.candidates == other.candidates,
        run.phase == other.phase,
        run.pass == other.pass,
        run.chunk_start == other.chunk_start,
    ensures
        run.next_step(elapsed, budget) == other.next_step(elapsed, budget),
{
}

/// A receipt stops the run exactly where its reason holds the words for a trip and the run is to
/// stop at trips; behind any other the run goes on.
pub proof fn law_only_a_trip_stops_the_run(run: Driver, receipt: WritebackReceipt)
    ensures
        run.phase_with(receipt) is Stopped <==> run.settings.stop_on_trip
            && (receipt.failed_reason matches Some(reason) && exists|a: Seq<char>, b: Seq<char>|
            reason@ == #[trigger] (a + "one-target/one-row invariant"@ + b)),
        run.phase_with(receipt) is Stopped || run.phase_with(receipt) is Recorded,
{
    law_trip_is_told_by_its_reason(receipt);
}

/// Each receipt counts one chunk, the images of the chunk and the rows that it changed; it counts a
/// trip exactly where its reason says so, and another failure where it failed otherwise or changed
/// no row; it counts its warnings by their code, and no checkpoint.
pub proof fn law_receipt_is_counted(run: Driver, receipt: WritebackReceipt)
    requires
        run.wf(),
        run.has_room(receipt),
    ensures
        ({
            let t = run.totals;
            let after = run.totals_with(receipt);
            let failed = receipt.failure_stage is Some || receipt.failed_reason is Some;
            let tripped = receipt.failed_reason matches Some(reason) && exists|
                a: Seq<char>,
                b: Seq<char>,
            |
                reason@ == #[trigger] (a + "one-target/one-row invariant"@ + b);
            let left = run.candidates@.len() - run.chunk_start;
            &&& after.chunks == t.chunks + 1
            &&& left <= run.settings.chunk_size ==> after.sources == t.sources + left
            &&& left > run.settings.chunk_size ==> after.sources == t.sources
                + run.settings.chunk_size
            &&& after.target_updates == t.target_updates + receipt.updated
            &&& tripped ==> after.trips == t.trips + 1 && after.other_failures == t.other_failures
            &&& !tripped && (failed || receipt.updated == 0) ==> after.trips == t.trips
                && after.other_failures == t.other_failures + 1
            &&& !failed && receipt.updated > 0 ==> after.trips == t.trips && after.other_failures
                == t.other_failures
            &&& after.checkpoints == t.checkpoints
            &&& after.chunk_retries == t.chunk_retries + receipt.warnings@.filter(
                |w: WritebackWarning| w.reason_code@ == "focus_writeback_chunk_retried"@,
            ).len()
            &&& after.count_anomalies == t.count_anomalies + receipt.warnings@.filter(
                |w: WritebackWarning| w.reason_code@ != "focus_writeback_chunk_retried"@,
            ).len()
        }),
{
    law_trip_is_told_by_its_reason(receipt);
    law_receipt_says_what_came_of_its_chunk(receipt);
    law_replays_are_told_by_their_code(receipt);
}

/// Of the receipt of a retry the warnings are counted, by their code, and nothing else.
pub proof fn law_retry_counts_its_warnings_alone(run: Driver, receipt: WritebackReceipt)
    requires
        run.has_warning_room(receipt),
    ensures
        ({
            let t = run.totals;
            let after = run.totals_with_warnings(receipt);
            &&& after.chunk_retries == t.chunk_retries + receipt.warnings@.filter(
                |w: WritebackWarning| w.reason_code@ == "focus_writeback_chunk_retried"@,
            ).len()
            &&& after.count_anomalies == t.count_anomalies + receipt.warnings@.filter(
                |w: WritebackWarning| w.reason_code@ != "focus_writeback_chunk_retried"@,
            ).len()
            &&& after.chunks == t.chunks
            &&& after.sources == t.sources
            &&& after.target_updates == t.target_updates
            &&& after.trips == t.trips
            &&& after.other_failures == t.other_failures
            &&& after.checkpoints == t.checkpoints
        }),
{
    law_replays_are_told_by_their_code(receipt);
}

/// The first failure and the first warning of a run are kept: a later one never takes their place,
/// and there is none exactly where there was none and the receipt brings none.
pub proof fn law_first_records_are_kept(
    run: Driver,
    receipt: WritebackReceipt,
    trip: Option<String>,
    warning: Option<String>,
)
    requires
        run.is_first_trip(receipt, trip),
        run.is_first_warning(receipt, warning),
    ensures
        run.first_trip is Some ==> trip == run.first_trip,
        run.first_warning is Some ==> warning == run.first_warning,
        trip is None <==> run.first_trip is None && receipt.failure_stage is None
            && receipt.failed_reason is None,
        warning is None <==> run.first_warning is None && receipt.warnings@.len() == 0,
        run.first_trip is None ==> (trip matches Some(text) ==> text@ == trip_text(
            run.settings.arm@,
            run.pass,
            run.chunk_index,
            receipt.stage(),
            receipt.reason(),
        )),
        run.first_warning is None ==> (warning matches Some(text) ==> text@ == warning_text(
            run.settings.arm@,
            run.pass,
            run.chunk_index,
            receipt.warnings@[0],
        )),
{
}

/// A checkpoint is due whenever the number of chunks is a multiple of the cadence, and never where
/// the cadence is 0; a progress line is due at the multiples of its own cadence within the pass.
pub proof fn law_checkpoints_and_progress_keep_their_cadence(run: Driver)
    requires
        run.settings.progress_every >= 1,
    ensures
        run.settings.checkpoint_every == 0 ==> !run.is_checkpoint_due(),
        run.settings.checkpoint_every > 0 ==> (run.is_checkpoint_due() <==> is_multiple(
            run.totals.chunks as int,
            run.settings.checkpoint_every as int,
        )),
        run.is_progress_due() <==> is_multiple(
            run.chunk_index as int,
            run.settings.progress_every as int,
        ),
{
    if run.settings.checkpoint_every > 0 {
        lemma_multiples_leave_no_remainder(
            run.totals.chunks as int,
            run.settings.checkpoint_every as int,
        );
    }
    lemma_multiples_leave_no_remainder(
        run.chunk_index as int,
        run.settings.progress_every as int,
    );
}

/// A chunk writes one row for each of its images, in order, and an image's row depends on the image,
/// its place in the queue, the attempt and the shape alone: two runs that differ in their chunks
/// write the same row for the same image at the same place.
pub proof fn law_rows_do_not_depend_on_the_chunks(run: Driver, other: Driver, i: int, j: int)
    requires
        run.wf(),
        other.wf(),
        0 <= i < run.chunk_rows().len(),
        0 <= j < other.chunk_rows().len(),
        run.chunk_start + i == other.chunk_start + j,
        run.candidates@[run.chunk_start + i] == other.candidates@[other.chunk_start + j],
        run.attempt_id@ == other.attempt_id@,
        run.settings.shape == other.settings.shape,
    ensures
        run.chunk_rows()[i] == other.chunk_rows()[j],
        run.chunk_rows()[i] == result_row(
            run.candidates@[run.chunk_start + i],
            (run.chunk_start + i) as usize,
            run.attempt_id@,
            run.settings.shape,
        ),
        run.chunk_rows()[i].id == run.candidates@[run.chunk_start + i],
        run.chunk_rows().len() <= run.settings.chunk_size,
        run.chunk_rows().len() == run.settings.chunk_size || run.chunk_start
            + run.chunk_rows().len() == run.candidates@.len(),
{
}

/// What `Driver::poll` hands back, and how it leaves the run: while a pass is under way and images
/// remain, the next chunk where there is time and the end of the time where there is none; behind
/// the last image the end of the pass; between two passes the next one, or the end. Nothing but
/// where the run stands changes.
pub proof fn law_next_step_of_a_run(
    before: Driver,
    after: Driver,
    elapsed: u128,
    budget: u128,
    r: DriverStep,
)
    requires
        before.wf(),
        before.phase is Chunking || before.phase is BetweenPasses,
        exists|m: &mut Driver|
            *m == before && *final(m) == after && #[trigger] call_ensures(
                Driver::poll,
                (m, elapsed, budget),
                r,
            ),
    ensures
        ({
            let remain = before.chunk_start < before.candidates@.len();
            &&& before.phase is Chunking && remain && elapsed < budget ==> (
            r matches DriverStep::WriteChunk { start, end } && {
                &&& start == before.chunk_start
                &&& start < end <= before.candidates@.len()
                &&& end - start == before.settings.chunk_size || (end == before.candidates@.len()
                    && end - start < before.settings.chunk_size)
                &&& after.phase is Chunking
            })
            &&& before.phase is Chunking && remain && elapsed >= budget ==> r is OutOfTime
                && after.phase is Stopped
            &&& before.phase is Chunking && !remain ==> (r matches DriverStep::PassDone { pass }
                && pass == before.pass && after.phase is BetweenPasses)
            &&& before.phase is BetweenPasses && before.pass < before.settings.max_passes ==> (
            r matches DriverStep::StartPass { pass } && pass == before.pass + 1
                && after.phase is BetweenPasses)
            &&& before.phase is BetweenPasses && before.pass >= before.settings.max_passes
                ==> r is Finished && after.phase is Finished
        }),
        after.settings == before.settings,
        after.candidates == before.candidates,
        after.pass == before.pass,
        after.attempt_id == before.attempt_id,
        after.chunk_index == before.chunk_index,
        after.chunk_start == before.chunk_start,
        after.ordinal == before.ordinal,
        after.totals == before.totals,
        after.first_trip == before.first_trip,
        after.first_warning == before.first_warning,
{
    assert(before.candidates.len() == before.candidates@.len());
}

/// How `Driver::record_receipt` leaves the run, and what it says of the chunk: the run stops exactly
/// at a trip at which it is to stop, and goes on behind any other receipt; the chunk, its images and
/// its rows are counted.
pub proof fn law_recorded_receipt(
    before: Driver,
    after: Driver,
    receipt: &WritebackReceipt,
    r: ChunkVerdict,
)
    requires
        before.wf(),
        before.phase is Chunking,
        before.chunk_start < before.len(),
        before.has_room(*receipt),
        exists|m: &mut Driver|
            *m == before && *final(m) == after && #[trigger] call_ensures(
                Driver::record_receipt,
                (m, receipt),
                r,
            ),
    ensures
        ({
            let tripped = receipt.failed_reason matches Some(reason) && exists|
                a: Seq<char>,
                b: Seq<char>,
            |
                reason@ == #[trigger] (a + "one-target/one-row invariant"@ + b);
            let failed = receipt.failure_stage is Some || receipt.failed_reason is Some;
            &&& after.phase is Stopped <==> tripped && before.settings.stop_on_trip
            &&& after.phase is Recorded <==> !(tripped && before.settings.stop_on_trip)
            &&& r is Failed <==> failed
            &&& r is ZeroRows <==> !failed && receipt.updated == 0
            &&& r is Clean <==> !failed && receipt.updated > 0
            &&& r matches ChunkVerdict::Failed { stage, reason, invariant_trip } ==> {
                &&& invariant_trip == tripped
                &&& receipt.failure_stage matches Some(text) ==> stage@ == text@
                &&& receipt.failed_reason matches Some(text) ==> reason@ == text@
            }
            &&& after.totals.trips == before.totals.trips + (if tripped {
                1int
            } else {
                0
            })
        }),
        after.totals.chunks == before.totals.chunks + 1,
        after.totals.sources == before.totals.sources + before.chunk_rows().len(),
        after.totals.target_updates == before.totals.target_updates + receipt.updated,
        after.totals.trips + after.totals.other_failures == before.totals.trips
            + before.totals.other_failures + (if r is Clean {
            0int
        } else {
            1
        }),
        after.totals.count_anomalies + after.totals.chunk_retries == before.totals.count_anomalies
            + before.totals.chunk_retries + receipt.warnings@.len(),
        after.totals.checkpoints == before.totals.checkpoints,
        before.is_first_trip(*receipt, after.first_trip),
        before.is_first_warning(*receipt, after.first_warning),
        after.totals == before.totals_with(*receipt),
        after.settings == before.settings,
        after.candidates == before.candidates,
        after.pass == before.pass,
        after.attempt_id == before.attempt_id,
        after.chunk_index == before.chunk_index,
        after.chunk_start == before.chunk_start,
        after.ordinal == before.ordinal,
{
    law_trip_is_told_by_its_reason(*receipt);
    law_receipt_says_what_came_of_its_chunk(*receipt);
    law_receipt_is_counted(before, *receipt);
    law_every_warning_is_counted(before, *receipt);
    law_one_failure_per_chunk(before, *receipt);
}

/// How `Driver::record_retry` leaves the run: its warnings are counted, and nothing else changes but
/// the record of the first one.
pub proof fn law_recorded_retry(before: Driver, after: Driver, receipt: &WritebackReceipt)
    requires
        before.wf(),
        before.has_warning_room(*receipt),
        exists|m: &mut Driver|
            *m == before && *final(m) == after && #[trigger] call_ensures(
                Driver::record_retry,
                (m, receipt),
                (),
            ),
    ensures
        after.totals == before.totals_with_warnings(*receipt),
        before.is_first_warning(*receipt, after.first_warning),
        after == (Driver {
            totals: after.totals,
            first_warning: after.first_warning,
            ..before
        }),
{
}

/// How a pass and its chunks go on: `Driver::begin_pass` starts the next pass at the first image
/// under its own attempt, `Driver::finish_chunk` moves on to the image behind the chunk, and
/// `Driver::record_checkpoint` counts one checkpoint; none of them changes the other counts.
pub proof fn law_passes_and_chunks_go_on(
    idle: Driver,
    started: Driver,
    attempt_id: String,
    recorded: Driver,
    moved: Driver,
    unwritten: Driver,
    written: Driver,
)
    requires
        idle.wf(),
        idle.phase is BetweenPasses,
        idle.pass < idle.settings.max_passes,
        exists|m: &mut Driver|
            *m == idle && *final(m) == started && #[trigger] call_ensures(
                Driver::begin_pass,
                (m, attempt_id),
                (),
            ),
        recorded.wf(),
        recorded.phase is Recorded,
        exists|m: &mut Driver|
            *m == recorded && *final(m) == moved && #[trigger] call_ensures(
                Driver::finish_chunk,
                (m,),
                (),
            ),
        unwritten.wf(),
        unwritten.totals.checkpoints < usize::MAX,
        exists|m: &mut Driver|
            *m == unwritten && *final(m) == written && #[trigger] call_ensures(
                Driver::record_checkpoint,
                (m,),
                (),
            ),
    ensures
        started.phase is Chunking && started.pass == idle.pass + 1,
        started.attempt_id@ == attempt_id@,
        started.chunk_index == 0 && started.chunk_start == 0 && started.ordinal == 0,
        started.totals == idle.totals && started.settings == idle.settings && started.candidates
            == idle.candidates,
        moved.phase is Chunking && moved.pass == recorded.pass,
        moved.chunk_index == recorded.chunk_index + 1,
        moved.chunk_start == recorded.chunk_start + recorded.chunk_rows().len(),
        moved.ordinal == moved.chunk_start,
        moved.attempt_id == recorded.attempt_id && moved.totals == recorded.totals
            && moved.settings == recorded.settings && moved.candidates == recorded.candidates,
        written.totals.checkpoints == unwritten.totals.checkpoints + 1,
        written.totals.chunks == unwritten.totals.chunks && written.phase == unwritten.phase,
{
    assert(recorded.candidates.len() == recorded.candidates@.len());
    let k: int = recorded.chunk_index as int;
    let c: int = recorded.settings.chunk_size as int;
    assert(k <= k * c) by (nonlinear_arith)
        requires
            k >= 0,
            c >= 1,
    ;
}

/// A chunk is written, and written once more after a failure, with the same rows: one for each of
/// its images, in order.
pub proof fn law_written_rows(
    run: &Driver,
    rows: Vec<FocusAnalysisResult>,
    again: Vec<FocusAnalysisResult>,
)
    requires
        run.wf(),
        run.phase is Chunking,
        run.chunk_start < run.len(),
        call_ensures(Driver::chunk_results, (run,), rows),
        call_ensures(Driver::retry_results, (run,), again),
    ensures
        rows@.len() == again@.len(),
        rows@.len() == run.settings.chunk_size || (rows@.len() < run.settings.chunk_size
            && run.chunk_start + rows@.len() == run.candidates@.len()),
        forall|i: int|
            #![trigger rows@[i]]
            #![trigger again@[i]]
            0 <= i < rows@.len() ==> rows@[i]@ == result_row(
                run.candidates@[run.chunk_start + i],
                (run.chunk_start + i) as usize,
                run.attempt_id@,
                run.settings.shape,
            ) && again@[i]@ == rows@[i]@,
{
    let view = |row: FocusAnalysisResult| row@;
    assert(rows@.map_values(view) == run.chunk_rows());
    assert(again@.map_values(view) == run.chunk_rows());
    assert(rows@.len() == rows@.map_values(view).len());
    assert(again@.len() == again@.map_values(view).len());
    assert forall|i: int|
        #![trigger rows@[i]]
        #![trigger again@[i]]
        0 <= i < rows@.len() implies rows@[i]@ == result_row(
        run.candidates@[run.chunk_start + i],
        (run.chunk_start + i) as usize,
        run.attempt_id@,
        run.settings.shape,
    ) && again@[i]@ == rows@[i]@ by {
        assert(rows@.map_values(view)[i] == rows@[i]@);
        assert(again@.map_values(view)[i] == again@[i]@);
    }
}

/// Whether a checkpoint or a progress line is due, and whether there is room, is told as it is: a
/// receipt has no room exactly where one of the counts would not fit.
pub proof fn law_what_is_due_and_what_fits(
    run: &Driver,
    receipt: &WritebackReceipt,
    checkpoint: bool,
    progress: bool,
    room: bool,
    warning_room: bool,
)
    requires
        run.wf(),
        call_ensures(Driver::checkpoint_due, (run,), checkpoint),
        call_ensures(Driver::progress_due, (run,), progress),
        call_ensures(Driver::check_room, (run, receipt), room),
        call_ensures(Driver::check_warning_room, (run, receipt), warning_room),
    ensures
        checkpoint <==> run.settings.checkpoint_every > 0 && is_multiple(
            run.totals.chunks as int,
            run.settings.checkpoint_every as int,
        ),
        progress <==> is_multiple(run.chunk_index as int, run.settings.progress_every as int),
        ({
            let replays = receipt.warnings@.filter(
                |w: WritebackWarning| w.reason_code@ == "focus_writeback_chunk_retried"@,
            ).len();
            let others = receipt.warnings@.filter(
                |w: WritebackWarning| w.reason_code@ != "focus_writeback_chunk_retried"@,
            ).len();
            let fits = run.totals.count_anomalies + others <= usize::MAX && run.totals.chunk_retries
                + replays <= usize::MAX;
            &&& warning_room <==> fits
            &&& room <==> fits && run.totals.chunks + 1 <= usize::MAX && run.totals.sources
                + run.chunk_rows().len() <= usize::MAX && run.totals.target_updates
                + receipt.updated <= u64::MAX
        }),
{
    law_checkpoints_and_progress_keep_their_cadence(*run);
    law_replays_are_told_by_their_code(*receipt);
}

}
