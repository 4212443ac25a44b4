//! The synthesized rows: what a real analysis run would write for an image, drawn from the image's
//! identifier and its place in the queue.
#[allow(unused_imports)]
use crate::repro::cadence::{is_multiple, lemma_multiples_leave_no_remainder, times};
use crate::repro::mixing::{mix64, unit_fraction};
#[allow(unused_imports)]
use crate::repro::mixing::{
    fraction_of, law_fraction_is_the_top_of_the_mix, law_mix64_injective, mixed,
};
#[allow(unused_imports)]
use crate::repro::records::{
    FaceObservationResult, FocusAnalysisResult, FocusAnalysisView, Scaled, FRACTION_ONE,
};
use vstd::prelude::*;

verus! {

/// Which results carry faces and keywords, and which are not scored: one in every so many, never
/// where the number is 0. A result that is not scored gives up its turn for a face or for keywords,
/// unless every result carries them.
#[derive(Clone, Copy, Debug, PartialEq, Eq)]
pub struct ResultShape {
    pub face_every: usize,
    pub keyword_every: usize,
    pub incomplete_every: usize,
}

impl ResultShape {
    /// Whether the result at `ordinal` is one that was not scored.
    pub open spec fn is_incomplete(self, ordinal: usize) -> bool {
        self.incomplete_every > 0 && ordinal % self.incomplete_every == self.incomplete_every - 1
    }

    /// Whether the result at `ordinal` carries a face.
    pub open spec fn has_face(self, ordinal: usize) -> bool {
        self.face_every == 1 || (!self.is_incomplete(ordinal) && self.face_every > 0 && ordinal
            % self.face_every == 0)
    }

    /// Whether the result at `ordinal` carries keywords.
    pub open spec fn has_keywords(self, ordinal: usize) -> bool {
        self.keyword_every == 1 || (!self.is_incomplete(ordinal) && self.keyword_every > 0
            && ordinal % self.keyword_every == 0)
    }

    /// Twice the cadence of unscored results, which tells their two kinds apart, fits.
    pub open spec fn fits(self, ordinal: usize) -> bool {
        self.is_incomplete(ordinal) ==> 2 * self.incomplete_every <= usize::MAX
    }
}

/// The algorithm that every synthesized row names.
pub open spec fn algorithm_name() -> Seq<char> {
    "pldiag-s179-focus-writeback-v1"@
}

/// The algorithm that every synthesized row names.
pub fn repro_algorithm() -> (r: &'static str)
    ensures
        r@ == algorithm_name(),
{
    "pldiag-s179-focus-writeback-v1"
}

/// A quantity, in hundredths, that was not drawn.
pub open spec fn fixed(base: u32) -> Scaled {
    Scaled { base, span: 0, fraction: 0 }
}

/// A quantity drawn from `seed`, in hundredths from `base` up to `base + span`.
pub open spec fn drawn(seed: u64, shift: u32, base: u32, span: u32) -> Scaled {
    Scaled { base, span, fraction: fraction_of(seed, shift) }
}

/// The face of an image.
pub open spec fn observation(image_id: i64) -> FaceObservationResult {
    let seed = mixed(image_id as u64);
    FaceObservationResult {
        face_index: 0,
        bounding_box_x: drawn(seed, 1, 10, 20),
        bounding_box_y: drawn(seed, 2, 10, 20),
        bounding_box_width: drawn(seed, 3, 20, 10),
        bounding_box_height: drawn(seed, 4, 20, 10),
        detection_confidence: Some(drawn(seed, 5, 80, 19)),
        face_capture_quality: Some(drawn(seed, 6, 40, 55)),
        face_focus_score: Some(drawn(seed, 7, 6000, 40000)),
        left_eye_open_score: Some(drawn(seed, 8, 0, 100)),
        right_eye_open_score: Some(drawn(seed, 9, 0, 100)),
        eyes_open_score: Some(drawn(seed, 10, 0, 100)),
        blink_risk_score: Some(drawn(seed, 11, 0, 100)),
        left_eye_x: Some(fixed(20)),
        left_eye_y: Some(fixed(60)),
        right_eye_x: Some(fixed(40)),
        right_eye_y: Some(fixed(60)),
        nose_x: Some(fixed(30)),
        nose_y: Some(fixed(45)),
        mouth_left_x: Some(fixed(23)),
        mouth_left_y: Some(fixed(35)),
        mouth_right_x: Some(fixed(37)),
        mouth_right_y: Some(fixed(35)),
    }
}

/// The seed of the row for an image at a place in the queue.
pub open spec fn result_seed(image_id: i64, ordinal: usize) -> u64 {
    mixed((image_id as u64) ^ mixed(ordinal as u64))
}

/// The status of an unscored row: the two kinds alternate.
pub open spec fn incomplete_status(ordinal: usize, shape: ResultShape) -> Seq<char> {
    if ordinal as int % (2 * shape.incomplete_every) == shape.incomplete_every - 1 {
        "online_only"@
    } else {
        "unreadable"@
    }
}

/// What a scored row without a face was scored on.
pub open spec fn faceless_basis(seed: u64) -> Seq<char> {
    if seed % 4 == 0 {
        "whole_image"@
    } else if seed % 4 == 1 {
        "foreground"@
    } else if seed % 4 == 2 {
        "saliency"@
    } else {
        "animal"@
    }
}

/// The keywords of the row at `ordinal`.
pub open spec fn row_keywords(ordinal: usize, shape: ResultShape) -> Seq<Seq<char>> {
    if shape.has_keywords(ordinal) {
        seq!["PLDiag/S179"@, "PLDiag/Repro"@]
    } else {
        Seq::empty()
    }
}

/// The faces of the row of an image at `ordinal`.
pub open spec fn row_faces(image_id: i64, ordinal: usize, shape: ResultShape) -> Seq<
    FaceObservationResult,
> {
    if shape.has_face(ordinal) {
        seq![observation(image_id)]
    } else {
        Seq::empty()
    }
}

/// The row of an image that was not scored.
pub open spec fn incomplete_row(
    image_id: i64,
    ordinal: usize,
    attempt_id: Seq<char>,
    shape: ResultShape,
) -> FocusAnalysisView {
    FocusAnalysisView {
        id: image_id,
        focus_score: None,
        focus_basis: None,
        algorithm_version: algorithm_name(),
        analysis_run_id: attempt_id,
        status: incomplete_status(ordinal, shape),
        focus_human_score: None,
        focus_animal_score: None,
        focus_foreground_score: None,
        focus_saliency_score: None,
        focus_animal_pose_score: None,
        focus_whole_image_score: None,
        face_count: None,
        face_quality_best: None,
        face_quality_average: None,
        face_quality_min: None,
        face_eyes_open_count: None,
        face_blink_risk_count: None,
        auto_keywords: row_keywords(ordinal, shape),
        face_observations: row_faces(image_id, ordinal, shape),
    }
}

/// The row of an image that was scored.
pub open spec fn complete_row(
    image_id: i64,
    ordinal: usize,
    attempt_id: Seq<char>,
    shape: ResultShape,
) -> FocusAnalysisView {
    let seed = result_seed(image_id, ordinal);
    let face = shape.has_face(ordinal);
    let score = drawn(seed, 20, 4000, 90000);
    FocusAnalysisView {
        id: image_id,
        focus_score: Some(score),
        focus_basis: Some(
            if face {
                "human_face"@
            } else {
                faceless_basis(seed)
            },
        ),
        algorithm_version: algorithm_name(),
        analysis_run_id: attempt_id,
        status: "complete"@,
        focus_human_score: if face {
            Some(score)
        } else {
            None
        },
        focus_animal_score: Some(drawn(seed, 21, 1000, 20000)),
        focus_foreground_score: Some(drawn(seed, 22, 1000, 40000)),
        focus_saliency_score: Some(drawn(seed, 23, 1000, 40000)),
        focus_animal_pose_score: None,
        focus_whole_image_score: Some(drawn(seed, 24, 1000, 80000)),
        face_count: Some(
            if face {
                1u32
            } else {
                0u32
            },
        ),
        face_quality_best: if face {
            Some(drawn(seed, 25, 0, 100))
        } else {
            None
        },
        face_quality_average: if face {
            Some(drawn(seed, 26, 0, 100))
        } else {
            None
        },
        face_quality_min: if face {
            Some(drawn(seed, 27, 0, 100))
        } else {
            None
        },
        face_eyes_open_count: Some(
            if face {
                1u32
            } else {
                0u32
            },
        ),
        face_blink_risk_count: Some(0),
        auto_keywords: row_keywords(ordinal, shape),
        face_observations: row_faces(image_id, ordinal, shape),
    }
}

/// The row of an image at a place in the queue.
pub open spec fn result_row(
    image_id: i64,
    ordinal: usize,
    attempt_id: Seq<char>,
    shape: ResultShape,
) -> FocusAnalysisView {
    if shape.is_incomplete(ordinal) {
        incomplete_row(image_id, ordinal, attempt_id, shape)
    } else {
        complete_row(image_id, ordinal, attempt_id, shape)
    }
}

/// A quantity, in hundredths, that is not drawn.
fn fixed_quantity(base: u32) -> (r: Scaled)
    ensures
        r == fixed(base),
        r.wf(),
{
    Scaled { base, span: 0, fraction: 0 }
}

/// Draws a quantity from `seed`, in hundredths from `base` up to `base + span`.
fn draw(seed: u64, shift: u32, base: u32, span: u32) -> (r: Scaled)
    ensures
        r == drawn(seed, shift, base, span),
        r.wf(),
{
    Scaled { base, span, fraction: unit_fraction(seed, shift) }
}

/// The face of an image.
pub fn repro_observation(image_id: i64) -> (r: FaceObservationResult)
    ensures
        r == observation(image_id),
{
    let seed: u64 = mix64(image_id as u64);
    FaceObservationResult {
        face_index: 0,
        bounding_box_x: draw(seed, 1, 10, 20),
        bounding_box_y: draw(seed, 2, 10, 20),
        bounding_box_width: draw(seed, 3, 20, 10),
        bounding_box_height: draw(seed, 4, 20, 10),
        detection_confidence: Some(draw(seed, 5, 80, 19)),
        face_capture_quality: Some(draw(seed, 6, 40, 55)),
        face_focus_score: Some(draw(seed, 7, 6000, 40000)),
        left_eye_open_score: Some(draw(seed, 8, 0, 100)),
        right_eye_open_score: Some(draw(seed, 9, 0, 100)),
        eyes_open_score: Some(draw(seed, 10, 0, 100)),
        blink_risk_score: Some(draw(seed, 11, 0, 100)),
        left_eye_x: Some(fixed_quantity(20)),
        left_eye_y: Some(fixed_quantity(60)),
        right_eye_x: Some(fixed_quantity(40)),
        right_eye_y: Some(fixed_quantity(60)),
        nose_x: Some(fixed_quantity(30)),
        nose_y: Some(fixed_quantity(45)),
        mouth_left_x: Some(fixed_quantity(23)),
        mouth_left_y: Some(fixed_quantity(35)),
        mouth_right_x: Some(fixed_quantity(37)),
        mouth_right_y: Some(fixed_quantity(35)),
    }
}

/// The row of an image that was not scored.
fn unscored_result(
    image_id: i64,
    ordinal: usize,
    attempt_id: &str,
    shape: &ResultShape,
) -> (r: FocusAnalysisResult)
    requires
        shape.is_incomplete(ordinal),
        shape.fits(ordinal),
    ensures
        r@ == incomplete_row(image_id, ordinal, attempt_id@, *shape),
{
    let status: &str = if ordinal % (2 * shape.incomplete_every) == shape.incomplete_every - 1 {
        "online_only"
    } else {
        "unreadable"
    };
    FocusAnalysisResult {
        id: image_id,
        focus_score: None,
        focus_basis: None,
        algorithm_version: repro_algorithm().to_owned(),
        analysis_run_id: attempt_id.to_owned(),
        status: status.to_owned(),
        focus_human_score: None,
        focus_animal_score: None,
        focus_foreground_score: None,
        focus_saliency_score: None,
        focus_animal_pose_score: None,
        focus_whole_image_score: None,
        face_count: None,
        face_quality_best: None,
        face_quality_average: None,
        face_quality_min: None,
        face_eyes_open_count: None,
        face_blink_risk_count: None,
        auto_keywords: keywords(shape.keyword_every == 1),
        face_observations: faces(image_id, shape.face_every == 1),
    }
}

/// What a scored row was scored on.
fn basis_of(seed: u64, with_face: bool) -> (r: &'static str)
    ensures
        r@ == if with_face {
            "human_face"@
        } else {
            faceless_basis(seed)
        },
{
    if with_face {
        return "human_face";
    }
    let kind: u64 = seed % 4;
    if kind == 0 {
        "whole_image"
    } else if kind == 1 {
        "foreground"
    } else if kind == 2 {
        "saliency"
    } else {
        "animal"
    }
}

/// The keywords of a row, where it has any.
fn keywords(with_keywords: bool) -> (r: Vec<String>)
    ensures
        r@.map_values(|k: String| k@) == if with_keywords {
            seq!["PLDiag/S179"@, "PLDiag/Repro"@]
        } else {
            Seq::<Seq<char>>::empty()
        },
{
    let mut out: Vec<String> = Vec::new();
    if with_keywords {
        out.push("PLDiag/S179".to_owned());
        out.push("PLDiag/Repro".to_owned());
    }
    out
}

/// The faces of a row, where it has any.
fn faces(image_id: i64, with_face: bool) -> (r: Vec<FaceObservationResult>)
    ensures
        r@ == if with_face {
            seq![observation(image_id)]
        } else {
            Seq::<FaceObservationResult>::empty()
        },
{
    let mut out: Vec<FaceObservationResult> = Vec::new();
    if with_face {
        out.push(repro_observation(image_id));
    }
    out
}

/// The row that an analysis would write for an image at a place in the queue.
pub fn repro_result(
    image_id: i64,
    ordinal: usize,
    attempt_id: &str,
    shape: &ResultShape,
) -> (r: FocusAnalysisResult)
    requires
        shape.fits(ordinal),
    ensures
        r@ == result_row(image_id, ordinal, attempt_id@, *shape),
{
    let seed: u64 = mix64((image_id as u64) ^ mix64(ordinal as u64));
    let incomplete: bool = shape.incomplete_every > 0 && ordinal % shape.incomplete_every
        == shape.incomplete_every - 1;
    if incomplete {
        return unscored_result(image_id, ordinal, attempt_id, shape);
    }
    let with_face: bool = shape.face_every > 0 && ordinal % shape.face_every == 0;
    let with_keywords: bool = shape.keyword_every > 0 && ordinal % shape.keyword_every == 0;
    let score: Scaled = draw(seed, 20, 4000, 90000);
    FocusAnalysisResult {
        id: image_id,
        focus_score: Some(score),
        focus_basis: Some(basis_of(seed, with_face).to_owned()),
        algorithm_version: repro_algorithm().to_owned(),
        analysis_run_id: attempt_id.to_owned(),
        status: "complete".to_owned(),
        focus_human_score: if with_face {
            Some(score)
        } else {
            None
        },
        focus_animal_score: Some(draw(seed, 21, 1000, 20000)),
        focus_foreground_score: Some(draw(seed, 22, 1000, 40000)),
        focus_saliency_score: Some(draw(seed, 23, 1000, 40000)),
        focus_animal_pose_score: None,
        focus_whole_image_score: Some(draw(seed, 24, 1000, 80000)),
        face_count: Some(
            if with_face {
                1
            } else {
                0
            },
        ),
        face_quality_best: if with_face {
            Some(draw(seed, 25, 0, 100))
        } else {
            None
        },
        face_quality_average: if with_face {
            Some(draw(seed, 26, 0, 100))
        } else {
            None
        },
        face_quality_min: if with_face {
            Some(draw(seed, 27, 0, 100))
        } else {
            None
        },
        face_eyes_open_count: Some(
            if with_face {
                1
            } else {
                0
            },
        ),
        face_blink_risk_count: Some(0),
        auto_keywords: keywords(with_keywords),
        face_observations: faces(image_id, with_face),
    }
}

/// Whether a quantity lies from `low` up to, and not at, `high`, both in hundredths.
pub open spec fn lies_in(q: Scaled, low: int, high: int) -> bool {
    q.wf() && low * FRACTION_ONE <= q.amount() < high * FRACTION_ONE
}

/// What is drawn lies between its bounds.
proof fn lemma_drawn_in_bounds(seed: u64, shift: u32, base: u32, span: u32)
    requires
        span > 0,
    ensures
        lies_in(drawn(seed, shift, base, span), base as int, base + span),
{
    let m: u64 = mixed(seed ^ (shift as u64));
    assert(m >> 11 < 0x20_0000_0000_0000u64) by (bit_vector);
    let f: int = (m >> 11) as int;
    assert(0 <= span * f < span * FRACTION_ONE) by (nonlinear_arith)
        requires
            0 <= f < FRACTION_ONE,
            span > 0,
    ;
    assert((base + span) * FRACTION_ONE == base * FRACTION_ONE + span * FRACTION_ONE)
        by (nonlinear_arith);
}

/// The face of an image lies inside it, and every score of the face in the range of a real one.
pub proof fn law_observation_is_plausible(image_id: i64)
    ensures
        ({
            let o = observation(image_id);
            &&& lies_in(o.bounding_box_x, 10, 30)
            &&& lies_in(o.bounding_box_y, 10, 30)
            &&& lies_in(o.bounding_box_width, 20, 30)
            &&& lies_in(o.bounding_box_height, 20, 30)
            &&& o.bounding_box_x.amount() + o.bounding_box_width.amount() < 100 * FRACTION_ONE
            &&& o.bounding_box_y.amount() + o.bounding_box_height.amount() < 100 * FRACTION_ONE
            &&& lies_in(o.detection_confidence->0, 80, 99)
            &&& lies_in(o.face_capture_quality->0, 40, 95)
            &&& lies_in(o.face_focus_score->0, 6000, 46000)
            &&& lies_in(o.left_eye_open_score->0, 0, 100)
            &&& lies_in(o.right_eye_open_score->0, 0, 100)
            &&& lies_in(o.eyes_open_score->0, 0, 100)
            &&& lies_in(o.blink_risk_score->0, 0, 100)
        }),
{
    let seed = mixed(image_id as u64);
    lemma_drawn_in_bounds(seed, 1, 10, 20);
    lemma_drawn_in_bounds(seed, 2, 10, 20);
    lemma_drawn_in_bounds(seed, 3, 20, 10);
    lemma_drawn_in_bounds(seed, 4, 20, 10);
    lemma_drawn_in_bounds(seed, 5, 80, 19);
    lemma_drawn_in_bounds(seed, 6, 40, 55);
    lemma_drawn_in_bounds(seed, 7, 6000, 40000);
    lemma_drawn_in_bounds(seed, 8, 0, 100);
    lemma_drawn_in_bounds(seed, 9, 0, 100);
    lemma_drawn_in_bounds(seed, 10, 0, 100);
    lemma_drawn_in_bounds(seed, 11, 0, 100);
}

/// Every row names its image, the attempt that wrote it and the algorithm.
pub proof fn law_row_names_its_attempt(
    image_id: i64,
    ordinal: usize,
    attempt_id: Seq<char>,
    shape: ResultShape,
)
    ensures
        ({
            let row = result_row(image_id, ordinal, attempt_id, shape);
            &&& row.id == image_id
            &&& row.analysis_run_id == attempt_id
            &&& row.algorithm_version == "pldiag-s179-focus-writeback-v1"@
        }),
{
}

/// A row is scored exactly where its status is `complete`; a row that is not scored carries
/// neither scores nor counts, and keywords and faces only where every row does; a scored row
/// carries one face exactly where it counts one, and is then scored on it.
pub proof fn law_row_is_consistent(
    image_id: i64,
    ordinal: usize,
    attempt_id: Seq<char>,
    shape: ResultShape,
)
    ensures
        ({
            let row = result_row(image_id, ordinal, attempt_id, shape);
            &&& row.focus_score is Some <==> row.status == "complete"@
            &&& row.focus_score is None ==> row.focus_basis is None && row.focus_human_score is None
                && row.face_count is None
            &&& row.focus_score is None && shape.keyword_every != 1 ==> row.auto_keywords.len() == 0
            &&& row.focus_score is None && shape.face_every != 1 ==> row.face_observations.len()
                == 0
            &&& row.face_count is Some ==> row.face_count->0 == row.face_observations.len()
            &&& row.focus_score is Some ==> (row.face_observations.len() == 1 <==> row.focus_basis
                == Some("human_face"@))
            &&& row.focus_score is Some && row.face_observations.len() == 1
                ==> row.focus_human_score == row.focus_score
            &&& row.face_observations.len() == 1 ==> row.face_observations[0] == observation(
                image_id,
            )
            &&& row.focus_score matches Some(score) ==> lies_in(score, 4000, 94000)
        }),
{
    reveal_strlit("complete");
    reveal_strlit("online_only");
    reveal_strlit("unreadable");
    reveal_strlit("human_face");
    reveal_strlit("whole_image");
    reveal_strlit("foreground");
    reveal_strlit("saliency");
    reveal_strlit("animal");
    lemma_drawn_in_bounds(result_seed(image_id, ordinal), 20, 4000, 90000);
    assert("complete"@.len() != "online_only"@.len());
    assert("complete"@.len() != "unreadable"@.len());
    assert("human_face"@[0] != "whole_image"@[0]);
    assert("human_face"@[0] != "foreground"@[0]);
    assert("human_face"@[0] != "saliency"@[0]);
    assert("human_face"@[0] != "animal"@[0]);
}

/// Where a cadence is one, every row carries its face, or its two keywords, scored or not.
pub proof fn law_cadence_of_one_marks_every_row(
    image_id: i64,
    ordinal: usize,
    attempt_id: Seq<char>,
    shape: ResultShape,
)
    ensures
        ({
            let row = result_row(image_id, ordinal, attempt_id, shape);
            &&& shape.face_every == 1 ==> row.face_observations == seq![observation(image_id)]
            &&& shape.keyword_every == 1 ==> row.auto_keywords == seq![
                "PLDiag/S179"@,
                "PLDiag/Repro"@,
            ]
        }),
{
}

/// Exactly one of any `face_every` results in a row carries a face, unless the one whose turn it is
/// was not scored and gives it up.
pub proof fn law_one_face_in_every_so_many(shape: ResultShape, start: usize)
    requires
        shape.face_every > 0,
        start + shape.face_every <= usize::MAX,
        shape.face_every > 1 ==> forall|p: usize|
            start <= p < start + shape.face_every && #[trigger] shape.is_incomplete(p) ==> p
                % shape.face_every != 0,
    ensures
        exists|o: usize|
            start <= o < start + shape.face_every && #[trigger] shape.has_face(o) && forall|p: usize|
                start <= p < start + shape.face_every && #[trigger] shape.has_face(p) ==> p == o,
{
    let o = lemma_one_multiple(start as int, shape.face_every as int);
    assert(shape.face_every > 1 ==> !shape.is_incomplete(o as usize));
    assert(shape.has_face(o as usize));
    assert forall|p: usize|
        start <= p < start + shape.face_every && #[trigger] shape.has_face(p) implies p == o by {
        lemma_multiples_apart(p as int, o, shape.face_every as int);
    }
}

/// Exactly one of any `keyword_every` results in a row carries keywords, unless the one whose turn
/// it is was not scored and gives it up.
pub proof fn law_keywords_in_one_of_every_so_many(shape: ResultShape, start: usize)
    requires
        shape.keyword_every > 0,
        start + shape.keyword_every <= usize::MAX,
        shape.keyword_every > 1 ==> forall|p: usize|
            start <= p < start + shape.keyword_every && #[trigger] shape.is_incomplete(p) ==> p
                % shape.keyword_every != 0,
    ensures
        exists|o: usize|
            start <= o < start + shape.keyword_every && #[trigger] shape.has_keywords(o) && forall|
                p: usize,
            |
                start <= p < start + shape.keyword_every && #[trigger] shape.has_keywords(p) ==> p
                    == o,
{
    let o = lemma_one_multiple(start as int, shape.keyword_every as int);
    assert(shape.keyword_every > 1 ==> !shape.is_incomplete(o as usize));
    assert(shape.has_keywords(o as usize));
    assert forall|p: usize|
        start <= p < start + shape.keyword_every && #[trigger] shape.has_keywords(p) implies p
        == o by {
        lemma_multiples_apart(p as int, o, shape.keyword_every as int);
    }
}

/// Where a cadence above one divides that of the unscored results, no unscored result takes its
/// turn.
pub proof fn law_unscored_results_take_no_turn(shape: ResultShape, every: usize, ordinal: usize)
    requires
        every > 1,
        shape.incomplete_every % every == 0,
        shape.is_incomplete(ordinal),
    ensures
        ordinal % every != 0,
{
    let n: int = shape.incomplete_every as int;
    let e: int = every as int;
    let q: int = ordinal as int / n;
    let k: int = n / e;
    vstd::arithmetic::div_mod::lemma_fundamental_div_mod(ordinal as int, n);
    vstd::arithmetic::div_mod::lemma_fundamental_div_mod(n, e);
    assert(ordinal == (q * k + k - 1) * e + (e - 1)) by (nonlinear_arith)
        requires
            ordinal == n * q + (n - 1),
            n == e * k,
    ;
    vstd::arithmetic::div_mod::lemma_fundamental_div_mod_converse(
        ordinal as int,
        e,
        q * k + k - 1,
        e - 1,
    );
}

/// Exactly one of any `incomplete_every` results in a row is not scored.
pub proof fn law_one_unscored_in_every_so_many(shape: ResultShape, start: usize)
    requires
        shape.incomplete_every > 0,
        start + shape.incomplete_every <= usize::MAX,
    ensures
        exists|o: usize|
            start <= o < start + shape.incomplete_every && #[trigger] shape.is_incomplete(o)
                && forall|p: usize|
                start <= p < start + shape.incomplete_every && #[trigger] shape.is_incomplete(p)
                    ==> p == o,
{
    let n: int = shape.incomplete_every as int;
    let o = lemma_one_multiple(start + 1, n) - 1;
    lemma_before_multiple(o, n);
    assert(shape.is_incomplete(o as usize));
    assert forall|p: usize|
        start <= p < start + shape.incomplete_every && #[trigger] shape.is_incomplete(p) implies p
        == o by {
        lemma_before_multiple(p as int, n);
        lemma_multiples_apart(p + 1, o + 1, n);
    }
}

/// The two kinds of unscored rows alternate.
pub proof fn law_unscored_kinds_alternate(shape: ResultShape, ordinal: usize)
    requires
        shape.is_incomplete(ordinal),
        ordinal + shape.incomplete_every <= usize::MAX,
    ensures
        shape.is_incomplete((ordinal + shape.incomplete_every) as usize),
        incomplete_status(ordinal, shape) != incomplete_status(
            (ordinal + shape.incomplete_every) as usize,
            shape,
        ),
{
    reveal_strlit("online_only");
    reveal_strlit("unreadable");
    assert("online_only"@.len() != "unreadable"@.len());
    let n: int = shape.incomplete_every as int;
    let q: int = ordinal as int / n;
    vstd::arithmetic::div_mod::lemma_fundamental_div_mod(ordinal as int, n);
    assert(ordinal == n * q + (n - 1));
    assert(ordinal + n == (q + 1) * n + (n - 1)) by (nonlinear_arith)
        requires
            ordinal == n * q + (n - 1),
    ;
    vstd::arithmetic::div_mod::lemma_fundamental_div_mod_converse(ordinal + n, n, q + 1, n - 1);
    let h: int = q / 2;
    if q % 2 == 0 {
        assert(ordinal == h * (2 * n) + (n - 1)) by (nonlinear_arith)
            requires
                ordinal == n * q + (n - 1),
                q == 2 * h,
        ;
        assert(ordinal + n == h * (2 * n) + (2 * n - 1));
        vstd::arithmetic::div_mod::lemma_fundamental_div_mod_converse(
            ordinal as int,
            2 * n,
            h,
            n - 1,
        );
        vstd::arithmetic::div_mod::lemma_fundamental_div_mod_converse(
            ordinal + n,
            2 * n,
            h,
            2 * n - 1,
        );
    } else {
        assert(ordinal == h * (2 * n) + (2 * n - 1)) by (nonlinear_arith)
            requires
                ordinal == n * q + (n - 1),
                q == 2 * h + 1,
        ;
        assert(ordinal + n == (h + 1) * (2 * n) + (n - 1)) by (nonlinear_arith)
            requires
                ordinal == h * (2 * n) + (2 * n - 1),
        ;
        vstd::arithmetic::div_mod::lemma_fundamental_div_mod_converse(
            ordinal as int,
            2 * n,
            h,
            2 * n - 1,
        );
        vstd::arithmetic::div_mod::lemma_fundamental_div_mod_converse(
            ordinal + n,
            2 * n,
            h + 1,
            n - 1,
        );
    }
}

/// Two images at the same place in the queue never draw from the same seed.
pub proof fn law_images_draw_apart(image_id: i64, other: i64, ordinal: usize)
    requires
        image_id != other,
    ensures
        result_seed(image_id, ordinal) != result_seed(other, ordinal),
{
    let k: u64 = mixed(ordinal as u64);
    let a: u64 = image_id as u64;
    let b: u64 = other as u64;
    assert(image_id != other ==> (image_id as u64) != (other as u64)) by (bit_vector);
    assert(a ^ k == b ^ k ==> a == b) by (bit_vector);
    if result_seed(image_id, ordinal) == result_seed(other, ordinal) {
        law_mix64_injective(a ^ k, b ^ k);
    }
}

/// Any `n` numbers in a row hold a multiple of `n`.
proof fn lemma_one_multiple(start: int, n: int) -> (o: int)
    requires
        n > 0,
    ensures
        start <= o < start + n,
        o % n == 0,
{
    let r: int = start % n;
    vstd::arithmetic::div_mod::lemma_fundamental_div_mod(start, n);
    vstd::arithmetic::div_mod::lemma_mod_bound(start, n);
    let q: int = start / n;
    if r == 0 {
        start
    } else {
        assert(start - r + n == (q + 1) * n + 0) by (nonlinear_arith)
            requires
                start == n * q + r,
        ;
        vstd::arithmetic::div_mod::lemma_fundamental_div_mod_converse(start - r + n, n, q + 1, 0);
        start - r + n
    }
}

/// Two multiples of `n` that are less than `n` apart are the same.
proof fn lemma_multiples_apart(p: int, o: int, n: int)
    requires
        n > 0,
        p % n == 0,
        o % n == 0,
        -n < p - o < n,
    ensures
        p == o,
{
    vstd::arithmetic::div_mod::lemma_fundamental_div_mod(p, n);
    vstd::arithmetic::div_mod::lemma_fundamental_div_mod(o, n);
    let a: int = p / n;
    let b: int = o / n;
    assert(a == b) by (nonlinear_arith)
        requires
            n > 0,
            -n < n * a - n * b < n,
    ;
}

/// What comes right before a multiple of `n` leaves the remainder `n - 1`.
proof fn lemma_before_multiple(o: int, n: int)
    requires
        n > 0,
    ensures
        o % n == n - 1 <==> (o + 1) % n == 0,
{
    vstd::arithmetic::div_mod::lemma_fundamental_div_mod(o, n);
    vstd::arithmetic::div_mod::lemma_mod_bound(o, n);
    let q: int = o / n;
    let r: int = o % n;
    if r == n - 1 {
        assert(o + 1 == (q + 1) * n + 0) by (nonlinear_arith)
            requires
                o == n * q + (n - 1),
        ;
        vstd::arithmetic::div_mod::lemma_fundamental_div_mod_converse(o + 1, n, q + 1, 0);
    } else {
        assert(o + 1 == q * n + (r + 1)) by (nonlinear_arith)
            requires
                o == n * q + r,
        ;
        vstd::arithmetic::div_mod::lemma_fundamental_div_mod_converse(o + 1, n, q, r + 1);
    }
}

/// Whether a quantity goes, in hundredths, from `low` towards `high` by the top 53 bits of what is
/// mixed of `seed` at `shift`.
pub open spec fn measured(q: Scaled, seed: u64, shift: u32, low: int, high: int) -> bool {
    &&& q.base == low
    &&& q.base + q.span == high
    &&& q.fraction == mixed(seed ^ (shift as u64)) / 2048
}

/// What is drawn is measured.
proof fn lemma_drawn_is_measured(seed: u64, shift: u32, base: u32, span: u32)
    ensures
        measured(drawn(seed, shift, base, span), seed, shift, base as int, base + span),
{
    law_fraction_is_the_top_of_the_mix(seed, shift);
}

/// Each quantity of a face is drawn from the image's identifier alone, at a place of its own, and
/// its landmarks are fixed.
pub proof fn law_face_is_drawn_from_its_image(image_id: i64)
    ensures
        ({
            let o = observation(image_id);
            let seed = mixed(image_id as u64);
            &&& o.face_index == 0
            &&& measured(o.bounding_box_x, seed, 1, 10, 30)
            &&& measured(o.bounding_box_y, seed, 2, 10, 30)
            &&& measured(o.bounding_box_width, seed, 3, 20, 30)
            &&& measured(o.bounding_box_height, seed, 4, 20, 30)
            &&& o.detection_confidence matches Some(q) && measured(q, seed, 5, 80, 99)
            &&& o.face_capture_quality matches Some(q) && measured(q, seed, 6, 40, 95)
            &&& o.face_focus_score matches Some(q) && measured(q, seed, 7, 6000, 46000)
            &&& o.left_eye_open_score matches Some(q) && measured(q, seed, 8, 0, 100)
            &&& o.right_eye_open_score matches Some(q) && measured(q, seed, 9, 0, 100)
            &&& o.eyes_open_score matches Some(q) && measured(q, seed, 10, 0, 100)
            &&& o.blink_risk_score matches Some(q) && measured(q, seed, 11, 0, 100)
            &&& o.left_eye_x matches Some(q) && q.amount() == 20 * FRACTION_ONE
            &&& o.left_eye_y matches Some(q) && q.amount() == 60 * FRACTION_ONE
            &&& o.right_eye_x matches Some(q) && q.amount() == 40 * FRACTION_ONE
            &&& o.right_eye_y matches Some(q) && q.amount() == 60 * FRACTION_ONE
            &&& o.nose_x matches Some(q) && q.amount() == 30 * FRACTION_ONE
            &&& o.nose_y matches Some(q) && q.amount() == 45 * FRACTION_ONE
            &&& o.mouth_left_x matches Some(q) && q.amount() == 23 * FRACTION_ONE
            &&& o.mouth_left_y matches Some(q) && q.amount() == 35 * FRACTION_ONE
            &&& o.mouth_right_x matches Some(q) && q.amount() == 37 * FRACTION_ONE
            &&& o.mouth_right_y matches Some(q) && q.amount() == 35 * FRACTION_ONE
        }),
{
    let seed = mixed(image_id as u64);
    lemma_drawn_is_measured(seed, 1, 10, 20);
    lemma_drawn_is_measured(seed, 2, 10, 20);
    lemma_drawn_is_measured(seed, 3, 20, 10);
    lemma_drawn_is_measured(seed, 4, 20, 10);
    lemma_drawn_is_measured(seed, 5, 80, 19);
    lemma_drawn_is_measured(seed, 6, 40, 55);
    lemma_drawn_is_measured(seed, 7, 6000, 40000);
    lemma_drawn_is_measured(seed, 8, 0, 100);
    lemma_drawn_is_measured(seed, 9, 0, 100);
    lemma_drawn_is_measured(seed, 10, 0, 100);
    lemma_drawn_is_measured(seed, 11, 0, 100);
}

/// In a row whose status is not `complete` every measurement is absent.
pub proof fn law_unscored_row_measures_nothing(
    image_id: i64,
    ordinal: usize,
    attempt_id: Seq<char>,
    shape: ResultShape,
)
    ensures
        ({
            let row = result_row(image_id, ordinal, attempt_id, shape);
            row.status != "complete"@ ==> {
                &&& row.focus_score is None
                &&& row.focus_basis is None
                &&& row.focus_human_score is None
                &&& row.focus_animal_score is None
                &&& row.focus_foreground_score is None
                &&& row.focus_saliency_score is None
                &&& row.focus_animal_pose_score is None
                &&& row.focus_whole_image_score is None
                &&& row.face_count is None
                &&& row.face_quality_best is None
                &&& row.face_quality_average is None
                &&& row.face_quality_min is None
                &&& row.face_eyes_open_count is None
                &&& row.face_blink_risk_count is None
            }
        }),
{
}

/// A row has the status `complete` exactly where it is scored.
proof fn lemma_status_tells(
    image_id: i64,
    ordinal: usize,
    attempt_id: Seq<char>,
    shape: ResultShape,
)
    ensures
        result_row(image_id, ordinal, attempt_id, shape).status == "complete"@
            <==> !shape.is_incomplete(ordinal),
{
    reveal_strlit("complete");
    reveal_strlit("online_only");
    reveal_strlit("unreadable");
    assert("complete"@.len() != "online_only"@.len());
    assert("complete"@.len() != "unreadable"@.len());
}

/// In a row whose status is `complete` every score is drawn from the image and its place in the
/// queue, each in a range and at a place of its own; those of a face are there exactly where the
/// row carries one, and the counts are those of the faces that it carries.
#[verifier::rlimit(60)]
#[verifier::spinoff_prover]
pub proof fn law_scored_row_measures_everything(
    image_id: i64,
    ordinal: usize,
    attempt_id: Seq<char>,
    shape: ResultShape,
)
    ensures
        ({
            let row = result_row(image_id, ordinal, attempt_id, shape);
            let seed = mixed((image_id as u64) ^ mixed(ordinal as u64));
            let faces = row.face_observations.len();
            row.status == "complete"@ ==> {
                &&& row.focus_score matches Some(q) && measured(q, seed, 20, 4000, 94000)
                &&& row.focus_animal_score matches Some(q) && measured(q, seed, 21, 1000, 21000)
                &&& row.focus_foreground_score matches Some(q) && measured(q, seed, 22, 1000, 41000)
                &&& row.focus_saliency_score matches Some(q) && measured(q, seed, 23, 1000, 41000)
                &&& row.focus_animal_pose_score is None
                &&& row.focus_whole_image_score matches Some(q) && measured(
                    q,
                    seed,
                    24,
                    1000,
                    81000,
                )
                &&& faces <= 1
                &&& faces == 1 ==> {
                    &&& row.focus_human_score == row.focus_score
                    &&& row.focus_basis == Some("human_face"@)
                    &&& row.face_quality_best matches Some(q) && measured(q, seed, 25, 0, 100)
                    &&& row.face_quality_average matches Some(q) && measured(q, seed, 26, 0, 100)
                    &&& row.face_quality_min matches Some(q) && measured(q, seed, 27, 0, 100)
                }
                &&& faces == 0 ==> {
                    &&& row.focus_human_score is None
                    &&& row.focus_basis == Some(
                        seq!["whole_image"@, "foreground"@, "saliency"@, "animal"@][(seed
                            % 4) as int],
                    )
                    &&& row.face_quality_best is None
                    &&& row.face_quality_average is None
                    &&& row.face_quality_min is None
                }
                &&& row.face_count matches Some(n) && n == faces
                &&& row.face_eyes_open_count matches Some(n) && n == faces
                &&& row.face_blink_risk_count matches Some(n) && n == 0
            }
        }),
{
    lemma_status_tells(image_id, ordinal, attempt_id, shape);
    if !shape.is_incomplete(ordinal) {
        let seed = result_seed(image_id, ordinal);
        lemma_drawn_is_measured(seed, 20, 4000, 90000);
        lemma_drawn_is_measured(seed, 21, 1000, 20000);
        lemma_drawn_is_measured(seed, 22, 1000, 40000);
        lemma_drawn_is_measured(seed, 23, 1000, 40000);
        lemma_drawn_is_measured(seed, 24, 1000, 80000);
        lemma_drawn_is_measured(seed, 25, 0, 100);
        lemma_drawn_is_measured(seed, 26, 0, 100);
        lemma_drawn_is_measured(seed, 27, 0, 100);
    }
}

/// The rows that are not scored are those right before a multiple of their cadence; they are
/// `unreadable` right before a multiple of twice the cadence, and `online_only` otherwise.
pub proof fn law_which_rows_are_unscored(
    image_id: i64,
    ordinal: usize,
    attempt_id: Seq<char>,
    shape: ResultShape,
)
    ensures
        ({
            let row = result_row(image_id, ordinal, attempt_id, shape);
            let n = shape.incomplete_every as int;
            let unscored = n > 0 && is_multiple(ordinal + 1, n);
            &&& !unscored ==> row.status == "complete"@
            &&& unscored && is_multiple(ordinal + 1, 2 * n) ==> row.status == "unreadable"@
            &&& unscored && !is_multiple(ordinal + 1, 2 * n) ==> row.status == "online_only"@
        }),
{
    let n: int = shape.incomplete_every as int;
    let o: int = ordinal as int;
    if n > 0 {
        lemma_multiples_leave_no_remainder(o + 1, n);
        lemma_multiples_leave_no_remainder(o + 1, 2 * n);
        lemma_before_multiple(o, n);
        lemma_before_multiple(o, 2 * n);
        if shape.is_incomplete(ordinal) {
            let h: int = o / (2 * n);
            let r: int = o % (2 * n);
            vstd::arithmetic::div_mod::lemma_fundamental_div_mod(o, 2 * n);
            vstd::arithmetic::div_mod::lemma_mod_bound(o, 2 * n);
            if r < n {
                assert(o == (2 * h) * n + r) by (nonlinear_arith)
                    requires
                        o == (2 * n) * h + r,
                ;
                vstd::arithmetic::div_mod::lemma_fundamental_div_mod_converse(o, n, 2 * h, r);
            } else {
                assert(o == (2 * h + 1) * n + (r - n)) by (nonlinear_arith)
                    requires
                        o == (2 * n) * h + r,
                ;
                vstd::arithmetic::div_mod::lemma_fundamental_div_mod_converse(
                    o,
                    n,
                    2 * h + 1,
                    r - n,
                );
            }
        }
    }
}

/// A scored row carries its face at the multiples of the cadence of faces, and its keywords at
/// those of the cadence of keywords; an unscored row carries them only where that cadence is one.
/// What a row carries is always the same: the face of its image, and the two keywords.
pub proof fn law_which_rows_carry_what(
    image_id: i64,
    ordinal: usize,
    attempt_id: Seq<char>,
    shape: ResultShape,
)
    ensures
        ({
            let row = result_row(image_id, ordinal, attempt_id, shape);
            let scored = row.status == "complete"@;
            let face_due = shape.face_every == 1 || (scored && shape.face_every > 0 && is_multiple(
                ordinal as int,
                shape.face_every as int,
            ));
            let keywords_due = shape.keyword_every == 1 || (scored && shape.keyword_every > 0
                && is_multiple(ordinal as int, shape.keyword_every as int));
            &&& face_due ==> row.face_observations == seq![observation(image_id)]
            &&& !face_due ==> row.face_observations.len() == 0
            &&& keywords_due ==> row.auto_keywords == seq!["PLDiag/S179"@, "PLDiag/Repro"@]
            &&& !keywords_due ==> row.auto_keywords.len() == 0
        }),
{
    lemma_status_tells(image_id, ordinal, attempt_id, shape);
    if shape.face_every > 0 {
        lemma_multiples_leave_no_remainder(ordinal as int, shape.face_every as int);
    }
    if shape.keyword_every > 0 {
        lemma_multiples_leave_no_remainder(ordinal as int, shape.keyword_every as int);
    }
}

/// What `repro_result` hands back names its image, its attempt and the algorithm; right before a
/// multiple of their cadence it is a row without any measurement, and elsewhere one with a score.
pub proof fn law_synthesized_row(
    image_id: i64,
    ordinal: usize,
    attempt_id: &str,
    shape: &ResultShape,
    r: FocusAnalysisResult,
)
    requires
        shape.fits(ordinal),
        call_ensures(repro_result, (image_id, ordinal, attempt_id, shape), r),
    ensures
        r.id == image_id,
        r.analysis_run_id@ == attempt_id@,
        r.algorithm_version@ == "pldiag-s179-focus-writeback-v1"@,
        shape.incomplete_every > 0 && is_multiple(ordinal + 1, shape.incomplete_every as int)
            ==> r.status@ == "unreadable"@ || r.status@ == "online_only"@,
        shape.incomplete_every == 0 || !is_multiple(ordinal + 1, shape.incomplete_every as int)
            ==> r.status@ == "complete"@,
        r.status@ != "complete"@ ==> {
            &&& r.focus_score is None
            &&& r.focus_basis is None
            &&& r.focus_human_score is None
            &&& r.focus_animal_score is None
            &&& r.focus_foreground_score is None
            &&& r.focus_saliency_score is None
            &&& r.focus_animal_pose_score is None
            &&& r.focus_whole_image_score is None
            &&& r.face_count is None
            &&& r.face_quality_best is None
            &&& r.face_quality_average is None
            &&& r.face_quality_min is None
            &&& r.face_eyes_open_count is None
            &&& r.face_blink_risk_count is None
        },
        r.status@ == "complete"@ ==> {
            &&& r.focus_score is Some
            &&& r.focus_basis is Some
            &&& r.focus_animal_score is Some
            &&& r.focus_foreground_score is Some
            &&& r.focus_saliency_score is Some
            &&& r.focus_whole_image_score is Some
            &&& r.face_count matches Some(n) && n == r.face_observations@.len()
            &&& r.face_eyes_open_count matches Some(n) && n == r.face_observations@.len()
            &&& r.face_blink_risk_count matches Some(n) && n == 0
            &&& r.focus_human_score is Some <==> r.face_observations@.len() == 1
            &&& r.face_quality_best is Some <==> r.face_observations@.len() == 1
            &&& r.face_quality_average is Some <==> r.face_observations@.len() == 1
            &&& r.face_quality_min is Some <==> r.face_observations@.len() == 1
        },
        r@ == result_row(image_id, ordinal, attempt_id@, *shape),
{
    assert(r@ == result_row(image_id, ordinal, attempt_id@, *shape));
    law_row_names_its_attempt(image_id, ordinal, attempt_id@, *shape);
    law_unscored_row_measures_nothing(image_id, ordinal, attempt_id@, *shape);
    law_scored_row_measures_everything(image_id, ordinal, attempt_id@, *shape);
    law_which_rows_are_unscored(image_id, ordinal, attempt_id@, *shape);
    law_which_rows_carry_what(image_id, ordinal, attempt_id@, *shape);
}

/// What `repro_observation` hands back is the face of its image.
pub proof fn law_synthesized_face(image_id: i64, r: FaceObservationResult)
    requires
        call_ensures(repro_observation, (image_id,), r),
    ensures
        r == observation(image_id),
{
}

}
