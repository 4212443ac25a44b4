//! The records that one analysis of an image writes back.
use vstd::prelude::*;

verus! {

/// Two to the power of 53: the denominator of every drawn fraction.
pub const FRACTION_ONE: u64 = 0x20_0000_0000_0000;

/// A measured quantity, in hundredths: `base` plus `span` times `fraction` over `FRACTION_ONE`.
#[derive(Clone, Copy, Debug, PartialEq, Eq)]
pub struct Scaled {
    pub base: u32,
    pub span: u32,
    pub fraction: u64,
}

impl Scaled {
    /// The fraction is one: at least zero and under one.
    pub open spec fn wf(self) -> bool {
        self.fraction < FRACTION_ONE
    }

    /// The quantity, in hundredths of `FRACTION_ONE`.
    pub open spec fn amount(self) -> int {
        self.base * FRACTION_ONE + self.span * self.fraction
    }
}

/// One face found in an image.
#[derive(Clone, Copy, Debug, PartialEq, Eq)]
pub struct FaceObservationResult {
    pub face_index: u32,
    pub bounding_box_x: Scaled,
    pub bounding_box_y: Scaled,
    pub bounding_box_width: Scaled,
    pub bounding_box_height: Scaled,
    pub detection_confidence: Option<Scaled>,
    pub face_capture_quality: Option<Scaled>,
    pub face_focus_score: Option<Scaled>,
    pub left_eye_open_score: Option<Scaled>,
    pub right_eye_open_score: Option<Scaled>,
    pub eyes_open_score: Option<Scaled>,
    pub blink_risk_score: Option<Scaled>,
    pub left_eye_x: Option<Scaled>,
    pub left_eye_y: Option<Scaled>,
    pub right_eye_x: Option<Scaled>,
    pub right_eye_y: Option<Scaled>,
    pub nose_x: Option<Scaled>,
    pub nose_y: Option<Scaled>,
    pub mouth_left_x: Option<Scaled>,
    pub mouth_left_y: Option<Scaled>,
    pub mouth_right_x: Option<Scaled>,
    pub mouth_right_y: Option<Scaled>,
}

/// What one analysis of an image found.
#[derive(Debug, PartialEq, Eq)]
pub struct FocusAnalysisResult {
    pub id: i64,
    pub focus_score: Option<Scaled>,
    pub focus_basis: Option<String>,
    pub algorithm_version: String,
    pub analysis_run_id: String,
    pub status: String,
    pub focus_human_score: Option<Scaled>,
    pub focus_animal_score: Option<Scaled>,
    pub focus_foreground_score: Option<Scaled>,
    pub focus_saliency_score: Option<Scaled>,
    pub focus_animal_pose_score: Option<Scaled>,
    pub focus_whole_image_score: Option<Scaled>,
    pub face_count: Option<u32>,
    pub face_quality_best: Option<Scaled>,
    pub face_quality_average: Option<Scaled>,
    pub face_quality_min: Option<Scaled>,
    pub face_eyes_open_count: Option<u32>,
    pub face_blink_risk_count: Option<u32>,
    pub auto_keywords: Vec<String>,
    pub face_observations: Vec<FaceObservationResult>,
}

/// `FocusAnalysisResult` with its texts and lists as sequences.
#[verifier::ext_equal]
pub struct FocusAnalysisView {
    pub id: i64,
    pub focus_score: Option<Scaled>,
    pub focus_basis: Option<Seq<char>>,
    pub algorithm_version: Seq<char>,
    pub analysis_run_id: Seq<char>,
    pub status: Seq<char>,
    pub focus_human_score: Option<Scaled>,
    pub focus_animal_score: Option<Scaled>,
    pub focus_foreground_score: Option<Scaled>,
    pub focus_saliency_score: Option<Scaled>,
    pub focus_animal_pose_score: Option<Scaled>,
    pub focus_whole_image_score: Option<Scaled>,
    pub face_count: Option<u32>,
    pub face_quality_best: Option<Scaled>,
    pub face_quality_average: Option<Scaled>,
    pub face_quality_min: Option<Scaled>,
    pub face_eyes_open_count: Option<u32>,
    pub face_blink_risk_count: Option<u32>,
    pub auto_keywords: Seq<Seq<char>>,
    pub face_observations: Seq<FaceObservationResult>,
}

impl View for FocusAnalysisResult {
    type V = FocusAnalysisView;

    open spec fn view(&self) -> FocusAnalysisView {
        FocusAnalysisView {
            id: self.id,
            focus_score: self.focus_score,
            focus_basis: match self.focus_basis {
                Some(b) => Some(b@),
                None => None,
            },
            algorithm_version: self.algorithm_version@,
            analysis_run_id: self.analysis_run_id@,
            status: self.status@,
            focus_human_score: self.focus_human_score,
            focus_animal_score: self.focus_animal_score,
            focus_foreground_score: self.focus_foreground_score,
            focus_saliency_score: self.focus_saliency_score,
            focus_animal_pose_score: self.focus_animal_pose_score,
            focus_whole_image_score: self.focus_whole_image_score,
            face_count: self.face_count,
            face_quality_best: self.face_quality_best,
            face_quality_average: self.face_quality_average,
            face_quality_min: self.face_quality_min,
            face_eyes_open_count: self.face_eyes_open_count,
            face_blink_risk_count: self.face_blink_risk_count,
            auto_keywords: self.auto_keywords@.map_values(|k: String| k@),
            face_observations: self.face_observations@,
        }
    }
}

}
