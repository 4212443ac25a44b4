use photolibrariancore::repro::mixing::mix64;
use photolibrariancore::repro::records::Scaled;
use photolibrariancore::repro::results::{
    repro_algorithm, repro_observation, repro_result, ResultShape,
};

fn shape(face_every: usize, keyword_every: usize, incomplete_every: usize) -> ResultShape {
    ResultShape { face_every, keyword_every, incomplete_every }
}

fn value(q: Scaled) -> f64 {
    let unit = q.fraction as f64 / (1u64 << 53) as f64;
    q.base as f64 / 100.0 + q.span as f64 / 100.0 * unit
}

fn scaled(base: u32, span: u32, fraction: u64) -> Scaled {
    Scaled { base, span, fraction }
}

#[test]
fn observation_values() {
    let o = repro_observation(7);
    assert_eq!(o.face_index, 0);
    assert_eq!(o.bounding_box_x, scaled(10, 20, 2155282925591136));
    assert_eq!(o.bounding_box_y, scaled(10, 20, 2485828767786068));
    assert_eq!(o.bounding_box_width, scaled(20, 10, 3788157078426431));
    assert_eq!(o.bounding_box_height, scaled(20, 10, 5010791555193418));
    assert_eq!(o.detection_confidence, Some(scaled(80, 19, 4811373012556800)));
    assert_eq!(o.face_capture_quality, Some(scaled(40, 55, 8746817852950960)));
    assert_eq!(o.face_focus_score, Some(scaled(6000, 40000, 2048937863096600)));
    assert_eq!(o.left_eye_open_score, Some(scaled(0, 100, 2063926865147144)));
    assert_eq!(o.right_eye_open_score, Some(scaled(0, 100, 4656986373499539)));
    assert_eq!(o.eyes_open_score, Some(scaled(0, 100, 3989273694892774)));
    assert_eq!(o.blink_risk_score, Some(scaled(0, 100, 7552122370213900)));
    assert_eq!(o.left_eye_x, Some(scaled(20, 0, 0)));
    assert_eq!(o.mouth_right_y, Some(scaled(35, 0, 0)));
}

#[test]
fn observation_of_a_negative_identifier() {
    assert_eq!(repro_observation(-1).bounding_box_x.fraction, 3672796978599346);
}

#[test]
fn quantities_are_the_floating_point_ones() {
    for id in [0i64, 7, -1, 123456, i64::MIN] {
        let seed = mix64(id as u64);
        let unit =
            |shift: u32| ((mix64(seed ^ (shift as u64)) >> 11) as f64) / ((1u64 << 53) as f64);
        let o = repro_observation(id);
        assert_eq!(value(o.bounding_box_x), 0.1 + 0.2 * unit(1));
        assert_eq!(value(o.bounding_box_y), 0.1 + 0.2 * unit(2));
        assert_eq!(value(o.bounding_box_width), 0.2 + 0.1 * unit(3));
        assert_eq!(value(o.bounding_box_height), 0.2 + 0.1 * unit(4));
        assert_eq!(value(o.detection_confidence.unwrap()), 0.80 + 0.19 * unit(5));
        assert_eq!(value(o.face_capture_quality.unwrap()), 0.40 + 0.55 * unit(6));
        assert_eq!(value(o.face_focus_score.unwrap()), 60.0 + 400.0 * unit(7));
        assert_eq!(value(o.left_eye_open_score.unwrap()), unit(8));
        assert_eq!(value(o.right_eye_open_score.unwrap()), unit(9));
        assert_eq!(value(o.eyes_open_score.unwrap()), unit(10));
        assert_eq!(value(o.blink_risk_score.unwrap()), unit(11));
        assert_eq!(value(o.left_eye_x.unwrap()), 0.2);
        assert_eq!(value(o.left_eye_y.unwrap()), 0.6);
        assert_eq!(value(o.right_eye_x.unwrap()), 0.4);
        assert_eq!(value(o.right_eye_y.unwrap()), 0.6);
        assert_eq!(value(o.nose_x.unwrap()), 0.3);
        assert_eq!(value(o.nose_y.unwrap()), 0.45);
        assert_eq!(value(o.mouth_left_x.unwrap()), 0.23);
        assert_eq!(value(o.mouth_left_y.unwrap()), 0.35);
        assert_eq!(value(o.mouth_right_x.unwrap()), 0.37);
        assert_eq!(value(o.mouth_right_y.unwrap()), 0.35);
        assert!(value(o.bounding_box_x) + value(o.bounding_box_width) < 1.0);
        assert!(value(o.bounding_box_y) + value(o.bounding_box_height) < 1.0);
    }
}

#[test]
fn scored_row_with_face_and_keywords() {
    let r = repro_result(7, 8, "RUN", &shape(4, 8, 20));
    assert_eq!(r.id, 7);
    assert_eq!(r.status, "complete");
    assert_eq!(r.algorithm_version, "pldiag-s179-focus-writeback-v1");
    assert_eq!(r.analysis_run_id, "RUN");
    assert_eq!(r.focus_basis.as_deref(), Some("human_face"));
    assert_eq!(r.focus_score, Some(scaled(4000, 90000, 4001224522991980)));
    assert_eq!(r.focus_human_score, r.focus_score);
    assert_eq!(r.focus_animal_score, Some(scaled(1000, 20000, 2713720217162216)));
    assert_eq!(r.focus_foreground_score, Some(scaled(1000, 40000, 5945510685638321)));
    assert_eq!(r.focus_saliency_score, Some(scaled(1000, 40000, 2207284427290680)));
    assert_eq!(r.focus_animal_pose_score, None);
    assert_eq!(r.focus_whole_image_score, Some(scaled(1000, 80000, 6421236484343119)));
    assert_eq!(r.face_count, Some(1));
    assert_eq!(r.face_quality_best, Some(scaled(0, 100, 9004107041405559)));
    assert_eq!(r.face_quality_average, Some(scaled(0, 100, 4888922362312231)));
    assert_eq!(r.face_quality_min, Some(scaled(0, 100, 7272266643395607)));
    assert_eq!(r.face_eyes_open_count, Some(1));
    assert_eq!(r.face_blink_risk_count, Some(0));
    assert_eq!(r.auto_keywords, vec!["PLDiag/S179", "PLDiag/Repro"]);
    assert_eq!(r.face_observations, vec![repro_observation(7)]);
}

#[test]
fn scored_row_without_a_face() {
    let r = repro_result(7, 1, "RUN", &shape(4, 8, 20));
    assert_eq!(r.focus_basis.as_deref(), Some("saliency"));
    assert_eq!(r.focus_score, Some(scaled(4000, 90000, 3075663552724063)));
    assert_eq!(r.focus_human_score, None);
    assert_eq!(r.face_count, Some(0));
    assert_eq!(r.face_quality_best, None);
    assert_eq!(r.face_eyes_open_count, Some(0));
    assert!(r.auto_keywords.is_empty());
    assert!(r.face_observations.is_empty());
}

#[test]
fn faceless_bases() {
    let basis = |id: i64, ordinal: usize| repro_result(id, ordinal, "", &shape(0, 0, 0)).focus_basis.unwrap();
    assert_eq!(basis(7, 5), "whole_image");
    assert_eq!(basis(8, 1), "foreground");
    assert_eq!(basis(7, 2), "saliency");
    assert_eq!(basis(7, 3), "animal");
}

#[test]
fn unscored_rows_alternate() {
    let s = shape(1, 1, 3);
    let status = |ordinal: usize| repro_result(1, ordinal, "", &s).status;
    assert_eq!(status(0), "complete");
    assert_eq!(status(1), "complete");
    assert_eq!(status(2), "online_only");
    assert_eq!(status(5), "unreadable");
    assert_eq!(status(8), "online_only");
    let r = repro_result(1, 2, "RUN", &s);
    assert_eq!(r.focus_score, None);
    assert_eq!(r.focus_basis, None);
    assert_eq!(r.face_count, None);
    assert_eq!(r.face_blink_risk_count, None);
    assert_eq!(r.analysis_run_id, "RUN");
    assert_eq!(r.auto_keywords, vec!["PLDiag/S179", "PLDiag/Repro"]);
    assert_eq!(r.face_observations, vec![repro_observation(1)]);
    let plain = repro_result(1, 2, "RUN", &shape(2, 2, 3));
    assert_eq!(plain.status, "online_only");
    assert!(plain.auto_keywords.is_empty() && plain.face_observations.is_empty());
}

#[test]
fn every_row_unscored() {
    let s = shape(1, 1, 1);
    assert_eq!(repro_result(1, 0, "", &s).status, "online_only");
    assert_eq!(repro_result(1, 1, "", &s).status, "unreadable");
    assert_eq!(repro_result(1, 1, "", &s).face_observations, vec![repro_observation(1)]);
}

#[test]
fn cadences() {
    let s = shape(4, 8, 0);
    let faces: Vec<usize> =
        (0..16).filter(|o| !repro_result(3, *o, "", &s).face_observations.is_empty()).collect();
    assert_eq!(faces, vec![0, 4, 8, 12]);
    let keywords: Vec<usize> =
        (0..16).filter(|o| !repro_result(3, *o, "", &s).auto_keywords.is_empty()).collect();
    assert_eq!(keywords, vec![0, 8]);
    let never = shape(0, 0, 0);
    assert!((0..16).all(|o| repro_result(3, o, "", &never).face_observations.is_empty()));
}

#[test]
fn cadence_of_one_marks_every_row() {
    let arm_c = shape(1, 1, 20);
    for ordinal in 0..60 {
        let r = repro_result(3, ordinal, "", &arm_c);
        assert_eq!(r.face_observations, vec![repro_observation(3)]);
        assert_eq!(r.auto_keywords, vec!["PLDiag/S179", "PLDiag/Repro"]);
    }
    let unscored = repro_result(3, 19, "", &arm_c);
    assert_eq!(unscored.status, "online_only");
    assert_eq!(unscored.focus_score, None);
    assert_eq!(unscored.face_count, None);
    assert_eq!(unscored.face_eyes_open_count, None);
}

#[test]
fn unscored_row_gives_up_its_turn() {
    let s = shape(3, 3, 20);
    let r = repro_result(3, 39, "", &s);
    assert_eq!(r.status, "unreadable");
    assert!(r.face_observations.is_empty() && r.auto_keywords.is_empty());
    assert_eq!(repro_result(3, 36, "", &s).face_observations.len(), 1);
    let faces_only = repro_result(3, 19, "", &shape(1, 0, 20));
    assert_eq!(faces_only.face_observations.len(), 1);
    assert!(faces_only.auto_keywords.is_empty());
}

#[test]
fn images_at_one_place_draw_apart() {
    let s = shape(0, 0, 0);
    assert_ne!(repro_result(1, 5, "", &s).focus_score, repro_result(2, 5, "", &s).focus_score);
}

#[test]
fn every_row_names_the_algorithm() {
    let usual = shape(4, 8, 20);
    assert_eq!(repro_algorithm(), "pldiag-s179-focus-writeback-v1");
    assert_eq!(repro_result(1, 0, "A", &usual).algorithm_version, repro_algorithm());
    assert_eq!(repro_result(1, 19, "A", &usual).algorithm_version, repro_algorithm());
}

#[test]
fn unscored_rows_leave_the_usual_cadences_alone() {
    let usual = shape(4, 8, 20);
    for start in 0..60 {
        let faces = (start..start + 4)
            .filter(|o| !repro_result(7, *o, "A", &usual).face_observations.is_empty())
            .count();
        assert_eq!(faces, 1);
    }
}
