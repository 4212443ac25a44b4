use photolibrariancore::repro::engine::{is_bundled_engine, wal_path};
use photolibrariancore::repro::results::ResultShape;
use photolibrariancore::repro::settings::{
    env_string, env_usize, repro_settings, settings_with_arm, RawSettings,
};

fn unset() -> RawSettings {
    RawSettings {
        db: None,
        arm: None,
        max_passes: None,
        chunk: None,
        max_candidates: None,
        skip_candidates: None,
        progress_every: None,
        stop_on_trip: None,
        migrate: None,
        face_every: None,
        keyword_every: None,
        incomplete_every: None,
        checkpoint_every: None,
    }
}

fn text(s: &str) -> Option<String> {
    Some(s.to_string())
}

#[test]
fn nothing_runs_without_a_catalogue() {
    assert!(repro_settings(unset()).is_none());
    assert!(settings_with_arm(unset(), "C".to_string()).is_none());
}

#[test]
fn default_settings() {
    let s = repro_settings(RawSettings { db: text("/tmp/c.db"), ..unset() }).unwrap();
    assert_eq!(s.db_path, "/tmp/c.db");
    assert_eq!(s.arm, "A");
    assert_eq!(s.max_passes, 3);
    assert_eq!(s.chunk_size, 14);
    assert_eq!(s.max_candidates, 0);
    assert_eq!(s.skip_candidates, 0);
    assert_eq!(s.progress_every, 200);
    assert!(s.stop_on_trip);
    assert!(s.migrate);
    assert!(!s.drop_indexes);
    assert_eq!(s.shape, ResultShape { face_every: 4, keyword_every: 8, incomplete_every: 20 });
    assert_eq!(s.checkpoint_every, 0);
}

#[test]
fn arm_c_forces_faces_and_keywords() {
    let s = repro_settings(RawSettings {
        db: text("x"),
        arm: text("c"),
        face_every: text("9"),
        keyword_every: text("9"),
        incomplete_every: text("5"),
        ..unset()
    })
    .unwrap();
    assert_eq!(s.arm, "C");
    assert_eq!(s.shape, ResultShape { face_every: 1, keyword_every: 1, incomplete_every: 5 });
    assert_eq!(s.checkpoint_every, 2000);
    assert!(!s.drop_indexes);
}

#[test]
fn arm_b_drops_indexes() {
    let s = repro_settings(RawSettings { db: text("x"), arm: text("b"), ..unset() }).unwrap();
    assert_eq!(s.arm, "B");
    assert!(s.drop_indexes);
    assert_eq!(s.shape.face_every, 4);
}

#[test]
fn arm_is_written_in_upper_case() {
    let s = repro_settings(RawSettings { db: text("x"), arm: text("straße"), ..unset() }).unwrap();
    assert_eq!(s.arm, "STRASSE");
}

#[test]
fn settings_from_the_environment() {
    let s = repro_settings(RawSettings {
        db: text("x"),
        max_passes: text("0"),
        chunk: text("0"),
        progress_every: text("0"),
        max_candidates: text(" 12 "),
        skip_candidates: text("+3"),
        stop_on_trip: text("0"),
        migrate: text("0"),
        face_every: text("none"),
        checkpoint_every: text("7"),
        ..unset()
    })
    .unwrap();
    assert_eq!(s.max_passes, 1);
    assert_eq!(s.chunk_size, 1);
    assert_eq!(s.progress_every, 1);
    assert_eq!(s.max_candidates, 12);
    assert_eq!(s.skip_candidates, 3);
    assert!(!s.stop_on_trip);
    assert!(!s.migrate);
    assert_eq!(s.shape.face_every, 4);
    assert_eq!(s.checkpoint_every, 7);
}

#[test]
fn fallbacks() {
    assert_eq!(env_string(None, "A"), "A");
    assert_eq!(env_string(text(""), "A"), "");
    assert_eq!(env_usize(&None, 5), 5);
    assert_eq!(env_usize(&text("6"), 5), 6);
    assert_eq!(env_usize(&text("-6"), 5), 5);
    assert_eq!(env_usize(&text("99999999999999999999999999"), 5), 5);
}

#[test]
fn engine_and_log() {
    assert!(is_bundled_engine("v1.5.5"));
    assert!(!is_bundled_engine("v1.5.2"));
    assert_eq!(wal_path("/tmp/c.db"), "/tmp/c.db.wal");
}
