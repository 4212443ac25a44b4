use photolibrariancore::repro::indexes::{
    drop_updated_column_indexes, dropped_names, images_indexes, images_indexes_sql, index_row,
    mentions_column, updated_columns, IndexDrop, IndexRow,
};

fn index(name: &str, is_unique: bool, is_primary: bool, expressions: &str) -> IndexRow {
    IndexRow {
        name: name.to_string(),
        is_unique,
        is_primary,
        expressions: expressions.to_string(),
    }
}

fn planned(name: &str) -> IndexDrop {
    IndexDrop { name: name.to_string(), sql: String::new() }
}

#[test]
fn fourteen_secondary_indexes_go() {
    let dropped = [
        "focus_score",
        "focus_human_score",
        "focus_animal_score",
        "focus_foreground_score",
        "focus_saliency_score",
        "focus_animal_pose_score",
        "focus_whole_image_score",
        "focus_analysis_status",
        "face_count",
        "face_quality_best",
        "face_quality_average",
        "face_quality_min",
        "face_eyes_open_count",
        "face_blink_risk_count",
    ];
    let kept = [
        "camera_model",
        "capture_datetime",
        "color_label",
        "created_timestamp",
        "file_extension",
        "flag",
        "rating",
        "directory_path",
    ];
    let mut all: Vec<IndexRow> = Vec::new();
    for column in kept.iter().chain(dropped.iter()) {
        all.push(index(&format!("idx_{}", column), false, false, &format!("[{}]", column)));
    }
    all.push(index("images_pkey", true, true, "[id]"));
    all.push(index("images_file_path_key", true, false, "[file_path]"));
    let plan = drop_updated_column_indexes(&all);
    let names: Vec<String> = plan.iter().map(|d| d.name.clone()).collect();
    let expected: Vec<String> = dropped.iter().map(|c| format!("idx_{}", c)).collect();
    assert_eq!(names, expected);
    assert_eq!(names.len(), 14);
}

#[test]
fn unique_and_primary_indexes_stay() {
    let all = vec![
        index("a", true, false, "[focus_score]"),
        index("b", false, true, "[focus_score]"),
        index("c", false, false, "[rating, face_count]"),
        index("d", false, false, ""),
    ];
    let plan = drop_updated_column_indexes(&all);
    assert_eq!(
        plan,
        vec![IndexDrop { name: "c".to_string(), sql: "DROP INDEX IF EXISTS \"c\";".to_string() }]
    );
}

#[test]
fn only_successful_drops_are_reported() {
    let plan = vec![planned("a"), planned("b"), planned("c")];
    assert_eq!(dropped_names(plan, &vec![true, false, true]), vec!["a", "c"]);
    assert!(dropped_names(Vec::new(), &Vec::new()).is_empty());
}

#[test]
fn listed_rows() {
    assert_eq!(index_row(None, Some(true), Some(true), None), None);
    assert_eq!(
        index_row(Some("i".to_string()), None, None, None),
        Some(index("i", false, false, ""))
    );
    assert_eq!(
        index_row(Some("i".to_string()), Some(true), Some(true), Some("[id]".to_string())),
        Some(index("i", true, true, "[id]"))
    );
}

#[test]
fn assigned_columns_and_query() {
    let columns = updated_columns();
    assert_eq!(columns.len(), 18);
    assert_eq!(columns[0], "focus_score");
    assert_eq!(columns[17], "face_blink_risk_count");
    assert!(images_indexes_sql().starts_with("SELECT index_name, is_unique, is_primary"));
    assert!(images_indexes_sql().ends_with("ORDER BY index_name"));
}

#[test]
fn only_whole_names_count() {
    let all = vec![
        index("idx_old", false, false, "[old_focus_score]"),
        index("idx_new", false, false, "[focus_score2]"),
        index("idx_accent", false, false, "[\u{e9}face_count]"),
        index("idx_scored", false, false, "[my_focus_scored_at, face_counts]"),
    ];
    assert!(drop_updated_column_indexes(&all).is_empty());
    assert!(mentions_column("focus_score", "focus_score"));
    assert!(mentions_column("[rating, focus_score]", "focus_score"));
    assert!(mentions_column("[lower(focus_basis)]", "focus_basis"));
    assert!(mentions_column("['\"face_count\"']", "face_count"));
    assert!(mentions_column("[old_face_count, face_count]", "face_count"));
    assert!(!mentions_column("[focus_scored_at]", "focus_score"));
    assert!(!mentions_column("", "focus_score"));
}

#[test]
fn unreadable_index_rows_are_left_out() {
    let rows = vec![
        Some(index("b", false, false, "[x]")),
        None,
        Some(index("a", true, false, "[y]")),
    ];
    assert_eq!(
        images_indexes(rows),
        vec![index("b", false, false, "[x]"), index("a", true, false, "[y]")]
    );
    assert!(images_indexes(vec![None]).is_empty());
}

#[test]
fn drops_leave_the_other_indexes() {
    let listed = || {
        vec![
            index("pk", true, true, "[id]"),
            index("u", true, false, "[focus_score]"),
            index("a", false, false, "[face_count]"),
            index("r", false, false, "[rating]"),
            index("b", false, false, "[focus_basis]"),
        ]
    };
    let reported = dropped_names(drop_updated_column_indexes(&listed()), &vec![true, true]);
    assert_eq!(reported, vec!["a", "b"]);
    let left: Vec<IndexRow> =
        listed().into_iter().filter(|i| !reported.contains(&i.name)).collect();
    let names: Vec<&str> = left.iter().map(|i| i.name.as_str()).collect();
    assert_eq!(names, vec!["pk", "u", "r"]);
    assert!(drop_updated_column_indexes(&left).is_empty());
}

#[test]
fn indexes_that_stay_may_share_a_name() {
    let listed = || {
        vec![
            index("same", true, false, "[focus_score]"),
            index("same", false, false, "[rating]"),
            index("a", false, false, "[face_count]"),
        ]
    };
    let reported = dropped_names(drop_updated_column_indexes(&listed()), &vec![true]);
    assert_eq!(reported, vec!["a"]);
    let left: Vec<IndexRow> =
        listed().into_iter().filter(|i| !reported.contains(&i.name)).collect();
    assert_eq!(left, listed()[..2]);
}
