use photolibrariancore::repro::candidates::{
    count_expanded, probe_length, repro_candidate_ids, repro_candidate_sql, select_candidates,
};

#[test]
fn queue_query() {
    assert_eq!(
        repro_candidate_sql("WHERE image_kind = 'raw'"),
        "SELECT id FROM images WHERE image_kind = 'raw' ORDER BY id"
    );
}

#[test]
fn unreadable_queue_rows_are_left_out() {
    assert_eq!(repro_candidate_ids(&vec![Some(3), None, Some(1), Some(3)]), vec![3, 1, 3]);
}

#[test]
fn skipping_and_capping() {
    let queue = || vec![1i64, 2, 3, 4, 5];
    assert_eq!(select_candidates(queue(), 0, 0), vec![1, 2, 3, 4, 5]);
    assert_eq!(select_candidates(queue(), 2, 0), vec![3, 4, 5]);
    assert_eq!(select_candidates(queue(), 4, 0), vec![5]);
    assert!(select_candidates(queue(), 5, 0).is_empty());
    assert!(select_candidates(queue(), 9, 2).is_empty());
    assert_eq!(select_candidates(queue(), 1, 3), vec![2, 3, 4]);
    assert_eq!(select_candidates(queue(), 0, 9), vec![1, 2, 3, 4, 5]);
    assert!(select_candidates(Vec::new(), 1, 1).is_empty());
}

#[test]
fn twin_probe() {
    assert_eq!(probe_length(&vec![1, 2]), 2);
    assert_eq!(probe_length(&vec![0; 400]), 400);
    assert_eq!(probe_length(&vec![0; 401]), 400);
    assert_eq!(count_expanded(&vec![Some(1), Some(2), None, Some(0), Some(3)]), 2);
}
