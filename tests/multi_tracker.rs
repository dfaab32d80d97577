use worker_progress::{
    finish_multi_progress_bar, init_multi_progress_bar, ordinal_label, update_mp_bar,
    update_mp_msg, MultiTracker, ProgressError,
};

#[test]
fn message_and_aggregate_scenario() {
    let mut t = MultiTracker::new();
    init_multi_progress_bar(&mut t, 10, 3, true);
    assert_eq!(update_mp_msg(&mut t, 1, "encoding frame 5".to_string()), Ok(()));
    update_mp_bar(&mut t, 4);
    assert_eq!(t.worker_message(1), Some("encoding frame 5".to_string()));
    assert_eq!(t.aggregate(), Some((4, 10)));
    assert_eq!(
        update_mp_msg(&mut t, 5, "x".to_string()),
        Err(ProgressError::WorkerOutOfRange { index: 5, workers: 3 })
    );
    assert_eq!(t.worker_message(1), Some("encoding frame 5".to_string()));
    assert_eq!(t.worker_message(0), Some(String::new()));
    assert_eq!(t.worker_message(2), Some(String::new()));
    assert_eq!(t.aggregate(), Some((4, 10)));
}

#[test]
fn layout_has_one_line_per_worker_and_the_aggregate_last() {
    let mut t = MultiTracker::new();
    init_multi_progress_bar(&mut t, 50, 10, false);
    assert_eq!(t.line_count(), 11);
    assert_eq!(t.worker_label(0), Some("01".to_string()));
    assert_eq!(t.worker_label(1), Some("02".to_string()));
    assert_eq!(t.worker_label(9), Some("10".to_string()));
    assert_eq!(t.worker_label(10), None);
    assert_eq!(t.aggregate(), Some((0, 50)));
}

#[test]
fn no_workers_leaves_only_the_aggregate() {
    let mut t = MultiTracker::new();
    init_multi_progress_bar(&mut t, 5, 0, true);
    assert_eq!(t.line_count(), 1);
    assert_eq!(
        update_mp_msg(&mut t, 0, "idle".to_string()),
        Err(ProgressError::WorkerOutOfRange { index: 0, workers: 0 })
    );
    update_mp_bar(&mut t, 2);
    assert_eq!(t.aggregate(), Some((2, 5)));
}

#[test]
fn message_changes_only_its_own_line() {
    let mut t = MultiTracker::new();
    init_multi_progress_bar(&mut t, 9, 3, true);
    assert_eq!(update_mp_msg(&mut t, 0, "a".to_string()), Ok(()));
    assert_eq!(update_mp_msg(&mut t, 2, "c".to_string()), Ok(()));
    assert_eq!(update_mp_msg(&mut t, 0, "a2".to_string()), Ok(()));
    assert_eq!(t.worker_message(0), Some("a2".to_string()));
    assert_eq!(t.worker_message(1), Some(String::new()));
    assert_eq!(t.worker_message(2), Some("c".to_string()));
    assert_eq!(t.worker_label(0), Some("01".to_string()));
    assert_eq!(t.worker_label(2), Some("03".to_string()));
    assert_eq!(t.aggregate(), Some((0, 9)));
}

#[test]
fn second_multi_init_changes_nothing() {
    let mut t = MultiTracker::new();
    init_multi_progress_bar(&mut t, 10, 2, true);
    update_mp_bar(&mut t, 3);
    init_multi_progress_bar(&mut t, 99, 5, true);
    assert_eq!(t.line_count(), 3);
    assert_eq!(t.aggregate(), Some((3, 10)));
}

#[test]
fn multi_calls_before_init_change_nothing() {
    let mut t = MultiTracker::new();
    assert_eq!(update_mp_msg(&mut t, 4, "early".to_string()), Ok(()));
    update_mp_bar(&mut t, 7);
    finish_multi_progress_bar(&mut t);
    assert!(!t.is_initialized());
    assert!(!t.is_finished());
    assert_eq!(t.line_count(), 0);
    assert_eq!(t.aggregate(), None);
    assert_eq!(t.worker_message(0), None);
}

#[test]
fn multi_finish_twice_and_without_updates() {
    let mut t = MultiTracker::new();
    init_multi_progress_bar(&mut t, 4, 2, true);
    finish_multi_progress_bar(&mut t);
    finish_multi_progress_bar(&mut t);
    assert!(t.is_finished());
    assert_eq!(t.aggregate(), Some((0, 4)));
}

#[test]
fn aggregate_updates_accumulate_and_saturate() {
    let mut t = MultiTracker::new();
    init_multi_progress_bar(&mut t, 100, 2, true);
    update_mp_bar(&mut t, 40);
    update_mp_bar(&mut t, 2);
    assert_eq!(t.aggregate(), Some((42, 100)));
    update_mp_bar(&mut t, u64::MAX);
    assert_eq!(t.aggregate(), Some((u64::MAX, 100)));
}

#[test]
fn ordinal_labels_are_zero_padded() {
    assert_eq!(ordinal_label(0), "00");
    assert_eq!(ordinal_label(1), "01");
    assert_eq!(ordinal_label(9), "09");
    assert_eq!(ordinal_label(10), "10");
    assert_eq!(ordinal_label(123), "123");
    assert_eq!(ordinal_label(4070), "4070");
}
