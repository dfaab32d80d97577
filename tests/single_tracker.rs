use worker_progress::{
    bar_template, finish_progress_bar, init_progress_bar, set_pos, update_bar, ProgressTracker,
};

#[test]
fn three_updates_reach_the_total() {
    let mut t = ProgressTracker::new();
    init_progress_bar(&mut t, 100, true);
    update_bar(&mut t, 25);
    update_bar(&mut t, 25);
    update_bar(&mut t, 50);
    assert_eq!(t.position(), 100);
    assert_eq!(t.total(), 100);
    assert!(!t.is_finished());
    finish_progress_bar(&mut t);
    assert!(t.is_finished());
    assert_eq!(t.position(), 100);
}

#[test]
fn updates_in_any_order_give_the_same_position() {
    let deltas = [3u64, 17, 0, 41, 9];
    let mut forward = ProgressTracker::new();
    let mut backward = ProgressTracker::new();
    init_progress_bar(&mut forward, 1000, false);
    init_progress_bar(&mut backward, 1000, false);
    for d in deltas.iter() {
        update_bar(&mut forward, *d);
    }
    for d in deltas.iter().rev() {
        update_bar(&mut backward, *d);
    }
    assert_eq!(forward.position(), 70);
    assert_eq!(backward.position(), 70);
}

#[test]
fn updates_saturate_at_the_largest_position() {
    let mut t = ProgressTracker::new();
    init_progress_bar(&mut t, 10, true);
    update_bar(&mut t, u64::MAX - 1);
    update_bar(&mut t, 5);
    assert_eq!(t.position(), u64::MAX);
}

#[test]
fn second_init_keeps_total_and_position() {
    let mut t = ProgressTracker::new();
    init_progress_bar(&mut t, 100, true);
    update_bar(&mut t, 30);
    init_progress_bar(&mut t, 500, true);
    init_progress_bar(&mut t, 7, false);
    assert_eq!(t.total(), 100);
    assert_eq!(t.position(), 30);
}

#[test]
fn calls_before_init_change_nothing() {
    let mut t = ProgressTracker::new();
    update_bar(&mut t, 10);
    set_pos(&mut t, 42);
    finish_progress_bar(&mut t);
    assert!(!t.is_initialized());
    assert!(!t.is_finished());
    assert_eq!(t.position(), 0);
    assert_eq!(t.total(), 0);
    init_progress_bar(&mut t, 20, true);
    assert_eq!(t.position(), 0);
    assert_eq!(t.total(), 20);
}

#[test]
fn set_position_overrides_the_count() {
    let mut t = ProgressTracker::new();
    init_progress_bar(&mut t, 100, true);
    update_bar(&mut t, 60);
    set_pos(&mut t, 15);
    assert_eq!(t.position(), 15);
    update_bar(&mut t, 5);
    assert_eq!(t.position(), 20);
}

#[test]
fn finish_twice_and_without_updates() {
    let mut t = ProgressTracker::new();
    init_progress_bar(&mut t, 8, true);
    finish_progress_bar(&mut t);
    finish_progress_bar(&mut t);
    assert!(t.is_finished());
    assert_eq!(t.position(), 0);
    assert_eq!(t.total(), 8);
}

#[test]
fn template_with_and_without_spinner() {
    assert_eq!(
        bar_template(true),
        "{spinner} [{elapsed_precise}] [{wide_bar}] {percent:>3}% {pos}/{len} ({per_sec}, eta {eta})"
    );
    assert_eq!(
        bar_template(false),
        "[{elapsed_precise}] [{wide_bar}] {percent:>3}% {pos}/{len} ({per_sec}, eta {eta})"
    );
}
