use j3grid_docker::scan_schedule::{
    PendingProcessWindowScanPolicy, PendingProcessWindowSearch, ProcessTreeScanSchedule,
    TAB_PRESET_HOOKED_PROCESS_TREE_MAX_SCAN_INTERVAL_MS,
    TAB_PRESET_HOOKED_PROCESS_TREE_SCAN_INTERVAL_MS, TAB_PRESET_HOOKED_THREAD_SNAPSHOT_DELAY_MS,
    TAB_PRESET_HOOKED_WINDOW_SCAN_INTERVAL_MS, TAB_PRESET_PROCESS_TREE_MAX_SCAN_INTERVAL_MS,
    TAB_PRESET_PROCESS_TREE_SCAN_INTERVAL_MS, TAB_PRESET_THREAD_SNAPSHOT_INTERVAL_MS,
    TAB_PRESET_THREAD_SNAPSHOT_MAX_INTERVAL_MS, TAB_PRESET_WINDOW_MAX_SCAN_INTERVAL_MS,
    TAB_PRESET_WINDOW_POLL_MS, TAB_PRESET_WINDOW_SCAN_INTERVAL_MS, TAB_PRESET_WINDOW_WAIT_MS,
};

// Times are milliseconds on a monotonic clock; any start works.
const START: u64 = 50_000;

#[test]
fn pending_process_window_search_waits_between_scans() {
    let start = START;
    let deadline = start + TAB_PRESET_WINDOW_WAIT_MS;
    let mut search = PendingProcessWindowSearch::from_process_ids(vec![10, 20], start);

    assert!(search.should_scan(start, deadline));
    search.mark_scan_completed(start, false);
    assert!(!search.should_scan(start + 100, deadline));
    assert!(search.should_scan(start + TAB_PRESET_WINDOW_SCAN_INTERVAL_MS, deadline));
}

#[test]
fn pending_process_window_search_can_defer_initial_scan() {
    let start = START;
    let deadline = start + TAB_PRESET_WINDOW_WAIT_MS;
    let search = PendingProcessWindowSearch::from_process_ids_with_scan_delay(
        vec![10, 20],
        start,
        TAB_PRESET_WINDOW_SCAN_INTERVAL_MS,
    );

    assert!(!search.should_scan(start, deadline));
    assert!(!search.should_scan(start + TAB_PRESET_WINDOW_POLL_MS, deadline));
    assert!(search.should_scan(start + TAB_PRESET_WINDOW_SCAN_INTERVAL_MS, deadline));
}

#[test]
fn pending_process_window_search_hooked_fallback_uses_slower_window_scans() {
    let start = START;
    let deadline = start + TAB_PRESET_WINDOW_WAIT_MS;
    let mut search = PendingProcessWindowSearch::from_process_ids_with_scan_policy(
        vec![10, 20],
        start,
        PendingProcessWindowScanPolicy::hooked_fallback(),
    );

    assert!(!search.should_scan(start + TAB_PRESET_WINDOW_SCAN_INTERVAL_MS, deadline));
    assert!(search.should_scan(start + TAB_PRESET_HOOKED_WINDOW_SCAN_INTERVAL_MS, deadline));
    search.mark_scan_completed(start + TAB_PRESET_HOOKED_WINDOW_SCAN_INTERVAL_MS, false);

    assert!(!search.should_scan(
        start + TAB_PRESET_HOOKED_WINDOW_SCAN_INTERVAL_MS + TAB_PRESET_WINDOW_SCAN_INTERVAL_MS,
        deadline
    ));
    assert!(search.should_scan(
        start
            + TAB_PRESET_HOOKED_WINDOW_SCAN_INTERVAL_MS
            + TAB_PRESET_HOOKED_WINDOW_SCAN_INTERVAL_MS,
        deadline
    ));
}

#[test]
fn pending_process_window_search_keeps_cached_match_between_scans() {
    let start = START;
    let deadline = start + TAB_PRESET_WINDOW_WAIT_MS;
    let mut search = PendingProcessWindowSearch::from_process_ids(vec![10], start);
    let hwnd = 100;

    search.hwnds.insert(10, hwnd);
    search.mark_scan_completed(start, false);
    assert_eq!(search.refresh_plan(start + 100, deadline), None);

    assert!(search.has_matches());
    assert_eq!(search.hwnd_for(10), Some(hwnd));
}

#[test]
fn pending_process_window_search_backs_off_empty_scans() {
    let start = START;
    let deadline = start + TAB_PRESET_WINDOW_WAIT_MS;
    let mut search = PendingProcessWindowSearch::from_process_ids(vec![10, 20], start);
    let second_scan = start + TAB_PRESET_WINDOW_SCAN_INTERVAL_MS;
    let third_scan =
        second_scan + TAB_PRESET_WINDOW_SCAN_INTERVAL_MS + TAB_PRESET_WINDOW_SCAN_INTERVAL_MS;

    search.mark_scan_completed(start, false);
    search.mark_scan_completed(second_scan, false);

    assert!(!search.should_scan(third_scan - 100, deadline));
    assert!(search.should_scan(third_scan, deadline));
}

#[test]
fn pending_process_window_search_extends_empty_scan_backoff() {
    let start = START;
    let deadline = start + TAB_PRESET_WINDOW_WAIT_MS;
    let mut search = PendingProcessWindowSearch::from_process_ids(vec![10, 20], start);
    let second_scan = start + TAB_PRESET_WINDOW_SCAN_INTERVAL_MS;
    let third_scan =
        second_scan + TAB_PRESET_WINDOW_SCAN_INTERVAL_MS + TAB_PRESET_WINDOW_SCAN_INTERVAL_MS;
    let fourth_scan = third_scan + TAB_PRESET_WINDOW_MAX_SCAN_INTERVAL_MS;

    search.mark_scan_completed(start, false);
    search.mark_scan_completed(second_scan, false);
    search.mark_scan_completed(third_scan, false);

    assert!(!search.should_scan(fourth_scan - TAB_PRESET_WINDOW_SCAN_INTERVAL_MS, deadline));
    assert!(search.should_scan(fourth_scan, deadline));
}

#[test]
fn pending_process_window_search_caps_empty_scan_backoff() {
    let start = START;
    let mut search = PendingProcessWindowSearch::from_process_ids(vec![10], start);

    search.mark_scan_completed(start, false);
    search.mark_scan_completed(start + TAB_PRESET_WINDOW_SCAN_INTERVAL_MS, false);
    search.mark_scan_completed(start + TAB_PRESET_WINDOW_SCAN_INTERVAL_MS * 3, false);
    search.mark_scan_completed(start + TAB_PRESET_WINDOW_SCAN_INTERVAL_MS * 7, false);

    assert_eq!(search.scan_interval, TAB_PRESET_WINDOW_MAX_SCAN_INTERVAL_MS);
}

#[test]
fn pending_process_window_search_resets_scan_backoff_after_window_match() {
    let start = START;
    let deadline = start + TAB_PRESET_WINDOW_WAIT_MS;
    let mut search = PendingProcessWindowSearch::from_process_ids(vec![10, 20], start);
    let matched_at = start + TAB_PRESET_WINDOW_SCAN_INTERVAL_MS;

    search.mark_scan_completed(start, false);
    search.mark_scan_completed(matched_at, true);

    assert_eq!(search.scan_interval, TAB_PRESET_WINDOW_SCAN_INTERVAL_MS);
    assert!(!search.should_scan(matched_at + 100, deadline));
    assert!(search.should_scan(matched_at + TAB_PRESET_WINDOW_SCAN_INTERVAL_MS, deadline));
}

#[test]
fn pending_process_window_search_allows_deadline_scan() {
    let start = START;
    let search = PendingProcessWindowSearch::from_process_ids_with_scan_delay(
        vec![10],
        start,
        TAB_PRESET_WINDOW_SCAN_INTERVAL_MS,
    );
    let before_next_scan = start + 100;

    assert!(search.should_scan(before_next_scan, before_next_scan));
}

#[test]
fn pending_process_window_search_skips_recent_deadline_scan() {
    let start = START;
    let mut search = PendingProcessWindowSearch::from_process_ids(vec![10], start);
    search.mark_scan_completed(start, false);
    let before_next_scan = start + 100;

    assert!(!search.should_scan(before_next_scan, before_next_scan));
}

#[test]
fn pending_process_window_search_delays_thread_snapshots_until_interval() {
    let start = START;
    let deadline = start + TAB_PRESET_WINDOW_WAIT_MS;
    let mut search = PendingProcessWindowSearch::from_process_ids(vec![10], start);
    let first_thread_snapshot = start + TAB_PRESET_THREAD_SNAPSHOT_INTERVAL_MS;

    assert!(!search.should_scan_threads(start, deadline));
    assert!(!search.should_scan_threads(start + TAB_PRESET_WINDOW_SCAN_INTERVAL_MS, deadline));
    assert!(search.should_scan_threads(first_thread_snapshot, deadline));
    search.mark_thread_scan_completed(first_thread_snapshot, false);

    assert!(!search.should_scan_threads(
        first_thread_snapshot + TAB_PRESET_WINDOW_SCAN_INTERVAL_MS,
        deadline
    ));
    assert!(search.should_scan_threads(
        first_thread_snapshot + TAB_PRESET_THREAD_SNAPSHOT_INTERVAL_MS,
        deadline
    ));
}

#[test]
fn pending_process_window_search_hooked_fallback_delays_thread_snapshots() {
    let start = START;
    let deadline = start + TAB_PRESET_WINDOW_WAIT_MS;
    let search = PendingProcessWindowSearch::from_process_ids_with_scan_policy(
        vec![10],
        start,
        PendingProcessWindowScanPolicy::hooked_fallback(),
    );

    assert!(!search.should_scan_threads(start + TAB_PRESET_THREAD_SNAPSHOT_INTERVAL_MS, deadline));
    assert!(
        !search.should_scan_threads(start + TAB_PRESET_HOOKED_WINDOW_SCAN_INTERVAL_MS, deadline)
    );
    assert!(
        search.should_scan_threads(start + TAB_PRESET_HOOKED_THREAD_SNAPSHOT_DELAY_MS, deadline)
    );
}

#[test]
fn pending_process_window_search_allows_deadline_thread_snapshot() {
    let start = START;
    let search = PendingProcessWindowSearch::from_process_ids(vec![10], start);
    let before_thread_snapshot = start + TAB_PRESET_WINDOW_SCAN_INTERVAL_MS;

    assert!(search.should_scan_threads(before_thread_snapshot, before_thread_snapshot));
}

#[test]
fn pending_process_window_search_skips_recent_deadline_thread_snapshot() {
    let start = START;
    let mut search = PendingProcessWindowSearch::from_process_ids(vec![10], start);
    search.mark_thread_scan_completed(start, false);
    let before_thread_snapshot = start + TAB_PRESET_WINDOW_POLL_MS;

    assert!(!search.should_scan_threads(before_thread_snapshot, before_thread_snapshot));
}

#[test]
fn pending_process_window_search_removes_process_without_shrinking_buffers() {
    let mut search = PendingProcessWindowSearch::from_process_ids(vec![10, 20], START);
    let process_capacity = search.process_ids.capacity();
    let hwnd_capacity = search.hwnds.capacity();
    let remaining_capacity = search.remaining_process_ids.capacity();
    search.hwnds.insert(10, 100);
    search.remaining_process_ids.insert(10);

    search.remove_process(10);

    assert!(!search.process_ids.contains(&10));
    assert!(search.process_ids.contains(&20));
    assert!(!search.hwnds.contains_key(&10));
    assert!(!search.remaining_process_ids.contains(&10));
    assert!(search.process_ids.capacity() >= process_capacity);
    assert!(search.hwnds.capacity() >= hwnd_capacity);
    assert!(search.remaining_process_ids.capacity() >= remaining_capacity);
}

#[test]
fn pending_process_window_search_tracks_added_processes() {
    let start = START;
    let deadline = start + TAB_PRESET_WINDOW_WAIT_MS;
    let mut search = PendingProcessWindowSearch::from_process_ids(vec![10], start);

    search.mark_scan_completed(start, false);
    search.add_process_ids(vec![0, 10, 20]);

    assert!(search.process_ids.contains(&10));
    assert!(search.process_ids.contains(&20));
    assert!(search.remaining_process_ids.contains(&20));
    assert!(search.should_scan(start + TAB_PRESET_WINDOW_SCAN_INTERVAL_MS, deadline));
}

#[test]
fn pending_process_window_search_excludes_event_match_from_future_scans() {
    let start = START;
    let deadline = start + TAB_PRESET_WINDOW_WAIT_MS;
    let mut search = PendingProcessWindowSearch::from_process_ids(vec![10], start);
    let hwnd = 100;

    search.record_process_window(10, hwnd, false);

    assert!(search.has_matches());
    assert_eq!(search.hwnd_for(10), Some(hwnd));
    assert!(!search.remaining_process_ids.contains(&10));
    assert!(!search.needs_window_for_process(10));
    assert!(!search.should_scan(start, deadline));
    assert!(!search.should_scan(deadline, deadline));
}

#[test]
fn pending_process_window_search_skips_thread_snapshot_without_remaining_processes() {
    let start = START;
    let mut search = PendingProcessWindowSearch::from_process_ids(vec![10], start);
    let thread_snapshot_at = start + TAB_PRESET_THREAD_SNAPSHOT_INTERVAL_MS;

    search.record_process_window(10, 100, false);

    assert!(!search.should_scan_threads(thread_snapshot_at, thread_snapshot_at));
}

#[test]
fn pending_process_window_search_backs_off_empty_thread_snapshots() {
    let start = START;
    let deadline = start + TAB_PRESET_WINDOW_WAIT_MS;
    let mut search = PendingProcessWindowSearch::from_process_ids(vec![10], start);
    let first_snapshot = start + TAB_PRESET_THREAD_SNAPSHOT_INTERVAL_MS;
    let second_snapshot = first_snapshot + TAB_PRESET_THREAD_SNAPSHOT_INTERVAL_MS;

    search.mark_thread_scan_completed(first_snapshot, false);
    search.mark_thread_scan_completed(second_snapshot, false);

    assert_eq!(
        search.thread_snapshot_interval,
        TAB_PRESET_THREAD_SNAPSHOT_MAX_INTERVAL_MS
    );
    assert!(!search.should_scan_threads(
        second_snapshot + TAB_PRESET_THREAD_SNAPSHOT_INTERVAL_MS,
        deadline
    ));
    assert!(search.should_scan_threads(
        second_snapshot + TAB_PRESET_THREAD_SNAPSHOT_MAX_INTERVAL_MS,
        deadline
    ));
}

#[test]
fn pending_process_window_search_resets_thread_snapshot_backoff_after_match() {
    let start = START;
    let deadline = start + TAB_PRESET_WINDOW_WAIT_MS;
    let mut search = PendingProcessWindowSearch::from_process_ids(vec![10], start);
    let first_snapshot = start + TAB_PRESET_THREAD_SNAPSHOT_INTERVAL_MS;
    let second_snapshot = first_snapshot + TAB_PRESET_THREAD_SNAPSHOT_INTERVAL_MS;

    search.mark_thread_scan_completed(first_snapshot, false);
    search.mark_thread_scan_completed(second_snapshot, true);

    assert_eq!(
        search.thread_snapshot_interval,
        TAB_PRESET_THREAD_SNAPSHOT_INTERVAL_MS
    );
    assert!(
        !search.should_scan_threads(second_snapshot + TAB_PRESET_WINDOW_SCAN_INTERVAL_MS, deadline)
    );
    assert!(search.should_scan_threads(
        second_snapshot + TAB_PRESET_THREAD_SNAPSHOT_INTERVAL_MS,
        deadline
    ));
}

#[test]
fn pending_process_window_search_keeps_topmost_window_per_process() {
    let mut search = PendingProcessWindowSearch::from_process_ids(vec![10], START);
    search.record_process_window(10, 100, false);
    search.record_process_window(10, 200, false);
    assert_eq!(search.hwnd_for(10), Some(100));
    search.record_process_window(10, 300, true);
    assert_eq!(search.hwnd_for(10), Some(300));
}

#[test]
fn pending_process_window_search_records_only_visible_windows_of_searched_processes() {
    let mut search = PendingProcessWindowSearch::from_process_ids(vec![10], START);
    assert!(!search.record_window_event(false, 10, 100, false));
    assert!(!search.record_window_event(true, 20, 100, false));
    assert!(!search.has_matches());
    assert!(search.record_window_event(true, 10, 100, false));
    assert_eq!(search.hwnd_for(10), Some(100));
}

#[test]
fn pending_process_window_search_refresh_plans_and_backs_off() {
    let start = START;
    let deadline = start + TAB_PRESET_WINDOW_WAIT_MS;
    let mut search = PendingProcessWindowSearch::from_process_ids(vec![10], start);
    assert_eq!(search.refresh_plan(start, deadline), Some(false));
    let found_before = search.hwnds.len();
    assert!(!search.finish_refresh(start, false, false, found_before));
    assert_eq!(search.refresh_plan(start + 100, deadline), None);
    let later = start + TAB_PRESET_THREAD_SNAPSHOT_INTERVAL_MS;
    assert_eq!(search.refresh_plan(later, deadline), Some(true));
    search.hwnds.insert(10, 100);
    assert!(search.finish_refresh(later, true, true, found_before));
    assert_eq!(search.scan_interval, TAB_PRESET_WINDOW_SCAN_INTERVAL_MS);
}

#[test]
fn process_tree_scan_schedule_waits_between_scans() {
    let start = START;
    let deadline = start + TAB_PRESET_WINDOW_WAIT_MS;
    let mut schedule = ProcessTreeScanSchedule::new(start);
    let first_scan = start + TAB_PRESET_PROCESS_TREE_SCAN_INTERVAL_MS;

    assert!(!schedule.should_scan(start, deadline));
    assert!(!schedule.should_scan(start + TAB_PRESET_WINDOW_POLL_MS, deadline));
    assert!(schedule.should_scan(first_scan, deadline));
    schedule.mark_completed(first_scan, false);

    assert!(!schedule.should_scan(first_scan + TAB_PRESET_WINDOW_POLL_MS, deadline));
    assert!(schedule.should_scan(first_scan + TAB_PRESET_PROCESS_TREE_SCAN_INTERVAL_MS, deadline));
}

#[test]
fn process_tree_scan_schedule_backs_off_empty_scans() {
    let start = START;
    let deadline = start + TAB_PRESET_WINDOW_WAIT_MS;
    let mut schedule = ProcessTreeScanSchedule::new(start);
    let first_scan = start + TAB_PRESET_PROCESS_TREE_SCAN_INTERVAL_MS;
    let second_scan = first_scan + TAB_PRESET_PROCESS_TREE_SCAN_INTERVAL_MS;
    let third_scan = second_scan
        + TAB_PRESET_PROCESS_TREE_SCAN_INTERVAL_MS
        + TAB_PRESET_PROCESS_TREE_SCAN_INTERVAL_MS;

    schedule.mark_completed(first_scan, false);
    schedule.mark_completed(second_scan, false);

    assert!(!schedule.should_scan(third_scan - TAB_PRESET_WINDOW_POLL_MS, deadline));
    assert!(schedule.should_scan(third_scan, deadline));
}

#[test]
fn process_tree_scan_schedule_extends_empty_scan_backoff() {
    let start = START;
    let deadline = start + TAB_PRESET_WINDOW_WAIT_MS;
    let mut schedule = ProcessTreeScanSchedule::new(start);
    let first_scan = start + TAB_PRESET_PROCESS_TREE_SCAN_INTERVAL_MS;
    let second_scan = first_scan + TAB_PRESET_PROCESS_TREE_SCAN_INTERVAL_MS;
    let third_scan = second_scan
        + TAB_PRESET_PROCESS_TREE_SCAN_INTERVAL_MS
        + TAB_PRESET_PROCESS_TREE_SCAN_INTERVAL_MS;
    let fourth_scan = third_scan + TAB_PRESET_PROCESS_TREE_MAX_SCAN_INTERVAL_MS;

    schedule.mark_completed(first_scan, false);
    schedule.mark_completed(second_scan, false);
    schedule.mark_completed(third_scan, false);

    assert!(!schedule.should_scan(
        fourth_scan - TAB_PRESET_PROCESS_TREE_SCAN_INTERVAL_MS,
        deadline
    ));
    assert!(schedule.should_scan(fourth_scan, deadline));
}

#[test]
fn process_tree_scan_schedule_resets_backoff_after_discovery() {
    let start = START;
    let deadline = start + TAB_PRESET_WINDOW_WAIT_MS;
    let mut schedule = ProcessTreeScanSchedule::new(start);
    let first_scan = start + TAB_PRESET_PROCESS_TREE_SCAN_INTERVAL_MS;
    let discovered_at = first_scan + TAB_PRESET_PROCESS_TREE_SCAN_INTERVAL_MS;

    schedule.mark_completed(first_scan, false);
    schedule.mark_completed(discovered_at, true);

    assert_eq!(
        schedule.scan_interval,
        TAB_PRESET_PROCESS_TREE_SCAN_INTERVAL_MS
    );
    assert!(!schedule.should_scan(discovered_at + TAB_PRESET_WINDOW_POLL_MS, deadline));
    assert!(schedule.should_scan(
        discovered_at + TAB_PRESET_PROCESS_TREE_SCAN_INTERVAL_MS,
        deadline
    ));
}

#[test]
fn process_tree_scan_schedule_hooked_fallback_is_less_frequent() {
    let start = START;
    let deadline = start + TAB_PRESET_WINDOW_WAIT_MS;
    let mut schedule = ProcessTreeScanSchedule::hooked_fallback(start);
    let first_scan = start + TAB_PRESET_HOOKED_PROCESS_TREE_SCAN_INTERVAL_MS;
    let second_scan = first_scan + TAB_PRESET_HOOKED_PROCESS_TREE_SCAN_INTERVAL_MS;
    let third_scan = second_scan + TAB_PRESET_HOOKED_PROCESS_TREE_MAX_SCAN_INTERVAL_MS;

    assert!(!schedule.should_scan(start + TAB_PRESET_PROCESS_TREE_SCAN_INTERVAL_MS, deadline));
    assert!(schedule.should_scan(first_scan, deadline));
    schedule.mark_completed(first_scan, false);

    assert!(
        !schedule.should_scan(first_scan + TAB_PRESET_PROCESS_TREE_SCAN_INTERVAL_MS, deadline)
    );
    assert!(schedule.should_scan(second_scan, deadline));
    schedule.mark_completed(second_scan, false);

    assert!(!schedule.should_scan(third_scan - TAB_PRESET_WINDOW_POLL_MS, deadline));
    assert!(schedule.should_scan(third_scan, deadline));
}

#[test]
fn process_tree_scan_schedule_allows_deadline_scan() {
    let start = START;
    let schedule = ProcessTreeScanSchedule::new(start);
    let before_next_scan = start + TAB_PRESET_WINDOW_POLL_MS;

    assert!(schedule.should_scan(before_next_scan, before_next_scan));
}

#[test]
fn process_tree_scan_schedule_skips_recent_deadline_scan() {
    let start = START;
    let mut schedule = ProcessTreeScanSchedule::new(start);
    schedule.mark_completed(start, false);
    let before_next_scan = start + TAB_PRESET_WINDOW_POLL_MS;

    assert!(!schedule.should_scan(before_next_scan, before_next_scan));
}

#[test]
fn process_tree_scan_schedule_never_exceeds_its_maximum_interval() {
    let mut schedule = ProcessTreeScanSchedule::new(START);
    let mut now = START;
    for _ in 0..10 {
        now += schedule.scan_interval;
        schedule.mark_completed(now, false);
        assert!(schedule.scan_interval <= TAB_PRESET_PROCESS_TREE_MAX_SCAN_INTERVAL_MS);
        assert!(schedule.scan_interval >= TAB_PRESET_PROCESS_TREE_SCAN_INTERVAL_MS);
    }
    assert_eq!(schedule.scan_interval, TAB_PRESET_PROCESS_TREE_MAX_SCAN_INTERVAL_MS);
}
