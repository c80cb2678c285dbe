use biliup_app::config::VideoInfo;
use biliup_app::task::{compute_progress, TaskStatus, UploadTask, PROGRESS_FULL};
use biliup_app::user::User;

const MIB: u64 = 1024 * 1024;

fn task() -> UploadTask {
    let user = User::new(42, "bob".to_string(), "pic.png".to_string());
    let video = VideoInfo {
        id: "vid9".to_string(),
        title: "Video".to_string(),
        filename: String::new(),
        desc: String::new(),
        path: "/tmp/x.mp4".to_string(),
        finished_at: 0,
    };
    UploadTask::new(&user, &video, 10 * MIB, 1111)
}

#[test]
fn new_task_starts_waiting_and_zeroed() {
    let t = task();
    assert_eq!(t.id, "vid9");
    assert_eq!(t.status, TaskStatus::Waiting);
    assert_eq!(t.progress, 0);
    assert_eq!(t.total_transmit_bytes, 0);
    assert_eq!(t.total_size, 10 * MIB);
    assert_eq!(t.created_at, 1111);
    assert_eq!(t.retry_count, 0);
    assert!(t.error_message.is_none());
}

#[test]
fn title_joins_user_and_video() {
    assert_eq!(task().title(), "bob - Video");
}

#[test]
fn start_resets_only_the_transmit_counter() {
    let mut t = task();
    t.update_progress(1234);
    t.update_total_transmit_bytes(999);
    t.start(2222);
    assert_eq!(t.status, TaskStatus::Running);
    assert_eq!(t.total_transmit_bytes, 0);
    assert_eq!(t.started_at, Some(2222));
    assert_eq!(t.progress, 1234);
}

#[test]
fn resume_keeps_both_counters() {
    let mut t = task();
    t.start(1);
    t.update_progress(500);
    t.update_total_transmit_bytes(777);
    t.pause();
    t.resume();
    assert_eq!(t.status, TaskStatus::Running);
    assert_eq!(t.progress, 500);
    assert_eq!(t.total_transmit_bytes, 777);
}

#[test]
fn complete_snaps_progress_to_full() {
    let mut t = task();
    t.start(1);
    t.update_progress(8000);
    t.complete(33);
    assert_eq!(t.status, TaskStatus::Completed);
    assert_eq!(t.progress, PROGRESS_FULL);
    assert_eq!(t.finished_at, Some(33));
}

#[test]
fn cancel_zeroes_both_counters() {
    let mut t = task();
    t.start(1);
    t.update_progress(8000);
    t.update_total_transmit_bytes(5 * MIB);
    t.cancel(44);
    assert_eq!(t.status, TaskStatus::Cancelled);
    assert_eq!(t.progress, 0);
    assert_eq!(t.total_transmit_bytes, 0);
    assert_eq!(t.finished_at, Some(44));
}

#[test]
fn update_progress_caps_at_full() {
    let mut t = task();
    t.update_progress(PROGRESS_FULL + 500);
    assert_eq!(t.progress, PROGRESS_FULL);
}

#[test]
fn transmit_accumulates_and_saturates() {
    let mut t = task();
    t.update_total_transmit_bytes(10);
    t.update_total_transmit_bytes(32);
    assert_eq!(t.total_transmit_bytes, 42);
    t.update_total_transmit_bytes(u64::MAX);
    assert_eq!(t.total_transmit_bytes, u64::MAX);
}

#[test]
fn status_predicates_match_the_status() {
    let mut t = task();
    assert!(t.is_waiting());
    t.pending();
    assert!(t.is_pending());
    t.start(1);
    assert!(t.is_running());
    t.pause();
    assert!(t.is_paused());
    t.complete(2);
    assert!(t.is_completed());
    t.cancel(3);
    assert!(t.is_cancelled());
    assert!(!t.is_failed());
}

#[test]
fn progress_is_scaled_to_hundredths_of_a_percent() {
    assert_eq!(compute_progress(0, 10 * MIB), 0);
    assert_eq!(compute_progress(5 * MIB, 10 * MIB), 5000);
    assert_eq!(compute_progress(10 * MIB, 10 * MIB), PROGRESS_FULL);
    // A backend-side retry may read past the total: capped.
    assert_eq!(compute_progress(11 * MIB, 10 * MIB), PROGRESS_FULL);
    // A third of the way: rounded down.
    assert_eq!(compute_progress(1, 3), 3333);
    // A source of unknown size counts as fully read.
    assert_eq!(compute_progress(5, 0), PROGRESS_FULL);
    // No overflow near the top of the range.
    assert_eq!(compute_progress(u64::MAX, u64::MAX), PROGRESS_FULL);
    assert_eq!(compute_progress(u64::MAX - 1, u64::MAX), 9999);
}

#[test]
fn progress_is_monotone_in_bytes_read() {
    let total = 7 * MIB + 123;
    let mut last = 0;
    for step in 0..=64u64 {
        let p = compute_progress(step * (total / 64), total);
        assert!(p >= last);
        last = p;
    }
}
