use biliup_app::config::VideoInfo;
use biliup_app::service::{ServiceError, UploadService};
use biliup_app::task::{TaskStatus, PROGRESS_FULL};
use biliup_app::user::User;

const MIB: u64 = 1024 * 1024;

fn video(id: &str, title: &str, path: &str) -> VideoInfo {
    VideoInfo {
        id: id.to_string(),
        title: title.to_string(),
        filename: String::new(),
        desc: String::new(),
        path: path.to_string(),
        finished_at: 0,
    }
}

fn user() -> User {
    User::new(7, "alice".to_string(), "avatar.png".to_string())
}

#[test]
fn create_task_is_waiting_with_zero_counters() {
    let mut svc = UploadService::new(2);
    assert!(svc.create_task(&user(), &video("v1", "clip", "/tmp/a.mp4"), 123, 1000));
    let q = svc.get_upload_queue();
    assert_eq!(q.len(), 1);
    assert_eq!(q[0].id, "v1");
    assert_eq!(q[0].status, TaskStatus::Waiting);
    assert_eq!(q[0].progress, 0);
    assert_eq!(q[0].total_transmit_bytes, 0);
    assert_eq!(q[0].total_size, 123);
    assert_eq!(q[0].created_at, 1000);
    assert_eq!(q[0].retry_count, 0);
    assert!(q[0].started_at.is_none());
    assert!(q[0].finished_at.is_none());
}

#[test]
fn create_task_with_same_id_is_rejected() {
    let mut svc = UploadService::new(2);
    assert!(svc.create_task(&user(), &video("v1", "one", "/tmp/a.mp4"), 10, 1));
    assert!(!svc.create_task(&user(), &video("v1", "two", "/tmp/b.mp4"), 20, 2));
    let q = svc.get_upload_queue();
    assert_eq!(q.len(), 1);
    assert_eq!(q[0].video.title, "one");
}

#[test]
fn start_from_waiting_paused_failed_yields_pending() {
    // From Waiting.
    let mut svc = UploadService::new(1);
    svc.create_task(&user(), &video("v1", "t", "/tmp/a"), 10, 1);
    let id = "v1".to_string();
    assert_eq!(svc.start_upload(&id), Ok(true));
    assert_eq!(svc.get_upload_queue()[0].status, TaskStatus::Pending);

    // From Paused.
    assert_eq!(svc.pause_upload(&id), Ok(true));
    assert_eq!(svc.get_upload_queue()[0].status, TaskStatus::Paused);
    assert_eq!(svc.start_upload(&id), Ok(true));
    assert_eq!(svc.get_upload_queue()[0].status, TaskStatus::Pending);
}

#[test]
fn start_from_running_or_completed_is_a_no_op() {
    let mut svc = UploadService::new(1);
    svc.create_task(&user(), &video("v1", "t", "/tmp/a"), 10, 1);
    let id = "v1".to_string();
    svc.start_upload(&id).unwrap();
    svc.tick();
    assert!(svc.worker_started(&id, 5));
    assert_eq!(svc.get_upload_queue()[0].status, TaskStatus::Running);
    assert_eq!(svc.start_upload(&id), Ok(false));
    assert_eq!(svc.get_upload_queue()[0].status, TaskStatus::Running);

    assert!(svc.worker_completed(&id, &"remote.mp4".to_string(), 9));
    assert_eq!(svc.get_upload_queue()[0].status, TaskStatus::Completed);
    assert_eq!(svc.start_upload(&id), Ok(false));
    assert_eq!(svc.get_upload_queue()[0].status, TaskStatus::Completed);
}

#[test]
fn start_when_already_pending_is_a_no_op() {
    let mut svc = UploadService::new(1);
    svc.create_task(&user(), &video("v1", "t", "/tmp/a"), 10, 1);
    let id = "v1".to_string();
    assert_eq!(svc.start_upload(&id), Ok(true));
    assert_eq!(svc.start_upload(&id), Ok(false));
    assert_eq!(svc.get_upload_queue()[0].status, TaskStatus::Pending);
}

#[test]
fn lifecycle_operations_on_unknown_id_fail() {
    let mut svc = UploadService::new(1);
    let id = "ghost".to_string();
    assert_eq!(svc.start_upload(&id), Err(ServiceError::TaskNotFound));
    assert_eq!(svc.pause_upload(&id), Err(ServiceError::TaskNotFound));
    assert_eq!(svc.cancel_upload(&id), Err(ServiceError::TaskNotFound));
    assert_eq!(svc.retry_upload(&id, 9), Err(ServiceError::TaskNotFound));
    assert_eq!(ServiceError::TaskNotFound.message(), "unknown task id");
}

#[test]
fn scenario_full_upload_run() {
    // One task of 10 MiB behind a gate of one: started, admitted on the
    // next tick, streamed, and completed with full progress.
    let mut svc = UploadService::new(1);
    svc.create_task(&user(), &video("v1", "movie", "/tmp/m.mp4"), 10 * MIB, 100);
    let id = "v1".to_string();
    assert_eq!(svc.start_upload(&id), Ok(true));
    assert_eq!(svc.get_upload_queue()[0].status, TaskStatus::Pending);

    let admitted = svc.tick();
    assert_eq!(admitted, vec!["v1".to_string()]);
    assert_eq!(svc.running_workers(), 1);

    assert!(svc.worker_started(&id, 200));
    let t = &svc.get_upload_queue()[0];
    assert_eq!(t.status, TaskStatus::Running);
    assert_eq!(t.total_transmit_bytes, 0);
    assert_eq!(t.started_at, Some(200));

    for i in 1..=10u64 {
        assert!(svc.worker_progress(&id, i * MIB));
        assert!(svc.worker_transmitted(&id, MIB));
    }
    let t = &svc.get_upload_queue()[0];
    assert_eq!(t.progress, PROGRESS_FULL);
    assert_eq!(t.total_transmit_bytes, 10 * MIB);

    assert!(svc.worker_completed(&id, &"n240905sa.mp4".to_string(), 300));
    let q = svc.get_upload_queue();
    assert_eq!(q[0].status, TaskStatus::Completed);
    assert_eq!(q[0].progress, PROGRESS_FULL);
    assert_eq!(q[0].total_transmit_bytes, 10 * MIB);
    assert_eq!(q[0].finished_at, Some(300));
    assert_eq!(q[0].video.filename, "n240905sa.mp4");
    assert_eq!(q[0].video.path, "");
    // The completed worker's registry entry was reclaimed by the snapshot.
    assert_eq!(svc.running_workers(), 0);
}

#[test]
fn scenario_gate_admits_in_creation_order() {
    // Two pending tasks behind a gate of one: only the first is admitted;
    // cancelling it lets the second in on the next tick.
    let mut svc = UploadService::new(1);
    svc.create_task(&user(), &video("t1", "first", "/tmp/1"), MIB, 1);
    svc.create_task(&user(), &video("t2", "second", "/tmp/2"), MIB, 2);
    let id1 = "t1".to_string();
    let id2 = "t2".to_string();
    svc.start_upload(&id1).unwrap();
    svc.start_upload(&id2).unwrap();

    let admitted = svc.tick();
    assert_eq!(admitted, vec!["t1".to_string()]);
    assert!(svc.worker_started(&id1, 10));
    let q = svc.get_upload_queue();
    assert_eq!(q[0].status, TaskStatus::Running);
    assert_eq!(q[1].status, TaskStatus::Pending);
    assert_eq!(svc.running_workers(), 1);

    // A further tick admits nothing: every slot is taken.
    assert!(svc.tick().is_empty());

    assert_eq!(svc.cancel_upload(&id1), Ok(true));
    assert_eq!(svc.running_workers(), 0);
    let q = svc.get_upload_queue();
    assert_eq!(q.len(), 1);
    assert_eq!(q[0].id, "t2");

    let admitted = svc.tick();
    assert_eq!(admitted, vec!["t2".to_string()]);
    assert!(svc.worker_started(&id2, 20));
    assert_eq!(svc.get_upload_queue()[0].status, TaskStatus::Running);
}

#[test]
fn scenario_pause_freezes_counters_and_resume_keeps_them() {
    let mut svc = UploadService::new(1);
    svc.create_task(&user(), &video("v1", "t", "/tmp/a"), 10 * MIB, 1);
    let id = "v1".to_string();
    svc.start_upload(&id).unwrap();
    svc.tick();
    svc.worker_started(&id, 10);
    svc.worker_progress(&id, 4 * MIB);
    svc.worker_transmitted(&id, 4 * MIB);

    assert_eq!(svc.pause_upload(&id), Ok(true));
    let t = &svc.get_upload_queue()[0];
    assert_eq!(t.status, TaskStatus::Paused);
    assert_eq!(t.progress, 4000);
    assert_eq!(t.total_transmit_bytes, 4 * MIB);

    // Counter events while paused change nothing.
    assert!(!svc.worker_progress(&id, 9 * MIB));
    assert!(!svc.worker_transmitted(&id, MIB));
    let t = &svc.get_upload_queue()[0];
    assert_eq!(t.progress, 4000);
    assert_eq!(t.total_transmit_bytes, 4 * MIB);

    // Un-pausing queues the task again; the parked worker resumes it
    // without clearing the counters mid-session.
    assert_eq!(svc.start_upload(&id), Ok(true));
    assert!(svc.worker_resumed(&id));
    let t = &svc.get_upload_queue()[0];
    assert_eq!(t.status, TaskStatus::Running);
    assert_eq!(t.progress, 4000);
    assert_eq!(t.total_transmit_bytes, 4 * MIB);
}

#[test]
fn scenario_retry_resets_counters_and_requeues() {
    let mut svc = UploadService::new(1);
    svc.create_task(&user(), &video("v1", "t", "/tmp/a"), 10 * MIB, 1);
    let id = "v1".to_string();
    svc.start_upload(&id).unwrap();
    svc.tick();
    svc.worker_started(&id, 10);
    svc.worker_progress(&id, 6 * MIB);
    svc.worker_transmitted(&id, 6 * MIB);
    assert_eq!(svc.running_workers(), 1);

    assert_eq!(svc.retry_upload(&id, 50), Ok(true));
    let t = &svc.get_upload_queue()[0];
    assert_eq!(t.status, TaskStatus::Pending);
    assert_eq!(t.progress, 0);
    assert_eq!(t.total_transmit_bytes, 0);
    assert_eq!(t.finished_at, Some(50));
    // The in-flight worker's slot is freed for the caller to abort.
    assert_eq!(svc.running_workers(), 0);

    // A later tick admits the task as a new run.
    let admitted = svc.tick();
    assert_eq!(admitted, vec!["v1".to_string()]);
    assert!(svc.worker_started(&id, 60));
    let t = &svc.get_upload_queue()[0];
    assert_eq!(t.status, TaskStatus::Running);
    assert_eq!(t.started_at, Some(60));
    assert_eq!(t.total_transmit_bytes, 0);
}

#[test]
fn cancel_of_running_task_frees_exactly_one_slot() {
    let mut svc = UploadService::new(3);
    svc.create_task(&user(), &video("a", "a", "/tmp/a"), MIB, 1);
    svc.create_task(&user(), &video("b", "b", "/tmp/b"), MIB, 2);
    let ida = "a".to_string();
    let idb = "b".to_string();
    svc.start_upload(&ida).unwrap();
    svc.start_upload(&idb).unwrap();
    svc.tick();
    svc.worker_started(&ida, 1);
    svc.worker_started(&idb, 1);
    assert_eq!(svc.running_workers(), 2);

    assert_eq!(svc.cancel_upload(&ida), Ok(true));
    assert_eq!(svc.running_workers(), 1);
    let q = svc.get_upload_queue();
    assert_eq!(q.len(), 1);
    assert_eq!(q[0].id, "b");
}

#[test]
fn gate_raise_takes_effect_on_next_tick() {
    let mut svc = UploadService::new(1);
    svc.create_task(&user(), &video("a", "a", "/tmp/a"), MIB, 1);
    svc.create_task(&user(), &video("b", "b", "/tmp/b"), MIB, 2);
    svc.start_upload(&"a".to_string()).unwrap();
    svc.start_upload(&"b".to_string()).unwrap();
    assert_eq!(svc.tick(), vec!["a".to_string()]);

    svc.set_max_concurrent(2);
    assert_eq!(svc.tick(), vec!["b".to_string()]);
    assert_eq!(svc.running_workers(), 2);
}

#[test]
fn gate_lowered_below_running_admits_nothing() {
    let mut svc = UploadService::new(2);
    svc.create_task(&user(), &video("a", "a", "/tmp/a"), MIB, 1);
    svc.create_task(&user(), &video("b", "b", "/tmp/b"), MIB, 2);
    svc.create_task(&user(), &video("c", "c", "/tmp/c"), MIB, 3);
    for id in ["a", "b", "c"] {
        svc.start_upload(&id.to_string()).unwrap();
    }
    assert_eq!(svc.tick().len(), 2);
    svc.set_max_concurrent(0);
    assert!(svc.tick().is_empty());
    assert_eq!(svc.running_workers(), 2);
}

#[test]
fn tick_skips_tasks_that_already_have_a_worker() {
    let mut svc = UploadService::new(5);
    svc.create_task(&user(), &video("a", "a", "/tmp/a"), MIB, 1);
    let id = "a".to_string();
    svc.start_upload(&id).unwrap();
    assert_eq!(svc.tick(), vec!["a".to_string()]);
    // Still Pending (the worker has not reported in), but registered:
    // another tick must not admit it a second time.
    assert!(svc.tick().is_empty());
    assert_eq!(svc.running_workers(), 1);
}

#[test]
fn worker_events_for_unknown_task_are_ignored() {
    let mut svc = UploadService::new(1);
    let id = "ghost".to_string();
    assert!(!svc.worker_started(&id, 1));
    assert!(!svc.worker_resumed(&id));
    assert!(!svc.worker_progress(&id, 1));
    assert!(!svc.worker_transmitted(&id, 1));
    assert!(!svc.worker_completed(&id, &"x".to_string(), 1));
    assert!(svc.task_status(&id).is_none());
}

#[test]
fn pause_is_unguarded_and_applies_in_any_state() {
    let mut svc = UploadService::new(1);
    svc.create_task(&user(), &video("v", "t", "/tmp/v"), MIB, 1);
    let id = "v".to_string();
    // Pausing a task that never ran is accepted.
    assert_eq!(svc.pause_upload(&id), Ok(true));
    assert_eq!(svc.task_status(&id), Some(TaskStatus::Paused));
    // Pausing an already paused task stays paused.
    assert_eq!(svc.pause_upload(&id), Ok(true));
    assert_eq!(svc.task_status(&id), Some(TaskStatus::Paused));
}

#[test]
fn worker_resume_applies_only_to_a_pending_task() {
    let mut svc = UploadService::new(1);
    svc.create_task(&user(), &video("v", "t", "/tmp/v"), MIB, 1);
    let id = "v".to_string();
    // Waiting: a stray resume does nothing.
    assert!(!svc.worker_resumed(&id));
    assert_eq!(svc.task_status(&id), Some(TaskStatus::Waiting));
    svc.start_upload(&id).unwrap();
    // Pending after an un-pause is the resume case.
    assert!(svc.worker_resumed(&id));
    assert_eq!(svc.task_status(&id), Some(TaskStatus::Running));
    // Running: nothing further to resume.
    assert!(!svc.worker_resumed(&id));
}

#[test]
fn task_status_follows_the_lifecycle() {
    let mut svc = UploadService::new(1);
    svc.create_task(&user(), &video("v", "t", "/tmp/v"), MIB, 1);
    let id = "v".to_string();
    assert_eq!(svc.task_status(&id), Some(TaskStatus::Waiting));
    svc.start_upload(&id).unwrap();
    assert_eq!(svc.task_status(&id), Some(TaskStatus::Pending));
    svc.tick();
    svc.worker_started(&id, 2);
    assert_eq!(svc.task_status(&id), Some(TaskStatus::Running));
    svc.pause_upload(&id).unwrap();
    assert_eq!(svc.task_status(&id), Some(TaskStatus::Paused));
    svc.cancel_upload(&id).unwrap();
    assert_eq!(svc.task_status(&id), None);
}
