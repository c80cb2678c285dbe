//! One upload job and its lifecycle state machine.
//!
//! A task is created `Waiting`, queued with `Pending`, marked `Running` by
//! the worker that was admitted for it, and ends `Completed` or `Cancelled`;
//! `Paused` parks a live worker and `Failed` marks a run that was given up.
//! Progress is tracked in hundredths of a percent (0 ..= 10_000) so that the
//! counters stay plain integers; the caller may render them as it likes.

use vstd::prelude::*;
use vstd::arithmetic::div_mod::lemma_div_is_ordered;
use vstd::arithmetic::mul::lemma_mul_inequality;
use crate::config::VideoInfo;
use crate::user::User;

verus! {

/// Full read progress: one hundred percent, in hundredths of a percent.
pub const PROGRESS_FULL: u32 = 10_000;

/// Lifecycle state of an upload task.
#[derive(Clone, Copy, Debug, PartialEq, Eq, Structural)]
pub enum TaskStatus {
    Waiting,
    Pending,
    Running,
    Paused,
    Completed,
    Failed,
    Cancelled,
}

/// Read progress scaled to hundredths of a percent and capped at one
/// hundred percent. A source whose size could not be read (`total_size == 0`)
/// is reported as fully read, matching the limit of `bytes / total` as the
/// divisor vanishes.
pub open spec fn progress_permyriad(bytes_read: u64, total_size: u64) -> u32 {
    if total_size == 0 {
        PROGRESS_FULL
    } else if bytes_read as int * PROGRESS_FULL as int / total_size as int > PROGRESS_FULL as int {
        PROGRESS_FULL
    } else {
        (bytes_read as int * PROGRESS_FULL as int / total_size as int) as u32
    }
}

/// Computes `progress_permyriad` on machine integers.
pub fn compute_progress(bytes_read: u64, total_size: u64) -> (r: u32)
    ensures
        r == progress_permyriad(bytes_read, total_size),
        r <= PROGRESS_FULL,
{
    if total_size == 0 {
        PROGRESS_FULL
    } else {
        proof {
            lemma_mul_inequality(bytes_read as int, u64::MAX as int, PROGRESS_FULL as int);
        }
        let scaled: u128 = (bytes_read as u128) * (PROGRESS_FULL as u128);
        let q: u128 = scaled / (total_size as u128);
        if q > PROGRESS_FULL as u128 {
            PROGRESS_FULL
        } else {
            q as u32
        }
    }
}

/// Reading further never lowers the reported progress: while a worker's
/// cumulative read count grows, the progress figure is non-decreasing.
pub proof fn lemma_progress_monotone(b1: u64, b2: u64, total_size: u64)
    requires
        b1 <= b2,
    ensures
        progress_permyriad(b1, total_size) <= progress_permyriad(b2, total_size),
{
    if total_size != 0 {
        lemma_mul_inequality(b1 as int, b2 as int, PROGRESS_FULL as int);
        lemma_div_is_ordered(
            b1 as int * PROGRESS_FULL as int,
            b2 as int * PROGRESS_FULL as int,
            total_size as int,
        );
    }
}

/// A single upload job: identity, owner, source video, lifecycle status and
/// the byte counters of its current run. Timestamps are caller-supplied
/// milliseconds.
pub struct UploadTask {
    pub id: String,
    pub user: User,
    pub video: VideoInfo,
    pub status: TaskStatus,
    pub error_message: Option<String>,
    pub created_at: u64,
    pub started_at: Option<u64>,
    pub finished_at: Option<u64>,
    pub retry_count: u32,
    /// Read progress in hundredths of a percent, 0 ..= `PROGRESS_FULL`.
    pub progress: u32,
    pub total_size: u64,
    pub total_transmit_bytes: u64,
}

/// The value `UploadTask::new` builds: identified by its video, `Waiting`,
/// with zeroed counters.
pub open spec fn fresh_task(user: User, video: VideoInfo, total_size: u64, created_at: u64)
    -> UploadTask {
    UploadTask {
        id: video.id,
        user: user,
        video: video,
        status: TaskStatus::Waiting,
        error_message: None,
        created_at: created_at,
        started_at: None,
        finished_at: None,
        retry_count: 0,
        progress: 0,
        total_size: total_size,
        total_transmit_bytes: 0,
    }
}

impl UploadTask {
    /// The counters a task carries are within their documented ranges.
    pub open spec fn wf(self) -> bool {
        self.progress <= PROGRESS_FULL
    }

    /// A fresh task: identified by its video, `Waiting`, with zeroed counters.
    pub fn new(user: &User, video: &VideoInfo, total_size: u64, created_at: u64) -> (r:
        UploadTask)
        ensures
            r == fresh_task(*user, *video, total_size, created_at),
            r.wf(),
    {
        UploadTask {
            id: video.id.clone(),
            user: user.clone(),
            video: video.clone(),
            status: TaskStatus::Waiting,
            error_message: None,
            created_at,
            started_at: None,
            finished_at: None,
            retry_count: 0,
            progress: 0,
            total_size,
            total_transmit_bytes: 0,
        }
    }

    /// Display label of the task: owner and video title.
    pub fn title(&self) -> (r: String)
        ensures
            r@ == self.user.username@ + " - "@ + self.video.title@,
    {
        let mut label = self.user.username.clone();
        label.append(" - ");
        label.append(self.video.title.as_str());
        label
    }

    /// A fresh run begins: the task is `Running`, the transmit accumulator is
    /// cleared for the new run, and the start stamp is recorded. Read
    /// progress is left as it stands.
    pub fn start(&mut self, now: u64)
        ensures
            *final(self) == (UploadTask {
                status: TaskStatus::Running,
                total_transmit_bytes: 0,
                started_at: Some(now),
                ..*old(self)
            }),
    {
        self.status = TaskStatus::Running;
        self.total_transmit_bytes = 0;
        self.started_at = Some(now);
    }

    /// A paused run continues: only the status moves back to `Running`; both
    /// counters keep the values frozen by the pause.
    pub fn resume(&mut self)
        ensures
            *final(self) == (UploadTask { status: TaskStatus::Running, ..*old(self) }),
    {
        self.status = TaskStatus::Running;
    }

    /// The task queues for admission.
    pub fn pending(&mut self)
        ensures
            *final(self) == (UploadTask { status: TaskStatus::Pending, ..*old(self) }),
    {
        self.status = TaskStatus::Pending;
    }

    /// The task is parked; its worker, if any, polls and waits.
    pub fn pause(&mut self)
        ensures
            *final(self) == (UploadTask { status: TaskStatus::Paused, ..*old(self) }),
    {
        self.status = TaskStatus::Paused;
    }

    /// Terminal success: progress snaps to one hundred percent and the
    /// finish stamp is recorded.
    pub fn complete(&mut self, now: u64)
        ensures
            *final(self) == (UploadTask {
                status: TaskStatus::Completed,
                progress: PROGRESS_FULL,
                finished_at: Some(now),
                ..*old(self)
            }),
            final(self).wf(),
    {
        self.status = TaskStatus::Completed;
        self.progress = PROGRESS_FULL;
        self.finished_at = Some(now);
    }

    /// User-initiated termination: both counters are zeroed and the finish
    /// stamp is recorded.
    pub fn cancel(&mut self, now: u64)
        ensures
            *final(self) == (UploadTask {
                status: TaskStatus::Cancelled,
                progress: 0,
                total_transmit_bytes: 0,
                finished_at: Some(now),
                ..*old(self)
            }),
            final(self).wf(),
    {
        self.status = TaskStatus::Cancelled;
        self.progress = 0;
        self.total_transmit_bytes = 0;
        self.finished_at = Some(now);
    }

    /// Sets the read progress, capped at one hundred percent.
    pub fn update_progress(&mut self, progress: u32)
        ensures
            *final(self) == (UploadTask {
                progress: if progress > PROGRESS_FULL { PROGRESS_FULL } else { progress },
                ..*old(self)
            }),
            final(self).wf(),
    {
        self.progress = if progress > PROGRESS_FULL { PROGRESS_FULL } else { progress };
    }

    /// Adds network-accepted bytes to the accumulator of the current run.
    /// The sum saturates at the top of the counter's type.
    pub fn update_total_transmit_bytes(&mut self, transmitted: u64)
        ensures
            *final(self) == (UploadTask {
                total_transmit_bytes: if old(self).total_transmit_bytes + transmitted
                    <= u64::MAX { (old(self).total_transmit_bytes + transmitted) as u64 } else {
                    u64::MAX
                },
                ..*old(self)
            }),
    {
        self.total_transmit_bytes = if transmitted <= u64::MAX - self.total_transmit_bytes {
            self.total_transmit_bytes + transmitted
        } else {
            u64::MAX
        };
    }

    pub fn is_waiting(&self) -> (r: bool)
        ensures
            r == (self.status is Waiting),
    {
        self.status == TaskStatus::Waiting
    }

    pub fn is_pending(&self) -> (r: bool)
        ensures
            r == (self.status is Pending),
    {
        self.status == TaskStatus::Pending
    }

    pub fn is_running(&self) -> (r: bool)
        ensures
            r == (self.status is Running),
    {
        self.status == TaskStatus::Running
    }

    pub fn is_paused(&self) -> (r: bool)
        ensures
            r == (self.status is Paused),
    {
        self.status == TaskStatus::Paused
    }

    pub fn is_cancelled(&self) -> (r: bool)
        ensures
            r == (self.status is Cancelled),
    {
        self.status == TaskStatus::Cancelled
    }

    pub fn is_completed(&self) -> (r: bool)
        ensures
            r == (self.status is Completed),
    {
        self.status == TaskStatus::Completed
    }

    pub fn is_failed(&self) -> (r: bool)
        ensures
            r == (self.status is Failed),
    {
        self.status == TaskStatus::Failed
    }
}

impl Clone for UploadTask {
    fn clone(&self) -> (r: Self)
        ensures
            r == *self,
    {
        UploadTask {
            id: self.id.clone(),
            user: self.user.clone(),
            video: self.video.clone(),
            status: self.status,
            error_message: match &self.error_message {
                Some(m) => Some(m.clone()),
                None => None,
            },
            created_at: self.created_at,
            started_at: self.started_at,
            finished_at: self.finished_at,
            retry_count: self.retry_count,
            progress: self.progress,
            total_size: self.total_size,
            total_transmit_bytes: self.total_transmit_bytes,
        }
    }
}

} // verus!
