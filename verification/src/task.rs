//! The task data model: one user-requested download of a single resource
//! to a single destination path, together with its lifecycle status.

pub mod chunk;
pub mod controller;
pub mod partition;
pub mod download;
pub mod merge;
pub mod probe;

use vstd::prelude::*;

verus! {

/// Lifecycle status of a whole download task.
///
/// `Created` → `Ready` (after a successful probe and partition) → `Running`
/// → {`Paused` ⇄ `Running`} → {`Finished` | `Failed`}, where `Finished` and
/// `Failed` are terminal.
#[derive(Debug, Clone, Copy, PartialEq, Eq, Structural)]
pub enum TaskStatus {
    Created,
    Ready,
    Running,
    Paused,
    Finished,
    Failed,
}

impl TaskStatus {
    /// A terminal status accepts no further transitions.
    pub open spec fn is_terminal(self) -> bool {
        self == TaskStatus::Finished || self == TaskStatus::Failed
    }
}

/// One user-requested download: identity, source, destination and progress.
#[derive(Debug, Clone, PartialEq)]
pub struct Task {
    /// Opaque unique identifier.
    pub uuid: u128,
    /// The URL the task was created with; kept unchanged across redirects
    /// for diagnostics and resume.
    pub original_url: String,
    /// The effective URL; may differ from `original_url` after a redirect
    /// observed by the probe.
    pub url: String,
    /// Destination path of the final artifact.
    pub path: String,
    /// Number of concurrent chunk downloaders the task may use.
    pub nthread: usize,
    /// Total size of the resource in bytes; authoritative only once the
    /// task has reached `Ready` (0 while unknown).
    pub size: usize,
    /// Aggregate number of bytes confirmed downloaded over all chunks.
    pub downloaded_size: usize,
    /// Lifecycle status.
    pub status: TaskStatus,
}

/// Relies on `uuid::Uuid::new_v4` (and `Uuid::as_u128`) for a fresh random
/// 128-bit identifier; nothing is assumed about the value drawn.
#[verifier::external_body]
fn fresh_task_id() -> u128 {
    uuid::Uuid::new_v4().as_u128()
}

impl Task {
    /// Construct a freshly created task for `url`, to be saved at `path`,
    /// using up to `nthread` concurrent connections.
    pub fn new(url: String, path: String, nthread: usize) -> (t: Task)
        ensures
            t.original_url@ == url@,
            t.url@ == url@,
            t.path@ == path@,
            t.nthread == nthread,
            t.size == 0,
            t.downloaded_size == 0,
            t.status == TaskStatus::Created,
    {
        let uuid = fresh_task_id();
        let original_url = url.clone();
        Task {
            uuid,
            original_url,
            url,
            path,
            nthread,
            size: 0,
            downloaded_size: 0,
            status: TaskStatus::Created,
        }
    }
}

} // verus!
