//! The task controller: owner of the task and chunk state machines.
//!
//! The controller holds every decision of the engine: interpreting the
//! probe, partitioning the resource into chunks, the task status
//! transitions, fail-fast on the first failed chunk, progress aggregation,
//! and acceptance of the merged artifact. The surrounding application
//! performs the network and disk work and feeds the outcomes back in; it
//! also delivers the returned state-change events to an observer, so the
//! controller itself never blocks on anything.

use vstd::prelude::*;

use crate::decimal::{dec_digits, usize_to_string};
use crate::task::chunk::{Chunk, ChunkStatus};
use crate::task::partition::{is_partition, partition, lemma_partition_contiguous};
use crate::task::probe::{interpret_probe, probe_length, probe_use_range, ProbeOutcome};
use crate::task::{Task, TaskStatus};

verus! {

/// One task status transition, as reported to an observer: the status the
/// task left and the status it entered.
#[derive(Debug, Clone, PartialEq)]
pub struct StateChangeEvent<T> {
    pub previous_state: T,
    pub current_state: T,
}

/// The phase of the engine in which an error arose.
#[derive(Debug, Clone, Copy, PartialEq, Eq, Structural)]
pub enum Phase {
    Init,
    Download,
    Merge,
}

/// An error surfaced to the caller: the phase it arose in, a human-readable
/// message, and an inner diagnostic string from the transport layer.
#[derive(Debug, Clone, PartialEq)]
pub struct DownloadError {
    pub phase: Phase,
    pub message: String,
    pub inner_message: String,
}

/// Whether the task state machine allows a direct transition from `a` to
/// `b`. Failure is allowed from every non-terminal status; the two terminal
/// statuses allow no transition at all.
pub open spec fn task_step_allowed(a: TaskStatus, b: TaskStatus) -> bool {
    ||| (a == TaskStatus::Created && b == TaskStatus::Ready)
    ||| (a == TaskStatus::Ready && b == TaskStatus::Running)
    ||| (a == TaskStatus::Running && b == TaskStatus::Paused)
    ||| (a == TaskStatus::Paused && b == TaskStatus::Running)
    ||| (a == TaskStatus::Running && b == TaskStatus::Finished)
    ||| (!a.is_terminal() && b == TaskStatus::Failed)
}

/// `Failed` is reachable in one step from every non-terminal task status.
pub proof fn lemma_failed_reachable_from_non_terminal(s: TaskStatus)
    requires
        !s.is_terminal(),
    ensures
        task_step_allowed(s, TaskStatus::Failed),
{
}

/// The terminal statuses `Finished` and `Failed` accept no transition.
pub proof fn lemma_terminal_accepts_no_transition(s: TaskStatus, t: TaskStatus)
    requires
        s.is_terminal(),
    ensures
        !task_step_allowed(s, t),
{
}

/// The file a chunk is streamed into: the destination path with a
/// `.part.<id>` suffix.
pub open spec fn chunk_path_spec(path: Seq<char>, id: nat) -> Seq<char> {
    path + ".part."@ + dec_digits(id)
}

/// The byte ranges a chunk list spans, in chunk order.
pub open spec fn chunk_ranges(chunks: Seq<Chunk>) -> Seq<(usize, usize)> {
    Seq::new(chunks.len(), |i: int| (chunks[i].start, chunks[i].end))
}

/// The chunk-list invariant of a probed task of `size` bytes: chunk ids
/// are dense and equal to each chunk's position, every range is non-empty
/// and inside the resource, the first range starts at 0, the last ends at
/// `size - 1`, and each range begins one byte after its predecessor ends —
/// so the ranges are pairwise disjoint and their union is `[0, size-1]`.
pub open spec fn chunks_cover(chunks: Seq<Chunk>, size: int) -> bool {
    &&& chunks.len() >= 1
    &&& forall|i: int|
        #![trigger chunks[i]]
        0 <= i < chunks.len() ==> chunks[i].id == i && chunks[i].start <= chunks[i].end
            && chunks[i].end < size
    &&& chunks[0].start == 0
    &&& chunks[chunks.len() - 1].end == size - 1
    &&& forall|i: int|
        #![trigger chunks[i]]
        0 < i < chunks.len() ==> chunks[i].start == chunks[i - 1].end + 1
}

/// Chunk-list coverage depends only on the ids and ranges: a status
/// change on any chunk leaves a disjoint contiguous cover what it was.
#[verifier::rlimit(100)]
proof fn lemma_cover_ignores_status(oc: Seq<Chunk>, nc: Seq<Chunk>, size: int)
    requires
        nc.len() == oc.len(),
        forall|j: int|
            #![trigger nc[j]]
            0 <= j < nc.len() ==> nc[j].id == oc[j].id && nc[j].start == oc[j].start && nc[j].end
                == oc[j].end,
        chunks_cover(oc, size),
    ensures
        chunks_cover(nc, size),
{
    assert forall|i: int| #![trigger nc[i]] 0 <= i < nc.len() implies nc[i].id == i && nc[i].start
        <= nc[i].end && nc[i].end < size by {
        assert(oc[i].id == i && oc[i].start <= oc[i].end && oc[i].end < size);
    }
    assert forall|i: int| #![trigger nc[i]] 0 < i < nc.len() implies nc[i].start == nc[i - 1].end
        + 1 by {
        assert(oc[i].start == oc[i - 1].end + 1);
    }
}

/// Whether every chunk of the list has finished.
pub open spec fn all_chunks_finished(chunks: Seq<Chunk>) -> bool {
    forall|i: int| 0 <= i < chunks.len() ==> #[trigger] chunks[i].status == ChunkStatus::Finished
}

/// Task and chunk are plain data; the controller drives them through
/// their state machines.
#[derive(Debug)]
pub struct TaskController {
    task: Task,
    chunks: Vec<Chunk>,
}

impl TaskController {
    /// The task as the controller sees it.
    pub closed spec fn task_spec(self) -> Task {
        self.task
    }

    /// The chunk list as the controller sees it.
    pub closed spec fn chunks_spec(self) -> Seq<Chunk> {
        self.chunks@
    }

    /// Controller well-formedness, kept by every operation: the thread
    /// count is positive; the aggregate downloaded size never exceeds the
    /// total size; before the probe there are no chunks and no size; from
    /// `Ready` on, the size is positive and the chunks are a disjoint
    /// contiguous cover of the resource; and the task is `Finished` only
    /// if every chunk is `Finished`.
    pub open spec fn wf(self) -> bool {
        &&& self.task_spec().nthread >= 1
        &&& self.task_spec().downloaded_size <= self.task_spec().size
        &&& (self.task_spec().status == TaskStatus::Created ==> self.chunks_spec().len() == 0
            && self.task_spec().size == 0)
        &&& ((self.task_spec().status == TaskStatus::Ready || self.task_spec().status
            == TaskStatus::Running || self.task_spec().status == TaskStatus::Paused
            || self.task_spec().status == TaskStatus::Finished) ==> self.task_spec().size >= 1
            && chunks_cover(self.chunks_spec(), self.task_spec().size as int))
        &&& (self.task_spec().status == TaskStatus::Finished ==> all_chunks_finished(
            self.chunks_spec(),
        ))
    }

    /// Take ownership of a freshly created task.
    pub fn new(task: Box<Task>) -> (c: TaskController)
        requires
            task.nthread >= 1,
            task.status == TaskStatus::Created,
            task.size == 0,
            task.downloaded_size == 0,
        ensures
            c.wf(),
            c.task_spec() == *task,
            c.chunks_spec() == Seq::<Chunk>::empty(),
    {
        let chunks: Vec<Chunk> = Vec::new();
        proof {
            assert(chunks@ =~= Seq::<Chunk>::empty());
        }
        TaskController { task: *task, chunks }
    }

    /// The id the next created chunk gets: chunk ids are dense and assigned
    /// in partition order.
    fn next_chunk_id(&self) -> (id: usize)
        ensures
            id == self.chunks_spec().len(),
    {
        self.chunks.len()
    }

    /// The path of the file chunk `id` is streamed into, next to the
    /// destination path.
    fn create_chunk_path(&self, id: usize) -> (r: String)
        ensures
            r@ == chunk_path_spec(self.task_spec().path@, id as nat),
    {
        let suffixed = self.task.path.clone().concat(".part.");
        suffixed.concat(usize_to_string(id).as_str())
    }

    /// A freshly created chunk for the byte range `[start, end]`.
    fn create_chunk(&self, start: usize, end: usize) -> (c: Chunk)
        ensures
            c == (Chunk {
                id: self.chunks_spec().len() as usize,
                block_path: c.block_path,
                start,
                end,
                status: ChunkStatus::Created,
            }),
            c.block_path@ == chunk_path_spec(
                self.task_spec().path@,
                self.chunks_spec().len() as nat,
            ),
    {
        let id = self.next_chunk_id();
        Chunk {
            id,
            block_path: self.create_chunk_path(id),
            start,
            end,
            status: ChunkStatus::Created,
        }
    }

    /// Move the task to `status` and report the transition as an event.
    fn set_status(&mut self, status: TaskStatus) -> (ev: StateChangeEvent<TaskStatus>)
        requires
            task_step_allowed(old(self).task_spec().status, status),
        ensures
            final(self).task_spec() == (Task { status, ..old(self).task_spec() }),
            final(self).chunks_spec() == old(self).chunks_spec(),
            ev.previous_state == old(self).task_spec().status,
            ev.current_state == status,
    {
        let previous_state = self.task.status;
        self.task.status = status;
        StateChangeEvent { previous_state, current_state: status }
    }

    /// Initialization: decide what the probe outcome means, and on success
    /// partition the resource and create the chunk list.
    ///
    /// On success the task holds the probed size, its effective URL is the
    /// URL the probe was finally served from, the chunk ranges are exactly
    /// the partition for (size, thread count, range support), every chunk
    /// is `Created`, and the task is `Ready`. On a probe failure or an
    /// unusable length header the task is `Failed`, no chunks exist, and
    /// the `Init`-phase error is returned. Either way the emitted event
    /// carries the transition out of `Created`.
    #[verifier::rlimit(100)]
    pub fn init(&mut self, probe: ProbeOutcome) -> (r: (
        Result<(), DownloadError>,
        StateChangeEvent<TaskStatus>,
    ))
        requires
            old(self).wf(),
            old(self).task_spec().status == TaskStatus::Created,
        ensures
            final(self).wf(),
            final(self).task_spec().uuid == old(self).task_spec().uuid,
            final(self).task_spec().original_url == old(self).task_spec().original_url,
            final(self).task_spec().path == old(self).task_spec().path,
            final(self).task_spec().nthread == old(self).task_spec().nthread,
            final(self).task_spec().downloaded_size == old(self).task_spec().downloaded_size,
            r.1.previous_state == TaskStatus::Created,
            r.1.current_state == final(self).task_spec().status,
            match r.0 {
                Ok(()) => {
                    &&& probe_length(probe) == Some(final(self).task_spec().size)
                    &&& final(self).task_spec().status == TaskStatus::Ready
                    &&& final(self).task_spec().url@ == probe_served_url(
                        probe,
                        old(self).task_spec().url@,
                    )
                    &&& is_partition(
                        chunk_ranges(final(self).chunks_spec()),
                        final(self).task_spec().size as int,
                        final(self).task_spec().nthread as int,
                        probe_use_range(probe),
                    )
                    &&& forall|i: int|
                        #![trigger final(self).chunks_spec()[i]]
                        0 <= i < final(self).chunks_spec().len()
                            ==> final(self).chunks_spec()[i].id == i
                            && final(self).chunks_spec()[i].status
                            == ChunkStatus::Created && final(self).chunks_spec()[i].block_path@
                            == chunk_path_spec(old(self).task_spec().path@, i as nat)
                },
                Err(e) => {
                    &&& probe_length(probe) is None
                    &&& e.phase == Phase::Init
                    &&& match probe {
                        ProbeOutcome::Failure { message, inner_message } => e.message@ == message@
                            && e.inner_message@ == inner_message@,
                        ProbeOutcome::Response { content_length, .. } => e.message@
                            == "missing, malformed or zero length header"@ && match content_length {
                            Some(s) => e.inner_message@ == s@,
                            None => e.inner_message@ == Seq::<char>::empty(),
                        },
                    }
                    &&& final(self).task_spec().status == TaskStatus::Failed
                    &&& final(self).task_spec().url == old(self).task_spec().url
                    &&& final(self).task_spec().size == 0
                    &&& final(self).chunks_spec().len() == 0
                },
            },
    {
        let effective_url: Option<String> = match &probe {
            ProbeOutcome::Response { effective_url: Some(u), .. } => Some(u.clone()),
            _ => None,
        };
        match interpret_probe(probe) {
            Err(e) => {
                let ev = self.set_status(TaskStatus::Failed);
                (Err(e), ev)
            },
            Ok((content_length, use_range)) => {
                if let Some(u) = effective_url {
                    self.task.url = u;
                }
                let ranges = partition(content_length, self.task.nthread, use_range);
                let ghost orig = *self;
                let mut k: usize = 0;
                while k < ranges.len()
                    invariant
                        0 <= k <= ranges@.len(),
                        self.task == orig.task,
                        self.chunks@.len() == k,
                        forall|j: int|
                            #![trigger self.chunks@[j]]
                            0 <= j < k ==> self.chunks@[j].id == j && self.chunks@[j].start
                                == ranges@[j].0 && self.chunks@[j].end == ranges@[j].1
                                && self.chunks@[j].status == ChunkStatus::Created
                                && self.chunks@[j].block_path@ == chunk_path_spec(
                                orig.task.path@,
                                j as nat,
                            ),
                    decreases ranges@.len() - k,
                {
                    let range = ranges[k];
                    let c = self.create_chunk(range.0, range.1);
                    self.chunks.push(c);
                    k = k + 1;
                }
                self.task.size = content_length;
                proof {
                    assert(chunk_ranges(self.chunks@) =~= ranges@);
                    lemma_partition_contiguous(
                        ranges@,
                        content_length as int,
                        self.task.nthread as int,
                        use_range,
                    );
                }
                let ev = self.set_status(TaskStatus::Ready);
                (Ok(()), ev)
            },
        }
    }

    /// Start the downloads: every chunk becomes `Ready` for its downloader
    /// and the task becomes `Running`.
    pub fn start(&mut self) -> (ev: StateChangeEvent<TaskStatus>)
        requires
            old(self).wf(),
            old(self).task_spec().status == TaskStatus::Ready,
        ensures
            final(self).wf(),
            final(self).task_spec() == (Task {
                status: TaskStatus::Running,
                ..old(self).task_spec()
            }),
            final(self).chunks_spec().len() == old(self).chunks_spec().len(),
            forall|i: int|
                #![trigger final(self).chunks_spec()[i]]
                0 <= i < old(self).chunks_spec().len() ==> final(self).chunks_spec()[i] == (Chunk {
                    status: ChunkStatus::Ready,
                    ..old(self).chunks_spec()[i]
                }),
            ev.previous_state == TaskStatus::Ready,
            ev.current_state == TaskStatus::Running,
    {
        let ghost orig = *self;
        let mut k: usize = 0;
        while k < self.chunks.len()
            invariant
                0 <= k <= self.chunks@.len(),
                self.chunks@.len() == orig.chunks@.len(),
                self.task == orig.task,
                forall|j: int|
                    #![trigger self.chunks@[j]]
                    0 <= j < k ==> self.chunks@[j] == (Chunk {
                        status: ChunkStatus::Ready,
                        ..orig.chunks@[j]
                    }),
                forall|j: int|
                    #![trigger self.chunks@[j]]
                    k <= j < self.chunks@.len() ==> self.chunks@[j] == orig.chunks@[j],
            decreases self.chunks@.len() - k,
        {
            self.chunks[k].status = ChunkStatus::Ready;
            k = k + 1;
        }
        self.set_status(TaskStatus::Running)
    }

    /// Pause a running task; the pause signal to the active downloaders is
    /// cooperative and their chunks report back on their own.
    pub fn pause(&mut self) -> (ev: StateChangeEvent<TaskStatus>)
        requires
            old(self).wf(),
            old(self).task_spec().status == TaskStatus::Running,
        ensures
            final(self).wf(),
            final(self).task_spec() == (Task {
                status: TaskStatus::Paused,
                ..old(self).task_spec()
            }),
            final(self).chunks_spec() == old(self).chunks_spec(),
            ev.previous_state == TaskStatus::Running,
            ev.current_state == TaskStatus::Paused,
    {
        self.set_status(TaskStatus::Paused)
    }

    /// Resume a paused task.
    pub fn resume(&mut self) -> (ev: StateChangeEvent<TaskStatus>)
        requires
            old(self).wf(),
            old(self).task_spec().status == TaskStatus::Paused,
        ensures
            final(self).wf(),
            final(self).task_spec() == (Task {
                status: TaskStatus::Running,
                ..old(self).task_spec()
            }),
            final(self).chunks_spec() == old(self).chunks_spec(),
            ev.previous_state == TaskStatus::Paused,
            ev.current_state == TaskStatus::Running,
    {
        self.set_status(TaskStatus::Running)
    }

    /// Abort a task that has not ended yet: in-flight downloaders are to be
    /// cancelled by the application, and the task ends `Failed`.
    pub fn cancel(&mut self) -> (ev: StateChangeEvent<TaskStatus>)
        requires
            old(self).wf(),
            !old(self).task_spec().status.is_terminal(),
        ensures
            final(self).wf(),
            final(self).task_spec() == (Task {
                status: TaskStatus::Failed,
                ..old(self).task_spec()
            }),
            final(self).chunks_spec() == old(self).chunks_spec(),
            ev.previous_state == old(self).task_spec().status,
            ev.current_state == TaskStatus::Failed,
    {
        self.set_status(TaskStatus::Failed)
    }

    /// Record the status a chunk downloader reported for its chunk.
    ///
    /// Fail-fast: the first chunk to report `Failed` immediately fails the
    /// whole task (the event of that transition is returned); any other
    /// report, and any report arriving once the task has already failed,
    /// changes the chunk alone.
    #[verifier::rlimit(100)]
    pub fn report_chunk_status(&mut self, id: usize, status: ChunkStatus) -> (ev: Option<
        StateChangeEvent<TaskStatus>,
    >)
        requires
            old(self).wf(),
            id < old(self).chunks_spec().len(),
            old(self).task_spec().status != TaskStatus::Finished,
        ensures
            final(self).wf(),
            final(self).chunks_spec() == old(self).chunks_spec().update(
                id as int,
                (Chunk { status, ..old(self).chunks_spec()[id as int] }),
            ),
            if status == ChunkStatus::Failed && !old(self).task_spec().status.is_terminal() {
                &&& final(self).task_spec() == (Task {
                    status: TaskStatus::Failed,
                    ..old(self).task_spec()
                })
                &&& ev == Some(
                    StateChangeEvent {
                        previous_state: old(self).task_spec().status,
                        current_state: TaskStatus::Failed,
                    },
                )
            } else {
                &&& final(self).task_spec() == old(self).task_spec()
                &&& ev is None
            },
    {
        self.chunks[id].status = status;
        proof {
            assert(self.chunks@ =~= old(self).chunks@.update(
                id as int,
                (Chunk { status, ..old(self).chunks@[id as int] }),
            ));
            if chunks_cover(old(self).chunks@, old(self).task.size as int) {
                lemma_cover_ignores_status(
                    old(self).chunks@,
                    self.chunks@,
                    old(self).task.size as int,
                );
            }
        }
        let failed = matches!(status, ChunkStatus::Failed);
        let terminal = matches!(self.task.status, TaskStatus::Finished | TaskStatus::Failed);
        if failed && !terminal {
            Some(self.set_status(TaskStatus::Failed))
        } else {
            None
        }
    }

    /// Add bytes confirmed written by a chunk downloader to the task's
    /// aggregate downloaded size. Workers never touch the task directly;
    /// they report through the controller, the single writer.
    pub fn report_progress(&mut self, n: usize)
        requires
            old(self).wf(),
            old(self).task_spec().downloaded_size + n <= old(self).task_spec().size,
        ensures
            final(self).wf(),
            final(self).task_spec() == (Task {
                downloaded_size: (old(self).task_spec().downloaded_size + n) as usize,
                ..old(self).task_spec()
            }),
            final(self).chunks_spec() == old(self).chunks_spec(),
    {
        self.task.downloaded_size = self.task.downloaded_size + n;
    }

    /// Whether every chunk has finished — only then may the merge begin.
    pub fn all_finished(&self) -> (r: bool)
        ensures
            r == all_chunks_finished(self.chunks_spec()),
    {
        let mut k: usize = 0;
        while k < self.chunks.len()
            invariant
                0 <= k <= self.chunks@.len(),
                forall|j: int|
                    0 <= j < k ==> #[trigger] self.chunks@[j].status == ChunkStatus::Finished,
            decreases self.chunks@.len() - k,
        {
            let finished = matches!(self.chunks[k].status, ChunkStatus::Finished);
            if !finished {
                return false;
            }
            k = k + 1;
        }
        true
    }

    /// Accept or reject the merged artifact. `merge_result` is the size of
    /// the merged file, or the diagnostic of the I/O failure that stopped
    /// the merge.
    ///
    /// The task finishes exactly when the merge succeeded and produced a
    /// file of exactly the probed size; a size mismatch or an I/O failure
    /// fails the task with a `Merge`-phase error. The merge may only be
    /// attempted once every chunk has finished.
    pub fn complete_merge(&mut self, merge_result: Result<usize, String>) -> (r: (
        Result<(), DownloadError>,
        StateChangeEvent<TaskStatus>,
    ))
        requires
            old(self).wf(),
            old(self).task_spec().status == TaskStatus::Running,
            all_chunks_finished(old(self).chunks_spec()),
        ensures
            final(self).wf(),
            final(self).chunks_spec() == old(self).chunks_spec(),
            r.1.previous_state == TaskStatus::Running,
            r.1.current_state == final(self).task_spec().status,
            match r.0 {
                Ok(()) => {
                    &&& merge_result matches Ok(sz) && sz == old(self).task_spec().size
                    &&& final(self).task_spec() == (Task {
                        status: TaskStatus::Finished,
                        ..old(self).task_spec()
                    })
                },
                Err(e) => {
                    &&& final(self).task_spec() == (Task {
                        status: TaskStatus::Failed,
                        ..old(self).task_spec()
                    })
                    &&& e.phase == Phase::Merge
                    &&& match merge_result {
                        Ok(sz) => sz != old(self).task_spec().size && e.message@
                            == "merged file size does not match the probed content length"@,
                        Err(inner) => e.message@ == "failed to merge chunk files"@
                            && e.inner_message@ == inner@,
                    }
                },
            },
    {
        match merge_result {
            Ok(sz) => {
                if sz == self.task.size {
                    let ev = self.set_status(TaskStatus::Finished);
                    (Ok(()), ev)
                } else {
                    let ev = self.set_status(TaskStatus::Failed);
                    (
                        Err(
                            DownloadError {
                                phase: Phase::Merge,
                                message: String::from_str(
                                    "merged file size does not match the probed content length",
                                ),
                                inner_message: String::new(),
                            },
                        ),
                        ev,
                    )
                }
            },
            Err(inner) => {
                let ev = self.set_status(TaskStatus::Failed);
                (
                    Err(
                        DownloadError {
                            phase: Phase::Merge,
                            message: String::from_str("failed to merge chunk files"),
                            inner_message: inner,
                        },
                    ),
                    ev,
                )
            },
        }
    }

    /// A read-only snapshot of the task, as handed to observers.
    pub fn task(&self) -> (t: &Task)
        ensures
            *t == self.task_spec(),
    {
        &self.task
    }

    /// The chunk list, in id order.
    pub fn chunks(&self) -> (c: &Vec<Chunk>)
        ensures
            c@ == self.chunks_spec(),
    {
        &self.chunks
    }
}

/// The URL a probe outcome was finally served from: the effective URL a
/// redirect led to, or the task's own URL where none was observed.
pub open spec fn probe_served_url(p: ProbeOutcome, url: Seq<char>) -> Seq<char> {
    match p {
        ProbeOutcome::Response { effective_url: Some(u), .. } => u@,
        _ => url,
    }
}

/// State-machine safety: a well-formed controller whose task has finished
/// has every chunk finished — the merge is sequenced strictly after the
/// last chunk completes, and a failed merge never finishes the task.
pub proof fn lemma_finished_implies_all_chunks_finished(c: TaskController)
    requires
        c.wf(),
        c.task_spec().status == TaskStatus::Finished,
    ensures
        all_chunks_finished(c.chunks_spec()),
{
}

} // verus!
