//! The chunk data model: one contiguous inclusive byte range of a task's
//! resource, downloaded and stored independently of its siblings.

use vstd::prelude::*;

verus! {

/// Lifecycle status of a single chunk.
///
/// `Created` (assigned at partition time) → `Ready` (about to start) →
/// `Running` (streaming) → {`Finished` | `Paused` | `Failed`}.
#[derive(Debug, Clone, Copy, PartialEq, Eq, Structural)]
pub enum ChunkStatus {
    Created,
    Ready,
    Running,
    Paused,
    Finished,
    Failed,
}

/// The display name of each chunk status.
pub open spec fn chunk_status_name(s: ChunkStatus) -> Seq<char> {
    match s {
        ChunkStatus::Created => "Created"@,
        ChunkStatus::Ready => "Ready"@,
        ChunkStatus::Running => "Running"@,
        ChunkStatus::Paused => "Paused"@,
        ChunkStatus::Finished => "Finished"@,
        ChunkStatus::Failed => "Failed"@,
    }
}

impl ChunkStatus {
    /// The status as display text.
    pub fn to_string(&self) -> (r: String)
        ensures
            r@ == chunk_status_name(*self),
    {
        match self {
            ChunkStatus::Created => String::from_str("Created"),
            ChunkStatus::Ready => String::from_str("Ready"),
            ChunkStatus::Running => String::from_str("Running"),
            ChunkStatus::Paused => String::from_str("Paused"),
            ChunkStatus::Finished => String::from_str("Finished"),
            ChunkStatus::Failed => String::from_str("Failed"),
        }
    }
}

/// One contiguous inclusive byte range `[start, end]` of the resource,
/// streamed into its own on-disk file at `block_path`.
#[derive(Debug, Clone, PartialEq)]
pub struct Chunk {
    /// Dense zero-based id, equal to the chunk's position in the partition.
    pub id: usize,
    /// Path of the dedicated file this chunk is streamed into.
    pub block_path: String,
    /// First byte offset of the range (inclusive).
    pub start: usize,
    /// Last byte offset of the range (inclusive).
    pub end: usize,
    /// Lifecycle status.
    pub status: ChunkStatus,
}

impl Chunk {
    /// Number of bytes the chunk's range spans.
    pub open spec fn spec_len(self) -> int {
        self.end - self.start + 1
    }
}

} // verus!
