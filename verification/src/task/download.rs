//! The chunk downloader: the decision core of the worker that streams one
//! chunk's byte range into the chunk's own file.
//!
//! The surrounding application owns the connection and the file handle; it
//! asks this state machine which sub-range to request (so an interrupted
//! chunk resumes exactly where its file ends), feeds in every block of
//! received bytes, every stream end and every failure, and follows what
//! the state machine decides: continue, wait and retry, pause, finish,
//! or fail. Bytes already flushed are never reset by a retry.

use vstd::prelude::*;

use crate::task::chunk::{Chunk, ChunkStatus};

verus! {

/// Backoff grows linearly with the attempt number and is capped, so retry
/// waits stay bounded.
pub const BACKOFF_UNIT_MS: u64 = 500;

/// The number of failed attempts after which the backoff delay stops
/// growing.
pub const BACKOFF_CAP_ATTEMPTS: u64 = 10;

/// The delay in milliseconds before retry attempt `k` (1-based).
pub open spec fn backoff_delay_spec(k: nat) -> nat {
    if k > BACKOFF_CAP_ATTEMPTS {
        (BACKOFF_UNIT_MS * BACKOFF_CAP_ATTEMPTS) as nat
    } else {
        (BACKOFF_UNIT_MS as nat) * k
    }
}

/// The bytes of the resource an inclusive byte range holds.
pub open spec fn range_bytes(resource: Seq<u8>, start: int, end: int) -> Seq<u8> {
    resource.subrange(start, end + 1)
}

/// Resume correctness: the bytes of a range downloaded in two sessions —
/// the first interrupted after `k` bytes, the second asking only for the
/// remaining sub-range — concatenate to exactly the bytes of an
/// uninterrupted download of the whole range.
pub proof fn lemma_resume_round_trip(resource: Seq<u8>, start: int, end: int, k: int)
    requires
        0 <= start <= end < resource.len(),
        0 <= k <= end - start + 1,
    ensures
        range_bytes(resource, start, start + k - 1) + range_bytes(resource, start + k, end)
            == range_bytes(resource, start, end),
{
    assert(range_bytes(resource, start, start + k - 1) + range_bytes(resource, start + k, end)
        =~= range_bytes(resource, start, end));
}

/// The verdict after a transfer failure: wait and retry, or give the
/// chunk up.
#[derive(Debug, Clone, Copy, PartialEq, Eq, Structural)]
pub enum RetryVerdict {
    /// Try again after this many milliseconds; the bytes already written
    /// stay where they are.
    Retry(u64),
    /// Retries are exhausted, or the failure is not transient: the chunk
    /// has failed.
    GiveUp,
}

/// The downloader state machine for exactly one chunk.
pub struct ChunkDownloader {
    /// Id of the chunk being downloaded.
    pub chunk_id: usize,
    /// First byte offset of the chunk's range (inclusive).
    pub start: usize,
    /// Last byte offset of the chunk's range (inclusive).
    pub end: usize,
    /// Bytes of the range confirmed written to the chunk file so far.
    pub received: usize,
    /// Transient failures seen so far.
    pub attempts: usize,
    /// Bound on transient failures before the chunk is given up.
    pub max_attempts: usize,
    /// The chunk's status as this downloader drives it.
    pub status: ChunkStatus,
}

impl ChunkDownloader {
    pub open spec fn chunk_id_spec(self) -> usize {
        self.chunk_id
    }

    pub open spec fn start_spec(self) -> usize {
        self.start
    }

    pub open spec fn end_spec(self) -> usize {
        self.end
    }

    pub open spec fn received_spec(self) -> usize {
        self.received
    }

    pub open spec fn attempts_spec(self) -> usize {
        self.attempts
    }

    pub open spec fn max_attempts_spec(self) -> usize {
        self.max_attempts
    }

    pub open spec fn status_spec(self) -> ChunkStatus {
        self.status
    }

    /// The number of bytes the chunk's range spans.
    pub open spec fn range_len(self) -> int {
        self.end_spec() - self.start_spec() + 1
    }

    /// Downloader well-formedness: the range is non-empty, what was
    /// received never exceeds the range, and the attempt count stays
    /// within its bound.
    pub open spec fn wf(self) -> bool {
        &&& self.start_spec() <= self.end_spec()
        &&& self.range_len() <= usize::MAX
        &&& self.received_spec() <= self.range_len()
        &&& self.attempts_spec() <= self.max_attempts_spec()
        &&& self.max_attempts_spec() >= 1
    }

    /// A downloader for `chunk`, about to start. `resume_len` is the
    /// number of bytes the chunk's file already holds from an earlier
    /// session; those bytes are kept, never re-fetched.
    pub fn new(chunk: &Chunk, resume_len: usize, max_attempts: usize) -> (d: ChunkDownloader)
        requires
            chunk.start <= chunk.end,
            chunk.spec_len() <= usize::MAX,
            resume_len <= chunk.spec_len(),
            max_attempts >= 1,
        ensures
            d.wf(),
            d.chunk_id_spec() == chunk.id,
            d.start_spec() == chunk.start,
            d.end_spec() == chunk.end,
            d.received_spec() == resume_len,
            d.attempts_spec() == 0,
            d.max_attempts_spec() == max_attempts,
            d.status_spec() == ChunkStatus::Ready,
    {
        ChunkDownloader {
            chunk_id: chunk.id,
            start: chunk.start,
            end: chunk.end,
            received: resume_len,
            attempts: 0,
            max_attempts,
            status: ChunkStatus::Ready,
        }
    }

    /// The sub-range the next retrieval request must ask for: everything
    /// that is not yet in the chunk file, `[start + received, end]` — or
    /// nothing, when the file is already complete.
    pub fn next_request(&self) -> (r: Option<(usize, usize)>)
        requires
            self.wf(),
        ensures
            self.received_spec() < self.range_len() ==> r == Some(
                (((self.start_spec() + self.received_spec()) as usize), self.end_spec()),
            ),
            self.received_spec() == self.range_len() ==> r is None,
    {
        let remaining = self.end - self.start + 1 - self.received;
        if remaining > 0 {
            Some((self.start + self.received, self.end))
        } else {
            None
        }
    }

    /// The request has been sent and the response body is being streamed.
    pub fn begin(&mut self)
        requires
            old(self).wf(),
            old(self).status_spec() == ChunkStatus::Ready,
        ensures
            final(self).wf(),
            *final(self) == (ChunkDownloader { status: ChunkStatus::Running, ..*old(self) }),
    {
        self.status = ChunkStatus::Running;
    }

    /// A block of `n` bytes has been flushed to the chunk file.
    ///
    /// Returns `true` and advances the received count while the server
    /// stays within the requested range; a server that delivers more bytes
    /// than the range holds violates the exchange, and the chunk fails at
    /// once (the file's surplus is the application's to discard).
    pub fn on_bytes(&mut self, n: usize) -> (ok: bool)
        requires
            old(self).wf(),
            old(self).status_spec() == ChunkStatus::Running,
        ensures
            final(self).wf(),
            if old(self).received_spec() + n <= old(self).range_len() {
                ok && *final(self) == (ChunkDownloader {
                    received: (old(self).received_spec() + n) as usize,
                    ..*old(self)
                })
            } else {
                !ok && *final(self) == (ChunkDownloader {
                    status: ChunkStatus::Failed,
                    ..*old(self)
                })
            },
    {
        let capacity = self.end - self.start + 1 - self.received;
        if n <= capacity {
            self.received = self.received + n;
            true
        } else {
            self.status = ChunkStatus::Failed;
            false
        }
    }

    /// The response body ended. The chunk is finished exactly when every
    /// byte of its range is in the file; a shorter stream is a truncated
    /// read, left `Running` for `on_error` to judge as a transient
    /// failure.
    pub fn on_stream_end(&mut self) -> (done: bool)
        requires
            old(self).wf(),
            old(self).status_spec() == ChunkStatus::Running,
        ensures
            final(self).wf(),
            done == (old(self).received_spec() == old(self).range_len()),
            if done {
                *final(self) == (ChunkDownloader { status: ChunkStatus::Finished, ..*old(self) })
            } else {
                *final(self) == *old(self)
            },
    {
        let remaining = self.end - self.start + 1 - self.received;
        if remaining == 0 {
            self.status = ChunkStatus::Finished;
            true
        } else {
            false
        }
    }

    /// A transfer attempt failed.
    ///
    /// A transient failure (timeout, reset, truncated read) within the
    /// attempt bound makes the chunk `Ready` again for a resumed request
    /// after a bounded backoff; a non-transient failure, or exhausting the
    /// bound, fails the chunk immediately. Bytes already written are kept
    /// either way.
    pub fn on_error(&mut self, transient: bool) -> (verdict: RetryVerdict)
        requires
            old(self).wf(),
            old(self).status_spec() == ChunkStatus::Running || old(self).status_spec()
                == ChunkStatus::Ready,
        ensures
            final(self).wf(),
            final(self).received_spec() == old(self).received_spec(),
            if transient && old(self).attempts_spec() < old(self).max_attempts_spec() {
                &&& *final(self) == (ChunkDownloader {
                    attempts: (old(self).attempts_spec() + 1) as usize,
                    status: ChunkStatus::Ready,
                    ..*old(self)
                })
                &&& verdict == RetryVerdict::Retry(
                    backoff_delay_spec((old(self).attempts_spec() + 1) as nat) as u64,
                )
            } else {
                &&& *final(self) == (ChunkDownloader {
                    status: ChunkStatus::Failed,
                    ..*old(self)
                })
                &&& verdict == RetryVerdict::GiveUp
            },
    {
        if transient && self.attempts < self.max_attempts {
            self.attempts = self.attempts + 1;
            self.status = ChunkStatus::Ready;
            RetryVerdict::Retry(backoff_delay(self.attempts))
        } else {
            self.status = ChunkStatus::Failed;
            RetryVerdict::GiveUp
        }
    }

    /// A cooperative pause signal was observed at a read boundary: the
    /// chunk is `Paused`, not failed, and every flushed byte stays.
    pub fn on_pause(&mut self)
        requires
            old(self).wf(),
            old(self).status_spec() == ChunkStatus::Running || old(self).status_spec()
                == ChunkStatus::Ready,
        ensures
            final(self).wf(),
            *final(self) == (ChunkDownloader { status: ChunkStatus::Paused, ..*old(self) }),
    {
        self.status = ChunkStatus::Paused;
    }

}

/// The delay in milliseconds before retry attempt `k` (1-based).
pub fn backoff_delay(k: usize) -> (r: u64)
    ensures
        r == backoff_delay_spec(k as nat),
{
    if k as u64 > BACKOFF_CAP_ATTEMPTS {
        BACKOFF_UNIT_MS * BACKOFF_CAP_ATTEMPTS
    } else {
        BACKOFF_UNIT_MS * (k as u64)
    }
}

} // verus!
