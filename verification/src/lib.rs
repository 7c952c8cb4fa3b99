//! Core engine of a segmented (multi-connection) file downloader.
//!
//! A `Task` describes one download of a single resource to a single
//! destination path. After a metadata probe has established the resource's
//! total length and whether the server honours byte-range requests, the
//! partitioner splits the resource into contiguous, disjoint byte ranges,
//! one `Chunk` per range. Each chunk is streamed into its own file by a
//! chunk downloader that supports resuming and bounded retry; once every
//! chunk is finished, the merger concatenates the chunk files in id order
//! into the destination artifact. The `TaskController` owns the task and
//! chunk state machines and decides every transition; the surrounding
//! application performs the network and disk I/O and feeds the outcomes
//! back in as plain values.

pub mod decimal;
pub mod task;
