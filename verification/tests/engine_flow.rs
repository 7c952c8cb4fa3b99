use fetchr::task::chunk::{Chunk, ChunkStatus};
use fetchr::task::controller::{Phase, TaskController};
use fetchr::task::download::{backoff_delay, ChunkDownloader, RetryVerdict};
use fetchr::task::merge::merge_contents;
use fetchr::task::probe::{interpret_probe, ProbeOutcome};
use fetchr::task::{Task, TaskStatus};

fn response(length: Option<&str>, ranges: Option<&str>) -> ProbeOutcome {
    ProbeOutcome::Response {
        content_length: length.map(|s| s.to_string()),
        accept_ranges: ranges.map(|s| s.to_string()),
        effective_url: None,
    }
}

fn controller(nthread: usize) -> TaskController {
    let task = Task::new(
        "http://example.test/pkg/archive.bin".to_string(),
        "/downloads/archive.bin".to_string(),
        nthread,
    );
    TaskController::new(Box::new(task))
}

fn ready_controller(length: &str, ranges: Option<&str>, nthread: usize) -> TaskController {
    let mut c = controller(nthread);
    let (res, ev) = c.init(response(Some(length), ranges));
    assert!(res.is_ok());
    assert_eq!(ev.previous_state, TaskStatus::Created);
    assert_eq!(ev.current_state, TaskStatus::Ready);
    c
}

#[test]
fn task_new_starts_blank() {
    let task = Task::new("http://example.test/a".to_string(), "/tmp/a".to_string(), 8);
    assert_eq!(task.original_url, "http://example.test/a");
    assert_eq!(task.url, "http://example.test/a");
    assert_eq!(task.path, "/tmp/a");
    assert_eq!(task.nthread, 8);
    assert_eq!(task.size, 0);
    assert_eq!(task.downloaded_size, 0);
    assert_eq!(task.status, TaskStatus::Created);
}

#[test]
fn init_partitions_and_names_chunk_files() {
    let mut c = controller(4);
    let (res, ev) = c.init(response(Some("1000"), Some("bytes")));
    assert!(res.is_ok());
    assert_eq!(ev.previous_state, TaskStatus::Created);
    assert_eq!(ev.current_state, TaskStatus::Ready);
    assert_eq!(c.task().status, TaskStatus::Ready);
    assert_eq!(c.task().size, 1000);
    let chunks: &Vec<Chunk> = c.chunks();
    assert_eq!(chunks.len(), 4);
    let expected = [(0, 249), (250, 499), (500, 749), (750, 999)];
    for (i, chunk) in chunks.iter().enumerate() {
        assert_eq!(chunk.id, i);
        assert_eq!((chunk.start, chunk.end), expected[i]);
        assert_eq!(chunk.status, ChunkStatus::Created);
        assert_eq!(chunk.block_path, format!("/downloads/archive.bin.part.{}", i));
    }
}

#[test]
fn init_without_range_header_single_chunk() {
    let mut c = controller(8);
    let (res, _) = c.init(response(Some("1000"), None));
    assert!(res.is_ok());
    assert_eq!(c.chunks().len(), 1);
    assert_eq!((c.chunks()[0].start, c.chunks()[0].end), (0, 999));
}

#[test]
fn init_with_mismatched_range_unit_single_chunk() {
    let mut c = controller(8);
    let (res, _) = c.init(response(Some("1000"), Some("none")));
    assert!(res.is_ok());
    assert_eq!(c.chunks().len(), 1);
}

#[test]
fn init_updates_effective_url_and_keeps_original() {
    let mut c = controller(2);
    let probe = ProbeOutcome::Response {
        content_length: Some("10".to_string()),
        accept_ranges: Some("bytes".to_string()),
        effective_url: Some("http://mirror.example.test/archive.bin".to_string()),
    };
    let (res, _) = c.init(probe);
    assert!(res.is_ok());
    assert_eq!(c.task().url, "http://mirror.example.test/archive.bin");
    assert_eq!(c.task().original_url, "http://example.test/pkg/archive.bin");
}

#[test]
fn init_failure_fails_task_without_chunks() {
    let mut c = controller(4);
    let probe = ProbeOutcome::Failure {
        message: "failed to connect to server".to_string(),
        inner_message: "connection refused".to_string(),
    };
    let (res, ev) = c.init(probe);
    let err = res.unwrap_err();
    assert!(matches!(err.phase, Phase::Init));
    assert_eq!(err.message, "failed to connect to server");
    assert_eq!(err.inner_message, "connection refused");
    assert_eq!(ev.current_state, TaskStatus::Failed);
    assert_eq!(c.task().status, TaskStatus::Failed);
    assert!(c.chunks().is_empty());
}

#[test]
fn init_rejects_missing_malformed_and_zero_length() {
    for length in [None, Some("garbage"), Some("0"), Some("")] {
        let mut c = controller(4);
        let (res, _) = c.init(response(length, Some("bytes")));
        let err = res.unwrap_err();
        assert!(matches!(err.phase, Phase::Init));
        assert_eq!(err.message, "missing, malformed or zero length header");
        assert_eq!(err.inner_message, length.unwrap_or(""));
        assert_eq!(c.task().status, TaskStatus::Failed);
        assert!(c.chunks().is_empty());
    }
}

#[test]
fn interpret_probe_reads_length_and_range_flag() {
    let r = interpret_probe(response(Some("1000"), Some("bytes"))).unwrap();
    assert_eq!(r, (1000, true));
    let r = interpret_probe(response(Some("5"), None)).unwrap();
    assert_eq!(r, (5, false));
    let r = interpret_probe(response(Some("5"), Some("none"))).unwrap();
    assert_eq!(r, (5, false));
    assert!(interpret_probe(response(None, Some("bytes"))).is_err());
}

#[test]
fn start_marks_chunks_ready_and_task_running() {
    let mut c = ready_controller("1000", Some("bytes"), 4);
    let ev = c.start();
    assert_eq!(ev.previous_state, TaskStatus::Ready);
    assert_eq!(ev.current_state, TaskStatus::Running);
    assert_eq!(c.task().status, TaskStatus::Running);
    for chunk in c.chunks() {
        assert_eq!(chunk.status, ChunkStatus::Ready);
    }
}

#[test]
fn pause_and_resume_round_trip() {
    let mut c = ready_controller("1000", Some("bytes"), 4);
    c.start();
    let ev = c.pause();
    assert_eq!(ev.previous_state, TaskStatus::Running);
    assert_eq!(ev.current_state, TaskStatus::Paused);
    assert_eq!(c.task().status, TaskStatus::Paused);
    let ev = c.resume();
    assert_eq!(ev.previous_state, TaskStatus::Paused);
    assert_eq!(ev.current_state, TaskStatus::Running);
    assert_eq!(c.task().status, TaskStatus::Running);
}

#[test]
fn cancel_fails_a_running_task() {
    let mut c = ready_controller("1000", Some("bytes"), 4);
    c.start();
    let ev = c.cancel();
    assert_eq!(ev.previous_state, TaskStatus::Running);
    assert_eq!(ev.current_state, TaskStatus::Failed);
    assert_eq!(c.task().status, TaskStatus::Failed);
}

#[test]
fn progress_accumulates() {
    let mut c = ready_controller("1000", Some("bytes"), 4);
    c.start();
    c.report_progress(250);
    c.report_progress(300);
    assert_eq!(c.task().downloaded_size, 550);
    assert_eq!(c.task().size, 1000);
}

#[test]
fn scenario_c_failed_chunk_fails_task_fast() {
    let mut c = ready_controller("1000", Some("bytes"), 4);
    c.start();
    assert!(c.report_chunk_status(0, ChunkStatus::Finished).is_none());
    assert!(c.report_chunk_status(1, ChunkStatus::Running).is_none());
    assert!(c.report_chunk_status(3, ChunkStatus::Paused).is_none());
    // chunk 2 exhausts its retries with a fatal error
    let ev = c.report_chunk_status(2, ChunkStatus::Failed).unwrap();
    assert_eq!(ev.previous_state, TaskStatus::Running);
    assert_eq!(ev.current_state, TaskStatus::Failed);
    assert_eq!(c.task().status, TaskStatus::Failed);
    // the other chunks keep their last reported status
    assert_eq!(c.chunks()[0].status, ChunkStatus::Finished);
    assert_eq!(c.chunks()[1].status, ChunkStatus::Running);
    assert_eq!(c.chunks()[3].status, ChunkStatus::Paused);
    // the merge precondition never holds, so the merger is never invoked
    assert!(!c.all_finished());
    // a later report does not resurrect the task
    assert!(c.report_chunk_status(1, ChunkStatus::Paused).is_none());
    assert_eq!(c.task().status, TaskStatus::Failed);
}

#[test]
fn scenario_d_all_finished_then_merge_finishes_task() {
    let resource: Vec<u8> = (0..1000u32).map(|i| (i % 251) as u8).collect();
    let mut c = ready_controller("1000", Some("bytes"), 4);
    c.start();
    // chunks finish out of order; completion order carries no meaning
    for id in [2, 0, 3, 1] {
        assert!(c.report_chunk_status(id, ChunkStatus::Finished).is_none());
    }
    assert!(c.all_finished());
    // merge in ascending id order 0,1,2,3
    let parts: Vec<Vec<u8>> = c
        .chunks()
        .iter()
        .map(|ch| resource[ch.start..=ch.end].to_vec())
        .collect();
    let merged = merge_contents(&parts);
    assert_eq!(merged, resource);
    assert_eq!(merged.len(), c.task().size);
    let (res, ev) = c.complete_merge(Ok(merged.len()));
    assert!(res.is_ok());
    assert_eq!(ev.previous_state, TaskStatus::Running);
    assert_eq!(ev.current_state, TaskStatus::Finished);
    assert_eq!(c.task().status, TaskStatus::Finished);
}

#[test]
fn merge_is_deterministic_in_id_order() {
    let resource: Vec<u8> = (0..1000u32).map(|i| (i * 7 % 256) as u8).collect();
    let bounds = [(0usize, 249usize), (250, 499), (500, 749), (750, 999)];
    let parts: Vec<Vec<u8>> =
        bounds.iter().map(|&(s, e)| resource[s..=e].to_vec()).collect();
    // whatever order the chunks finished in, the merger concatenates the
    // same id-ordered parts and must produce the same artifact
    let first = merge_contents(&parts);
    let second = merge_contents(&parts);
    assert_eq!(first, second);
    assert_eq!(first, resource);
}

#[test]
fn merge_size_mismatch_fails_task_and_keeps_error_phase() {
    let mut c = ready_controller("1000", Some("bytes"), 4);
    c.start();
    for id in 0..4 {
        c.report_chunk_status(id, ChunkStatus::Finished);
    }
    let (res, ev) = c.complete_merge(Ok(999));
    let err = res.unwrap_err();
    assert!(matches!(err.phase, Phase::Merge));
    assert_eq!(err.message, "merged file size does not match the probed content length");
    assert_eq!(ev.current_state, TaskStatus::Failed);
    assert_eq!(c.task().status, TaskStatus::Failed);
}

#[test]
fn merge_io_failure_fails_task_with_diagnostic() {
    let mut c = ready_controller("10", Some("bytes"), 2);
    c.start();
    c.report_chunk_status(0, ChunkStatus::Finished);
    c.report_chunk_status(1, ChunkStatus::Finished);
    let (res, _) = c.complete_merge(Err("permission denied".to_string()));
    let err = res.unwrap_err();
    assert!(matches!(err.phase, Phase::Merge));
    assert_eq!(err.message, "failed to merge chunk files");
    assert_eq!(err.inner_message, "permission denied");
    assert_eq!(c.task().status, TaskStatus::Failed);
}

#[test]
fn resume_two_sessions_byte_identical() {
    let resource: Vec<u8> = (0..1000u32).map(|i| (i * 13 % 256) as u8).collect();
    let chunk = Chunk {
        id: 1,
        block_path: "/downloads/archive.bin.part.1".to_string(),
        start: 250,
        end: 499,
        status: ChunkStatus::Ready,
    };

    // uninterrupted single-session download of the full range
    let mut single = ChunkDownloader::new(&chunk, 0, 3);
    let (s, e) = single.next_request().unwrap();
    assert_eq!((s, e), (250, 499));
    let mut whole_file: Vec<u8> = Vec::new();
    single.begin();
    whole_file.extend_from_slice(&resource[s..=e]);
    assert!(single.on_bytes(whole_file.len()));
    assert!(single.on_stream_end());

    // first session interrupted after 100 bytes
    let mut file: Vec<u8> = Vec::new();
    let mut first = ChunkDownloader::new(&chunk, 0, 3);
    let (s, e) = first.next_request().unwrap();
    assert_eq!((s, e), (250, 499));
    first.begin();
    file.extend_from_slice(&resource[s..s + 100]);
    assert!(first.on_bytes(100));
    // second session resumes from what the file already holds
    let mut second = ChunkDownloader::new(&chunk, file.len(), 3);
    let (s, e) = second.next_request().unwrap();
    assert_eq!((s, e), (350, 499));
    second.begin();
    file.extend_from_slice(&resource[s..=e]);
    assert!(second.on_bytes(150));
    assert!(second.on_stream_end());
    assert_eq!(second.status, ChunkStatus::Finished);

    assert_eq!(file, whole_file);
    assert_eq!(file, resource[250..=499].to_vec());
}

#[test]
fn completed_chunk_requests_nothing() {
    let chunk = Chunk {
        id: 0,
        block_path: "a.part.0".to_string(),
        start: 0,
        end: 9,
        status: ChunkStatus::Ready,
    };
    let d = ChunkDownloader::new(&chunk, 10, 3);
    assert!(d.next_request().is_none());
}

#[test]
fn transient_errors_retry_with_backoff_then_give_up() {
    let chunk = Chunk {
        id: 0,
        block_path: "a.part.0".to_string(),
        start: 0,
        end: 99,
        status: ChunkStatus::Ready,
    };
    let mut d = ChunkDownloader::new(&chunk, 0, 3);
    d.begin();
    assert!(d.on_bytes(40));
    assert_eq!(d.on_error(true), RetryVerdict::Retry(500));
    assert_eq!(d.status, ChunkStatus::Ready);
    assert_eq!(d.received, 40, "retry must not reset written bytes");
    d.begin();
    assert_eq!(d.on_error(true), RetryVerdict::Retry(1000));
    d.begin();
    assert_eq!(d.on_error(true), RetryVerdict::Retry(1500));
    d.begin();
    // the bounded attempt count is exhausted
    assert_eq!(d.on_error(true), RetryVerdict::GiveUp);
    assert_eq!(d.status, ChunkStatus::Failed);
    assert_eq!(d.received, 40);
}

#[test]
fn fatal_error_fails_chunk_immediately() {
    let chunk = Chunk {
        id: 0,
        block_path: "a.part.0".to_string(),
        start: 0,
        end: 99,
        status: ChunkStatus::Ready,
    };
    let mut d = ChunkDownloader::new(&chunk, 0, 5);
    d.begin();
    assert_eq!(d.on_error(false), RetryVerdict::GiveUp);
    assert_eq!(d.status, ChunkStatus::Failed);
}

#[test]
fn over_delivery_fails_chunk() {
    let chunk = Chunk {
        id: 0,
        block_path: "a.part.0".to_string(),
        start: 0,
        end: 9,
        status: ChunkStatus::Ready,
    };
    let mut d = ChunkDownloader::new(&chunk, 0, 3);
    d.begin();
    assert!(!d.on_bytes(11));
    assert_eq!(d.status, ChunkStatus::Failed);
}

#[test]
fn pause_keeps_bytes_and_is_not_a_failure() {
    let chunk = Chunk {
        id: 0,
        block_path: "a.part.0".to_string(),
        start: 0,
        end: 99,
        status: ChunkStatus::Ready,
    };
    let mut d = ChunkDownloader::new(&chunk, 0, 3);
    d.begin();
    assert!(d.on_bytes(30));
    d.on_pause();
    assert_eq!(d.status, ChunkStatus::Paused);
    assert_eq!(d.received, 30);
}

#[test]
fn truncated_stream_is_not_finished() {
    let chunk = Chunk {
        id: 0,
        block_path: "a.part.0".to_string(),
        start: 0,
        end: 99,
        status: ChunkStatus::Ready,
    };
    let mut d = ChunkDownloader::new(&chunk, 0, 3);
    d.begin();
    assert!(d.on_bytes(60));
    assert!(!d.on_stream_end());
    assert_eq!(d.status, ChunkStatus::Running);
}

#[test]
fn backoff_is_linear_and_capped() {
    assert_eq!(backoff_delay(1), 500);
    assert_eq!(backoff_delay(2), 1000);
    assert_eq!(backoff_delay(10), 5000);
    assert_eq!(backoff_delay(11), 5000);
    assert_eq!(backoff_delay(100), 5000);
}

#[test]
fn chunk_status_names() {
    assert_eq!(ChunkStatus::Created.to_string(), "Created");
    assert_eq!(ChunkStatus::Ready.to_string(), "Ready");
    assert_eq!(ChunkStatus::Running.to_string(), "Running");
    assert_eq!(ChunkStatus::Paused.to_string(), "Paused");
    assert_eq!(ChunkStatus::Finished.to_string(), "Finished");
    assert_eq!(ChunkStatus::Failed.to_string(), "Failed");
}

#[test]
fn merge_of_empty_part_list_is_empty() {
    let parts: Vec<Vec<u8>> = Vec::new();
    assert!(merge_contents(&parts).is_empty());
}
