use listui::downloader::{DownloadResult, Downloader, StartOutcome};
use listui::registry::{EnqueueRegistry, PriorityGate, WorkerPool, DEFAULT_MAX_DOWNLOADS};
use listui::task::{command_args, DownloadTask, TaskAction, TaskEvent, TaskPhase};

#[test]
fn register_twice_is_refused_the_second_time() {
    let mut registry = EnqueueRegistry::new();
    assert!(registry.try_register("abc"));
    assert!(!registry.try_register("abc"));
    assert!(registry.contains("abc"));
}

#[test]
fn unregister_allows_a_new_registration() {
    let mut registry = EnqueueRegistry::new();
    assert!(registry.try_register("abc"));
    assert!(registry.try_register("xyz"));
    registry.unregister("abc");
    assert!(!registry.contains("abc"));
    assert!(registry.contains("xyz"));
    assert!(registry.try_register("abc"));
}

#[test]
fn unregister_of_an_unknown_source_changes_nothing() {
    let mut registry = EnqueueRegistry::new();
    assert!(registry.try_register("abc"));
    registry.unregister("nope");
    assert!(registry.contains("abc"));
    assert!(!registry.contains("nope"));
}

#[test]
fn claim_without_token_succeeds() {
    let mut gate = PriorityGate::new();
    assert!(gate.try_claim("a"));
    assert!(gate.try_claim("b"));
}

#[test]
fn claim_by_the_marked_source_clears_the_token() {
    let mut gate = PriorityGate::new();
    gate.set_latest("a");
    gate.set_latest("b");
    assert!(!gate.try_claim("a"));
    assert!(gate.is_latest("b"));
    assert!(gate.try_claim("b"));
    assert!(!gate.is_latest("b"));
    assert!(gate.try_claim("a"));
}

#[test]
fn gate_release_clears_only_a_matching_token() {
    let mut gate = PriorityGate::new();
    gate.set_latest("a");
    gate.release("b");
    assert!(gate.is_latest("a"));
    gate.release("a");
    assert!(!gate.is_latest("a"));
}

#[test]
fn pool_hands_out_as_many_permits_as_it_has() {
    let mut pool = WorkerPool::new(2);
    assert!(pool.try_acquire());
    assert!(pool.try_acquire());
    assert!(!pool.try_acquire());
    assert_eq!(pool.in_use(), 2);
    pool.release();
    assert_eq!(pool.in_use(), 1);
    assert!(pool.try_acquire());
    assert_eq!(pool.capacity(), 2);
}

#[test]
fn pool_release_without_permits_out_is_harmless() {
    let mut pool = WorkerPool::new(1);
    pool.release();
    assert_eq!(pool.in_use(), 0);
    assert!(pool.try_acquire());
    assert!(!pool.try_acquire());
}

#[test]
fn pool_without_permits_grants_nothing() {
    let mut pool = WorkerPool::new(0);
    assert!(!pool.try_acquire());
}

#[test]
fn default_capacity_is_three() {
    assert_eq!(DEFAULT_MAX_DOWNLOADS, 3);
}

#[test]
fn at_most_capacity_downloads_run_at_once() {
    let mut sched = Downloader::new(3);
    let ids = ["a", "b", "c", "d", "e"];
    let mut started = 0;
    for id in ids {
        assert!(sched.request(id));
    }
    // Latest first, then whoever asks.
    for id in ["e", "d", "c", "b", "a"] {
        if sched.try_start(id) == StartOutcome::Started {
            started += 1;
        }
        assert!(sched.active() <= sched.capacity());
    }
    assert_eq!(started, 3);
    assert_eq!(sched.active(), 3);
    assert_eq!(sched.try_start("b"), StartOutcome::NoPermit);
    sched.finish();
    assert_eq!(sched.active(), 2);
    assert_eq!(sched.try_start("b"), StartOutcome::Started);
    assert_eq!(sched.active(), 3);
}

#[test]
fn latest_request_is_granted_the_first_freed_permit() {
    let mut sched = Downloader::new(1);
    assert!(sched.request("busy"));
    assert_eq!(sched.try_start("busy"), StartOutcome::Started);
    assert!(sched.request("a"));
    assert!(sched.request("b"));
    assert_eq!(sched.try_start("a"), StartOutcome::NoPermit);
    assert_eq!(sched.try_start("b"), StartOutcome::NoPermit);
    sched.finish();
    assert_eq!(sched.try_start("a"), StartOutcome::Outranked);
    assert_eq!(sched.active(), 0);
    assert_eq!(sched.try_start("b"), StartOutcome::Started);
    assert_eq!(sched.active(), 1);
    sched.finish();
    assert_eq!(sched.try_start("a"), StartOutcome::Started);
}

#[test]
fn duplicate_request_still_becomes_the_latest() {
    let mut sched = Downloader::new(2);
    assert!(sched.request("a"));
    assert!(sched.request("b"));
    assert!(!sched.request("a"));
    assert!(sched.is_latest("a"));
    assert_eq!(sched.try_start("b"), StartOutcome::Outranked);
    assert_eq!(sched.try_start("a"), StartOutcome::Started);
    assert_eq!(sched.try_start("b"), StartOutcome::Started);
}

#[test]
fn acknowledge_retires_the_source_and_a_matching_token() {
    let mut sched = Downloader::new(1);
    assert!(sched.request("a"));
    assert!(sched.is_enqueued("a"));
    sched.acknowledge("a");
    assert!(!sched.is_enqueued("a"));
    assert!(!sched.is_latest("a"));
    assert!(sched.request("a"));
}

#[test]
fn b_requested_after_a_starts_before_a() {
    // One permit; A is requested, then B, before A was granted the permit.
    let mut sched = Downloader::new(0);
    let mut a = DownloadTask::new("A", "/music/a.mp3");
    let mut b = DownloadTask::new("B", "/music/b.mp3");
    assert!(matches!(a.step(&mut sched, TaskEvent::Begin), TaskAction::AwaitPermit));
    assert!(matches!(b.step(&mut sched, TaskEvent::Begin), TaskAction::AwaitPermit));

    let mut sched = Downloader::new(1);
    let mut a = DownloadTask::new("A", "/music/a.mp3");
    let mut b = DownloadTask::new("B", "/music/b.mp3");
    assert!(sched.request("other"));
    assert_eq!(sched.try_start("other"), StartOutcome::Started);
    assert!(matches!(a.step(&mut sched, TaskEvent::Begin), TaskAction::AwaitPermit));
    assert!(matches!(b.step(&mut sched, TaskEvent::Begin), TaskAction::AwaitPermit));
    sched.finish();
    assert!(matches!(a.step(&mut sched, TaskEvent::Wake), TaskAction::YieldAndRetry));
    assert_eq!(a.phase(), TaskPhase::Waiting);
    assert!(matches!(b.step(&mut sched, TaskEvent::Wake), TaskAction::Spawn { .. }));
    assert_eq!(b.phase(), TaskPhase::Running);
    assert!(matches!(a.step(&mut sched, TaskEvent::Wake), TaskAction::AwaitPermit));
    match b.step(&mut sched, TaskEvent::Exited { success: true }) {
        TaskAction::Report(DownloadResult::Completed { source_id, file_path }) => {
            assert_eq!(source_id, "B");
            assert_eq!(file_path, "/music/b.mp3");
        }
        other => panic!("unexpected action {:?}", other),
    }
    assert!(matches!(a.step(&mut sched, TaskEvent::Wake), TaskAction::Spawn { .. }));
}

#[test]
fn second_request_for_a_running_download_spawns_nothing() {
    let mut sched = Downloader::new(2);
    let mut first = DownloadTask::new("A", "/music/a.mp3");
    let mut second = DownloadTask::new("A", "/music/a.mp3");
    assert!(matches!(first.step(&mut sched, TaskEvent::Begin), TaskAction::Spawn { .. }));
    assert!(matches!(second.step(&mut sched, TaskEvent::Begin), TaskAction::Dropped));
    assert_eq!(second.phase(), TaskPhase::Done);
    assert!(matches!(second.step(&mut sched, TaskEvent::Wake), TaskAction::Ignored));
    assert_eq!(sched.active(), 1);
}

#[test]
fn spawn_asks_for_the_external_downloader_with_fixed_arguments() {
    let mut sched = Downloader::new(1);
    let mut task = DownloadTask::new("dQw4w9WgXcQ", "/music/song.mp3");
    match task.step(&mut sched, TaskEvent::Begin) {
        TaskAction::Spawn { program, args } => {
            assert_eq!(program, "yt-dlp");
            assert_eq!(
                args,
                vec![
                    "-x",
                    "--audio-format",
                    "mp3",
                    "-f",
                    "bestaudio",
                    "--output",
                    "/music/song.mp3",
                    "--embed-thumbnail",
                    "https://www.youtube.com/watch?v=dQw4w9WgXcQ",
                ]
            );
        }
        other => panic!("unexpected action {:?}", other),
    }
    assert_eq!(command_args("x", "y").len(), 9);
}

#[test]
fn failed_spawn_and_failed_exit_report_failure_and_free_the_permit() {
    let mut sched = Downloader::new(1);
    let mut task = DownloadTask::new("A", "a.mp3");
    assert!(matches!(task.step(&mut sched, TaskEvent::Begin), TaskAction::Spawn { .. }));
    assert_eq!(sched.active(), 1);
    match task.step(&mut sched, TaskEvent::SpawnFailed) {
        TaskAction::Report(DownloadResult::Failed { source_id }) => assert_eq!(source_id, "A"),
        other => panic!("unexpected action {:?}", other),
    }
    assert_eq!(sched.active(), 0);
    assert!(sched.is_enqueued("A"));

    let mut other = DownloadTask::new("B", "b.mp3");
    assert!(matches!(other.step(&mut sched, TaskEvent::Begin), TaskAction::Spawn { .. }));
    match other.step(&mut sched, TaskEvent::Exited { success: false }) {
        TaskAction::Report(DownloadResult::Failed { source_id }) => assert_eq!(source_id, "B"),
        unexpected => panic!("unexpected action {:?}", unexpected),
    }
    assert_eq!(sched.active(), 0);
}

#[test]
fn events_out_of_turn_are_ignored() {
    let mut sched = Downloader::new(1);
    let mut task = DownloadTask::new("A", "a.mp3");
    assert!(matches!(task.step(&mut sched, TaskEvent::Wake), TaskAction::Ignored));
    assert!(matches!(task.step(&mut sched, TaskEvent::Exited { success: true }), TaskAction::Ignored));
    assert_eq!(task.phase(), TaskPhase::Requested);
    assert!(!sched.is_enqueued("A"));
    assert_eq!(task.source_id(), "A");
    assert_eq!(task.file_path(), "a.mp3");
}

#[test]
fn download_id_enqueues_once() {
    let mut sched = Downloader::new(1);
    let mut task = sched.download_id("A", "a.mp3").expect("a fresh request gets a task");
    assert_eq!(task.phase(), TaskPhase::Waiting);
    assert_eq!(task.source_id(), "A");
    assert_eq!(task.file_path(), "a.mp3");
    assert!(sched.is_enqueued("A"));
    assert!(sched.is_latest("A"));
    assert!(sched.download_id("A", "a.mp3").is_none());
    assert!(matches!(task.step(&mut sched, TaskEvent::Wake), TaskAction::Spawn { .. }));
    assert!(sched.download_id("A", "a.mp3").is_none());
    assert!(sched.is_latest("A"));
    assert_eq!(sched.active(), 1);
}
