use tver_downloader::download::{completion_message, worker_args, DownloadRun, RunAction, RunPhase, WorkerEvent};
use tver_downloader::error::CoreError;

fn drive(lines: &[&str], success: bool, stderr: &str) -> (Vec<String>, Option<Result<(), CoreError>>) {
    let mut run = DownloadRun::new();
    assert!(matches!(run.start(), RunAction::Spawn));
    assert!(matches!(run.step(WorkerEvent::Spawned), RunAction::ReadLine));
    let mut emitted = Vec::new();
    for l in lines {
        match run.step(WorkerEvent::Line(l.to_string())) {
            RunAction::Emit(s) => emitted.push(s),
            _ => panic!("expected a notification"),
        }
    }
    assert!(matches!(run.step(WorkerEvent::OutputClosed), RunAction::AwaitExit));
    let fin = match run.step(WorkerEvent::Exited { success, stderr: stderr.to_string() }) {
        RunAction::Finish(r) => Some(r),
        _ => None,
    };
    assert!(run.is_finished());
    (emitted, fin)
}

#[test]
fn every_line_is_forwarded_in_order_before_success() {
    let lines = ["{\"status\":\"start\"}", "plain text", "", "done"];
    let (emitted, fin) = drive(&lines, true, "");
    assert_eq!(emitted, lines.to_vec());
    assert!(matches!(fin, Some(Ok(()))));
    assert_eq!(completion_message(), "Download completed successfully");
}

#[test]
fn failed_worker_keeps_its_notifications() {
    let (emitted, fin) = drive(&["a", "b", "c"], false, "boom");
    assert_eq!(emitted, vec!["a", "b", "c"]);
    match fin {
        Some(Err(e)) => {
            assert!(matches!(e, CoreError::WorkerProcessFailed(_)));
            assert_eq!(e.message(), "Download failed: boom");
        }
        _ => panic!("expected a worker failure"),
    }
}

#[test]
fn failed_worker_without_stderr() {
    let (emitted, fin) = drive(&[], false, "");
    assert!(emitted.is_empty());
    assert_eq!(fin.unwrap().err().unwrap().message(), "Download failed");
}

#[test]
fn spawn_failure_emits_nothing() {
    let mut run = DownloadRun::new();
    run.start();
    match run.step(WorkerEvent::SpawnFailed("no python3".to_string())) {
        RunAction::Finish(Err(e)) => assert_eq!(e.message(), "Failed to start download: no python3"),
        _ => panic!("expected a spawn failure"),
    }
    assert!(matches!(run.phase, RunPhase::Failed));
    assert!(matches!(run.step(WorkerEvent::Line("late".to_string())), RunAction::Ignore));
}

#[test]
fn terminal_state_is_reached_once() {
    let mut run = DownloadRun::new();
    run.start();
    run.step(WorkerEvent::Spawned);
    run.step(WorkerEvent::OutputClosed);
    assert!(matches!(run.step(WorkerEvent::WaitFailed("gone".to_string())), RunAction::Finish(Err(_))));
    assert!(matches!(run.step(WorkerEvent::Exited { success: true, stderr: String::new() }), RunAction::Ignore));
    assert!(matches!(run.start(), RunAction::Ignore));
}

#[test]
fn worker_arguments() {
    assert_eq!(worker_args("w.py", "/c.json"), vec!["w.py", "--config", "/c.json"]);
}
