use universe_supervisor::watcher::{
    classify_line, contains_text, LineClass, ProcessStatus, ProcessWatcher, StopStep, WatcherError,
};

#[test]
fn start_stop_start_spawns_fresh_instance() {
    let mut w = ProcessWatcher::new();
    let first = w.begin_start().unwrap();
    w.on_ready(first);
    assert_eq!(w.status(), ProcessStatus::Running);
    assert_eq!(w.begin_stop(), StopStep::Terminate(first));
    w.on_exit(first, 0);
    assert_eq!(w.status(), ProcessStatus::Stopped(0));
    let second = w.begin_start().unwrap();
    assert_eq!(second, first + 1);
    w.on_exit(first, 9);
    w.on_ready(first);
    assert_eq!(w.status(), ProcessStatus::Starting);
    w.on_ready(second);
    assert_eq!(w.status(), ProcessStatus::Running);
}

#[test]
fn start_while_running_is_refused() {
    let mut w = ProcessWatcher::new();
    let id = w.begin_start().unwrap();
    assert_eq!(w.begin_start(), Err(WatcherError::AlreadyRunning));
    w.on_ready(id);
    assert_eq!(w.begin_start(), Err(WatcherError::AlreadyRunning));
    assert_eq!(w.state().instance, id);
}

#[test]
fn stop_when_not_started_or_stopped_is_noop() {
    let mut w = ProcessWatcher::new();
    assert_eq!(w.begin_stop(), StopStep::Done(0));
    assert_eq!(w.status(), ProcessStatus::NotStarted);
    let id = w.begin_start().unwrap();
    w.on_ready(id);
    w.begin_stop();
    w.on_exit(id, 3);
    assert_eq!(w.begin_stop(), StopStep::Done(3));
    assert_eq!(w.begin_stop(), StopStep::Done(3));
    assert_eq!(w.status(), ProcessStatus::Stopped(3));
}

#[test]
fn stop_in_progress_waits() {
    let mut w = ProcessWatcher::new();
    let id = w.begin_start().unwrap();
    w.on_ready(id);
    assert_eq!(w.begin_stop(), StopStep::Terminate(id));
    assert_eq!(w.begin_stop(), StopStep::AwaitExit(id));
    assert!(w.needs_kill(id));
    w.on_exit(id, -9);
    assert!(!w.needs_kill(id));
}

#[test]
fn crash_is_reported_once() {
    let mut w = ProcessWatcher::new();
    let id = w.begin_start().unwrap();
    w.on_ready(id);
    w.on_exit(id, 101);
    assert_eq!(w.status(), ProcessStatus::Crashed(101));
    assert_eq!(w.take_crash(), Some(101));
    assert_eq!(w.take_crash(), None);
    w.on_ready(id);
    assert_eq!(w.status(), ProcessStatus::Crashed(101));
}

#[test]
fn start_outcomes() {
    let mut w = ProcessWatcher::new();
    let id = w.begin_start().unwrap();
    assert_eq!(w.start_outcome(), None);
    w.on_exit(id, 114);
    assert_eq!(w.start_outcome(), Some(Err(WatcherError::ExitCode(114))));
    let id2 = w.begin_start().unwrap();
    assert!(w.on_startup_timeout(id2));
    assert_eq!(w.start_outcome(), Some(Err(WatcherError::StartupTimeout)));
    assert!(!w.on_startup_timeout(id2));
    let mut ok = ProcessWatcher::new();
    let i = ok.begin_start().unwrap();
    ok.on_ready(i);
    assert_eq!(ok.start_outcome(), Some(Ok(())));
}

#[test]
fn line_classification() {
    let patterns = vec!["database corrupt".to_string(), "panicked".to_string()];
    assert_eq!(classify_line("node: Listening on port 18142", "Listening", &patterns), LineClass::Ready);
    assert_eq!(classify_line("ERROR database corrupt, reset", "Listening", &patterns), LineClass::Fatal(0));
    assert_eq!(classify_line("thread panicked while Listening", "Listening", &patterns), LineClass::Fatal(1));
    assert_eq!(classify_line("syncing headers", "Listening", &patterns), LineClass::Plain);
    assert!(contains_text("abc", ""));
    assert!(!contains_text("", "a"));
    assert!(contains_text("aaab", "aab"));
}
