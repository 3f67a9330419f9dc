use pythonbox::docker::{
    sandbox_config, Action, Event, ExecutionRequest, Failure, Lifecycle, LogChunk, ResourceLimits,
    RunCodeResponse, ENTRY_POINT, WORKING_DIR,
};
use pythonbox::AppError;

fn request(archive: &[u8], budget_ms: u64) -> ExecutionRequest {
    ExecutionRequest { archive: archive.to_vec(), time_budget_ms: budget_ms, max_memory: 100 * 0x100000 }
}

/// Runs the setup steps with success, ending in the running phase.
fn started(archive: &[u8], budget_ms: u64) -> Lifecycle {
    let (mut m, first) = Lifecycle::new(request(archive, budget_ms));
    assert!(matches!(first, Action::Create(_)));
    assert!(matches!(m.step(Event::Succeeded), Action::ApplyLimits(_)));
    assert!(matches!(m.step(Event::Succeeded), Action::Upload { .. }));
    assert_eq!(m.step(Event::Succeeded), Action::Start);
    assert_eq!(m.step(Event::Succeeded), Action::Observe { budget_ms });
    m
}

fn finish_ok(a: Action) -> RunCodeResponse {
    match a {
        Action::Finish(Ok(r)) => r,
        other => panic!("expected a result, got {:?}", other),
    }
}

#[test]
fn creation_uses_fixed_policy() {
    let (m, first) = Lifecycle::new(request(b"x", 5000));
    let cfg = sandbox_config();
    assert_eq!(first, Action::Create(cfg));
    assert_eq!(cfg.command, "/opt/run");
    assert_eq!(cfg.working_dir, "/opt");
    assert_eq!(cfg.command, ENTRY_POINT);
    assert!(cfg.network_disabled);
    assert!(cfg.auto_remove);
    assert_eq!(m.handle().len(), 16);
    assert!(!m.is_done());
}

#[test]
fn setup_hands_out_limits_and_archive() {
    let (mut m, _) = Lifecycle::new(request(b"archive-bytes", 5000));
    match m.step(Event::Succeeded) {
        Action::ApplyLimits(l) => {
            assert_eq!(l.memory(), 104857600);
            assert_eq!(l.memory_swap(), 104857600);
        }
        other => panic!("unexpected {:?}", other),
    }
    match m.step(Event::Succeeded) {
        Action::Upload { path, archive } => {
            assert_eq!(path, WORKING_DIR);
            assert_eq!(archive, b"archive-bytes".to_vec());
        }
        other => panic!("unexpected {:?}", other),
    }
}

#[test]
fn memory_and_swap_ceilings_are_equal() {
    for ceiling in [0i64, 1, 6 * 0x100000, 100 * 0x100000, i64::MAX] {
        let l = ResourceLimits::new(ceiling);
        assert_eq!(l.memory(), ceiling);
        assert_eq!(l.memory_swap(), l.memory());
    }
}

#[test]
fn hello_world_run() {
    let mut m = started(b"prints hi", 5000);
    assert_eq!(m.step(Event::Output(LogChunk::StdOut(b"hi\n".to_vec()))), Action::ReadOutput);
    assert_eq!(m.step(Event::StreamClosed), Action::Inspect);
    let r = finish_ok(m.step(Event::Inspected(Some(0))));
    assert_eq!(r.stdout, b"hi\n".to_vec());
    assert!(r.stderr.is_empty());
    assert_eq!(r.exit_code, Some(0));
    assert!(m.is_done());
}

#[test]
fn endless_loop_is_killed_after_budget() {
    let mut m = started(b"loops", 1000);
    // the watchdog armed by `Observe { budget_ms: 1000 }` kills the process,
    // which closes the stream
    assert_eq!(m.step(Event::StreamClosed), Action::Inspect);
    let r = finish_ok(m.step(Event::Inspected(Some(137))));
    assert_eq!(r.exit_code, Some(137));
    assert_ne!(r.exit_code, Some(0));
}

#[test]
fn memory_hog_keeps_partial_output() {
    let mut m = started(b"allocates", 5000);
    m.step(Event::Output(LogChunk::StdOut(b"allocating\n".to_vec())));
    m.step(Event::Output(LogChunk::StdErr(b"Killed\n".to_vec())));
    m.step(Event::StreamClosed);
    let r = finish_ok(m.step(Event::Inspected(Some(137))));
    assert_eq!(r.stdout, b"allocating\n".to_vec());
    assert_eq!(r.stderr, b"Killed\n".to_vec());
    assert_eq!(r.exit_code, Some(137));
}

#[test]
fn malformed_archive_rolls_back() {
    let (mut m, _) = Lifecycle::new(request(b"not a tar", 5000));
    m.step(Event::Succeeded);
    m.step(Event::Succeeded);
    assert_eq!(m.step(Event::Failed), Action::Remove(Failure::UploadFailed));
    assert!(!m.is_done());
    assert_eq!(m.step(Event::Succeeded), Action::Finish(Err(AppError::InternalServerError)));
    assert!(m.is_done());
}

#[test]
fn failed_limits_and_start_roll_back() {
    let (mut m, _) = Lifecycle::new(request(b"a", 5000));
    m.step(Event::Succeeded);
    assert_eq!(m.step(Event::Failed), Action::Remove(Failure::LimitFailed));
    // a removal that fails does not change the outcome
    assert_eq!(m.step(Event::Failed), Action::Finish(Err(AppError::InternalServerError)));

    let (mut m, _) = Lifecycle::new(request(b"a", 5000));
    m.step(Event::Succeeded);
    m.step(Event::Succeeded);
    m.step(Event::Succeeded);
    assert_eq!(m.step(Event::Failed), Action::Remove(Failure::StartFailed));
    assert_eq!(m.step(Event::Succeeded), Action::Finish(Err(AppError::InternalServerError)));
}

#[test]
fn failed_creation_needs_no_rollback() {
    let (mut m, _) = Lifecycle::new(request(b"a", 5000));
    assert_eq!(m.step(Event::Failed), Action::Finish(Err(AppError::InternalServerError)));
    assert!(m.is_done());
}

#[test]
fn failed_inspection_is_an_internal_error() {
    let mut m = started(b"a", 5000);
    m.step(Event::Output(LogChunk::StdOut(b"lost".to_vec())));
    m.step(Event::StreamClosed);
    assert_eq!(m.step(Event::Failed), Action::Finish(Err(AppError::InternalServerError)));
}

#[test]
fn absent_exit_code_is_reported_as_absent() {
    let mut m = started(b"a", 5000);
    m.step(Event::StreamClosed);
    let r = finish_ok(m.step(Event::Inspected(None)));
    assert_eq!(r.exit_code, None);
    assert!(r.stdout.is_empty());
}

#[test]
fn channels_are_demultiplexed_in_arrival_order() {
    let mut m = started(b"a", 5000);
    let chunks = vec![
        LogChunk::StdOut(b"a".to_vec()),
        LogChunk::StdErr(b"1".to_vec()),
        LogChunk::Other,
        LogChunk::StdOut(b"bc".to_vec()),
        LogChunk::StdErr(b"23".to_vec()),
        LogChunk::StdOut(Vec::new()),
        LogChunk::StdOut(b"d".to_vec()),
    ];
    for c in chunks {
        assert_eq!(m.step(Event::Output(c)), Action::ReadOutput);
    }
    // a stream error in between is skipped
    assert_eq!(m.step(Event::Failed), Action::ReadOutput);
    m.step(Event::StreamClosed);
    let r = finish_ok(m.step(Event::Inspected(Some(3))));
    assert_eq!(r.stdout, b"abcd".to_vec());
    assert_eq!(r.stderr, b"123".to_vec());
    assert_eq!(r.exit_code, Some(3));
}

#[test]
fn other_chunks_are_dropped() {
    let mut m = started(b"a", 5000);
    m.step(Event::Output(LogChunk::Other));
    m.step(Event::Output(LogChunk::Other));
    m.step(Event::StreamClosed);
    let r = finish_ok(m.step(Event::Inspected(Some(0))));
    assert!(r.stdout.is_empty());
    assert!(r.stderr.is_empty());
}

#[test]
fn name_is_fixed_for_the_whole_lifecycle() {
    let (mut m, _) = Lifecycle::new(request(b"a", 5000));
    let name = m.handle().to_string();
    for e in [Event::Succeeded, Event::Succeeded, Event::Succeeded, Event::Succeeded, Event::StreamClosed] {
        m.step(e);
        assert_eq!(m.handle(), name);
    }
    m.step(Event::Inspected(Some(0)));
    assert_eq!(m.handle(), name);
}

#[test]
fn steps_after_the_end_report_an_internal_error() {
    let (mut m, _) = Lifecycle::new(request(b"a", 5000));
    m.step(Event::Failed);
    assert_eq!(m.step(Event::Succeeded), Action::Finish(Err(AppError::InternalServerError)));
    assert!(m.is_done());
}

#[test]
fn unexpected_reply_during_setup_counts_as_failure() {
    let (mut m, _) = Lifecycle::new(request(b"a", 5000));
    m.step(Event::Succeeded);
    assert_eq!(m.step(Event::StreamClosed), Action::Remove(Failure::LimitFailed));
}
