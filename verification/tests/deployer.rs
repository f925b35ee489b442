use deployer::startup::{
    fatal_exit_code, graceful_exit_code, initial_step, validate_file, InitialStep, StartupError,
};
use deployer::target::{build_request, DeployTarget};
use deployer::upload::{
    attempt_failure, failure_is_fatal, response_outcome, status_is_success, UploadPhase,
};
use deployer::watch::{
    finish_upload, process_backlog, receive, EventKind, LoopAction, LoopState, WatchMsg, SETTLE_DELAY_MS,
};

fn target() -> DeployTarget {
    DeployTarget::new(
        "http://localhost:4000".to_string(),
        "my-script".to_string(),
        "file.js".to_string(),
    )
}

#[test]
fn two_xx_statuses_count_as_success() {
    assert!(status_is_success(200));
    assert!(status_is_success(201));
    assert!(status_is_success(204));
    assert!(status_is_success(299));
    assert!(!status_is_success(0));
    assert!(!status_is_success(100));
    assert!(!status_is_success(199));
    assert!(!status_is_success(300));
    assert!(!status_is_success(404));
    assert!(!status_is_success(500));
}

#[test]
fn success_reports_the_servers_own_status() {
    let r = response_outcome(201, None);
    assert!(r.success);
    assert_eq!(r.status, Some(201));
    assert_eq!(r.error_detail, None);
    let r = response_outcome(204, Some("ignored on success".to_string()));
    assert!(r.success);
    assert_eq!(r.status, Some(204));
    assert_eq!(r.error_detail, None);
}

#[test]
fn failure_captures_the_response_body() {
    let r = response_outcome(500, Some("internal error".to_string()));
    assert!(!r.success);
    assert_eq!(r.status, Some(500));
    assert_eq!(r.error_detail, Some("internal error".to_string()));
    let r = response_outcome(404, None);
    assert!(!r.success);
    assert_eq!(r.status, Some(404));
    assert_eq!(r.error_detail, None);
}

#[test]
fn transport_failure_has_no_status() {
    let r = attempt_failure("connection refused".to_string());
    assert!(!r.success);
    assert_eq!(r.status, None);
    assert_eq!(r.error_detail, Some("connection refused".to_string()));
}

#[test]
fn missing_file_is_rejected_with_exit_code_one() {
    let r = validate_file(false);
    assert_eq!(r, Err(StartupError::MissingFile));
    assert_eq!(fatal_exit_code(&StartupError::MissingFile), 1);
    assert_eq!(validate_file(true), Ok(()));
}

#[test]
fn every_fatal_error_exits_with_one_and_graceful_with_zero() {
    assert_eq!(fatal_exit_code(&StartupError::MissingFile), 1);
    assert_eq!(fatal_exit_code(&StartupError::ClientInit), 1);
    assert_eq!(fatal_exit_code(&StartupError::InitialUpload), 1);
    assert_eq!(fatal_exit_code(&StartupError::WatchSubscription), 1);
    assert_eq!(graceful_exit_code(), 0);
}

#[test]
fn initial_upload_failure_aborts_success_continues() {
    let failed = attempt_failure("timeout".to_string());
    assert_eq!(
        initial_step(&failed, true),
        InitialStep::Abort(StartupError::InitialUpload)
    );
    assert_eq!(
        initial_step(&failed, false),
        InitialStep::Abort(StartupError::InitialUpload)
    );
    let ok = response_outcome(200, None);
    assert_eq!(initial_step(&ok, false), InitialStep::Done);
    assert_eq!(initial_step(&ok, true), InitialStep::EnterWatch);
}

#[test]
fn redeploy_failure_is_never_fatal() {
    let failed = response_outcome(500, Some("boom".to_string()));
    assert!(!failure_is_fatal(&UploadPhase::Redeploy, &failed));
    assert!(failure_is_fatal(&UploadPhase::Initial, &failed));
    let ok = response_outcome(200, None);
    assert!(!failure_is_fatal(&UploadPhase::Initial, &ok));
    assert!(!failure_is_fatal(&UploadPhase::Redeploy, &ok));
}

#[test]
fn request_joins_server_prefix_and_uri() {
    let req = build_request(&target(), "body".to_string());
    assert_eq!(req.url, "http://localhost:4000/api/scripts/my-script");
    assert_eq!(req.body, "body");
}

#[test]
fn initial_and_redeploy_post_the_exact_bytes() {
    let target = target();
    let first = build_request(&target, "console.log(1)".to_string());
    assert_eq!(first.url, "http://localhost:4000/api/scripts/my-script");
    assert_eq!(first.body.as_bytes(), "console.log(1)".as_bytes());
    let (state, action) = receive(LoopState::Idle, &WatchMsg::Change(EventKind::Modify));
    assert_eq!(state, LoopState::Uploading);
    assert_eq!(action, LoopAction::Redeploy { delay_ms: 100 });
    let second = build_request(&target, "console.log(2)".to_string());
    assert_eq!(second.url, "http://localhost:4000/api/scripts/my-script");
    assert_eq!(second.body.as_bytes(), "console.log(2)".as_bytes());
}

#[test]
fn settle_delay_is_one_hundred_milliseconds() {
    assert_eq!(SETTLE_DELAY_MS, 100);
    let (_, action) = receive(LoopState::Idle, &WatchMsg::Change(EventKind::Create));
    assert_eq!(
        action,
        LoopAction::Redeploy {
            delay_ms: SETTLE_DELAY_MS
        }
    );
}

#[test]
fn single_write_produces_exactly_one_upload() {
    let msgs = vec![WatchMsg::Change(EventKind::Modify)];
    let (state, actions) = process_backlog(LoopState::Idle, &msgs);
    assert_eq!(state, LoopState::Idle);
    assert_eq!(actions, vec![LoopAction::Redeploy { delay_ms: 100 }]);
}

#[test]
fn irrelevant_events_are_ignored() {
    let (state, action) = receive(LoopState::Idle, &WatchMsg::Change(EventKind::Other));
    assert_eq!(state, LoopState::Idle);
    assert_eq!(action, LoopAction::Ignore);
    let (state, action) = receive(LoopState::Idle, &WatchMsg::SourceError);
    assert_eq!(state, LoopState::Idle);
    assert_eq!(action, LoopAction::LogError);
}

#[test]
fn rapid_writes_are_worked_off_in_order() {
    let msgs = vec![
        WatchMsg::Change(EventKind::Modify),
        WatchMsg::Change(EventKind::Modify),
        WatchMsg::Change(EventKind::Modify),
        WatchMsg::Change(EventKind::Modify),
        WatchMsg::Change(EventKind::Modify),
    ];
    let (state, actions) = process_backlog(LoopState::Idle, &msgs);
    assert_eq!(state, LoopState::Idle);
    assert_eq!(actions.len(), 5);
    for action in actions {
        assert_eq!(action, LoopAction::Redeploy { delay_ms: 100 });
    }
}

#[test]
fn mixed_backlog_keeps_arrival_order() {
    let msgs = vec![
        WatchMsg::Change(EventKind::Modify),
        WatchMsg::Change(EventKind::Other),
        WatchMsg::Change(EventKind::Create),
        WatchMsg::SourceError,
        WatchMsg::Change(EventKind::Modify),
    ];
    let (state, actions) = process_backlog(LoopState::Idle, &msgs);
    assert_eq!(state, LoopState::Idle);
    assert_eq!(
        actions,
        vec![
            LoopAction::Redeploy { delay_ms: 100 },
            LoopAction::Ignore,
            LoopAction::Redeploy { delay_ms: 100 },
            LoopAction::LogError,
            LoopAction::Redeploy { delay_ms: 100 },
        ]
    );
}

#[test]
fn failed_redeploy_leaves_the_loop_watching() {
    let failed = response_outcome(500, Some("boom".to_string()));
    assert!(!failure_is_fatal(&UploadPhase::Redeploy, &failed));
    let (state, action) = receive(LoopState::Idle, &WatchMsg::Change(EventKind::Modify));
    assert_eq!(state, LoopState::Uploading);
    assert_eq!(action, LoopAction::Redeploy { delay_ms: 100 });
    let state = finish_upload(&failed);
    assert_eq!(state, LoopState::Idle);
    let (state, action) = receive(state, &WatchMsg::Change(EventKind::Modify));
    assert_eq!(state, LoopState::Uploading);
    assert_eq!(action, LoopAction::Redeploy { delay_ms: 100 });
}

#[test]
fn channel_closure_terminates_the_loop() {
    let msgs = vec![
        WatchMsg::Change(EventKind::Modify),
        WatchMsg::Closed,
        WatchMsg::Change(EventKind::Modify),
    ];
    let (state, actions) = process_backlog(LoopState::Idle, &msgs);
    assert_eq!(state, LoopState::Terminated);
    assert_eq!(
        actions,
        vec![LoopAction::Redeploy { delay_ms: 100 }, LoopAction::Stop]
    );
    let (state, action) = receive(LoopState::Terminated, &WatchMsg::Change(EventKind::Modify));
    assert_eq!(state, LoopState::Terminated);
    assert_eq!(action, LoopAction::Ignore);
}
