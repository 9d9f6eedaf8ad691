use odm_orchestrator::errors::Outcome;
use odm_orchestrator::errors::OrchestratorError;
use odm_orchestrator::machine::Action;
use odm_orchestrator::machine::Event;
use odm_orchestrator::machine::Orchestrator;
use odm_orchestrator::machine::Phase;
use odm_orchestrator::machine::PollOutcome;

fn launch_ok(m: &mut Orchestrator) {
    let a = m.step(Event::LaunchResult(Some(b"worker-1\n".to_vec())));
    assert!(matches!(a, Action::AwaitStartup));
    let a = m.step(Event::StartupElapsed);
    assert!(matches!(a, Action::SendInit));
}

fn init_body(token: &str) -> Vec<u8> {
    format!("{{\"uuid\":\"{}\"}}", token).into_bytes()
}

fn info_body(code: i64) -> Vec<u8> {
    format!("{{\"status\":{{\"code\":{}}}}}", code).into_bytes()
}

#[test]
fn zero_items_runs_init_commit_poll_terminal() {
    let (mut m, a) = Orchestrator::new(vec![]);
    assert!(matches!(a, Action::LaunchWorker));
    launch_ok(&mut m);
    let a = m.step(Event::InitResult(Some(init_body("tok-0"))));
    match a {
        Action::SendCommit { token } => assert_eq!(token, "tok-0"),
        other => panic!("expected commit, got {:?}", action_name(&other)),
    }
    let a = m.step(Event::CommitResult(true));
    assert!(matches!(a, Action::WaitAndPoll { .. }));
    let a = m.step(Event::PollResult(PollOutcome::Body(info_body(40))));
    assert!(matches!(a, Action::FetchArchive { .. }));
}

#[test]
fn each_item_uploaded_once_in_arrival_order() {
    let items: Vec<Vec<u8>> = vec![vec![1, 2, 3], vec![4], vec![5, 6]];
    let (mut m, _) = Orchestrator::new(items.clone());
    launch_ok(&mut m);
    let mut a = m.step(Event::InitResult(Some(init_body("tok-1"))));
    let mut uploaded: Vec<Vec<u8>> = Vec::new();
    loop {
        match a {
            Action::UploadItem { token, item } => {
                assert_eq!(token, "tok-1");
                uploaded.push(item);
                a = m.step(Event::UploadResult(true));
            },
            Action::SendCommit { token } => {
                assert_eq!(token, "tok-1");
                break;
            },
            other => panic!("unexpected action {:?}", action_name(&other)),
        }
    }
    assert_eq!(uploaded, items);
}

#[test]
fn failed_upload_does_not_halt_later_uploads() {
    let items: Vec<Vec<u8>> = vec![vec![9], vec![8]];
    let (mut m, _) = Orchestrator::new(items);
    launch_ok(&mut m);
    let a = m.step(Event::InitResult(Some(init_body("t"))));
    assert!(matches!(a, Action::UploadItem { .. }));
    let a = m.step(Event::UploadResult(false));
    match a {
        Action::UploadItem { item, .. } => assert_eq!(item, vec![8]),
        other => panic!("expected second upload, got {:?}", action_name(&other)),
    }
}

#[test]
fn poll_sequence_20_20_40_fetches_after_third_poll() {
    let (mut m, _) = Orchestrator::new(vec![]);
    launch_ok(&mut m);
    m.step(Event::InitResult(Some(init_body("t"))));
    let a = m.step(Event::CommitResult(true));
    assert!(matches!(a, Action::WaitAndPoll { .. }));
    let a = m.step(Event::PollResult(PollOutcome::Body(info_body(20))));
    assert!(matches!(a, Action::WaitAndPoll { .. }));
    let a = m.step(Event::PollResult(PollOutcome::Body(info_body(20))));
    assert!(matches!(a, Action::WaitAndPoll { .. }));
    let a = m.step(Event::PollResult(PollOutcome::Body(info_body(40))));
    assert!(matches!(a, Action::FetchArchive { .. }));
}

#[test]
fn poll_sequence_20_99_terminates_without_retrieval() {
    let (mut m, _) = Orchestrator::new(vec![]);
    launch_ok(&mut m);
    m.step(Event::InitResult(Some(init_body("t"))));
    m.step(Event::CommitResult(true));
    let a = m.step(Event::PollResult(PollOutcome::Body(info_body(20))));
    assert!(matches!(a, Action::WaitAndPoll { .. }));
    let a = m.step(Event::PollResult(PollOutcome::Body(info_body(99))));
    assert!(matches!(a, Action::RemoveTask { .. }));
    assert_eq!(
        m.current_outcome(),
        Some(Outcome::Failure(OrchestratorError::UnrecognizedTaskState))
    );
}

#[test]
fn transient_poll_failure_resumes_polling() {
    let (mut m, _) = Orchestrator::new(vec![]);
    launch_ok(&mut m);
    m.step(Event::InitResult(Some(init_body("t"))));
    m.step(Event::CommitResult(true));
    let a = m.step(Event::PollResult(PollOutcome::TransportFailure));
    assert!(matches!(a, Action::WaitAndPoll { .. }));
    assert_eq!(m.current_phase(), Phase::Polling);
    let a = m.step(Event::PollResult(PollOutcome::HttpError));
    assert!(matches!(a, Action::WaitAndPoll { .. }));
    let a = m.step(Event::PollResult(PollOutcome::Body(info_body(40))));
    assert!(matches!(a, Action::FetchArchive { .. }));
}

#[test]
fn archive_write_carries_downloaded_bytes() {
    let (mut m, _) = Orchestrator::new(vec![]);
    launch_ok(&mut m);
    m.step(Event::InitResult(Some(init_body("t"))));
    m.step(Event::CommitResult(true));
    m.step(Event::PollResult(PollOutcome::Body(info_body(40))));
    let archive_bytes: Vec<u8> = vec![80, 75, 3, 4, 0, 1, 2];
    let a = m.step(Event::DownloadResult(Some(archive_bytes.clone())));
    match a {
        Action::WriteArchive { archive } => assert_eq!(archive, archive_bytes),
        other => panic!("expected archive write, got {:?}", action_name(&other)),
    }
}

#[test]
fn successful_run_stops_worker_exactly_once() {
    let (mut m, mut a) = Orchestrator::new(vec![vec![1]]);
    let mut stops = 0;
    let mut guard = 0;
    loop {
        guard += 1;
        assert!(guard < 50, "pipeline did not finish");
        let event = match a {
            Action::LaunchWorker => Event::LaunchResult(Some(b"w\n".to_vec())),
            Action::AwaitStartup => Event::StartupElapsed,
            Action::SendInit => Event::InitResult(Some(init_body("t"))),
            Action::UploadItem { .. } => Event::UploadResult(true),
            Action::SendCommit { .. } => Event::CommitResult(true),
            Action::WaitAndPoll { .. } => Event::PollResult(PollOutcome::Body(info_body(40))),
            Action::FetchArchive { .. } => Event::DownloadResult(Some(vec![1, 2])),
            Action::WriteArchive { .. } => Event::WriteResult(true),
            Action::RemoveTask { .. } => Event::RemoveResult(true),
            Action::StopWorker { handle } => {
                stops += 1;
                assert_eq!(handle, b"w".to_vec());
                Event::StopResult(true)
            },
            Action::Finish { outcome } => {
                assert_eq!(outcome, Outcome::Success);
                break;
            },
        };
        a = m.step(event);
    }
    assert_eq!(stops, 1);
    assert_eq!(m.current_phase(), Phase::Done);
}

#[test]
fn unreachable_commit_still_stops_worker_exactly_once() {
    let (mut m, mut a) = Orchestrator::new(vec![]);
    let mut stops = 0;
    let mut guard = 0;
    loop {
        guard += 1;
        assert!(guard < 50, "pipeline did not finish");
        let event = match a {
            Action::LaunchWorker => Event::LaunchResult(Some(b"w\n".to_vec())),
            Action::AwaitStartup => Event::StartupElapsed,
            Action::SendInit => Event::InitResult(Some(init_body("t"))),
            Action::SendCommit { .. } => Event::CommitResult(false),
            Action::RemoveTask { .. } => Event::RemoveResult(false),
            Action::StopWorker { .. } => {
                stops += 1;
                Event::StopResult(true)
            },
            Action::Finish { outcome } => {
                assert_eq!(
                    outcome,
                    Outcome::Failure(OrchestratorError::WorkerUnreachable)
                );
                break;
            },
            other => panic!("unexpected action {:?}", action_name(&other)),
        };
        a = m.step(event);
    }
    assert_eq!(stops, 1);
}

#[test]
fn failed_archive_write_still_cleans_up() {
    let (mut m, _) = Orchestrator::new(vec![]);
    launch_ok(&mut m);
    m.step(Event::InitResult(Some(init_body("t"))));
    m.step(Event::CommitResult(true));
    m.step(Event::PollResult(PollOutcome::Body(info_body(40))));
    m.step(Event::DownloadResult(Some(vec![1])));
    let a = m.step(Event::WriteResult(false));
    assert!(matches!(a, Action::RemoveTask { .. }));
    let a = m.step(Event::RemoveResult(true));
    assert!(matches!(a, Action::StopWorker { .. }));
    let a = m.step(Event::StopResult(true));
    match a {
        Action::Finish { outcome } => {
            assert_eq!(outcome, Outcome::Failure(OrchestratorError::ArtifactWrite))
        },
        other => panic!("expected finish, got {:?}", action_name(&other)),
    }
}

#[test]
fn failed_launch_finishes_without_stop() {
    let (mut m, _) = Orchestrator::new(vec![]);
    let a = m.step(Event::LaunchResult(None));
    match a {
        Action::Finish { outcome } => {
            assert_eq!(outcome, Outcome::Failure(OrchestratorError::WorkerLaunch))
        },
        other => panic!("expected finish, got {:?}", action_name(&other)),
    }
    assert_eq!(m.current_phase(), Phase::Done);
}

#[test]
fn blank_launch_output_is_a_launch_failure() {
    let (mut m, _) = Orchestrator::new(vec![]);
    let a = m.step(Event::LaunchResult(Some(b" \n\t ".to_vec())));
    match a {
        Action::Finish { outcome } => {
            assert_eq!(outcome, Outcome::Failure(OrchestratorError::WorkerLaunch))
        },
        other => panic!("expected finish, got {:?}", action_name(&other)),
    }
}

#[test]
fn unreachable_init_stops_worker_without_task_removal() {
    let (mut m, _) = Orchestrator::new(vec![]);
    launch_ok(&mut m);
    let a = m.step(Event::InitResult(None));
    match a {
        Action::StopWorker { handle } => assert_eq!(handle, b"worker-1".to_vec()),
        other => panic!("expected stop, got {:?}", action_name(&other)),
    }
    let a = m.step(Event::StopResult(true));
    match a {
        Action::Finish { outcome } => {
            assert_eq!(
                outcome,
                Outcome::Failure(OrchestratorError::WorkerUnreachable)
            )
        },
        other => panic!("expected finish, got {:?}", action_name(&other)),
    }
}

#[test]
fn init_body_without_token_is_rejected() {
    let (mut m, _) = Orchestrator::new(vec![]);
    launch_ok(&mut m);
    let a = m.step(Event::InitResult(Some(b"{\"name\":\"x\"}".to_vec())));
    assert!(matches!(a, Action::StopWorker { .. }));
    assert_eq!(
        m.current_outcome(),
        Some(Outcome::Failure(OrchestratorError::UnexpectedResponseShape))
    );
}

#[test]
fn event_fits_matches_awaited_event_only() {
    let (m, _) = Orchestrator::new(vec![]);
    assert!(m.event_fits(&Event::LaunchResult(None)));
    assert!(!m.event_fits(&Event::StartupElapsed));
    assert!(!m.event_fits(&Event::StopResult(true)));
}

fn action_name(a: &Action) -> &'static str {
    match a {
        Action::LaunchWorker => "LaunchWorker",
        Action::AwaitStartup => "AwaitStartup",
        Action::SendInit => "SendInit",
        Action::UploadItem { .. } => "UploadItem",
        Action::SendCommit { .. } => "SendCommit",
        Action::WaitAndPoll { .. } => "WaitAndPoll",
        Action::FetchArchive { .. } => "FetchArchive",
        Action::WriteArchive { .. } => "WriteArchive",
        Action::RemoveTask { .. } => "RemoveTask",
        Action::StopWorker { .. } => "StopWorker",
        Action::Finish { .. } => "Finish",
    }
}
