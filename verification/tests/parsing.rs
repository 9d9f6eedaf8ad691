use odm_orchestrator::errors::OrchestratorError;
use odm_orchestrator::json::status_from_info_body;
use odm_orchestrator::json::token_from_init_body;
use odm_orchestrator::launch::parse_handle;
use odm_orchestrator::launch::trim_bytes;
use odm_orchestrator::status::classify_status;
use odm_orchestrator::status::TaskStatus;
use odm_orchestrator::urls;

#[test]
fn handle_is_launch_output_without_surrounding_whitespace() {
    assert_eq!(
        parse_handle(&b"  4fca9d\n".to_vec()),
        Ok(b"4fca9d".to_vec())
    );
    assert_eq!(parse_handle(&b"4fca9d".to_vec()), Ok(b"4fca9d".to_vec()));
    assert_eq!(
        parse_handle(&b"\t\r\nid with spaces \n".to_vec()),
        Ok(b"id with spaces".to_vec())
    );
}

#[test]
fn blank_launch_output_has_no_handle() {
    assert_eq!(
        parse_handle(&b"".to_vec()),
        Err(OrchestratorError::WorkerLaunch)
    );
    assert_eq!(
        parse_handle(&b" \t\r\n".to_vec()),
        Err(OrchestratorError::WorkerLaunch)
    );
}

#[test]
fn trim_removes_only_outer_whitespace() {
    assert_eq!(trim_bytes(&b" a b ".to_vec()), b"a b".to_vec());
    assert_eq!(trim_bytes(&b"abc".to_vec()), b"abc".to_vec());
    assert_eq!(trim_bytes(&b"".to_vec()), b"".to_vec());
}

#[test]
fn status_codes_classify_as_documented() {
    assert_eq!(classify_status(Some(20)), TaskStatus::Running);
    assert_eq!(classify_status(Some(40)), TaskStatus::Completed);
    assert_eq!(classify_status(Some(0)), TaskStatus::Unrecognized);
    assert_eq!(classify_status(Some(99)), TaskStatus::Unrecognized);
    assert_eq!(classify_status(Some(-1)), TaskStatus::Unrecognized);
    assert_eq!(classify_status(None), TaskStatus::Unrecognized);
}

#[test]
fn init_token_is_the_uuid_field() {
    let body = b"{\"uuid\":\"58ab-99\",\"other\":3}".to_vec();
    assert_eq!(token_from_init_body(&body), Ok("58ab-99".to_string()));
}

#[test]
fn init_bodies_without_string_uuid_are_rejected() {
    let cases: Vec<&[u8]> = vec![
        b"{\"name\":\"x\"}",
        b"{\"uuid\":7}",
        b"not json at all",
        b"[\"uuid\"]",
        b"",
    ];
    for body in cases {
        assert_eq!(
            token_from_init_body(&body.to_vec()),
            Err(OrchestratorError::UnexpectedResponseShape)
        );
    }
}

#[test]
fn info_status_comes_from_nested_code_field() {
    assert_eq!(
        status_from_info_body(&b"{\"status\":{\"code\":20}}".to_vec()),
        TaskStatus::Running
    );
    assert_eq!(
        status_from_info_body(&b"{\"status\":{\"code\":40},\"x\":1}".to_vec()),
        TaskStatus::Completed
    );
    assert_eq!(
        status_from_info_body(&b"{\"status\":{\"code\":30}}".to_vec()),
        TaskStatus::Unrecognized
    );
}

#[test]
fn malformed_info_bodies_are_unrecognized() {
    assert_eq!(
        status_from_info_body(&b"{}".to_vec()),
        TaskStatus::Unrecognized
    );
    assert_eq!(
        status_from_info_body(&b"{\"status\":5}".to_vec()),
        TaskStatus::Unrecognized
    );
    assert_eq!(
        status_from_info_body(&b"{\"status\":{\"code\":\"20\"}}".to_vec()),
        TaskStatus::Unrecognized
    );
    assert_eq!(
        status_from_info_body(&b"garbage".to_vec()),
        TaskStatus::Unrecognized
    );
}

#[test]
fn task_api_addresses_are_exact() {
    assert_eq!(urls::init_url(), "http://localhost:3000/task/new/init");
    assert_eq!(
        urls::upload_url("t1"),
        "http://localhost:3000/task/new/upload/t1?token=t1"
    );
    assert_eq!(
        urls::commit_url("t1"),
        "http://localhost:3000/task/new/commit/t1"
    );
    assert_eq!(urls::info_url("t1"), "http://localhost:3000/task/t1/info");
    assert_eq!(
        urls::download_url("t1"),
        "http://localhost:3000/task/t1/download/all.zip"
    );
    assert_eq!(urls::remove_url(), "http://localhost:3000/task/remove");
}

#[test]
fn every_error_describes_itself() {
    let errors = vec![
        OrchestratorError::WorkerLaunch,
        OrchestratorError::WorkerUnreachable,
        OrchestratorError::UnexpectedResponseShape,
        OrchestratorError::UnrecognizedTaskState,
        OrchestratorError::ArtifactWrite,
    ];
    let mut seen: Vec<&'static str> = Vec::new();
    for e in errors {
        let d = e.describe();
        assert!(!d.is_empty());
        assert!(!seen.contains(&d));
        seen.push(d);
    }
}
