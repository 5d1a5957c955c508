use snowpatch::jenkins::{
    api_json_url, handle_from_location, is_transient, result_from_code, result_from_field,
    status_from_field, queue_entry_from_fields, FetchOutcome, JenkinsBackend, JenkinsBuildStatus,
    ProtocolError, StartError, TestState,
};
use snowpatch::json::JsonKind;
use snowpatch::settings::Job;

fn backend() -> JenkinsBackend {
    JenkinsBackend {
        base_url: "http://ci".to_string(),
        username: None,
        token: None,
    }
}

fn response(status: u16, body: &str) -> FetchOutcome {
    FetchOutcome::Response { status, body: body.to_string() }
}

#[test]
fn result_codes_map_to_states() {
    assert_eq!(result_from_code("SUCCESS"), TestState::Success);
    assert_eq!(result_from_code("FAILURE"), TestState::Fail);
    assert_eq!(result_from_code("UNSTABLE"), TestState::Warning);
    assert_eq!(result_from_code("ABORTED"), TestState::Pending);
    assert_eq!(result_from_code(""), TestState::Pending);
}

#[test]
fn result_document_maps_to_states() {
    let b = backend();
    assert_eq!(b.get_build_result(r#"{"result":"SUCCESS"}"#), Ok(Some(TestState::Success)));
    assert_eq!(b.get_build_result(r#"{"result":"FAILURE"}"#), Ok(Some(TestState::Fail)));
    assert_eq!(b.get_build_result(r#"{"result":"UNSTABLE"}"#), Ok(Some(TestState::Warning)));
    assert_eq!(b.get_build_result(r#"{"result":"ABORTED"}"#), Ok(Some(TestState::Pending)));
    assert_eq!(b.get_build_result(r#"{"building":true}"#), Ok(None));
    assert_eq!(b.get_build_result(r#"{"result":null}"#), Ok(None));
    assert_eq!(b.get_build_result("not json"), Err(ProtocolError::InvalidJson));
}

#[test]
fn result_field_without_text_gives_none() {
    assert_eq!(result_from_field(None), None);
    assert_eq!(result_from_field(Some(JsonKind::Null)), None);
    assert_eq!(result_from_field(Some(JsonKind::Text("FAILURE".to_string()))), Some(TestState::Fail));
}

#[test]
fn results_url_with_artifact() {
    let mut job = Job::new();
    job.insert("artifact".to_string(), "logs/out.txt".to_string());
    assert_eq!(backend().get_results_url("http://ci/42", &job), "http://ci/42/artifact/logs/out.txt");
}

#[test]
fn results_url_without_artifact() {
    let job = Job::new();
    assert_eq!(backend().get_results_url("http://ci/42", &job), "http://ci/42/");
}

#[test]
fn start_url_encodes_parameters() {
    let params = vec![
        ("USER_BRANCH", "a b"),
        ("NOTE", "x&y=z"),
    ];
    assert_eq!(
        backend().start_test_url("build-linux", &params),
        "http://ci/job/build-linux/buildWithParameters?USER_BRANCH=a+b&NOTE=x%26y%3Dz"
    );
    assert_eq!(backend().start_test_url("j", &vec![]), "http://ci/job/j/buildWithParameters?");
}

#[test]
fn api_url_appends_suffix() {
    assert_eq!(api_json_url("http://ci/job/x/42/"), "http://ci/job/x/42/api/json");
}

#[test]
fn transient_outcomes() {
    assert!(is_transient(&FetchOutcome::Unreachable));
    assert!(is_transient(&response(503, "")));
    assert!(is_transient(&response(500, "")));
    assert!(is_transient(&response(599, "")));
    assert!(!is_transient(&response(200, "{}")));
    assert!(!is_transient(&response(404, "")));
    assert!(!is_transient(&response(600, "")));
}

#[test]
fn location_becomes_handle() {
    assert_eq!(
        handle_from_location(Some("http://ci/queue/item/7/".to_string())),
        Ok("http://ci/queue/item/7/".to_string())
    );
    assert_eq!(handle_from_location(None), Err(StartError::NoLocation));
}

#[test]
fn build_status_documents() {
    let b = backend();
    assert_eq!(b.get_build_status(r#"{"building":true}"#), Ok(JenkinsBuildStatus::Running));
    assert_eq!(b.get_build_status(r#"{"building":false}"#), Ok(JenkinsBuildStatus::Done));
    assert_eq!(b.get_build_status(r#"{"result":"SUCCESS"}"#), Err(ProtocolError::UnexpectedStructure));
    assert_eq!(b.get_build_status(r#"{"building":"yes"}"#), Err(ProtocolError::UnexpectedStructure));
    assert_eq!(b.get_build_status("{"), Err(ProtocolError::InvalidJson));
}

#[test]
fn status_field_kinds() {
    assert_eq!(status_from_field(Some(JsonKind::Bool(true))), Ok(JenkinsBuildStatus::Running));
    assert_eq!(status_from_field(Some(JsonKind::Bool(false))), Ok(JenkinsBuildStatus::Done));
    assert_eq!(status_from_field(None), Err(ProtocolError::UnexpectedStructure));
}

#[test]
fn queue_entry_documents() {
    let b = backend();
    assert_eq!(b.get_build_url(r#"{"why":"waiting"}"#), Ok(None));
    assert_eq!(
        b.get_build_url(r#"{"executable":{"number":42,"url":"http://ci/job/x/42/"}}"#),
        Ok(Some("http://ci/job/x/42/".to_string()))
    );
    assert_eq!(b.get_build_url(r#"{"executable":5}"#), Err(ProtocolError::UnexpectedStructure));
    assert_eq!(b.get_build_url(r#"{"executable":{"number":42}}"#), Err(ProtocolError::UnexpectedStructure));
    assert_eq!(b.get_build_url("[]]"), Err(ProtocolError::InvalidJson));
}

#[test]
fn queue_entry_fields() {
    assert_eq!(queue_entry_from_fields(None, None), Ok(None));
    assert_eq!(
        queue_entry_from_fields(Some(JsonKind::Object), Some(JsonKind::Text("u".to_string()))),
        Ok(Some("u".to_string()))
    );
    assert_eq!(
        queue_entry_from_fields(Some(JsonKind::Object), Some(JsonKind::Number)),
        Err(ProtocolError::UnexpectedStructure)
    );
}

#[test]
fn basic_auth_only_with_user() {
    assert_eq!(backend().basic_auth(), None);
    let b = JenkinsBackend {
        base_url: "http://ci".to_string(),
        username: Some("bot".to_string()),
        token: Some("SECRET-REDACTED".to_string()),
    };
    assert_eq!(b.basic_auth(), Some(("bot".to_string(), Some("SECRET-REDACTED".to_string()))));
}
