use snowpatch::driver::{Action, BuildDriver, Phase};
use snowpatch::jenkins::{FetchOutcome, JenkinsBackend, ProtocolError, TestState};

fn backend() -> JenkinsBackend {
    JenkinsBackend { base_url: "http://ci".to_string(), username: None, token: None }
}

fn ok(body: &str) -> FetchOutcome {
    FetchOutcome::Response { status: 200, body: body.to_string() }
}

fn unavailable() -> FetchOutcome {
    FetchOutcome::Response { status: 503, body: "Service Unavailable".to_string() }
}

/// Runs the driver over canned answers, counting fetches and waits.
fn drive(answers: Vec<FetchOutcome>) -> (Action, usize, usize, Vec<String>) {
    let b = backend();
    let (mut d, mut action) = BuildDriver::new("http://ci/queue/item/7/".to_string());
    let mut fetched = 0;
    let mut waits = 0;
    let mut urls = vec![];
    for answer in answers {
        match &action {
            Action::Fetch(u) => urls.push(u.clone()),
            Action::FetchAfterInterval(u) => {
                waits += 1;
                urls.push(u.clone())
            }
            _ => break,
        }
        fetched += 1;
        action = d.step(&b, answer);
    }
    (action, fetched, waits, urls)
}

#[test]
fn end_to_end_success() {
    let answers = vec![
        ok(r#"{"why":"queued"}"#),
        ok(r#"{"why":"queued"}"#),
        ok(r#"{"executable":{"url":"http://ci/job/x/42/"}}"#),
        ok(r#"{"building":true}"#),
        ok(r#"{"building":true}"#),
        ok(r#"{"building":false,"result":"SUCCESS"}"#),
        ok(r#"{"building":false,"result":"SUCCESS"}"#),
    ];
    let (action, fetched, waits, urls) = drive(answers);
    assert_eq!(action, Action::Report(TestState::Success));
    assert_eq!(fetched, 7);
    assert_eq!(waits, 4);
    assert_eq!(urls[0], "http://ci/queue/item/7/api/json");
    assert_eq!(urls[2], "http://ci/queue/item/7/api/json");
    assert_eq!(urls[3], "http://ci/job/x/42/api/json");
    assert_eq!(urls[6], "http://ci/job/x/42/api/json");
}

#[test]
fn server_errors_are_retried() {
    let answers = vec![
        unavailable(),
        FetchOutcome::Unreachable,
        unavailable(),
        ok(r#"{"executable":{"url":"http://ci/job/x/9/"}}"#),
        unavailable(),
        ok(r#"{"building":false}"#),
        unavailable(),
        ok(r#"{"result":"FAILURE"}"#),
    ];
    let (action, fetched, waits, urls) = drive(answers);
    assert_eq!(action, Action::Report(TestState::Fail));
    assert_eq!(fetched, 8);
    assert_eq!(waits, 5);
    assert_eq!(urls[3], "http://ci/queue/item/7/api/json");
    assert_eq!(urls[4], "http://ci/job/x/9/api/json");
}

#[test]
fn transient_answer_leaves_driver_unchanged() {
    let b = backend();
    let (mut d, _) = BuildDriver::new("http://ci/queue/item/3/".to_string());
    let a = d.step(&b, unavailable());
    assert_eq!(a, Action::FetchAfterInterval("http://ci/queue/item/3/api/json".to_string()));
    assert_eq!(d.phase(), Phase::Queued);
    assert_eq!(d.build_url(), "");
}

#[test]
fn missing_result_is_unknown() {
    let answers = vec![
        ok(r#"{"executable":{"url":"http://ci/job/x/5/"}}"#),
        ok(r#"{"building":false}"#),
        ok(r#"{"building":false,"result":null}"#),
    ];
    let (action, _, _, _) = drive(answers);
    assert_eq!(action, Action::Report(TestState::Unknown));
}

#[test]
fn malformed_document_halts() {
    let b = backend();
    let (mut d, _) = BuildDriver::new("http://ci/queue/item/1/".to_string());
    let a = d.step(&b, ok("<html>oops</html>"));
    assert_eq!(a, Action::Halt(ProtocolError::InvalidJson));
    assert_eq!(d.phase(), Phase::Halted(ProtocolError::InvalidJson));
    let again = d.step(&b, ok(r#"{"executable":{"url":"http://ci/job/x/5/"}}"#));
    assert_eq!(again, Action::Halt(ProtocolError::InvalidJson));
}

#[test]
fn finished_driver_repeats_result() {
    let b = backend();
    let answers = vec![
        ok(r#"{"executable":{"url":"http://ci/job/x/5/"}}"#),
        ok(r#"{"building":false}"#),
        ok(r#"{"result":"UNSTABLE"}"#),
    ];
    let (mut d, mut action) = BuildDriver::new("http://ci/queue/item/2/".to_string());
    for answer in answers {
        action = d.step(&b, answer);
    }
    assert_eq!(action, Action::Report(TestState::Warning));
    assert_eq!(d.step(&b, unavailable()), Action::Report(TestState::Warning));
    assert_eq!(d.phase(), Phase::Finished(TestState::Warning));
}

#[test]
fn resolved_build_is_kept() {
    let b = backend();
    let (mut d, _) = BuildDriver::new("http://ci/queue/item/4/".to_string());
    d.step(&b, ok(r#"{"executable":{"url":"http://ci/job/x/8/"}}"#));
    assert_eq!(d.phase(), Phase::Running);
    let a = d.step(&b, ok(r#"{"building":true,"executable":{"url":"http://ci/job/x/99/"}}"#));
    assert_eq!(a, Action::FetchAfterInterval("http://ci/job/x/8/api/json".to_string()));
    assert_eq!(d.build_url(), "http://ci/job/x/8/");
    let a = d.step(&b, ok(r#"{"why":"queued"}"#));
    assert_eq!(a, Action::Halt(ProtocolError::UnexpectedStructure));
    assert_eq!(d.build_url(), "http://ci/job/x/8/");
}
