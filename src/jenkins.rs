//! The CI backend: what a Jenkins-style server is asked and what its answers
//! mean. The HTTP exchange itself is the caller's.

use vstd::prelude::*;
use vstd::string::*;

use crate::json::{json_field, json_valid, member_kind, nested_member_kind, JsonKind};
use crate::settings::Job;

verus! {

/// The normalized outcome of a test run.
#[derive(PartialEq, Eq, Structural, Clone, Copy, Debug)]
pub enum TestState {
    Pending,
    Success,
    Warning,
    Fail,
    Unknown,
}

/// Whether a resolved build is still executing.
#[derive(PartialEq, Eq, Structural, Clone, Copy, Debug)]
pub enum JenkinsBuildStatus {
    Running,
    Done,
}

/// Why a job could not be started.
#[derive(PartialEq, Eq, Structural, Clone, Copy, Debug)]
pub enum StartError {
    /// The request did not reach the server or got no answer.
    RequestFailed,
    /// The server answered without a `Location` header.
    NoLocation,
}

/// A document from the server that cannot be read as the protocol says.
#[derive(PartialEq, Eq, Structural, Clone, Copy, Debug)]
pub enum ProtocolError {
    /// The body is not JSON.
    InvalidJson,
    /// The JSON lacks a member that the protocol requires, or has one of the
    /// wrong kind.
    UnexpectedStructure,
}

/// What one fetch of a JSON document came to.
pub enum FetchOutcome {
    /// No response: the connection failed or timed out.
    Unreachable,
    /// A response with its status code and body.
    Response { status: u16, body: String },
}

/// The capability of starting a test run on a CI backend: `start_test` takes a
/// job name and its parameters, in order, and gives back a build handle (the
/// URL of a queue entry).
pub trait CIBackend {
    fn start_test(&self, job_name: &str, params: Vec<(&str, &str)>) -> Result<String, StartError>;
}

/// A Jenkins-style server: its base URL and optional basic-auth credentials.
pub struct JenkinsBackend {
    pub base_url: String,
    pub username: Option<String>,
    pub token: Option<String>,
}

/// The URL-encoded form of a list of key/value pairs.
pub uninterp spec fn form_encoding(pairs: Seq<(Seq<char>, Seq<char>)>) -> Seq<char>;

/// The pairs as character sequences.
pub open spec fn pairs_view(pairs: Seq<(&str, &str)>) -> Seq<(Seq<char>, Seq<char>)> {
    pairs.map_values(|p: (&str, &str)| (p.0@, p.1@))
}

/// Relies on url::form_urlencoded::Serializer: the pairs, URL-encoded and
/// joined as `k=v&k=v`, nothing for no pairs.
#[verifier::external_body]
fn encode_form(pairs: &Vec<(&str, &str)>) -> (r: String)
    ensures
        r@ == form_encoding(pairs_view(pairs@)),
        pairs@.len() == 0 ==> r@.len() == 0,
{
    url::form_urlencoded::Serializer::new(String::new()).extend_pairs(pairs.iter()).finish()
}

/// The normalized result for a build result code.
pub open spec fn test_state_of(code: Seq<char>) -> TestState {
    if code == "SUCCESS"@ {
        TestState::Success
    } else if code == "FAILURE"@ {
        TestState::Fail
    } else if code == "UNSTABLE"@ {
        TestState::Warning
    } else {
        TestState::Pending
    }
}

/// Maps a build result code to a normalized result: `SUCCESS`, `FAILURE` and
/// `UNSTABLE` to success, failure and warning, any other code to pending.
pub fn result_from_code(code: &str) -> (r: TestState)
    ensures
        r == test_state_of(code@),
{
    let code: String = code.to_owned();
    if code == "SUCCESS".to_owned() {
        TestState::Success
    } else if code == "FAILURE".to_owned() {
        TestState::Fail
    } else if code == "UNSTABLE".to_owned() {
        TestState::Warning
    } else {
        TestState::Pending
    }
}

/// The URL of the JSON status document of a queue entry or build.
pub fn api_json_url(url: &str) -> (r: String)
    ensures
        r@ == url@ + "api/json"@,
{
    let mut r: String = url.to_owned();
    r.append("api/json");
    r
}

/// Whether a fetch is retried: no response, or a server error (5xx).
pub open spec fn transient(outcome: FetchOutcome) -> bool {
    match outcome {
        FetchOutcome::Unreachable => true,
        FetchOutcome::Response { status, .. } => 500 <= status <= 599,
    }
}

/// Decides whether a fetch is to be retried after the polling interval.
pub fn is_transient(outcome: &FetchOutcome) -> (r: bool)
    ensures
        r == transient(*outcome),
{
    match outcome {
        FetchOutcome::Unreachable => true,
        FetchOutcome::Response { status, .. } => 500 <= *status && *status <= 599,
    }
}

/// The build handle from the `Location` header of the answer to a start request.
pub fn handle_from_location(location: Option<String>) -> (r: Result<String, StartError>)
    ensures
        match location {
            Some(l) => r == Ok::<String, StartError>(l),
            None => r == Err::<String, StartError>(StartError::NoLocation),
        },
{
    match location {
        Some(l) => Ok(l),
        None => Err(StartError::NoLocation),
    }
}

/// What a queue entry says: still queued (`None`) while it has no `executable`
/// member, else the URL of the executing build, which must be a string member
/// `url` of an object.
pub open spec fn queue_entry_spec(executable: Option<JsonKind>, url: Option<JsonKind>) -> Result<Option<Seq<char>>, ProtocolError> {
    match executable {
        None => Ok(None),
        Some(JsonKind::Object) => match url {
            Some(JsonKind::Text(u)) => Ok(Some(u@)),
            _ => Err(ProtocolError::UnexpectedStructure),
        },
        Some(_) => Err(ProtocolError::UnexpectedStructure),
    }
}

/// A queue-entry reading with its URL as a character sequence.
pub open spec fn entry_view(r: Result<Option<String>, ProtocolError>) -> Result<Option<Seq<char>>, ProtocolError> {
    match r {
        Ok(Some(u)) => Ok(Some(u@)),
        Ok(None) => Ok(None),
        Err(e) => Err(e),
    }
}

/// Reads a queue entry from its `executable` member and that member's `url`.
pub fn queue_entry_from_fields(executable: Option<JsonKind>, url: Option<JsonKind>) -> (r: Result<Option<String>, ProtocolError>)
    ensures
        entry_view(r) == queue_entry_spec(executable, url),
{
    match executable {
        None => Ok(None),
        Some(JsonKind::Object) => match url {
            Some(JsonKind::Text(u)) => Ok(Some(u)),
            _ => Err(ProtocolError::UnexpectedStructure),
        },
        Some(_) => Err(ProtocolError::UnexpectedStructure),
    }
}

/// What a build's `building` member says: running while true, done when
/// false; anything else breaks the protocol.
pub open spec fn status_spec(building: Option<JsonKind>) -> Result<JenkinsBuildStatus, ProtocolError> {
    match building {
        Some(JsonKind::Bool(true)) => Ok(JenkinsBuildStatus::Running),
        Some(JsonKind::Bool(false)) => Ok(JenkinsBuildStatus::Done),
        _ => Err(ProtocolError::UnexpectedStructure),
    }
}

/// Reads a build's status from its `building` member.
pub fn status_from_field(building: Option<JsonKind>) -> (r: Result<JenkinsBuildStatus, ProtocolError>)
    ensures
        r == status_spec(building),
{
    match building {
        Some(JsonKind::Bool(b)) => if b {
            Ok(JenkinsBuildStatus::Running)
        } else {
            Ok(JenkinsBuildStatus::Done)
        },
        _ => Err(ProtocolError::UnexpectedStructure),
    }
}

/// What a build's `result` member says: a result for a string code, none
/// when the member is absent or not a string.
pub open spec fn result_spec(result: Option<JsonKind>) -> Option<TestState> {
    match result {
        Some(JsonKind::Text(code)) => Some(test_state_of(code@)),
        _ => None,
    }
}

/// Reads a build's result from its `result` member.
pub fn result_from_field(result: Option<JsonKind>) -> (r: Option<TestState>)
    ensures
        r == result_spec(result),
{
    match result {
        Some(JsonKind::Text(code)) => Some(result_from_code(code.as_str())),
        _ => None,
    }
}

/// The URL where a build's results are shown: `<build>/artifact/<path>` for a
/// job that names an artifact, else `<build>/`.
pub open spec fn results_url_spec(build_url: Seq<char>, artifact: Option<Seq<char>>) -> Seq<char> {
    match artifact {
        Some(a) => build_url + "/artifact/"@ + a,
        None => build_url + "/"@,
    }
}

impl JenkinsBackend {
    /// The credentials to send with every request: the user name and token,
    /// when a user name is configured.
    pub fn basic_auth(&self) -> (r: Option<(String, Option<String>)>)
        ensures
            match self.username {
                Some(u) => r == Some((u, self.token)),
                None => r is None,
            },
    {
        match &self.username {
            Some(u) => Some((u.clone(), self.token.clone())),
            None => None,
        }
    }

    /// The URL to POST to start `job_name` with `params`:
    /// `<base>/job/<name>/buildWithParameters?<encoded params>`.
    pub fn start_test_url(&self, job_name: &str, params: &Vec<(&str, &str)>) -> (r: String)
        ensures
            r@ == self.base_url@ + "/job/"@ + job_name@ + "/buildWithParameters?"@ + form_encoding(
                pairs_view(params@),
            ),
    {
        let encoded = encode_form(params);
        let mut r: String = self.base_url.clone();
        r.append("/job/");
        r.append(job_name);
        r.append("/buildWithParameters?");
        r.append(encoded.as_str());
        r
    }

    /// Reads a queue entry's status document: `None` while the build is
    /// queued, else the URL of the executing build. A body that is not JSON,
    /// or an `executable` member that is not an object with a string `url`,
    /// breaks the protocol.
    pub fn get_build_url(&self, document: &str) -> (r: Result<Option<String>, ProtocolError>)
        ensures
            !json_valid(document@) ==> r == Err::<Option<String>, ProtocolError>(
                ProtocolError::InvalidJson,
            ),
            json_valid(document@) ==> entry_view(r) == queue_entry_spec(
                json_field(document@, seq!["executable"@]),
                json_field(document@, seq!["executable"@, "url"@]),
            ),
    {
        match member_kind(document, "executable") {
            Ok(executable) => match nested_member_kind(document, "executable", "url") {
                Ok(url) => queue_entry_from_fields(executable, url),
                Err(_) => Err(ProtocolError::InvalidJson),
            },
            Err(_) => Err(ProtocolError::InvalidJson),
        }
    }

    /// Reads a build's status document: running or done, from its boolean
    /// `building` member.
    pub fn get_build_status(&self, document: &str) -> (r: Result<JenkinsBuildStatus, ProtocolError>)
        ensures
            !json_valid(document@) ==> r == Err::<JenkinsBuildStatus, ProtocolError>(
                ProtocolError::InvalidJson,
            ),
            json_valid(document@) ==> r == status_spec(json_field(document@, seq!["building"@])),
    {
        match member_kind(document, "building") {
            Ok(building) => status_from_field(building),
            Err(_) => Err(ProtocolError::InvalidJson),
        }
    }

    /// Reads a build's result from its status document; `None` where the
    /// document gives no result. Never `Unknown`.
    pub fn get_build_result(&self, document: &str) -> (r: Result<Option<TestState>, ProtocolError>)
        ensures
            !json_valid(document@) ==> r == Err::<Option<TestState>, ProtocolError>(
                ProtocolError::InvalidJson,
            ),
            json_valid(document@) ==> r == Ok::<Option<TestState>, ProtocolError>(
                result_spec(json_field(document@, seq!["result"@])),
            ),
            r matches Ok(Some(s)) ==> s != TestState::Unknown,
    {
        match member_kind(document, "result") {
            Ok(result) => Ok(result_from_field(result)),
            Err(_) => Err(ProtocolError::InvalidJson),
        }
    }

    /// The URL where a build's results are shown.
    pub fn get_results_url(&self, build_url: &str, job: &Job) -> (r: String)
        ensures
            r@ == results_url_spec(build_url@, job.value("artifact"@)),
    {
        let mut r: String = build_url.to_owned();
        match job.get("artifact") {
            Some(artifact) => {
                r.append("/artifact/");
                r.append(artifact.as_str());
            },
            None => {
                r.append("/");
            },
        }
        r
    }
}

} // verus!
