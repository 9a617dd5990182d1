//! Judging the two local services from the outcome of one HTTP request each.
//!
//! The embedding program sends the request and reports how it ended as a
//! [`ProbeOutcome`]. An unreachable service is an ordinary answer here, never
//! an error: every outcome maps to a result.

use crate::json::{json_member, json_tree, parse_json, parsed_json, JsonTree};
use vstd::prelude::*;

verus! {

/// Where the model-serving service lists its models.
pub const OLLAMA_TAGS_URL: &'static str = "http://localhost:11434/api/tags";

/// Where the backend reports its health.
pub const BACKEND_HEALTH_URL: &'static str = "http://localhost:8000/health";

/// Seconds after which a probe request is abandoned.
pub const PROBE_TIMEOUT_SECS: u64 = 5;

/// Shown to the user when the model-serving service cannot be reached.
pub const INSTALL_HINT: &'static str = "Please install and start Ollama from https://ollama.ai";

/// Key of the model list in the service's answer.
pub const MODELS_KEY: &'static str = "models";

/// Key of a model's identifier in an entry of the model list.
pub const NAME_KEY: &'static str = "name";

/// How one probe request ended.
#[derive(Debug, Clone, PartialEq, Eq)]
pub enum ProbeOutcome {
    /// No response arrived: the connection was refused or broke, or the
    /// timeout ran out.
    ConnectionFailure,
    /// A response arrived with this status code. `body` holds its bytes, or
    /// `None` where they were not or could not be read.
    Response { status: u16, body: Option<Vec<u8>> },
}

/// Whether a service answered as a running service does.
#[derive(Debug, Clone, Copy, PartialEq, Eq)]
pub enum ServiceStatus {
    Running,
    NotRunning,
}

/// What the dependency-service probe reports.
#[derive(Debug, Clone, PartialEq, Eq)]
pub struct HealthStatus {
    pub status: ServiceStatus,
    /// Identifiers of the models found, in the order the service listed them.
    pub models: Vec<String>,
    /// Advice for the user, present only when the service was unreachable.
    pub help: Option<String>,
}

/// A [`HealthStatus`] with its strings as character sequences.
#[verifier::ext_equal]
pub ghost struct HealthStatusView {
    pub status: ServiceStatus,
    pub models: Seq<Seq<char>>,
    pub help: Option<Seq<char>>,
}

impl View for HealthStatus {
    type V = HealthStatusView;

    open spec fn view(&self) -> HealthStatusView {
        HealthStatusView {
            status: self.status,
            models: self.models.deep_view(),
            help: self.help.deep_view(),
        }
    }
}

/// A status code in the range 200 to 299.
pub open spec fn is_success_status(status: u16) -> bool {
    200 <= status < 300
}

/// The identifier that an entry of the model list carries: the string under
/// its `name` key. An entry that is no object, has no such key, or holds
/// something other than a string there carries none.
pub open spec fn entry_name(entry: JsonTree) -> Option<Seq<char>> {
    match entry {
        JsonTree::Object(fields) => if fields.contains_key(NAME_KEY@) {
            match fields[NAME_KEY@] {
                JsonTree::Text(name) => Some(name),
                _ => None,
            }
        } else {
            None
        },
        _ => None,
    }
}

/// The entries of a document's model list: the elements of the array under
/// its `models` key, or none where the document has no such array.
pub open spec fn listed_entries(doc: JsonTree) -> Seq<JsonTree> {
    match doc {
        JsonTree::Object(fields) => if fields.contains_key(MODELS_KEY@) {
            match fields[MODELS_KEY@] {
                JsonTree::Array(entries) => entries,
                _ => Seq::empty(),
            }
        } else {
            Seq::empty()
        },
        _ => Seq::empty(),
    }
}

/// The model identifiers that a document lists: the names of its entries in
/// order, entries without a name left out.
pub open spec fn listed_models(doc: JsonTree) -> Seq<Seq<char>> {
    listed_entries(doc).filter_map(|entry: JsonTree| entry_name(entry))
}

/// The models that a response body reports. A body that is missing or is
/// not JSON reports none.
pub open spec fn body_models(body: Option<Vec<u8>>) -> Seq<Seq<char>> {
    match body {
        Some(bytes) => match parsed_json(bytes@) {
            Some(doc) => listed_models(doc),
            None => Seq::empty(),
        },
        None => Seq::empty(),
    }
}

/// The report for a service that answered with a success status.
pub open spec fn running_with(models: Seq<Seq<char>>) -> HealthStatusView {
    HealthStatusView { status: ServiceStatus::Running, models, help: None }
}

/// The report for a service that answered with any other status.
pub open spec fn refused() -> HealthStatusView {
    HealthStatusView { status: ServiceStatus::NotRunning, models: Seq::empty(), help: None }
}

/// The report for a service that did not answer at all.
pub open spec fn unreachable() -> HealthStatusView {
    HealthStatusView {
        status: ServiceStatus::NotRunning,
        models: Seq::empty(),
        help: Some(INSTALL_HINT@),
    }
}

/// The dependency-service report that a probe outcome calls for.
pub open spec fn ollama_status(outcome: ProbeOutcome) -> HealthStatusView {
    match outcome {
        ProbeOutcome::ConnectionFailure => unreachable(),
        ProbeOutcome::Response { status, body } => if is_success_status(status) {
            running_with(body_models(body))
        } else {
            refused()
        },
    }
}

/// Whether a probe outcome shows a healthy backend: a response arrived and
/// its status is a success code.
pub open spec fn backend_healthy(outcome: ProbeOutcome) -> bool {
    match outcome {
        ProbeOutcome::ConnectionFailure => false,
        ProbeOutcome::Response { status, .. } => is_success_status(status),
    }
}

impl ServiceStatus {
    /// The tag under which the status is reported.
    pub open spec fn tag_text(self) -> Seq<char> {
        match self {
            ServiceStatus::Running => "running"@,
            ServiceStatus::NotRunning => "not_running"@,
        }
    }

    /// The tag under which the status is reported: `running` or
    /// `not_running`.
    pub fn tag(&self) -> (text: &'static str)
        ensures
            text@ == self.tag_text(),
    {
        match self {
            ServiceStatus::Running => "running",
            ServiceStatus::NotRunning => "not_running",
        }
    }
}

/// Tells whether a status code is a success code.
pub fn is_success(status: u16) -> (success: bool)
    ensures
        success == is_success_status(status),
{
    200 <= status && status < 300
}

/// Reads the identifier of one entry of the model list.
pub fn name_of_entry(entry: &serde_json::Value) -> (name: Option<String>)
    ensures
        name.deep_view() == entry_name(json_tree(*entry)),
{
    match json_member(entry, NAME_KEY) {
        Some(field) => match field.as_str() {
            Some(text) => Some(text.to_owned()),
            None => None,
        },
        None => None,
    }
}

/// Collects the model identifiers that a document lists.
pub fn model_names(doc: &serde_json::Value) -> (names: Vec<String>)
    ensures
        names.deep_view() == listed_models(json_tree(*doc)),
{
    let mut names: Vec<String> = Vec::new();
    if let Some(list) = json_member(doc, MODELS_KEY) {
        if let Some(items) = list.as_array() {
            let ghost entries = items@.map_values(|item: serde_json::Value| json_tree(item));
            let ghost name = |entry: JsonTree| entry_name(entry);
            let mut i: usize = 0;
            while i < items.len()
                invariant
                    i <= items.len(),
                    entries == items@.map_values(|item: serde_json::Value| json_tree(item)),
                    name == |entry: JsonTree| entry_name(entry),
                    names.deep_view() == entries.take(i as int).filter_map(name),
                decreases items.len() - i,
            {
                proof {
                    entries.lemma_filter_map_take_succ(name, i as int);
                }
                if let Some(found) = name_of_entry(&items[i]) {
                    names.push(found);
                }
                i += 1;
            }
            assert(entries.take(i as int) == entries);
        }
    }
    names
}

/// The report for a service that answered with a success status, given what
/// parsing its body produced (`None` where the body was missing or was not
/// JSON).
pub fn running_status(parsed: Option<&serde_json::Value>) -> (report: HealthStatus)
    ensures
        report@ == running_with(
            match parsed {
                Some(doc) => listed_models(json_tree(*doc)),
                None => Seq::empty(),
            },
        ),
{
    let models = match parsed {
        Some(doc) => model_names(doc),
        None => Vec::new(),
    };
    HealthStatus { status: ServiceStatus::Running, models, help: None }
}

/// The dependency-service status check: turns the outcome of the request to
/// [`OLLAMA_TAGS_URL`] into a report. Every outcome gives one.
pub fn check_ollama_status(outcome: &ProbeOutcome) -> (report: HealthStatus)
    ensures
        report@ == ollama_status(*outcome),
{
    match outcome {
        ProbeOutcome::ConnectionFailure => HealthStatus {
            status: ServiceStatus::NotRunning,
            models: Vec::new(),
            help: Some(INSTALL_HINT.to_owned()),
        },
        ProbeOutcome::Response { status, body } => {
            if is_success(*status) {
                let parsed = match body {
                    Some(bytes) => parse_json(bytes.as_slice()),
                    None => None,
                };
                running_status(parsed.as_ref())
            } else {
                HealthStatus { status: ServiceStatus::NotRunning, models: Vec::new(), help: None }
            }
        },
    }
}

/// The backend health check: turns the outcome of the request to
/// [`BACKEND_HEALTH_URL`] into healthy or unhealthy.
pub fn check_backend_health(outcome: &ProbeOutcome) -> (healthy: bool)
    ensures
        healthy == backend_healthy(*outcome),
        outcome is ConnectionFailure ==> !healthy,
        *outcome matches ProbeOutcome::Response { status, .. } ==> healthy == (200 <= status
            <= 299),
{
    match outcome {
        ProbeOutcome::ConnectionFailure => false,
        ProbeOutcome::Response { status, .. } => is_success(*status),
    }
}

} // verus!
