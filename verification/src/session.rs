//! A session without a control plane.
//!
//! It serves one configured agent, and its artifacts go to local files.

use crate::brain::{configured, ToolDecl};
use crate::decode::{debug_of, debug_text};
use crate::engine::engine_of;
use crate::json::{FieldsV, Json, JsonMap, JsonV};
use crate::text::{
    after_prefix, decimal_int, decimal_int_text, join2, join3, same, strip_prefix,
};
use vstd::prelude::*;
use vstd::string::StringExecFns;

verus! {

/// The configuration of the agent that a session serves.
pub open spec fn agent_config(graph_spec: JsonV, seed_vars: FieldsV) -> JsonV {
    JsonV::Object(
        Map::<Seq<char>, JsonV>::empty().insert("graph_spec"@, graph_spec).insert(
            "runtime_options"@,
            JsonV::Object(Map::empty()),
        ).insert("seed_vars"@, JsonV::Object(seed_vars)),
    )
}

/// What a session knows of a call.
#[derive(Debug)]
pub struct ResolvedCall {
    /// The label of the transport.
    pub provider: String,
    /// The agent's configuration.
    pub brain_config: Json,
    /// Whether the run is over already.
    pub is_completed: bool,
}

/// Where an artifact goes.
#[derive(Debug)]
pub struct UploadTarget {
    pub url: String,
    pub key: String,
    pub content_type: String,
}

/// Why a session cannot do something.
#[derive(Debug)]
pub struct SessionError {
    pub message: String,
}

/// The key of a run's artifact.
pub open spec fn artifact_key(run_id: i64, kind: Seq<char>) -> Seq<char> {
    "run-"@ + decimal_int(run_id as int) + "-"@ + kind
}

/// The content type of a kind of artifact.
pub open spec fn artifact_type(kind: Seq<char>) -> Seq<char> {
    if kind == "recording"@ {
        "audio/wav"@
    } else if kind == "transcript"@ {
        "application/json"@
    } else {
        "application/octet-stream"@
    }
}

/// The URL of a local file.
pub open spec fn file_url(path: Seq<char>) -> Seq<char> {
    "file://"@ + path
}

/// The path of a local file's URL.
pub open spec fn path_of_url(url: Seq<char>) -> Option<Seq<char>> {
    after_prefix(url, "file://"@)
}

/// A session that serves one agent.
#[derive(Debug)]
pub struct StaticSession {
    brain_config: Json,
    provider: String,
}

impl StaticSession {
    pub closed spec fn config(&self) -> JsonV {
        self.brain_config@
    }

    pub closed spec fn label(&self) -> Seq<char> {
        self.provider@
    }

    /// A session for an agent's graph and seed variables. `provider` is the label
    /// of the transport.
    pub fn new(graph_spec: Json, seed_vars: JsonMap, provider: &str) -> (r: StaticSession)
        ensures
            r.config() == agent_config(graph_spec@, seed_vars@),
            r.label() == provider@,
    {
        broadcast use crate::json::group_json;

        let mut m: JsonMap = JsonMap::new();
        m.insert(String::from_str("graph_spec"), graph_spec);
        m.insert(String::from_str("runtime_options"), Json::Object(JsonMap::new()));
        m.insert(String::from_str("seed_vars"), Json::Object(seed_vars));
        StaticSession { brain_config: Json::Object(m), provider: String::from_str(provider) }
    }

    /// Every run is the configured agent, and is not over.
    pub fn resolve(&self, _run_id: i64, _token: &str) -> (r: Result<ResolvedCall, SessionError>)
        ensures
            r matches Ok(call) && {
                &&& call.provider@ == self.label()
                &&& call.brain_config@ == self.config()
                &&& !call.is_completed
            },
    {
        Ok(
            ResolvedCall {
                provider: self.provider.clone(),
                brain_config: self.brain_config.clone(),
                is_completed: false,
            },
        )
    }

    /// The tools that a control plane adds to a node: none.
    pub fn node_tools(&self, _run_id: i64, _token: &str, _node_id: &str) -> (r: Result<
        Vec<ToolDecl>,
        SessionError,
    >)
        ensures
            r matches Ok(tools) && tools@.len() == 0,
    {
        Ok(Vec::new())
    }

    /// The answer to a tool call: no tool is available here.
    pub fn tool_call(
        &self,
        _run_id: i64,
        _token: &str,
        _node_id: &str,
        tool_name: &str,
        _args: &Json,
    ) -> (r: Result<String, SessionError>)
        ensures
            r matches Ok(s) && s@ == "tool "@ + debug_text(tool_name@)
                + " is not available in the static/local session"@,
    {
        Ok(
            join3(
                "tool ",
                debug_of(tool_name).as_str(),
                " is not available in the static/local session",
            ),
        )
    }
}

/// The key of a run's artifact.
pub fn make_artifact_key(run_id: i64, kind: &str) -> (r: String)
    ensures
        r@ == artifact_key(run_id, kind@),
{
    let mut s: String = join3("run-", decimal_int_text(run_id).as_str(), "-");
    s.append(kind);
    s
}

/// The target of a run's artifact, given the path of its key in the artifact
/// directory.
pub fn artifact_upload_target(run_id: i64, kind: &str, path: &str) -> (r: UploadTarget)
    ensures
        r.url@ == file_url(path@),
        r.key@ == artifact_key(run_id, kind@),
        r.content_type@ == artifact_type(kind@),
{
    let content_type: &str = if same(kind, "recording") {
        "audio/wav"
    } else if same(kind, "transcript") {
        "application/json"
    } else {
        "application/octet-stream"
    };
    UploadTarget {
        url: join2("file://", path),
        key: make_artifact_key(run_id, kind),
        content_type: String::from_str(content_type),
    }
}

/// The path that bytes for a URL are written to; a URL of another kind is
/// refused.
pub fn upload_path(url: &str) -> (r: Result<String, SessionError>)
    ensures
        match r {
            Ok(path) => path_of_url(url@) == Some(path@),
            Err(e) => path_of_url(url@) is None && e.message@
                == "static session only supports file:// upload targets, got "@ + debug_text(url@),
        },
{
    match strip_prefix(url, "file://") {
        Some(path) => Ok(path),
        None => Err(
            SessionError {
                message: join2(
                    "static session only supports file:// upload targets, got ",
                    debug_of(url).as_str(),
                ),
            },
        ),
    }
}

// ── Laws ──────────────────────────────────────────────────────────────────

/// An agent built from what the session serves is the agent of its graph and
/// seed variables, with empty options.
pub proof fn session_serves_its_agent(graph_spec: JsonV, seed_vars: FieldsV)
    ensures
        configured(agent_config(graph_spec, seed_vars)) == engine_of(
            graph_spec,
            JsonV::Object(Map::empty()),
            seed_vars,
        ),
{
    reveal_strlit("graph_spec");
    reveal_strlit("runtime_options");
    reveal_strlit("seed_vars");
    assert("graph_spec"@.len() != "runtime_options"@.len());
    assert("graph_spec"@.len() != "seed_vars"@.len());
    assert("runtime_options"@.len() != "seed_vars"@.len());
}

/// What is uploaded to an artifact's target lands at the artifact's path.
pub proof fn target_leads_back_to_its_path(path: Seq<char>)
    ensures
        path_of_url(file_url(path)) == Some(path),
{
    let p = "file://"@;
    let url = file_url(path);
    assert(url.take(p.len() as int) =~= p);
    assert(url.skip(p.len() as int) =~= path);
}

} // verus!
