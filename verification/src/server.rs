//! What the HTTP server answers.

use crate::brain::DeclarativeBrain;
use crate::config::{ServerConfig, TopologyConfig};
use crate::engine::{engine_of, EngineV};
use crate::json::{
    json_text, normal, plain, plain_empty, plain_insert, raw_marker, reads_as,
    short_key_is_no_marker, FieldsV, Json, JsonMap, JsonV,
};
use crate::plivo::{answer_xml, plivo_answer_xml};
use crate::run::{env_view, key_from_env, key_in, lowered, to_lower};
use crate::text::same;
use vstd::prelude::*;
use vstd::string::StringExecFns;

verus! {

/// The sample rate of the Plivo carrier.
pub const CARRIER_RATE: u32 = 8_000;

/// An answer of the server.
#[derive(Debug)]
pub struct Reply {
    pub status: u16,
    pub content_type: &'static str,
    pub body: String,
}

/// The view of a [`Reply`].
#[verifier::ext_equal]
pub struct ReplyV {
    pub status: u16,
    pub content_type: Seq<char>,
    pub body: Seq<char>,
}

impl View for Reply {
    type V = ReplyV;

    open spec fn view(&self) -> ReplyV {
        ReplyV { status: self.status, content_type: self.content_type@, body: self.body@ }
    }
}

/// An answer in plain text.
pub open spec fn text_reply(status: u16, body: Seq<char>) -> ReplyV {
    ReplyV { status, content_type: "text/plain; charset=utf-8"@, body }
}

pub(crate) fn plain_text(status: u16, body: &str) -> (r: Reply)
    ensures
        r@ == text_reply(status, body@),
{
    Reply { status, content_type: "text/plain; charset=utf-8", body: String::from_str(body) }
}

/// An answer that is an object with one field.
pub open spec fn field_reply(status: u16, key: Seq<char>, v: JsonV) -> ReplyV {
    ReplyV {
        status,
        content_type: "application/json"@,
        body: json_text(normal(one_field_json(key, v))),
    }
}

/// An object with one field.
pub open spec fn one_field_json(key: Seq<char>, v: JsonV) -> JsonV {
    JsonV::Object(Map::<Seq<char>, JsonV>::empty().insert(key, v))
}

fn one_field(status: u16, key: &str, v: Json) -> (r: Reply)
    ensures
        r@ == field_reply(status, key@, v@),
        key@ != raw_marker() && plain(v@, 126) ==> reads_as(r.body@, one_field_json(key@, v@)),
{
    broadcast use crate::json::group_json;

    let mut m: JsonMap = JsonMap::new();
    m.insert(String::from_str(key), v);
    let j: Json = Json::Object(m);
    proof {
        if key@ != raw_marker() && plain(v@, 126) {
            plain_empty(127);
            plain_insert(Map::empty(), key@, v@, 127);
        }
    }
    Reply { status, content_type: "application/json", body: j.text() }
}

// ── Probes ────────────────────────────────────────────────────────────────

/// The answer to a health probe.
pub fn healthz() -> (r: Reply)
    ensures
        r@ == field_reply(200, "status"@, JsonV::Str("ok"@)),
        reads_as(r.body@, one_field_json("status"@, JsonV::Str("ok"@))),
{
    broadcast use crate::json::group_json;

    proof {
        reveal_strlit("status");
        short_key_is_no_marker("status"@);
    }
    one_field(200, "status", Json::Str(String::from_str("ok")))
}

/// The provider that a deployment depends on first: the realtime one, or the
/// language model of a cascade.
pub open spec fn primary(topology: TopologyConfig) -> Seq<char> {
    match topology {
        TopologyConfig::Realtime { provider, .. } => provider@,
        TopologyConfig::Cascaded { llm, .. } => llm.provider@,
    }
}

/// The provider that a deployment depends on first.
pub fn primary_provider(config: &ServerConfig) -> (r: &str)
    ensures
        r@ == primary(config.topology),
{
    match &config.topology {
        TopologyConfig::Realtime { provider, .. } => provider.as_str(),
        TopologyConfig::Cascaded { llm, .. } => llm.provider.as_str(),
    }
}

/// Whether the environment holds the key of the primary provider.
pub fn primary_provider_key_present(config: &ServerConfig, env: &Vec<(String, String)>) -> (r: bool)
    ensures
        r == (key_in(env_view(env@), primary(config.topology)).len() > 0),
{
    !key_from_env(primary_provider(config), env).as_str().is_empty()
}

/// The answer to a readiness probe: ready where the primary key is there.
pub fn readyz(config: &ServerConfig, env: &Vec<(String, String)>) -> (r: Reply)
    ensures
        ({
            let ready = key_in(env_view(env@), primary(config.topology)).len() > 0;
            &&& r@ == field_reply(
                if ready {
                    200
                } else {
                    503
                },
                "ready"@,
                JsonV::Bool(ready),
            )
            &&& reads_as(r.body@, one_field_json("ready"@, JsonV::Bool(ready)))
        }),
{
    broadcast use crate::json::group_json;

    let ready: bool = primary_provider_key_present(config, env);
    let status: u16 = if ready {
        200
    } else {
        503
    };
    proof {
        reveal_strlit("ready");
        short_key_is_no_marker("ready"@);
    }
    one_field(status, "ready", Json::Bool(ready))
}

// ── Calls ─────────────────────────────────────────────────────────────────

/// The agent of a call, or the answer that refuses it.
pub open spec fn call_agent(graph: JsonV, seed_vars: FieldsV) -> Result<EngineV, ReplyV> {
    match engine_of(graph, JsonV::Object(Map::empty()), seed_vars) {
        Ok(e) => Ok(e),
        Err(e) => Err(text_reply(422, e.message())),
    }
}

/// An agent or a refusal agrees with its model.
pub open spec fn agent_result(r: Result<DeclarativeBrain, Reply>, v: Result<EngineV, ReplyV>) -> bool {
    match (r, v) {
        (Ok(a), Ok(b)) => a@ == b && a.wf(),
        (Err(a), Err(b)) => a@ == b,
        _ => false,
    }
}

/// The agent of a call. A graph that cannot be run is refused before anything is
/// set up for the call.
pub fn build_agent(graph: &Json, seed_vars: &JsonMap) -> (r: Result<DeclarativeBrain, Reply>)
    ensures
        agent_result(r, call_agent(graph@, seed_vars@)),
{
    broadcast use crate::json::group_json;

    match DeclarativeBrain::new(graph, Json::Object(JsonMap::new()), seed_vars.clone()) {
        Ok(b) => Ok(b),
        Err(e) => Err(plain_text(422, e.message().as_str())),
    }
}

/// The agent of a media socket, or the answer that refuses it. Only one carrier
/// is served.
pub open spec fn media_agent(provider: Seq<char>, graph: JsonV, seed_vars: FieldsV) -> Result<
    EngineV,
    ReplyV,
> {
    if lowered(provider) != "plivo"@ {
        Err(text_reply(404, "unsupported carrier (only 'plivo')"@))
    } else {
        call_agent(graph, seed_vars)
    }
}

/// Decides on a media socket of a carrier.
pub fn media_ws(provider: &str, graph: &Json, seed_vars: &JsonMap) -> (r: Result<
    DeclarativeBrain,
    Reply,
>)
    ensures
        agent_result(r, media_agent(provider@, graph@, seed_vars@)),
{
    let carrier: String = to_lower(provider);
    if !same(carrier.as_str(), "plivo") {
        return Err(plain_text(404, "unsupported carrier (only 'plivo')"));
    }
    build_agent(graph, seed_vars)
}

/// The answer to the carrier's question what to do with a call.
pub open spec fn answer_of(public_url: Option<Seq<char>>, run_id: i64, token: Seq<char>) -> ReplyV {
    let unset = text_reply(
        503,
        "FLOWCAT_PUBLIC_URL not set — cannot build a reachable wss:// answer URL"@,
    );
    match public_url {
        Some(base) => if base.len() > 0 {
            ReplyV {
                status: 200,
                content_type: "text/xml"@,
                body: answer_xml(run_id, token, base),
            }
        } else {
            unset
        },
        None => unset,
    }
}

/// The answer to the carrier's question what to do with a call. Without a public
/// URL there is no way back to this host.
pub fn answer_plivo(public_url: Option<&str>, run_id: i64, token: &str) -> (r: Reply)
    ensures
        r@ == answer_of(crate::json::opt_text(public_url), run_id, token@),
{
    if let Some(base) = public_url {
        if !base.is_empty() {
            return Reply {
                status: 200,
                content_type: "text/xml",
                body: plivo_answer_xml(run_id, token, base),
            };
        }
    }
    plain_text(503, "FLOWCAT_PUBLIC_URL not set — cannot build a reachable wss:// answer URL")
}

// ── Laws ──────────────────────────────────────────────────────────────────

/// A call is refused exactly where the graph cannot be run, with the reason, and
/// where the carrier is another one, whatever the graph.
pub proof fn refusals_have_their_reason(provider: Seq<char>, graph: JsonV, seed_vars: FieldsV)
    ensures
        lowered(provider) != "plivo"@ ==> (media_agent(provider, graph, seed_vars) matches Err(r)
            && r.status == 404),
        lowered(provider) == "plivo"@ ==> {
            &&& media_agent(provider, graph, seed_vars) is Ok <==> crate::graph::graph_of(
                graph,
            ) is Ok
            &&& media_agent(provider, graph, seed_vars) matches Err(r) ==> r.status == 422
                && r.body == (crate::graph::graph_of(graph)->Err_0).message()
        },
{
}

} // verus!
