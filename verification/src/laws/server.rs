//! Laws of the server: its configuration, its keys, its replies and its calls.

use crate::config::{
    document_of, source_of, yaml_extension, ConfigErrorV, GraphSourceV, ProviderSpecV,
    TopologyConfig,
};
use crate::engine::engine_of;
use crate::graph::graph_of;
use crate::json::{json_of_text, json_of_yaml, json_text, normal, FieldsV, Json, JsonV};
use crate::run::{
    enriched, env_view, first_value, key_in, key_names, lowered, plan_of, upper_snake, value_in,
    CallPlanV,
};
use crate::server::{
    answer_of, call_agent, field_reply, media_agent, one_field_json, primary, text_reply, CARRIER_RATE,
};
use crate::session::{agent_config, artifact_key, artifact_type, file_url, path_of_url};
use crate::text::{ascii_lower, ascii_upper, blank, decimal_int, is_ascii_alnum};
use crate::webrtc::{
    action_after, answer_to, calls_after, completes, number_after, pc_id_of, run_id_of, stage_after,
    upcoming_after, OfferActionV, OfferEvent, OfferStage, WEBRTC_CARRIER_RATE,
};
use vstd::prelude::*;

verus! {

// ── Configuration ─────────────────────────────────────────────────────────

/// An inline graph comes before a file; one of them must be given.
pub proof fn inline_graph_comes_first(graph: Option<String>, inline: Option<Json>)
    ensures
        inline matches Some(j) ==> source_of(graph, inline) is Ok && source_of(graph, inline)->Ok_0
            == GraphSourceV::Inline(j@),
        inline is None && graph is Some ==> source_of(graph, inline) is Ok && source_of(
            graph,
            inline,
        )->Ok_0 == GraphSourceV::File(graph->Some_0@),
        inline is None && graph is None ==> source_of(graph, inline) is Err && source_of(
            graph,
            inline,
        )->Err_0 == ConfigErrorV::Graph("set `agent.graph` (a path) or `agent.graph_inline`"@),
{
}

/// A file is read as YAML where its name ends so, and otherwise as JSON.
pub proof fn format_goes_by_the_extension(extension: Option<Seq<char>>, text: Seq<char>)
    ensures
        yaml_extension(Some("yaml"@)),
        yaml_extension(Some("yml"@)),
        extension is None ==> !yaml_extension(extension),
        extension matches Some(x) && x != "yaml"@ && x != "yml"@ ==> !yaml_extension(extension),
        document_of(text, true) == json_of_yaml(text),
        document_of(text, false) == json_of_text(text),
{
}

/// What a configuration error says.
pub proof fn configuration_errors_say_why(path: Seq<char>, why: Seq<char>)
    ensures
        (ConfigErrorV::Read { path, source: why }).message() == "read "@ + path + ": "@ + why,
        (ConfigErrorV::Parse { path, msg: why }).message() == "parse "@ + path + ": "@ + why,
        ConfigErrorV::Graph(why).message() == "agent graph: "@ + why,
{
}

// ── Keys ──────────────────────────────────────────────────────────────────

/// A provider's name in lower case, and as the name of a variable, letter by letter.
pub proof fn provider_names_are_respelt(s: Seq<char>, i: int)
    requires
        0 <= i < s.len(),
    ensures
        lowered(s).len() == s.len(),
        lowered(s)[i] == ascii_lower(s[i]),
        upper_snake(s).len() == s.len(),
        upper_snake(s)[i] == if is_ascii_alnum(s[i]) {
            ascii_upper(s[i])
        } else {
            '_'
        },
{
}

/// A provider's key is looked for under its own name, then under that with the
/// product's before it; for the three names of one family, under that family's name
/// before both.
pub proof fn key_is_looked_for_by_name(provider: Seq<char>)
    ensures
        ({
            let p = lowered(provider);
            let own = upper_snake(p) + "_API_KEY"@;
            let family = p == "gemini"@ || p == "google"@ || p == "google_realtime"@;
            if family {
                &&& key_names(provider).len() == 3
                &&& key_names(provider)[0] == "GOOGLE_API_KEY"@
                &&& key_names(provider)[1] == own
                &&& key_names(provider)[2] == "FLOWCAT_"@ + own
            } else {
                &&& key_names(provider).len() == 2
                &&& key_names(provider)[0] == own
                &&& key_names(provider)[1] == "FLOWCAT_"@ + own
            }
        }),
{
    let upper = upper_snake(lowered(provider));
    assert("FLOWCAT_"@ + upper + "_API_KEY"@ =~= "FLOWCAT_"@ + (upper + "_API_KEY"@));
}

/// A variable has the value of the first entry of its name.
pub proof fn variable_has_its_first_value(
    env: Seq<(Seq<char>, Seq<char>)>,
    e: (Seq<char>, Seq<char>),
    name: Seq<char>,
)
    ensures
        value_in(Seq::<(Seq<char>, Seq<char>)>::empty(), name) is None,
        value_in(seq![e] + env, name) == (if e.0 == name {
            Some(e.1)
        } else {
            value_in(env, name)
        }),
{
    assert((seq![e] + env).drop_first() =~= env);
}

/// The environment is seen pair by pair.
pub proof fn environment_is_seen_in_pairs(env: Seq<(String, String)>, i: int)
    ensures
        env_view(env).len() == env.len(),
        0 <= i < env.len() ==> env_view(env)[i] == (env[i].0@, env[i].1@),
{
}

/// The key is the first value that is not blank among its names; without one it is
/// empty.
pub proof fn key_is_the_first_not_blank(
    env: Seq<(Seq<char>, Seq<char>)>,
    name: Seq<char>,
    names: Seq<Seq<char>>,
    provider: Seq<char>,
)
    ensures
        first_value(env, Seq::<Seq<char>>::empty()).len() == 0,
        value_in(env, name) is Some && !blank(value_in(env, name)->Some_0) ==> first_value(
            env,
            seq![name] + names,
        ) == value_in(env, name)->Some_0,
        (value_in(env, name) matches Some(v) ==> blank(v)) ==> first_value(env, seq![name] + names)
            == first_value(env, names),
        key_in(env, provider) == first_value(env, key_names(provider)),
{
    assert((seq![name] + names).drop_first() =~= names);
}

/// A key that is set is kept, and one that is blank is looked for under the
/// provider's names. Nothing else of the provider changes.
pub proof fn only_a_blank_key_is_looked_for(p: ProviderSpecV, env: Seq<(Seq<char>, Seq<char>)>)
    ensures
        enriched(p, env).provider == p.provider,
        enriched(p, env).model == p.model,
        enriched(p, env).options == p.options,
        !blank(p.api_key) ==> enriched(p, env).api_key == p.api_key,
        blank(p.api_key) ==> enriched(p, env).api_key == key_in(env, p.provider),
{
}

/// A call runs on the providers of its topology, each in its own part and with its
/// own key.
pub proof fn plan_keeps_each_provider_in_its_part(
    topology: TopologyConfig,
    env: Seq<(Seq<char>, Seq<char>)>,
)
    ensures
        match topology {
            TopologyConfig::Realtime { provider, model, options } => plan_of(
                topology,
                env,
            ) matches CallPlanV::Realtime { backend, model: on } && {
                &&& backend.provider == provider@
                &&& backend.model == model@
                &&& backend.options == options@
                &&& backend.api_key == key_in(env, provider@)
                &&& on == model@
            },
            TopologyConfig::Cascaded { stt, llm, tts } => plan_of(
                topology,
                env,
            ) matches CallPlanV::Cascaded { stt: s, llm: l, tts: t } && {
                &&& s == enriched(stt@, env)
                &&& l == enriched(llm@, env)
                &&& t == enriched(tts@, env)
            },
        },
        match topology {
            TopologyConfig::Realtime { provider, .. } => primary(topology) == provider@,
            TopologyConfig::Cascaded { llm, .. } => primary(topology) == llm.provider@,
        },
{
}

// ── Replies ───────────────────────────────────────────────────────────────

/// A plain reply is plain text, and a reply with one field is JSON that holds it.
pub proof fn replies_say_what_they_are(status: u16, body: Seq<char>, key: Seq<char>, v: JsonV)
    ensures
        text_reply(status, body).status == status,
        text_reply(status, body).content_type == "text/plain; charset=utf-8"@,
        text_reply(status, body).body == body,
        field_reply(status, key, v).status == status,
        field_reply(status, key, v).content_type == "application/json"@,
        field_reply(status, key, v).body == json_text(normal(one_field_json(key, v))),
        one_field_json(key, v) matches JsonV::Object(m) && m.dom() == set![key] && m[key] == v,
{
    assert(one_field_json(key, v)->Object_0.dom() =~= set![key]);
}

/// A call's agent is the configured graph with the seed variables and no options;
/// where the graph cannot be run, the call is refused with the reason.
pub proof fn call_is_refused_with_the_reason(graph: JsonV, seed: FieldsV)
    ensures
        graph_of(graph) is Ok ==> {
            &&& call_agent(graph, seed) is Ok
            &&& call_agent(graph, seed)->Ok_0 == engine_of(
                graph,
                JsonV::Object(Map::empty()),
                seed,
            )->Ok_0
        },
        graph_of(graph) matches Err(e) ==> {
            &&& call_agent(graph, seed) is Err
            &&& call_agent(graph, seed)->Err_0.status == 422
            &&& call_agent(graph, seed)->Err_0.content_type == "text/plain; charset=utf-8"@
            &&& call_agent(graph, seed)->Err_0.body == e.message()
        },
{
}

/// Only the one carrier is served, whatever the case of its name; another is not
/// found.
pub proof fn one_carrier_is_served(provider: Seq<char>, graph: JsonV, seed: FieldsV)
    ensures
        lowered(provider) == "plivo"@ ==> media_agent(provider, graph, seed) == call_agent(
            graph,
            seed,
        ),
        lowered(provider) != "plivo"@ ==> {
            &&& media_agent(provider, graph, seed) is Err
            &&& media_agent(provider, graph, seed)->Err_0.status == 404
            &&& media_agent(provider, graph, seed)->Err_0.body
                == "unsupported carrier (only 'plivo')"@
        },
{
}

/// The carrier is answered with the document for the call; without a public address
/// it is told so.
pub proof fn carrier_is_answered_with_the_document(
    base: Seq<char>,
    run_id: i64,
    token: Seq<char>,
)
    ensures
        base.len() > 0 ==> {
            let r = answer_of(Some(base), run_id, token);
            &&& r.status == 200
            &&& r.content_type == "text/xml"@
            &&& r.body == crate::plivo::answer_xml(run_id, token, base)
        },
        base.len() == 0 ==> answer_of(Some(base), run_id, token) == answer_of(None, run_id, token),
        answer_of(None, run_id, token).status == 503,
        answer_of(None, run_id, token).content_type == "text/plain; charset=utf-8"@,
        answer_of(None, run_id, token).body
            == "FLOWCAT_PUBLIC_URL not set — cannot build a reachable wss:// answer URL"@,
{
}

/// The sample rates of the two transports.
pub proof fn transport_rates()
    ensures
        CARRIER_RATE == 8000,
        WEBRTC_CARRIER_RATE == 16000,
{
}

// ── Sessions ──────────────────────────────────────────────────────────────

/// A session's configuration holds its graph and its variables, with no options.
pub proof fn session_holds_graph_and_variables(graph: JsonV, seed: FieldsV)
    ensures
        agent_config(graph, seed) matches JsonV::Object(m) && {
            &&& m.dom() == set!["graph_spec"@, "runtime_options"@, "seed_vars"@]
            &&& m["graph_spec"@] == graph
            &&& m["runtime_options"@] == JsonV::Object(Map::empty())
            &&& m["seed_vars"@] == JsonV::Object(seed)
        },
{
    reveal_strlit("graph_spec");
    reveal_strlit("runtime_options");
    reveal_strlit("seed_vars");
    assert("graph_spec"@.len() == 10 && "runtime_options"@.len() == 15 && "seed_vars"@.len() == 9);
    let m = agent_config(graph, seed)->Object_0;
    assert(m.dom() =~= set!["graph_spec"@, "runtime_options"@, "seed_vars"@]);
}

/// An artifact goes by its run and its kind, its type by its kind, and its address is
/// that of a local file.
pub proof fn artifacts_go_by_run_and_kind(
    run_id: i64,
    kind: Seq<char>,
    path: Seq<char>,
    url: Seq<char>,
)
    ensures
        artifact_key(run_id, kind) == "run-"@ + decimal_int(run_id as int) + "-"@ + kind,
        kind == "recording"@ ==> artifact_type(kind) == "audio/wav"@,
        kind == "transcript"@ ==> artifact_type(kind) == "application/json"@,
        kind != "recording"@ && kind != "transcript"@ ==> artifact_type(kind)
            == "application/octet-stream"@,
        file_url(path) == "file://"@ + path,
        path_of_url(url) == Some(path) <==> url == "file://"@ + path,
{
    reveal_strlit("recording");
    reveal_strlit("transcript");
    assert("recording"@.len() != "transcript"@.len());
    crate::laws::text::prefix_is_cut_off(url, "file://"@, path);
}

// ── Offers ────────────────────────────────────────────────────────────────

/// An offer waits for its socket and then for its acceptance. It is refused where the
/// socket cannot be bound or the offer is rejected, with the reason; it is answered
/// with the session description that was given, under the next number.
pub proof fn offer_goes_from_socket_to_answer<R>(
    stage: OfferStage,
    event: OfferEvent<R>,
    upcoming: u64,
    calls: Map<Seq<char>, Option<R>>,
)
    ensures
        match (stage, event) {
            (OfferStage::Binding, OfferEvent::Bound) => {
                &&& stage_after(stage, event) == OfferStage::Accepting
                &&& action_after(stage, event, upcoming) is Accept
            },
            (OfferStage::Binding, OfferEvent::BindFailed) => {
                &&& stage_after(stage, event) == OfferStage::Settled
                &&& action_after(stage, event, upcoming) matches OfferActionV::Refuse(r)
                    && r.status == 500 && r.body == "failed to bind a media socket"@
            },
            (OfferStage::Accepting, OfferEvent::Accepted { sdp, receiver }) => {
                &&& stage_after(stage, event) == OfferStage::Settled
                &&& action_after(stage, event, upcoming) matches OfferActionV::Run(r) && r.sdp
                    == sdp@ && r.pc_id == "pc-"@ + decimal_int(run_id_of(upcoming) as int)
                &&& completes(stage, event)
                &&& calls_after(stage, event, upcoming, calls) == calls.insert(
                    "pc-"@ + decimal_int(run_id_of(upcoming) as int),
                    Some(receiver),
                )
                &&& upcoming_after(stage, event, upcoming) == number_after(upcoming)
            },
            (OfferStage::Accepting, OfferEvent::Rejected { reason }) => {
                &&& stage_after(stage, event) == OfferStage::Settled
                &&& action_after(stage, event, upcoming) matches OfferActionV::Refuse(r)
                    && r.status == 422 && r.body == reason@
            },
            _ => {
                &&& stage_after(stage, event) == stage
                &&& action_after(stage, event, upcoming) is Unexpected
                &&& calls_after(stage, event, upcoming, calls) == calls
                &&& upcoming_after(stage, event, upcoming) == upcoming
            },
        },
{
}

/// Calls are numbered upwards, and are known by their number.
pub proof fn calls_are_numbered(n: u64, sdp: Seq<char>)
    ensures
        n < u64::MAX ==> number_after(n) == n + 1,
        number_after(u64::MAX) == 0,
        n <= i64::MAX ==> run_id_of(n) == n,
        n > i64::MAX ==> run_id_of(n) == n - 0x1_0000_0000_0000_0000,
        pc_id_of(run_id_of(n)) == "pc-"@ + decimal_int(run_id_of(n) as int),
        answer_to(sdp, n).sdp == sdp,
        answer_to(sdp, n).pc_id == pc_id_of(run_id_of(n)),
{
}

} // verus!
