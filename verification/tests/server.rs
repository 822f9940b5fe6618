use flowcat::brain::DeclarativeBrain;
use flowcat::config::{
    is_yaml, parse_graph, AgentConfig, ConfigError, GraphSource, HttpConfig, ProviderSpec,
    ServerConfig, TopologyConfig, TransportConfig,
};
use flowcat::events::EventRegistry;
use flowcat::json::{Json, JsonMap};
use flowcat::plivo::WsIn;
use flowcat::run::{enrich, key_env_var_names, key_from_env, plan_call, plan_env_names, CallPlan};
use flowcat::server::{answer_plivo, healthz, media_ws, readyz};
use flowcat::session::{artifact_upload_target, make_artifact_key, upload_path, StaticSession};
use flowcat::socket::{receive, CarrierFrame, Received};
use flowcat::webrtc::{pc_id, CallNumbers, OfferAction, OfferEvent, OfferFlow};

fn json(text: &str) -> Json {
    Json::parse(text).unwrap()
}

fn config(graph: Option<&str>, inline: Option<&str>) -> ServerConfig {
    ServerConfig {
        agent: AgentConfig {
            graph: graph.map(str::to_string),
            graph_inline: inline.map(json),
            seed_vars: JsonMap::new(),
        },
        topology: TopologyConfig::Realtime {
            provider: flowcat::config::default_realtime_provider(),
            model: String::new(),
            options: JsonMap::new(),
        },
        transport: TransportConfig::default(),
        server: HttpConfig::default(),
    }
}

fn provider(name: &str, key: &str) -> ProviderSpec {
    ProviderSpec {
        provider: name.to_string(),
        model: "m".to_string(),
        api_key: key.to_string(),
        options: JsonMap::new(),
    }
}

fn env(pairs: &[(&str, &str)]) -> Vec<(String, String)> {
    pairs
        .iter()
        .map(|(k, v)| (k.to_string(), v.to_string()))
        .collect()
}

// ── Configuration ───────────────────────────────────────────────────────────

#[test]
fn resolve_graph_prefers_inline() {
    let cfg = config(
        Some("./other.json"),
        Some(r#"{"nodes":[{"id":"s"}],"edges":[]}"#),
    );
    match cfg.resolve_graph().expect("inline graph resolves") {
        GraphSource::Inline(g) => {
            assert_eq!(g.array_at("nodes").unwrap()[0].str_at("id"), Some("s"))
        }
        other => panic!("expected Inline, got {other:?}"),
    }
}

#[test]
fn resolve_graph_errors_when_neither_source_set() {
    let err = config(None, None).resolve_graph().unwrap_err();
    assert!(matches!(err, ConfigError::Graph(_)));
    assert_eq!(
        err.message(),
        "agent graph: set `agent.graph` (a path) or `agent.graph_inline`"
    );
}

#[test]
fn a_graph_file_is_read_by_its_extension() {
    match config(Some("./g.yaml"), None).resolve_graph().unwrap() {
        GraphSource::File(p) => assert_eq!(p, "./g.yaml"),
        other => panic!("expected File, got {other:?}"),
    }
    assert!(is_yaml(Some("yaml")) && is_yaml(Some("yml")));
    assert!(!is_yaml(Some("json")) && !is_yaml(Some("YAML")) && !is_yaml(None));
    let yaml = parse_graph("g.yaml", "nodes:\n  - id: s\n    type: start\nn: 3\n", true).unwrap();
    assert_eq!(yaml.text(), r#"{"n":3,"nodes":[{"id":"s","type":"start"}]}"#);
    let json = parse_graph("g.json", r#"{"nodes": []}"#, false).unwrap();
    assert_eq!(json.text(), r#"{"nodes":[]}"#);
    match parse_graph("d/g.json", "{", false).unwrap_err() {
        ConfigError::Parse { path, msg } => {
            assert_eq!(path, "d/g.json");
            assert_eq!(msg, "EOF while parsing an object at line 1 column 1");
        }
        other => panic!("expected Parse, got {other:?}"),
    }
    match parse_graph("g.yml", "a: [", true).unwrap_err() {
        ConfigError::Parse { path, msg } => {
            assert_eq!(path, "g.yml");
            assert!(!msg.is_empty());
        }
        other => panic!("expected Parse, got {other:?}"),
    }
}

#[test]
fn configuration_error_texts() {
    let read = ConfigError::Read { path: "a.yaml".to_string(), source: "gone".to_string() };
    assert_eq!(read.message(), "read a.yaml: gone");
    let parse = ConfigError::Parse { path: "a.yaml".to_string(), msg: "bad".to_string() };
    assert_eq!(parse.message(), "parse a.yaml: bad");
}

#[test]
fn configuration_defaults() {
    assert_eq!(TransportConfig::default().kind, "webrtc");
    assert_eq!(HttpConfig::default().bind, "0.0.0.0:6210");
    assert_eq!(flowcat::config::default_realtime_provider(), "gemini");
}

// ── Keys and plans ──────────────────────────────────────────────────────────

#[test]
fn gemini_family_checks_google_api_key_first() {
    let names = key_env_var_names("gemini");
    assert_eq!(names[0], "GOOGLE_API_KEY");
    assert!(names.contains(&"GEMINI_API_KEY".to_string()));
    assert!(names.contains(&"FLOWCAT_GEMINI_API_KEY".to_string()));
    assert_eq!(key_env_var_names("google")[0], "GOOGLE_API_KEY");
    assert_eq!(key_env_var_names("google_realtime")[0], "GOOGLE_API_KEY");
}

#[test]
fn provider_name_is_upper_snake_cased() {
    let names = key_env_var_names("aws_bedrock");
    assert_eq!(
        names,
        vec!["AWS_BEDROCK_API_KEY", "FLOWCAT_AWS_BEDROCK_API_KEY"]
    );
    assert_eq!(
        key_env_var_names("nvidia-nim"),
        vec!["NVIDIA_NIM_API_KEY", "FLOWCAT_NVIDIA_NIM_API_KEY"]
    );
}

#[test]
fn non_gemini_provider_has_no_google_alias() {
    let names = key_env_var_names("deepgram");
    assert!(!names.iter().any(|n| n == "GOOGLE_API_KEY"));
    assert_eq!(names[0], "DEEPGRAM_API_KEY");
}

#[test]
fn keys_come_in_order_and_blanks_are_passed_over() {
    let e = env(&[
        ("FLOWCAT_GEMINI_API_KEY", "third"),
        ("GEMINI_API_KEY", "second"),
        ("GOOGLE_API_KEY", "  "),
    ]);
    assert_eq!(key_from_env("Gemini", &e), "second");
    assert_eq!(key_from_env("openai", &e), "");
    assert_eq!(key_from_env("gemini", &env(&[("GOOGLE_API_KEY", " k ")])), " k ");
}

#[test]
fn a_key_that_is_there_is_kept() {
    let e = env(&[("OPENAI_API_KEY", "from-env")]);
    assert_eq!(enrich(&provider("openai", "mine"), &e).api_key, "mine");
    let filled = enrich(&provider("openai", " "), &e);
    assert_eq!(filled.api_key, "from-env");
    assert_eq!(filled.model, "m");
    assert_eq!(enrich(&filled, &env(&[])).api_key, "from-env");
}

#[test]
fn plans_hold_every_key() {
    let e = env(&[("GOOGLE_API_KEY", "g"), ("OPENAI_API_KEY", "o")]);
    let realtime = TopologyConfig::Realtime {
        provider: "gemini".to_string(),
        model: "flash".to_string(),
        options: JsonMap::new(),
    };
    match plan_call(&realtime, &e) {
        CallPlan::Realtime { backend, model } => {
            assert_eq!((backend.api_key.as_str(), backend.model.as_str()), ("g", "flash"));
            assert_eq!(model, "flash");
        }
        other => panic!("expected Realtime, got {other:?}"),
    }
    let cascaded = TopologyConfig::Cascaded {
        stt: provider("deepgram", "d"),
        llm: provider("openai", ""),
        tts: provider("cartesia", ""),
    };
    match plan_call(&cascaded, &e) {
        CallPlan::Cascaded { stt, llm, tts } => {
            assert_eq!(stt.api_key, "d");
            assert_eq!(llm.api_key, "o");
            assert_eq!(tts.api_key, "");
        }
        other => panic!("expected Cascaded, got {other:?}"),
    }
    assert_eq!(plan_env_names(&realtime).len(), 3);
    assert_eq!(plan_env_names(&cascaded)[2], "OPENAI_API_KEY");
}

// ── Answers ─────────────────────────────────────────────────────────────────

#[test]
fn healthz_returns_ok() {
    let r = healthz();
    assert_eq!(r.status, 200);
    assert_eq!(r.body, r#"{"status":"ok"}"#);
}

#[test]
fn answer_plivo_needs_public_url() {
    let r = answer_plivo(None, 1, "t");
    assert_eq!(r.status, 503);
    assert!(r.body.contains("FLOWCAT_PUBLIC_URL"));
    assert_eq!(answer_plivo(Some(""), 1, "t").status, 503);
}

#[test]
fn answer_plivo_emits_stream_xml_when_public_url_set() {
    let r = answer_plivo(Some("https://voice.example.com"), 42, "tok");
    assert_eq!(r.status, 200);
    assert_eq!(r.content_type, "text/xml");
    let xml = r.body;
    assert!(
        xml.contains("wss://voice.example.com/telephony/ws/plivo/42?token=tok"),
        "{xml}"
    );
}

#[test]
fn readiness_follows_the_primary_key() {
    let cfg = config(None, None);
    let up = readyz(&cfg, &env(&[("GOOGLE_API_KEY", "g")]));
    assert_eq!((up.status, up.body.as_str()), (200, r#"{"ready":true}"#));
    let down = readyz(&cfg, &env(&[("OPENAI_API_KEY", "o")]));
    assert_eq!((down.status, down.body.as_str()), (503, r#"{"ready":false}"#));
    let mut cascade = config(None, None);
    cascade.topology = TopologyConfig::Cascaded {
        stt: provider("a", ""),
        llm: provider("openai", ""),
        tts: provider("c", ""),
    };
    assert_eq!(readyz(&cascade, &env(&[("OPENAI_API_KEY", "o")])).status, 200);
}

#[test]
fn media_sockets_are_for_one_carrier_and_a_graph_that_runs() {
    let good = json(r#"{"nodes":[{"id":"s","type":"startCall"}],"edges":[]}"#);
    let vars = JsonMap::new();
    assert_eq!(media_ws("PLIVO", &good, &vars).ok().unwrap().current_node_id(), "s");
    let r = media_ws("twilio", &good, &vars).err().unwrap();
    assert_eq!((r.status, r.body.as_str()), (404, "unsupported carrier (only 'plivo')"));
    let r = media_ws("plivo", &json("{}"), &vars).err().unwrap();
    assert_eq!((r.status, r.body.as_str()), (422, "graph has no start node"));
}

// ── Sessions ────────────────────────────────────────────────────────────────

fn session() -> StaticSession {
    StaticSession::new(
        json(r#"{ "nodes": [{ "id": "s", "type": "startCall" }], "edges": [] }"#),
        JsonMap::new(),
        "local",
    )
}

#[test]
fn resolve_returns_the_configured_agent() {
    let r = session().resolve(1, "tok").unwrap();
    assert_eq!(r.provider, "local");
    assert!(!r.is_completed);
    let graph = r.brain_config.get("graph_spec").unwrap();
    assert_eq!(graph.array_at("nodes").unwrap()[0].str_at("id"), Some("s"));
    assert!(r.brain_config.get("runtime_options").unwrap().as_object().is_some());
    let brain = DeclarativeBrain::from_config(&r.brain_config).ok().unwrap();
    assert_eq!(brain.current_node_id(), "s");
}

#[test]
fn node_tools_are_empty_and_tool_call_is_a_noop_message() {
    let s = session();
    assert!(s.node_tools(1, "t", "s").unwrap().is_empty());
    let msg = s.tool_call(1, "t", "s", "lookup", &json("{}")).unwrap();
    assert!(msg.contains("not available"), "got: {msg}");
    assert!(msg.contains("lookup"));
    assert_eq!(
        s.tool_call(1, "t", "s", "a\"b", &Json::Null).unwrap(),
        r#"tool "a\"b" is not available in the static/local session"#
    );
}

#[test]
fn artifact_round_trips_to_a_local_file() {
    let key = make_artifact_key(7, "transcript");
    assert_eq!(key, "run-7-transcript");
    let path = format!("flowcat-server-session-test/{key}");
    let target = artifact_upload_target(7, "transcript", &path);
    assert!(target.url.starts_with("file://"));
    assert_eq!(target.key, "run-7-transcript");
    assert_eq!(target.content_type, "application/json");
    assert_eq!(upload_path(&target.url).unwrap(), path);
    assert_eq!(artifact_upload_target(7, "recording", "x").content_type, "audio/wav");
    assert_eq!(
        artifact_upload_target(7, "other", "x").content_type,
        "application/octet-stream"
    );
}

#[test]
fn put_bytes_rejects_non_file_urls() {
    let err = upload_path("https://example.com/x").unwrap_err();
    assert!(err.message.contains("file://"), "got: {}", err.message);
    assert_eq!(
        err.message,
        "static session only supports file:// upload targets, got \"https://example.com/x\""
    );
}

// ── Sockets and offers ──────────────────────────────────────────────────────

#[test]
fn carrier_frames() {
    assert!(matches!(
        receive(CarrierFrame::Text("t".to_string())),
        Received::Deliver(WsIn::Text(t)) if t == "t"
    ));
    assert!(matches!(
        receive(CarrierFrame::Binary(vec![1])),
        Received::Deliver(WsIn::Binary(b)) if b == vec![1]
    ));
    assert!(matches!(receive(CarrierFrame::Close), Received::Deliver(WsIn::Close)));
    assert!(matches!(receive(CarrierFrame::Failed), Received::Deliver(WsIn::Close)));
    assert!(matches!(receive(CarrierFrame::Keepalive), Received::Again));
    assert!(matches!(receive(CarrierFrame::End), Received::Over));
}

fn small_graph() -> Json {
    json(
        r#"{"nodes":[{"id":"s","type":"startCall","data":{"prompt":"hi"}},{"id":"e","type":"endCall"}],"edges":[{"id":"x","source":"s","target":"e","label":"done"}]}"#,
    )
}

#[test]
fn malformed_offer_is_422() {
    let (mut n, mut calls) = (CallNumbers::new(), EventRegistry::<u8>::new());
    let mut flow = OfferFlow::begin(&small_graph(), &JsonMap::new()).ok().unwrap();
    assert!(matches!(flow.on_event(OfferEvent::Bound, &mut n, &mut calls), OfferAction::Accept));
    let rejected = OfferEvent::Rejected { reason: "bad sdp".to_string() };
    match flow.on_event(rejected, &mut n, &mut calls) {
        OfferAction::Refuse(r) => assert_eq!((r.status, r.body.as_str()), (422, "bad sdp")),
        other => panic!("expected Refuse, got {other:?}"),
    }
    assert_eq!(n.take(), 1);
    assert_eq!(calls.take_receiver("pc-1"), None);
}

#[test]
fn an_offer_that_is_accepted() {
    let (mut n, mut calls) = (CallNumbers::new(), EventRegistry::new());
    let mut flow = OfferFlow::begin(&small_graph(), &JsonMap::new()).ok().unwrap();
    assert!(matches!(
        flow.on_event(OfferEvent::Rejected { reason: String::new() }, &mut n, &mut calls),
        OfferAction::Unexpected
    ));
    let early = OfferEvent::Accepted { sdp: "early".to_string(), receiver: 'x' };
    assert!(matches!(flow.on_event(early, &mut n, &mut calls), OfferAction::Unexpected));
    assert!(matches!(flow.on_event(OfferEvent::Bound, &mut n, &mut calls), OfferAction::Accept));
    assert_eq!(flow.run_id(), None);
    let accepted = OfferEvent::Accepted { sdp: "answer".to_string(), receiver: 'r' };
    match flow.on_event(accepted, &mut n, &mut calls) {
        OfferAction::Run(r) => assert_eq!((r.sdp.as_str(), r.pc_id.as_str()), ("answer", "pc-1")),
        other => panic!("expected Run, got {other:?}"),
    }
    assert_eq!(flow.run_id(), Some(1));
    assert_eq!(calls.take_receiver("pc-1"), Some('r'));
    assert!(matches!(
        flow.on_event(OfferEvent::Bound, &mut n, &mut calls),
        OfferAction::Unexpected
    ));
    assert_eq!(flow.into_agent().current_node_id(), "s");
}

#[test]
fn accepted_offers_are_numbered_whatever_was_refused() {
    let (mut n, mut calls) = (CallNumbers::new(), EventRegistry::new());
    let begin = || OfferFlow::begin(&small_graph(), &JsonMap::new()).ok().unwrap();
    for k in 1..4_u32 {
        let mut refused = begin();
        refused.on_event(OfferEvent::BindFailed, &mut n, &mut calls);
        let mut flow = begin();
        flow.on_event(OfferEvent::Bound, &mut n, &mut calls);
        let r = flow.accept(format!("answer {k}"), &mut n, &mut calls, k);
        assert_eq!((r.sdp, r.pc_id), (format!("answer {k}"), format!("pc-{k}")));
        assert_eq!(calls.take_receiver(&format!("pc-{k}")), Some(k));
    }
}

#[test]
fn offers_that_fail_early() {
    let r = OfferFlow::begin(&json("{}"), &JsonMap::new()).err().unwrap();
    assert_eq!(r.status, 422);
    let (mut n, mut calls) = (CallNumbers::new(), EventRegistry::<u8>::new());
    let mut flow = OfferFlow::begin(&small_graph(), &JsonMap::new()).ok().unwrap();
    match flow.on_event(OfferEvent::BindFailed, &mut n, &mut calls) {
        OfferAction::Refuse(r) => {
            assert_eq!((r.status, r.body.as_str()), (500, "failed to bind a media socket"))
        }
        other => panic!("expected Refuse, got {other:?}"),
    }
    assert_eq!(n.take(), 1);
}

#[test]
fn call_numbers_count_from_one() {
    let mut n = CallNumbers::new();
    assert_eq!((n.take(), n.take(), n.take()), (1, 2, 3));
    assert_eq!(pc_id(12), "pc-12");
    assert_ne!(pc_id(1), pc_id(-1));
}
