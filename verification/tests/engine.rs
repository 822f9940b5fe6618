use flowcat::engine::{
    slugify, validate, validate_detailed, Action, Engine, EngineError, TransferMode, VarType,
};
use flowcat::interpolate::{var_interpolate, var_interpolate_at, var_interpolate_value};
use flowcat::json::{Json, JsonMap};

fn json(text: &str) -> Json {
    Json::parse(text).unwrap()
}

fn vars(text: &str) -> JsonMap {
    match json(text) {
        Json::Object(m) => m,
        other => panic!("no object: {other:?}"),
    }
}

fn engine(spec: &Json, seed: &str) -> Engine {
    Engine::new(spec, json("{}"), vars(seed)).unwrap()
}

/// Seconds since the epoch of a time on 2024-01-05, a Friday.
fn jan5(hour: i64, minute: i64) -> i64 {
    1_704_412_800 + hour * 3600 + minute * 60
}

fn sample() -> Json {
    json(
        r#"{
            "nodes": [
                {"id": "s", "type": "start"},
                {"id": "greet", "type": "agent", "data": {"prompt": "Hello {{name}}"}},
                {"id": "done", "type": "end"}
            ],
            "edges": [
                {"id": "e1", "source": "s", "target": "greet"},
                {"id": "e2", "source": "greet", "target": "done", "label": "Finish"}
            ]
        }"#,
    )
}

#[test]
fn starts_on_first_real_node_with_rendered_prompt() {
    let eng = engine(&sample(), r#"{"name": "Sam"}"#);
    assert_eq!(eng.current_node(), "greet");
    assert_eq!(eng.current_prompt().system_prompt, "Hello Sam");
}

#[test]
fn visited_nodes_accumulate_in_first_visit_order_deduped() {
    let spec = json(
        r#"{
            "nodes": [
                {"id": "s", "type": "start"},
                {"id": "greet", "type": "agent", "data": {"prompt": "hi", "name": "Greeting"}},
                {"id": "done", "type": "end", "data": {"name": "End Call"}}
            ],
            "edges": [
                {"id": "e1", "source": "s", "target": "greet"},
                {"id": "e2", "source": "greet", "target": "done", "label": "Finish"}
            ]
        }"#,
    );
    let mut eng = engine(&spec, "{}");
    assert_eq!(eng.visited_nodes(), &["Greeting".to_string()]);
    assert!(matches!(eng.on_transition("finish"), Action::End));
    assert_eq!(
        eng.visited_nodes(),
        &["Greeting".to_string(), "End Call".to_string()]
    );
    eng.set_current_node("greet").unwrap();
    assert_eq!(
        eng.visited_nodes(),
        &["Greeting".to_string(), "End Call".to_string()],
        "first-visit dedup"
    );
}

#[test]
fn editor_authored_start_call_stays_active_with_its_prompt() {
    let spec = json(
        r#"{
            "nodes": [
                {"id": "s", "type": "startCall", "data": {"prompt": "Hi {{name}}!"}},
                {"id": "e", "type": "endCall", "data": {"prompt": "Bye."}}
            ],
            "edges": [
                {"id": "x", "source": "s", "target": "e", "label": "done"}
            ]
        }"#,
    );
    let eng = engine(&spec, r#"{"name": "Sam"}"#);
    assert_eq!(
        eng.current_node(),
        "s",
        "start node with prompt must remain active"
    );
    assert!(
        !eng.is_finished(),
        "session must not be finished on creation"
    );
    assert_eq!(eng.current_prompt().system_prompt, "Hi Sam!");
}

#[test]
fn set_current_node_restores_persisted_state() {
    let mut eng = engine(&sample(), "{}");
    assert_eq!(eng.current_node(), "greet");
    eng.set_current_node("done").unwrap();
    assert_eq!(eng.current_node(), "done");
    assert!(eng.is_finished());
    assert!(matches!(
        eng.set_current_node("nope"),
        Err(EngineError::UnknownNode(_))
    ));
}

#[test]
fn global_directive_is_prepended_and_transition_criteria_used() {
    let spec = json(
        r#"{
            "nodes": [
                {"id": "g", "type": "globalNode", "data": {"prompt": "You are {{brand}} support."}},
                {"id": "s", "type": "startCall", "data": {"prompt": "Hi, how can I help?"}},
                {"id": "book", "type": "agentNode", "data": {"prompt": "Booking flow."}},
                {"id": "done", "type": "endCall", "data": {"prompt": "Bye."}}
            ],
            "edges": [
                {"id": "e1", "source": "s", "target": "book", "label": "Book",
                 "data": {"condition": "Caller wants to book an appointment"}},
                {"id": "e2", "source": "s", "target": "done", "label": "Done",
                 "data": {"add_global_prompt": true}}
            ]
        }"#,
    );
    let eng = engine(&spec, r#"{"brand": "Acme"}"#);
    let p = eng.current_prompt();
    assert_eq!(
        p.system_prompt,
        "You are Acme support.\n\nHi, how can I help?"
    );
    let book = p.transitions.iter().find(|t| t.name == "book").unwrap();
    assert_eq!(
        book.description.as_deref(),
        Some("Caller wants to book an appointment")
    );
    let done = p.transitions.iter().find(|t| t.name == "done").unwrap();
    assert_eq!(done.description.as_deref(), Some("Done"));
}

#[test]
fn node_can_opt_out_of_global_directive() {
    let spec = json(
        r#"{
            "nodes": [
                {"id": "g", "type": "globalNode", "data": {"prompt": "Persona."}},
                {"id": "s", "type": "startCall", "data": {"prompt": "Body.", "add_global_prompt": false}},
                {"id": "done", "type": "endCall", "data": {}}
            ],
            "edges": [{"id": "e", "source": "s", "target": "done", "label": "x"}]
        }"#,
    );
    let eng = engine(&spec, "{}");
    assert_eq!(eng.current_prompt().system_prompt, "Body.");
}

#[test]
fn extraction_spec_reads_node_config() {
    let spec = json(
        r#"{
            "nodes": [
                {"id": "s", "type": "startCall", "data": {
                    "prompt": "Ask budget.",
                    "extraction_enabled": true,
                    "extraction_prompt": "Capture budget and timeline.",
                    "extraction_variables": [
                        {"name": "budget", "type": "number", "prompt": "monthly budget in USD"},
                        {"name": "wants_demo", "type": "boolean"},
                        {"name": "company"}
                    ]
                }},
                {"id": "done", "type": "endCall", "data": {}}
            ],
            "edges": [{"id": "e", "source": "s", "target": "done", "label": "x"}]
        }"#,
    );
    let eng = engine(&spec, "{}");
    let ex = eng.extraction_spec().expect("extraction enabled");
    assert_eq!(ex.prompt.as_deref(), Some("Capture budget and timeline."));
    assert_eq!(ex.variables.len(), 3);
    assert_eq!(ex.variables[0].name, "budget");
    assert_eq!(ex.variables[0].var_type, VarType::Number);
    assert_eq!(
        ex.variables[0].hint.as_deref(),
        Some("monthly budget in USD")
    );
    assert_eq!(ex.variables[1].var_type, VarType::Boolean);
    assert_eq!(ex.variables[2].var_type, VarType::String);
    assert!(ex.variables[2].hint.is_none());
}

#[test]
fn extraction_variables_that_are_none_are_left_out() {
    let spec = json(
        r#"{
            "nodes": [{"id": "s", "type": "startCall", "data": {
                "prompt": "hi",
                "extraction_enabled": true,
                "extraction_prompt": "  ",
                "extraction_variables": [
                    {"type": "number"}, {"name": "a", "type": "date"}, 5,
                    ["b", {"boolean": null}, "is it?"], {"name": "c", "prompt": null},
                    ["d", "string", null, 1], {"name": "e", "prompt": 1}
                ]
            }}]
        }"#,
    );
    let ex = engine(&spec, "{}").extraction_spec().unwrap();
    assert!(ex.prompt.is_none());
    let names: Vec<&str> = ex.variables.iter().map(|v| v.name.as_str()).collect();
    assert_eq!(names, vec!["b", "c"]);
    assert_eq!(ex.variables[0].var_type, VarType::Boolean);
    assert_eq!(ex.variables[0].hint.as_deref(), Some("is it?"));
    assert_eq!(ex.variables[1].var_type, VarType::String);
}

#[test]
fn tool_refs_reads_node_tool_uuids() {
    let spec = json(
        r#"{
            "nodes": [
                {"id": "s", "type": "startCall", "data": {"prompt": "hi", "tool_uuids": ["t-1", "t-2"]}},
                {"id": "e", "type": "endCall", "data": {}}
            ],
            "edges": [{"id": "z", "source": "s", "target": "e"}]
        }"#,
    );
    let eng = engine(&spec, "{}");
    assert_eq!(eng.tool_refs(), vec!["t-1".to_string(), "t-2".to_string()]);
}

#[test]
fn tool_refs_empty_when_absent() {
    let spec = json(
        r#"{
            "nodes": [
                {"id": "s", "type": "startCall", "data": {"prompt": "hi"}},
                {"id": "e", "type": "endCall", "data": {}}
            ],
            "edges": [{"id": "z", "source": "s", "target": "e"}]
        }"#,
    );
    let eng = engine(&spec, "{}");
    assert!(eng.tool_refs().is_empty());
}

#[test]
fn document_refs_reads_node_document_uuids() {
    let spec = json(
        r#"{
            "nodes": [
                {"id": "s", "type": "startCall", "data": {"prompt": "hi", "document_uuids": ["d-1", "d-2"]}},
                {"id": "e", "type": "endCall", "data": {}}
            ],
            "edges": [{"id": "z", "source": "s", "target": "e"}]
        }"#,
    );
    let eng = engine(&spec, "{}");
    assert_eq!(
        eng.document_refs(),
        vec!["d-1".to_string(), "d-2".to_string()]
    );
    let spec2 = json(
        r#"{
            "nodes": [
                {"id": "s", "type": "startCall", "data": {"prompt": "hi"}},
                {"id": "e", "type": "endCall", "data": {}}
            ],
            "edges": [{"id": "z", "source": "s", "target": "e"}]
        }"#,
    );
    assert!(engine(&spec2, "{}").document_refs().is_empty());
}

#[test]
fn extraction_spec_none_when_disabled_or_empty() {
    let spec = json(
        r#"{
            "nodes": [
                {"id": "s", "type": "startCall", "data": {"prompt": "hi", "extraction_variables": [{"name": "x"}]}},
                {"id": "e", "type": "endCall"}
            ],
            "edges": [{"id": "z", "source": "s", "target": "e"}]
        }"#,
    );
    assert!(engine(&spec, "{}").extraction_spec().is_none());
    let spec2 = json(
        r#"{
            "nodes": [
                {"id": "s", "type": "startCall", "data": {"prompt": "hi", "extraction_enabled": true}},
                {"id": "e", "type": "endCall"}
            ],
            "edges": [{"id": "z", "source": "s", "target": "e"}]
        }"#,
    );
    assert!(engine(&spec2, "{}").extraction_spec().is_none());
}

#[test]
fn var_interpolate_nested_fallback_and_json() {
    let vars = vars(
        r#"{
            "name": "Sam",
            "customer": { "contact": { "email": "s@x.io" }, "tags": ["vip", "new"] },
            "empty": "",
            "count": 3
        }"#,
    );
    assert_eq!(var_interpolate("Hi {{name}}", &vars), "Hi Sam");
    assert_eq!(
        var_interpolate("{{customer.contact.email}}", &vars),
        "s@x.io"
    );
    assert_eq!(var_interpolate("{{customer.tags.0}}", &vars), "vip");
    assert_eq!(
        var_interpolate("{{customer.tags}}", &vars),
        r#"["vip","new"]"#
    );
    assert_eq!(var_interpolate("n={{count}}", &vars), "n=3");
    assert_eq!(var_interpolate("Hi {{missing | there}}", &vars), "Hi there");
    assert_eq!(var_interpolate("Hi {{empty | there}}", &vars), "Hi there");
    assert_eq!(
        var_interpolate("Hi {{missing | fallback:friend}}", &vars),
        "Hi friend"
    );
    assert_eq!(var_interpolate("Hi {{name | there}}", &vars), "Hi Sam");
    assert_eq!(var_interpolate("[{{nope}}]", &vars), "[]");
    assert_eq!(var_interpolate("a\\nb", &vars), "a\nb");
    assert_eq!(var_interpolate("a {{ b", &vars), "a {{ b");
}

#[test]
fn scalars_and_odd_paths_render_plainly() {
    let vars = vars(
        r#"{"b": true, "n": -7, "f": 1.25, "z": null, "a": [[1, {"x": "deep"}]], "big": 18446744073709551615,
            "o": {"k": [1.5, false]}}"#,
    );
    let show = |t: &str| var_interpolate(t, &vars);
    assert_eq!(show("{{b}} {{n}} {{f}} {{big}}"), "true -7 1.25 18446744073709551615");
    assert_eq!(show("[{{z}}] [{{z|none}}]"), "[] [none]");
    assert_eq!(show("{{a.0.1.x}}"), "deep");
    assert_eq!(show("{{a.+0.0}}"), "1");
    assert_eq!(show("{{a.7}}|{{a.x}}|{{b.0}}|{{a.}}"), "|||");
    assert_eq!(show("{{o}}"), r#"{"k":[1.5,false]}"#);
    assert_eq!(show("{{ x | a | b }}"), "a | b");
    assert_eq!(show("{{a.0.1.x}}{{a.0.1.x}} {{ tail"), "deepdeep {{ tail");
    assert_eq!(show("{{{{b}}"), "");
    assert_eq!(show(""), "");
}

#[test]
fn var_interpolate_value_recurses_json_template() {
    let vars = vars(r#"{"id": "c-42", "city": "Austin"}"#);
    let template = json(
        r#"{
            "url": "https://api.test/customers/{{id}}",
            "body": { "where": ["{{city}}", "fixed"], "note": "hi {{missing | n/a}}" },
            "keep": 7
        }"#,
    );
    let out = var_interpolate_value(&template, &vars);
    assert_eq!(out.str_at("url"), Some("https://api.test/customers/c-42"));
    let body = out.get("body").unwrap();
    let list = body.array_at("where").unwrap();
    assert_eq!(list[0].as_str(), Some("Austin"));
    assert_eq!(list[1].as_str(), Some("fixed"));
    assert_eq!(body.str_at("note"), Some("hi n/a"));
    assert_eq!(out.get("keep").unwrap().text(), "7");
}

#[test]
fn var_interpolate_resolves_time_builtins() {
    let now = jan5(14, 30);
    let none = JsonMap::new();
    let at = |t: &str| var_interpolate_at(t, &none, now);
    assert_eq!(at("{{current_time}}"), "2024-01-05 14:30 UTC");
    assert_eq!(at("{{current_date}}"), "2024-01-05");
    assert_eq!(at("{{current_weekday}}"), "Friday");
    assert_eq!(
        at("{{current_time_America/New_York}}"),
        "2024-01-05 09:30 EST"
    );
    assert_eq!(at("{{current_weekday_America/New_York}}"), "Friday");
    assert_eq!(
        var_interpolate_at(
            "Hi {{name}}, it's {{current_weekday}}.",
            &vars(r#"{"name": "Sam"}"#),
            now
        ),
        "Hi Sam, it's Friday."
    );
    assert_eq!(at("{{current_time_Not/AZone}}"), "");
    assert_eq!(
        var_interpolate_at("{{current_year}}", &vars(r#"{"current_year": "2024"}"#), now),
        "2024"
    );
}

#[test]
fn var_interpolate_resolves_greeting_phrase() {
    let none = JsonMap::new();
    let at = |now: i64| var_interpolate_at("{{greeting_phrase}}", &none, now);
    assert_eq!(at(jan5(2, 30)), "Good morning");
    assert_eq!(at(jan5(6, 0)), "Good afternoon");
    assert_eq!(at(jan5(11, 0)), "Good evening");
    assert_eq!(at(jan5(18, 0)), "Hello");
    assert_eq!(at(jan5(-3, 0)), "Good morning");
    assert_eq!(at(jan5(4, 0)), "Good afternoon");
    assert_eq!(at(jan5(9, 0)), "Good evening");
    assert_eq!(at(jan5(14, 0)), "Hello");
    let now = jan5(14, 0);
    assert_eq!(
        var_interpolate_at("{{greeting_phrase_America/New_York}}", &none, now),
        "Good morning"
    );
    assert_eq!(at(now), "Hello");
    assert_eq!(
        var_interpolate_at(
            "{{greeting_phrase}}, {{first_name}}!",
            &vars(r#"{"first_name": "Sam"}"#),
            jan5(11, 0)
        ),
        "Good evening, Sam!"
    );
    assert_eq!(
        var_interpolate_at("{{greeting_phrase_Not/AZone}}", &none, now),
        ""
    );
}

#[test]
fn the_clock_is_read_when_no_instant_is_given() {
    let none = JsonMap::new();
    let date = var_interpolate("{{current_date}}", &none);
    assert_eq!(date.len(), "2024-01-05".len());
    assert!(date.as_str() >= "2024-01-05", "{date}");
}

#[test]
fn transition_reaches_terminal() {
    let mut eng = engine(&sample(), "{}");
    let names: Vec<_> = eng
        .current_prompt()
        .transitions
        .into_iter()
        .map(|t| t.name)
        .collect();
    assert_eq!(names, vec!["finish"]);
    let action = eng.on_transition("finish");
    assert!(matches!(action, Action::End));
    assert!(eng.is_finished());
}

#[test]
fn transition_to_a_node_that_is_not_terminal() {
    let spec = json(
        r#"{
            "nodes": [{"id": "s", "type": "startCall", "data": {"prompt": "hi"}}, {"id": "a", "type": "agent"}],
            "edges": [{"id": "1", "source": "s", "target": "a"}, {"id": "2", "source": "s", "target": "s", "label": "Again, please!"}]
        }"#,
    );
    let mut eng = engine(&spec, "{}");
    let names: Vec<String> = eng.transitions().into_iter().map(|t| t.name).collect();
    assert_eq!(names, vec!["transition_0", "again__please_"]);
    assert!(matches!(eng.on_transition("nowhere"), Action::Stay));
    assert_eq!(eng.current_node(), "s");
    match eng.on_transition("transition_0") {
        Action::Transition { to_node, say } => {
            assert_eq!(to_node, "a");
            assert!(say.is_none());
        }
        other => panic!("expected Transition, got {other:?}"),
    }
    assert_eq!(eng.current_node(), "a");
}

#[test]
fn current_node_info_reports_id_name_and_interrupt() {
    let spec = json(
        r#"{
            "nodes": [
                {"id": "s", "type": "startCall", "data": {"prompt": "hi", "allow_interrupt": true}},
                {"id": "done", "type": "endCall", "data": {}}
            ],
            "edges": [{"id": "e", "source": "s", "target": "done", "label": "Finish"}]
        }"#,
    );
    let mut eng = engine(&spec, "{}");
    let info = eng.current_node_info();
    assert_eq!(info.id, "s");
    assert!(!info.name.is_empty());
    assert_eq!(
        info.allow_interrupt,
        Some(true),
        "reads allow_interrupt from node data"
    );
    let tname = eng.current_prompt().transitions[0].name.clone();
    let _ = eng.on_transition(&tname);
    let info2 = eng.current_node_info();
    assert_eq!(info2.id, "done");
    assert_eq!(info2.allow_interrupt, None, "absent flag → None");
}

fn transfer_spec() -> Json {
    json(
        r#"{
            "nodes": [
                {"id": "s", "type": "startCall", "data": {
                    "prompt": "Hi {{name}}.",
                    "transfer_targets": [
                        {"target_phone": "+918760036560", "target_name": "Support",
                         "description": "Escalate {{name}} to a human", "say": "Hold for {{name}}."}
                    ]
                }},
                {"id": "done", "type": "endCall", "data": {}}
            ],
            "edges": [{"id": "e", "source": "s", "target": "done", "label": "x"}]
        }"#,
    )
}

#[test]
fn transfer_target_exposed_with_pinned_number_and_interpolated_copy() {
    let eng = engine(&transfer_spec(), r#"{"name": "Sam"}"#);
    let p = eng.current_prompt();
    assert_eq!(p.transfer_targets.len(), 1);
    let t = &p.transfer_targets[0];
    assert_eq!(
        t.name, "transfer_call",
        "default function name when unnamed"
    );
    assert_eq!(t.target_phone, "+918760036560");
    assert_eq!(t.target_name.as_deref(), Some("Support"));
    assert_eq!(t.say.as_deref(), Some("Hold for Sam."));
    assert_eq!(t.description.as_deref(), Some("Escalate Sam to a human"));
    assert!(
        p.system_prompt.contains("[Human escalation]")
            && p.system_prompt.contains("`transfer_call`"),
        "system prompt must tell the model it can transfer: {:?}",
        p.system_prompt
    );
}

#[test]
fn on_transfer_returns_pinned_number_else_stays() {
    let eng = engine(&transfer_spec(), "{}");
    match eng.on_transfer("transfer_call") {
        Action::Transfer {
            target_phone,
            target_name,
            say,
            mode,
        } => {
            assert_eq!(target_phone, "+918760036560");
            assert_eq!(target_name.as_deref(), Some("Support"));
            assert_eq!(say.as_deref(), Some("Hold for ."));
            assert_eq!(
                mode,
                TransferMode::Cold,
                "default mode is cold when omitted"
            );
        }
        other => panic!("expected Transfer, got {other:?}"),
    }
    assert!(matches!(eng.on_transfer("nope"), Action::Stay));
    assert_eq!(
        eng.current_node(),
        "s",
        "transfer must not advance the node"
    );
}

#[test]
fn transfer_mode_warm_round_trips_else_defaults_cold() {
    let spec = json(
        r#"{
            "nodes": [
                {"id": "s", "type": "startCall", "data": {
                    "prompt": "Hi.",
                    "transfer_targets": [
                        {"name": "warm_xfer", "target_phone": "+918760036560", "mode": "warm"},
                        {"name": "cold_xfer", "target_phone": "+918760036561", "mode": "cold"},
                        {"name": "default_xfer", "target_phone": "+918760036562"}
                    ]
                }},
                {"id": "done", "type": "endCall", "data": {}}
            ],
            "edges": [{"id": "e", "source": "s", "target": "done", "label": "x"}]
        }"#,
    );
    let eng = engine(&spec, "{}");
    let by = |name: &str| {
        eng.current_prompt()
            .transfer_targets
            .into_iter()
            .find(|t| t.name == name)
            .unwrap()
            .mode
    };
    assert_eq!(by("warm_xfer"), TransferMode::Warm);
    assert_eq!(by("cold_xfer"), TransferMode::Cold);
    assert_eq!(
        by("default_xfer"),
        TransferMode::Cold,
        "omitted mode defaults cold"
    );
    match eng.on_transfer("warm_xfer") {
        Action::Transfer { mode, .. } => assert_eq!(mode, TransferMode::Warm),
        other => panic!("expected warm Transfer, got {other:?}"),
    }
}

#[test]
fn transfer_target_phone_is_never_interpolated() {
    let spec = json(
        r#"{
            "nodes": [
                {"id": "s", "type": "startCall", "data": {
                    "prompt": "Hi.",
                    "transfer_targets": [{"target_phone": "{{evil}}"}]
                }},
                {"id": "done", "type": "endCall", "data": {}}
            ],
            "edges": [{"id": "e", "source": "s", "target": "done", "label": "x"}]
        }"#,
    );
    let eng = engine(&spec, r#"{"evil": "+19999999999"}"#);
    assert_eq!(
        eng.current_prompt().transfer_targets[0].target_phone,
        "{{evil}}"
    );
}

#[test]
fn empty_target_phone_entries_are_dropped() {
    let spec = json(
        r#"{
            "nodes": [
                {"id": "s", "type": "startCall", "data": {
                    "prompt": "Hi.",
                    "transfer_targets": [
                        {"target_phone": "  "},
                        {"name": "Sales Line", "target_phone": "+918760036560"}
                    ]
                }},
                {"id": "done", "type": "endCall", "data": {}}
            ],
            "edges": [{"id": "e", "source": "s", "target": "done", "label": "x"}]
        }"#,
    );
    let eng = engine(&spec, "{}");
    let targets = eng.current_prompt().transfer_targets;
    assert_eq!(targets.len(), 1, "blank-number entry dropped");
    assert_eq!(targets[0].name, "sales_line", "operator name is slugified");
    assert_eq!(targets[0].target_phone, "+918760036560");
}

#[test]
fn the_prompt_in_full() {
    let spec = json(
        r#"{
            "nodes": [
                {"id": "g", "type": "globalNode", "data": {"prompt": "Be {{tone}}."}},
                {"id": "s", "type": "startCall", "data": {
                    "prompt": "Ask.",
                    "transfer_targets": [
                        {"target_phone": " +1 "}, {"target_phone": "+2", "name": ""}, {"target_phone": "+3", "name": "Boss"}
                    ]
                }}
            ]
        }"#,
    );
    let p = engine(&spec, r#"{"tone": "kind"}"#).current_prompt();
    assert_eq!(
        p.system_prompt,
        "Be kind.\n\nAsk.\n\n[Human escalation] If the caller asks to speak to a human, a person, \
         an agent, a manager, or to be transferred: FIRST say one short sentence \
         telling them you're connecting them to a human now and to please hold, \
         THEN call the `transfer_call` or `transfer_call_1` or `boss` function. Never claim you are unable to transfer."
    );
    assert_eq!(p.transfer_targets[0].target_phone, "+1");
}

#[test]
fn variables_cannot_move_a_transfer() {
    let spec = transfer_spec();
    let a = engine(&spec, "{}").current_prompt();
    let b = engine(&spec, r#"{"name": "+1", "target_phone": "+2"}"#).current_prompt();
    assert_eq!(a.transfer_targets[0].target_phone, b.transfer_targets[0].target_phone);
    assert_eq!(a.transfer_targets[0].name, b.transfer_targets[0].name);
    assert_ne!(a.transfer_targets[0].say, b.transfer_targets[0].say);
}

#[test]
fn a_blank_global_prompt_adds_nothing() {
    let spec = json(
        r#"{
            "nodes": [
                {"id": "g", "type": "global", "data": {"prompt": " {{nothing}} "}},
                {"id": "s", "type": "start", "data": {"prompt": "Own."}}
            ]
        }"#,
    );
    assert_eq!(engine(&spec, "{}").current_prompt().system_prompt, "Own.");
    let spec = json(
        r#"{
            "nodes": [
                {"id": "g", "type": "global", "data": {"prompt": "Only."}},
                {"id": "s", "type": "start", "data": {"prompt": "  "}}
            ]
        }"#,
    );
    assert_eq!(engine(&spec, "{}").current_prompt().system_prompt, "Only.");
}

#[test]
fn a_snapshot_resumes_the_run() {
    let mut eng = Engine::new(&sample(), json(r#"{"voice": "x"}"#), vars(r#"{"a": 1}"#)).unwrap();
    eng.capture(vars(r#"{"a": 2, "b": [3]}"#));
    let snap = eng.snapshot();
    assert_eq!(
        snap.text(),
        r#"{"current":"greet","runtime_options":{"voice":"x"},"vars":{"a":2,"b":[3]}}"#
    );
    let before = eng.visited_nodes().to_vec();
    eng.set_current_node(snap.str_at("current").unwrap()).unwrap();
    assert_eq!(eng.current_node(), "greet");
    assert_eq!(eng.visited_nodes(), &before);
    eng.capture(vars(r#"{"a": 2, "b": [3]}"#));
    assert_eq!(eng.snapshot().text(), snap.text());
}

#[test]
fn a_refused_node_leaves_the_run_as_it_was() {
    let mut eng = engine(&sample(), "{}");
    let e = eng.set_current_node("nope").unwrap_err();
    assert_eq!(e.message(), "unknown node: nope");
    assert_eq!(eng.current_node(), "greet");
    assert_eq!(eng.visited_nodes(), &["greet".to_string()]);
}

#[test]
fn validation_says_what_is_wrong() {
    assert!(validate(&sample()).is_ok());
    assert!(validate_detailed(&sample()).is_empty());
    let none = json("{}");
    assert_eq!(validate(&none).unwrap_err().message(), "graph has no start node");
    let found = validate_detailed(&none);
    assert_eq!(found.len(), 1);
    assert_eq!(found[0].kind, "graph");
    assert!(found[0].id.is_none());
    assert_eq!(found[0].message, "graph has no start node");
    let loose = json(r#"{"nodes": [{"id": "s", "type": "start"}, {"id": "a", "type": "agent"}]}"#);
    assert!(validate(&loose).is_ok());
    assert_eq!(
        validate_detailed(&loose)[0].message,
        "Agent node \"a\": must have at least 1 incoming edge(s)"
    );
}

#[test]
fn slugs() {
    assert_eq!(slugify("Wrap up"), "wrap_up");
    assert_eq!(slugify("Ünïcode 9-A"), "Ünïcode_9_a");
    assert_eq!(slugify(""), "");
    for label in ["Wrap up", "Ünïcode 9-A", "endCall", "ÄÖ٣—x"] {
        let once = slugify(label);
        assert_eq!(slugify(&once), once);
        assert_eq!(once.chars().count(), label.chars().count());
        assert_ne!(once, "endCall");
    }
}

#[test]
fn a_new_run_goes_on_from_a_snapshot() {
    let spec = transfer_spec();
    let mut first = Engine::new(&spec, json(r#"{"voice": "x"}"#), vars("{}")).unwrap();
    first.capture(vars(r#"{"name": "Ada"}"#));
    let snap = first.snapshot();
    let options = snap.get("runtime_options").unwrap().clone();
    let kept = snap.get("vars").unwrap().as_object().unwrap().clone();
    let mut again = Engine::new(&spec, options, kept).unwrap();
    again
        .set_current_node(snap.str_at("current").unwrap())
        .unwrap();
    assert_eq!(again.snapshot().text(), snap.text());
    assert_eq!(
        again.current_prompt_at(jan5(0, 0)).system_prompt,
        first.current_prompt_at(jan5(0, 0)).system_prompt
    );
}

#[test]
fn a_bare_time_means_its_default_zone() {
    let v = JsonMap::new();
    for hour in 0..24 {
        let now = jan5(hour, 30);
        let at = |template: &str| var_interpolate_at(template, &v, now);
        assert_eq!(
            at("{{greeting_phrase}}"),
            at("{{greeting_phrase_Asia/Singapore}}")
        );
        for name in ["current_time", "current_date", "current_weekday"] {
            assert_eq!(
                at(&format!("{{{{{name}}}}}")),
                at(&format!("{{{{{name}_UTC}}}}"))
            );
        }
        assert_eq!(at("{{greeting_phrase_Nowhere/Else}}"), "");
    }
}

#[test]
fn hours_and_weekdays_by_the_calendar() {
    let v = JsonMap::new();
    let days = [
        "Thursday",
        "Friday",
        "Saturday",
        "Sunday",
        "Monday",
        "Tuesday",
        "Wednesday",
    ];
    let phrase = |hour: i64| match hour {
        5..=11 => "Good morning",
        12..=16 => "Good afternoon",
        17..=21 => "Good evening",
        _ => "Hello",
    };
    for now in [-86_401, -1, 0, 378_662_400, 951_782_400, 1_704_412_799, 4_102_444_800_i64] {
        for k in 0..30_i64 {
            let t = now + k * 10_007;
            assert_eq!(
                var_interpolate_at("{{current_weekday}}", &v, t),
                days[t.div_euclid(86_400).rem_euclid(7) as usize]
            );
            if t >= 378_662_400 {
                assert_eq!(
                    var_interpolate_at("{{ greeting_phrase }}", &v, t),
                    phrase((t + 28_800) / 3600 % 24)
                );
            }
        }
    }
}

#[test]
fn rendering_without_a_time_is_the_same_at_any_instant() {
    let v = vars(r#"{"a": "x\\n", "current": "y"}"#);
    let template = r"{{a}}-{{current | z}}-\n-{{ not closed";
    let rendered = var_interpolate(template, &v);
    assert_eq!(rendered, "x\n-y-\n-{{ not closed");
    assert_eq!(rendered, var_interpolate_at(template, &v, 0));
    assert_eq!(rendered, var_interpolate_at(template, &v, jan5(9, 0)));
    assert!(!rendered.contains(r"\n"));
}

#[test]
fn braces_around_a_placeholder_stay() {
    let v = vars(r#"{"a": "x"}"#);
    assert_eq!(var_interpolate("b{c {{a}} d}e {{a}}", &v), "b{c x d}e x");
}

#[test]
fn a_run_keeps_its_record_through_every_step() {
    let mut eng = engine(&sample(), r#"{"name": "Ada"}"#);
    eng.capture(vars(r#"{"mood": "good"}"#));
    assert!(eng.set_current_node("nope").is_err());
    eng.set_current_node("done").unwrap();
    eng.set_current_node("greet").unwrap();
    eng.on_transition("finish");
    eng.on_transition("finish");
    assert_eq!(eng.current_node(), "done");
    assert_eq!(eng.visited_nodes(), ["greet", "done"]);
    assert_eq!(
        Json::Object(eng.vars.clone()).text(),
        r#"{"mood":"good","name":"Ada"}"#
    );
}
