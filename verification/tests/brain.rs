use flowcat::brain::{end_call_tool, BrainAction, DeclarativeBrain, END_CALL_TOOL};
use flowcat::json::Json;

fn json(text: &str) -> Json {
    Json::parse(text).unwrap()
}

fn two_node_graph() -> Json {
    json(
        r#"{
            "graph_spec": {
                "nodes": [
                    {"id": "s", "type": "startCall", "data": {
                        "prompt": "Hi {{name}}, how can I help?"
                    }},
                    {"id": "done", "type": "endCall", "data": {"prompt": "Bye."}}
                ],
                "edges": [
                    {"id": "e", "source": "s", "target": "done", "label": "Wrap up",
                     "data": {"condition": "The caller is done"}}
                ]
            },
            "runtime_options": {},
            "seed_vars": {"name": "Sam"}
        }"#,
    )
}

fn three_node_graph(mid_prompt: &str) -> Json {
    let text = format!(
        r#"{{
            "graph_spec": {{
                "nodes": [
                    {{"id": "s", "type": "startCall", "data": {{"prompt": "Start."}}}},
                    {{"id": "mid", "type": "agentNode", "data": {{"prompt": "{mid_prompt}"}}}},
                    {{"id": "done", "type": "endCall", "data": {{}}}}
                ],
                "edges": [
                    {{"id": "e1", "source": "s", "target": "mid", "label": "Proceed"}},
                    {{"id": "e2", "source": "mid", "target": "done", "label": "Finish"}}
                ]
            }}
        }}"#
    );
    json(&text)
}

#[test]
fn new_seeds_vars_and_renders_prompt() {
    let brain = DeclarativeBrain::from_config(&two_node_graph()).expect("engine builds");
    assert_eq!(brain.system_prompt(), "Hi Sam, how can I help?");
    assert!(!brain.is_finished());
}

#[test]
fn tools_are_transitions_plus_end_call() {
    let brain = DeclarativeBrain::from_config(&two_node_graph()).expect("engine builds");
    let tools = brain.tools();
    let names: Vec<&str> = tools.iter().map(|t| t.name.as_str()).collect();
    assert!(
        names.contains(&"wrap_up"),
        "transition tool present: {names:?}"
    );
    assert!(names.contains(&END_CALL_TOOL), "endCall present: {names:?}");
    assert_eq!(tools.len(), 2, "exactly the transition + endCall");

    let wrap = tools.iter().find(|t| t.name == "wrap_up").unwrap();
    assert_eq!(
        wrap.params.text(),
        json(r#"{ "type": "object", "properties": {} }"#).text()
    );
    assert_eq!(wrap.description, "The caller is done");

    let end = tools.iter().find(|t| t.name == END_CALL_TOOL).unwrap();
    assert_eq!(end.params.str_at("type"), Some("object"));
    let disposition = end
        .params
        .get("properties")
        .and_then(|p| p.get("disposition"))
        .unwrap();
    assert_eq!(disposition.str_at("type"), Some("string"));
}

#[test]
fn end_call_maps_to_end_with_disposition() {
    let mut brain = DeclarativeBrain::from_config(&two_node_graph()).expect("engine builds");
    match brain.on_tool_call(END_CALL_TOOL, &json(r#"{ "disposition": "completed" }"#)) {
        BrainAction::End { disposition } => {
            assert_eq!(disposition.as_deref(), Some("completed"))
        }
        other => panic!("expected End, got {other:?}"),
    }
    match brain.on_tool_call(END_CALL_TOOL, &json("{}")) {
        BrainAction::End { disposition } => assert!(disposition.is_none()),
        other => panic!("expected End, got {other:?}"),
    }
    assert_eq!(brain.current_node_id(), "s");
}

#[test]
fn transition_to_terminal_node_ends_the_call() {
    let mut brain = DeclarativeBrain::from_config(&two_node_graph()).expect("engine builds");
    match brain.on_tool_call("wrap_up", &json("{}")) {
        BrainAction::End { disposition } => assert!(disposition.is_none()),
        other => panic!("expected End on terminal transition, got {other:?}"),
    }
    assert!(brain.is_finished());
}

#[test]
fn transition_to_non_terminal_node_re_arms_prompt_and_tools() {
    let cfg = three_node_graph("Now collecting details.");
    let mut brain = DeclarativeBrain::from_config(&cfg).expect("engine builds");
    match brain.on_tool_call("proceed", &json("{}")) {
        BrainAction::Transition {
            system_prompt,
            tools,
            ..
        } => {
            assert_eq!(system_prompt, "Now collecting details.");
            let names: Vec<&str> = tools.iter().map(|t| t.name.as_str()).collect();
            assert!(
                names.contains(&"finish"),
                "re-armed with new tools: {names:?}"
            );
            assert!(names.contains(&END_CALL_TOOL));
        }
        other => panic!("expected Transition, got {other:?}"),
    }
    assert!(!brain.is_finished());
}

#[test]
fn unknown_tool_name_stays() {
    let mut brain = DeclarativeBrain::from_config(&two_node_graph()).expect("engine builds");
    assert!(matches!(
        brain.on_tool_call("does_not_exist", &json("{}")),
        BrainAction::Stay
    ));
}

#[test]
fn collected_vars_returns_seed_vars_object_with_nodes_visited() {
    let brain = DeclarativeBrain::from_config(&two_node_graph()).expect("engine builds");
    let vars = brain.collected_vars();
    assert_eq!(vars.str_at("name"), Some("Sam"));
    assert!(
        vars.array_at("nodes_visited").is_some(),
        "nodes_visited folded in: {vars:?}"
    );
    assert!(
        !vars.array_at("nodes_visited").unwrap().is_empty(),
        "active node recorded: {vars:?}"
    );
    assert_eq!(vars.text(), r#"{"name":"Sam","nodes_visited":["s"]}"#);
}

#[test]
fn current_node_id_tracks_the_engine_state() {
    let cfg = three_node_graph("Mid.");
    let mut brain = DeclarativeBrain::from_config(&cfg).expect("engine builds");
    assert_eq!(brain.current_node_id(), "s");
    let _ = brain.on_tool_call("proceed", &json("{}"));
    assert_eq!(brain.current_node_id(), "mid");
}

#[test]
fn end_call_tool_description_discourages_premature_hangup() {
    let desc = end_call_tool().description.to_lowercase();
    assert!(
        desc.contains("only"),
        "must restrict when endCall is allowed: {desc}"
    );
    assert!(
        desc.contains("do not end the call"),
        "must explicitly tell the model NOT to end prematurely: {desc}"
    );
}

#[test]
fn a_transition_without_description_is_described_by_its_name() {
    let brain = DeclarativeBrain::from_config(&json(
        r#"{"graph_spec": {
            "nodes": [{"id": "s", "type": "start", "data": {"prompt": "x"}}, {"id": "e", "type": "end"}],
            "edges": [{"id": "1", "source": "s", "target": "e", "data": {"condition": "  "}}]
        }}"#,
    ))
    .unwrap();
    assert_eq!(brain.tools()[0].description, "Take the 'transition_0' transition.");
}

#[test]
fn end_call_comes_last_on_every_node() {
    let mut brain = DeclarativeBrain::from_config(&three_node_graph("Mid.")).unwrap();
    assert_eq!(brain.tools().last().unwrap().name, END_CALL_TOOL);
    let _ = brain.on_tool_call("proceed", &json("{}"));
    assert_eq!(brain.tools().last().unwrap().name, END_CALL_TOOL);
    let _ = brain.on_tool_call("finish", &json("{}"));
    let tools = brain.tools();
    assert_eq!(tools.len(), 1);
    assert_eq!(tools[0].name, END_CALL_TOOL);
}

#[test]
fn a_configuration_without_graph_is_refused() {
    match DeclarativeBrain::from_config(&json("{}")) {
        Err(e) => assert_eq!(e.message(), "graph has no start node"),
        Ok(_) => panic!("expected an error"),
    }
}

#[test]
fn an_edge_labelled_like_end_call_can_still_be_taken() {
    let cfg = json(
        r#"{"graph_spec": {
            "nodes": [{"id": "s", "type": "start", "data": {"prompt": "Hi"}}, {"id": "a", "type": "agent"}],
            "edges": [{"id": "e", "source": "s", "target": "a", "label": "endCall"}]
        }}"#,
    );
    let mut brain = DeclarativeBrain::from_config(&cfg).ok().unwrap();
    assert_eq!(brain.tools()[0].name, "endcall");
    let _ = brain.on_tool_call("endcall", &json("{}"));
    assert_eq!(brain.current_node_id(), "a");
}
