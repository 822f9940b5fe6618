use flowcat::graph::{Edge, Graph, GraphError, Node, NodeKind, ValidationError};
use flowcat::json::Json;

fn json(text: &str) -> Json {
    Json::parse(text).unwrap()
}

fn malformed(text: &str) -> String {
    match Graph::parse(&json(text)) {
        Err(GraphError::Malformed(m)) => m,
        other => panic!("expected Malformed, got {other:?}"),
    }
}

#[test]
fn parses_minimal_graph() {
    let spec = json(
        r#"{
            "nodes": [
                {"id": "s", "type": "start", "data": {}},
                {"id": "a", "type": "agent", "data": {"prompt": "hi"}},
                {"id": "e", "type": "end", "data": {}}
            ],
            "edges": [
                {"id": "e1", "source": "s", "target": "a"},
                {"id": "e2", "source": "a", "target": "e", "label": "done"}
            ]
        }"#,
    );
    let g = Graph::parse(&spec).expect("valid graph");
    assert_eq!(g.start_id, "s");
    assert_eq!(g.outgoing("a").len(), 1);
    assert!(g.is_terminal("e"));
}

#[test]
fn parses_editor_catalog_node_types() {
    let spec = json(
        r#"{
            "nodes": [
                {"id": "s", "type": "startCall", "data": {}},
                {"id": "a", "type": "agentNode", "data": {"prompt": "hi"}},
                {"id": "e", "type": "endCall", "data": {}}
            ],
            "edges": [
                {"id": "e1", "source": "s", "target": "a"},
                {"id": "e2", "source": "a", "target": "e", "label": "done"}
            ]
        }"#,
    );
    let g = Graph::parse(&spec).expect("editor-authored graph parses");
    assert_eq!(g.start_id, "s");
    assert!(g.is_terminal("e"));
    assert_eq!(NodeKind::decode(&json("\"globalNode\"")).unwrap(), NodeKind::Global);
    assert_eq!(NodeKind::decode(&json("\"trigger\"")).unwrap(), NodeKind::Trigger);
    assert_eq!(NodeKind::decode(&json("\"webhook\"")).unwrap(), NodeKind::Webhook);
    assert_eq!(NodeKind::decode(&json("\"madeUpType\"")).unwrap(), NodeKind::Other);
}

#[test]
fn cardinality_accepts_valid_graph_and_flags_violations() {
    let ok = json(
        r#"{
            "nodes": [
                {"id": "s", "type": "startCall", "data": {"prompt": "hi"}},
                {"id": "a", "type": "agentNode", "data": {}},
                {"id": "e", "type": "endCall", "data": {}}
            ],
            "edges": [
                {"id": "e1", "source": "s", "target": "a"},
                {"id": "e2", "source": "a", "target": "e"}
            ]
        }"#,
    );
    assert!(Graph::parse(&ok).unwrap().cardinality_errors().is_empty());

    let bad = json(
        r#"{
            "nodes": [
                {"id": "g", "type": "globalNode", "data": {}},
                {"id": "s", "type": "startCall", "data": {}},
                {"id": "a", "type": "agentNode", "data": {}},
                {"id": "orphan", "type": "agentNode", "data": {}},
                {"id": "e", "type": "endCall", "data": {}}
            ],
            "edges": [
                {"id": "x1", "source": "a", "target": "s"},
                {"id": "x2", "source": "s", "target": "a"},
                {"id": "x3", "source": "a", "target": "e"},
                {"id": "x4", "source": "e", "target": "a"},
                {"id": "x5", "source": "g", "target": "a"}
            ]
        }"#,
    );
    let errs = Graph::parse(&bad).unwrap().cardinality_errors();
    assert!(errs
        .iter()
        .any(|e| e.message.contains("Start") && e.message.contains("incoming")));
    assert!(errs
        .iter()
        .any(|e| e.message.contains("End") && e.message.contains("outgoing")));
    assert!(errs.iter().any(|e| e.message.contains("Global")));
    assert!(errs
        .iter()
        .any(|e| e.message.contains("orphan") && e.message.contains("incoming")));
    assert!(errs.iter().all(|e| e.kind == "node" && e.id.is_some()));
}

#[test]
fn cardinality_enforces_trigger_and_webhook_rules() {
    let bad = json(
        r#"{
            "nodes": [
                {"id": "s", "type": "startCall", "data": {}},
                {"id": "t", "type": "trigger", "data": {}},
                {"id": "a", "type": "agentNode", "data": {}},
                {"id": "w", "type": "webhook", "data": {}},
                {"id": "e", "type": "endCall", "data": {}}
            ],
            "edges": [
                {"id": "x1", "source": "s", "target": "a"},
                {"id": "x2", "source": "a", "target": "t"},
                {"id": "x3", "source": "a", "target": "w"},
                {"id": "x4", "source": "a", "target": "e"}
            ]
        }"#,
    );
    let errs = Graph::parse(&bad).unwrap().cardinality_errors();
    assert!(
        errs.iter()
            .any(|e| e.id.as_deref() == Some("t") && e.message.contains("incoming")),
        "trigger with an incoming edge must be flagged: {errs:?}"
    );
    assert!(
        errs.iter()
            .any(|e| e.id.as_deref() == Some("w") && e.message.contains("incoming")),
        "webhook is isolated — an incoming edge must be flagged: {errs:?}"
    );

    let ok = json(
        r#"{
            "nodes": [
                {"id": "t", "type": "trigger", "data": {}},
                {"id": "s", "type": "startCall", "data": {}},
                {"id": "a", "type": "agentNode", "data": {}},
                {"id": "e", "type": "endCall", "data": {}}
            ],
            "edges": [
                {"id": "x1", "source": "t", "target": "a"},
                {"id": "x2", "source": "s", "target": "a"},
                {"id": "x3", "source": "a", "target": "e"}
            ]
        }"#,
    );
    assert!(Graph::parse(&ok).unwrap().cardinality_errors().is_empty());
}

#[test]
fn rejects_missing_start() {
    let spec = json(r#"{"nodes": [{"id": "a", "type": "agent"}], "edges": []}"#);
    assert!(matches!(Graph::parse(&spec), Err(GraphError::NoStart)));
}

#[test]
fn rejects_dangling_edge() {
    let spec = json(
        r#"{
            "nodes": [{"id": "s", "type": "start"}],
            "edges": [{"id": "x", "source": "s", "target": "ghost"}]
        }"#,
    );
    assert!(matches!(
        Graph::parse(&spec),
        Err(GraphError::DanglingEdge(_))
    ));
}

#[test]
fn error_messages() {
    assert_eq!(GraphError::NoStart.message(), "graph has no start node");
    let spec = json(
        r#"{
            "nodes": [{"id": "s", "type": "start"}],
            "edges": [{"id": "x", "source": "ghost", "target": "gone"}]
        }"#,
    );
    let e = Graph::parse(&spec).unwrap_err();
    assert_eq!(e.message(), "edge references unknown node: ghost");
    let e = Graph::parse(&json("7")).unwrap_err();
    assert_eq!(
        e.message(),
        "malformed graph spec: invalid type: integer `7`, expected struct RawGraph"
    );
}

#[test]
fn malformed_documents_name_the_fault() {
    assert_eq!(malformed("null"), "invalid type: null, expected struct RawGraph");
    assert_eq!(
        malformed(r#"{"nodes": 3}"#),
        "invalid type: integer `3`, expected a sequence"
    );
    assert_eq!(
        malformed(r#"{"nodes": [true]}"#),
        "invalid type: boolean `true`, expected struct Node"
    );
    assert_eq!(malformed(r#"{"nodes": [{}]}"#), "missing field `id`");
    assert_eq!(
        malformed(r#"{"nodes": [{"id": -4}]}"#),
        "invalid type: integer `-4`, expected a string"
    );
    assert_eq!(
        malformed(r#"{"nodes": [{"id": 1.5}]}"#),
        "invalid type: floating point `1.5`, expected a string"
    );
    assert_eq!(
        malformed(r#"{"nodes": [{"type": []}]}"#),
        "invalid type: sequence, expected string or map"
    );
    assert_eq!(
        malformed(r#"{"nodes": [{"type": {"a": null, "b": null}}]}"#),
        "invalid value: map, expected map with a single key"
    );
    assert_eq!(
        malformed(r#"{"nodes": [{"type": {"start": "x\"y"}}]}"#),
        r#"invalid type: string "x\"y", expected unit"#
    );
    assert_eq!(
        malformed(r#"{"edges": [{"id": "x", "target": "t"}]}"#),
        "missing field `source`"
    );
    assert_eq!(
        malformed(r#"{"edges": [{"id": "x", "source": "s"}]}"#),
        "missing field `target`"
    );
    assert_eq!(
        malformed(r#"{"edges": [{"id": "x", "label": {}}]}"#),
        "invalid type: map, expected a string"
    );
}

#[test]
fn faults_are_reported_in_key_order() {
    // `edges` is read before `nodes`, and `label` before `source`.
    assert_eq!(
        malformed(r#"{"nodes": 1, "edges": 2}"#),
        "invalid type: integer `2`, expected a sequence"
    );
    assert_eq!(
        malformed(r#"{"edges": [{"source": 1, "label": 2}]}"#),
        "invalid type: integer `2`, expected a string"
    );
}

#[test]
fn structs_can_be_written_as_arrays() {
    let n = Node::decode(&json(r#"["a", "agent", {"k": 1}]"#)).unwrap();
    assert_eq!((n.id.as_str(), n.kind), ("a", NodeKind::Agent));
    assert_eq!(n.data.text(), r#"{"k":1}"#);
    assert_eq!(
        Node::decode(&json("[]")).unwrap_err(),
        "invalid length 0, expected struct Node with 3 elements"
    );
    assert_eq!(
        Node::decode(&json(r#"["a", "agent", 1, 2]"#)).unwrap_err(),
        "invalid length 4, expected fewer elements in array"
    );
    let e = Edge::decode(&json(r#"["x", "s", "t"]"#)).unwrap();
    assert_eq!((e.source.as_str(), e.target.as_str()), ("s", "t"));
    assert!(e.label.is_none());
    assert_eq!(
        Edge::decode(&json(r#"["x", "s"]"#)).unwrap_err(),
        "invalid length 2, expected struct Edge with 5 elements"
    );
    let g = Graph::parse(&json(r#"[[["s", "start"]], []]"#)).unwrap();
    assert_eq!(g.start_id, "s");
}

#[test]
fn of_nodes_with_one_id_the_last_counts() {
    let g = Graph::parse(&json(
        r#"{"nodes": [{"id": "s", "type": "agent"}, {"id": "t", "type": "end"},
                      {"id": "s", "type": "start", "data": {"title": "T"}}]}"#,
    ))
    .unwrap();
    assert_eq!(g.nodes.len(), 2);
    assert_eq!(g.start_id, "s");
    assert_eq!(g.node_name("s"), "T");
    assert_eq!(g.node_name("t"), "t");
    assert_eq!(g.node_name("nowhere"), "nowhere");
}

#[test]
fn outgoing_edges_keep_their_order_and_lead_to_nodes() {
    let g = Graph::parse(&json(
        r#"{"nodes": [{"id": "s", "type": "start"}, {"id": "a"}, {"id": "b"}],
            "edges": [{"id": "1", "source": "s", "target": "b"},
                      {"id": "2", "source": "a", "target": "s"},
                      {"id": "3", "source": "s", "target": "a"}]}"#,
    ))
    .unwrap();
    let ids: Vec<&str> = g.outgoing("s").iter().map(|e| e.id.as_str()).collect();
    assert_eq!(ids, vec!["1", "3"]);
    assert!(g.outgoing("b").is_empty());
    assert!(g.outgoing("nowhere").is_empty());
    assert!(g.edges.iter().all(|e| g.node(&e.target).is_some()));
}

#[test]
fn finding_texts() {
    let g = Graph::parse(&json(
        r#"{"nodes": [{"id": "s", "type": "start"}, {"id": "e", "type": "end"}, {"id": "q", "type": "qa"}],
            "edges": [{"id": "1", "source": "e", "target": "s"}, {"id": "2", "source": "q", "target": "q"}]}"#,
    ))
    .unwrap();
    let found = g.cardinality_errors();
    let want: Vec<ValidationError> = vec![
        ("s", "Start node \"s\": cannot have incoming edges"),
        ("e", "End node \"e\": must have at least 1 incoming edge(s)"),
        ("e", "End node \"e\": cannot have outgoing edges"),
        ("q", "QA node \"q\": cannot have incoming edges"),
        ("q", "QA node \"q\": cannot have outgoing edges"),
    ]
    .into_iter()
    .map(|(id, message)| ValidationError {
        kind: "node",
        id: Some(id.to_string()),
        message: message.to_string(),
    })
    .collect();
    assert_eq!(found, want);
}

#[test]
fn kinds_have_labels_and_bounds() {
    assert_eq!(NodeKind::Tuner.label(), "Tuner");
    assert_eq!(NodeKind::Other.label(), "Node");
    let b = NodeKind::End.edge_bounds();
    assert_eq!((b.min_in, b.max_in, b.min_out, b.max_out), (Some(1), None, Some(0), Some(0)));
    let b = NodeKind::Other.edge_bounds();
    assert_eq!((b.min_in, b.max_in, b.min_out, b.max_out), (None, None, None, None));
    assert_eq!(flowcat::graph::default_kind(), NodeKind::Other);
}
