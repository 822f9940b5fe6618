//! Laws of the graph: which nodes and edges it has, and what is wrong with it.

use crate::decode::raw_of;
use crate::graph::{
    dangling, first_of, graph_of, graph_of_raw, known, no_finding_iff_within_bounds, node_of_place,
    place_is_known, settled, settled_is_distinct, EdgeV, GraphErrorV, GraphV, NodeKind, NodeV,
    ValidationErrorV,
};
use crate::json::{FieldsV, JsonV};
use vstd::prelude::*;

verus! {

// ── Nodes ─────────────────────────────────────────────────────────────────

/// A node takes the place of an earlier one with its id, and stands behind the
/// others where there is none.
pub proof fn later_node_takes_the_place(raw: Seq<NodeV>, n: NodeV, i: int)
    ensures
        settled(Seq::<NodeV>::empty()) == Seq::<NodeV>::empty(),
        0 <= i < settled(raw).len() && settled(raw)[i].id == n.id ==> settled(raw.push(n))
            == settled(raw).update(i, n),
        (forall|k: int| 0 <= k < settled(raw).len() ==> (#[trigger] settled(raw)[k]).id != n.id)
            ==> settled(raw.push(n)) == settled(raw).push(n),
{
    assert(raw.push(n).drop_last() =~= raw);
    settled_is_distinct(raw);
    place_is_known(settled(raw), n.id);
    if 0 <= i < settled(raw).len() && settled(raw)[i].id == n.id {
        node_of_place(settled(raw), i);
    }
}

/// A node is found by its id, and only by its id.
pub proof fn node_is_found_by_its_id(g: GraphV, id: Seq<char>)
    requires
        g.wf(),
    ensures
        match g.node(id) {
            Some(n) => n.id == id && g.nodes.contains(n),
            None => forall|i: int| 0 <= i < g.nodes.len() ==> (#[trigger] g.nodes[i]).id != id,
        },
        forall|i: int|
            0 <= i < g.nodes.len() && (#[trigger] g.nodes[i]).id == id ==> g.node(id) == Some(
                g.nodes[i],
            ),
        forall|i: int, j: int|
            0 <= i < j < g.nodes.len() ==> (#[trigger] g.nodes[i]).id != (#[trigger] g.nodes[j]).id,
{
    place_is_known(g.nodes, id);
    assert forall|i: int| 0 <= i < g.nodes.len() && (#[trigger] g.nodes[i]).id == id implies g.node(
        id,
    ) == Some(g.nodes[i]) by {
        node_of_place(g.nodes, i);
    }
}

/// The first node of a kind is one of that kind with none before it.
pub proof fn first_of_its_kind(nodes: Seq<NodeV>, kind: NodeKind)
    ensures
        match first_of(nodes, kind) {
            Some(id) => exists|i: int|
                0 <= i < nodes.len() && (#[trigger] nodes[i]).id == id && nodes[i].kind == kind
                    && forall|j: int| 0 <= j < i ==> (#[trigger] nodes[j]).kind != kind,
            None => forall|i: int| 0 <= i < nodes.len() ==> (#[trigger] nodes[i]).kind != kind,
        },
    decreases nodes.len(),
{
    if nodes.len() > 0 {
        let r = nodes.drop_first();
        if nodes[0].kind == kind {
            assert(nodes[0].id == nodes[0].id);
        } else {
            first_of_its_kind(r, kind);
            match first_of(r, kind) {
                Some(id) => {
                    let i = choose|i: int|
                        0 <= i < r.len() && (#[trigger] r[i]).id == id && r[i].kind == kind
                            && forall|j: int| 0 <= j < i ==> (#[trigger] r[j]).kind != kind;
                    assert(nodes[i + 1] == r[i]);
                    assert forall|j: int| 0 <= j < i + 1 implies (#[trigger] nodes[j]).kind
                        != kind by {
                        if j > 0 {
                            assert(nodes[j] == r[j - 1]);
                        }
                    }
                },
                None => {
                    assert forall|i: int| 0 <= i < nodes.len() implies (#[trigger] nodes[i]).kind
                        != kind by {
                        if i > 0 {
                            assert(nodes[i] == r[i - 1]);
                        }
                    }
                },
            }
        }
    }
}

/// The edge that is reported is the first with an end that is no node; its source is
/// looked at first.
pub proof fn first_dangling_end(nodes: Seq<NodeV>, edges: Seq<EdgeV>)
    ensures
        match dangling(nodes, edges) {
            Some(id) => exists|k: int|
                {
                    &&& 0 <= k < edges.len()
                    &&& !known(nodes, id)
                    &&& if known(nodes, (#[trigger] edges[k]).source) {
                        id == edges[k].target
                    } else {
                        id == edges[k].source
                    }
                    &&& forall|j: int|
                        0 <= j < k ==> known(nodes, (#[trigger] edges[j]).source) && known(
                            nodes,
                            edges[j].target,
                        )
                },
            None => forall|k: int|
                0 <= k < edges.len() ==> known(nodes, (#[trigger] edges[k]).source) && known(
                    nodes,
                    edges[k].target,
                ),
        },
        forall|id: Seq<char>|
            #![trigger known(nodes, id)]
            known(nodes, id) <==> exists|i: int|
                0 <= i < nodes.len() && (#[trigger] nodes[i]).id == id,
    decreases edges.len(),
{
    if edges.len() > 0 {
        let r = edges.drop_first();
        if !known(nodes, edges[0].source) || !known(nodes, edges[0].target) {
            assert(edges[0].source == edges[0].source);
        } else {
            first_dangling_end(nodes, r);
            match dangling(nodes, r) {
                Some(id) => {
                    let k = choose|k: int|
                        {
                            &&& 0 <= k < r.len()
                            &&& !known(nodes, id)
                            &&& if known(nodes, (#[trigger] r[k]).source) {
                                id == r[k].target
                            } else {
                                id == r[k].source
                            }
                            &&& forall|j: int|
                                0 <= j < k ==> known(nodes, (#[trigger] r[j]).source) && known(
                                    nodes,
                                    r[j].target,
                                )
                        };
                    assert(edges[k + 1] == r[k]);
                    assert forall|j: int| 0 <= j < k + 1 implies known(
                        nodes,
                        (#[trigger] edges[j]).source,
                    ) && known(nodes, edges[j].target) by {
                        if j > 0 {
                            assert(edges[j] == r[j - 1]);
                        }
                    }
                },
                None => {
                    assert forall|k: int| 0 <= k < edges.len() implies known(
                        nodes,
                        (#[trigger] edges[k]).source,
                    ) && known(nodes, edges[k].target) by {
                        if k > 0 {
                            assert(edges[k] == r[k - 1]);
                        }
                    }
                },
            }
        }
    }
}

/// A document is refused as malformed where it cannot be read, for want of a start
/// node where it has none, and for a dangling edge where it has one; otherwise the
/// graph has its nodes, its edges, its first start node and its first global node.
pub proof fn document_is_a_graph_or_refused(j: JsonV)
    ensures
        match raw_of(j) {
            Err(m) => graph_of(j) is Err && graph_of(j)->Err_0 == GraphErrorV::Malformed(m),
            Ok(raw) => {
                let nodes = settled(raw.nodes);
                if first_of(nodes, NodeKind::Start) is None {
                    graph_of(j) is Err && graph_of(j)->Err_0 == GraphErrorV::NoStart
                } else if dangling(nodes, raw.edges) is Some {
                    graph_of(j) is Err && graph_of(j)->Err_0 == GraphErrorV::DanglingEdge(
                        dangling(nodes, raw.edges)->Some_0,
                    )
                } else {
                    &&& graph_of(j) is Ok
                    &&& graph_of(j)->Ok_0.nodes == nodes
                    &&& graph_of(j)->Ok_0.edges == raw.edges
                    &&& Some(graph_of(j)->Ok_0.start) == first_of(nodes, NodeKind::Start)
                    &&& graph_of(j)->Ok_0.global == first_of(nodes, NodeKind::Global)
                    &&& graph_of(j)->Ok_0.wf()
                }
            },
        },
{
    if let Ok(raw) = raw_of(j) {
        settled_is_distinct(raw.nodes);
        assert(graph_of(j) == graph_of_raw(raw));
    }
}

/// Why a document is refused, in words.
pub proof fn refusals_say_why(id: Seq<char>, m: Seq<char>)
    ensures
        GraphErrorV::NoStart.message() == "graph has no start node"@,
        GraphErrorV::DanglingEdge(id).message() == "edge references unknown node: "@ + id,
        GraphErrorV::Malformed(m).message() == "malformed graph spec: "@ + m,
        crate::engine::EngineErrorV::UnknownNode(id).message() == "unknown node: "@ + id,
        crate::engine::EngineErrorV::Graph(GraphErrorV::Malformed(m)).message()
            == "malformed graph spec: "@ + m,
        crate::engine::EngineErrorV::Graph(GraphErrorV::DanglingEdge(id)).message()
            == "edge references unknown node: "@ + id,
        crate::engine::EngineErrorV::Graph(GraphErrorV::NoStart).message()
            == "graph has no start node"@,
{
}

// ── Edges ─────────────────────────────────────────────────────────────────

/// The edges that leave a node are those with the node as their source, and those
/// that enter it are those with it as their target, each in the document's order.
pub proof fn edges_leave_and_enter(g: GraphV, e: EdgeV, id: Seq<char>)
    ensures
        ({
            let none = GraphV { edges: Seq::<EdgeV>::empty(), ..g };
            let more = GraphV { edges: g.edges.push(e), ..g };
            &&& none.outgoing(id).len() == 0
            &&& none.incoming(id).len() == 0
            &&& more.outgoing(id) == if e.source == id {
                g.outgoing(id).push(e)
            } else {
                g.outgoing(id)
            }
            &&& more.incoming(id) == if e.target == id {
                g.incoming(id).push(e)
            } else {
                g.incoming(id)
            }
        }),
{
    reveal(Seq::filter);
    assert(g.edges.push(e).drop_last() =~= g.edges);
}

/// No edge leaves a node exactly where no edge of the document has it as its source,
/// and what leaves it has it as its source.
pub proof fn leaving_edges_start_here(g: GraphV, id: Seq<char>)
    ensures
        forall|i: int|
            0 <= i < g.outgoing(id).len() ==> (#[trigger] g.outgoing(id)[i]).source == id,
        g.outgoing(id).len() == 0 <==> forall|k: int|
            0 <= k < g.edges.len() ==> (#[trigger] g.edges[k]).source != id,
    decreases g.edges.len(),
{
    if g.edges.len() == 0 {
        edges_leave_and_enter(g, arbitrary(), id);
        assert(g.edges =~= Seq::<EdgeV>::empty());
        assert(g == (GraphV { edges: Seq::<EdgeV>::empty(), ..g }));
    } else {
        let r = GraphV { edges: g.edges.drop_last(), ..g };
        let e = g.edges.last();
        leaving_edges_start_here(r, id);
        edges_leave_and_enter(r, e, id);
        assert(r.edges.push(e) =~= g.edges);
        assert(g == (GraphV { edges: r.edges.push(e), ..r }));
        if forall|k: int| 0 <= k < g.edges.len() ==> (#[trigger] g.edges[k]).source != id {
            assert forall|k: int| 0 <= k < r.edges.len() implies (#[trigger] r.edges[k]).source
                != id by {
                assert(r.edges[k] == g.edges[k]);
            }
            assert(g.edges[g.edges.len() - 1].source != id);
        }
        if g.outgoing(id).len() == 0 {
            assert forall|k: int| 0 <= k < g.edges.len() implies (#[trigger] g.edges[k]).source
                != id by {
                if k < r.edges.len() {
                    assert(r.edges[k] == g.edges[k]);
                }
            }
        }
    }
}

// ── Names and prompts ─────────────────────────────────────────────────────

/// A node is called by the first of its name, label and title that is a string, and
/// otherwise by its id.
pub proof fn node_is_called_by_its_name(g: GraphV, id: Seq<char>, n: NodeV, m: FieldsV)
    requires
        g.node(id) == Some(n),
        n.data == JsonV::Object(m),
    ensures
        m.contains_key("name"@) && m["name"@] is Str ==> g.name(id) == m["name"@]->Str_0,
        !(m.contains_key("name"@) && m["name"@] is Str) ==> {
            if m.contains_key("label"@) && m["label"@] is Str {
                g.name(id) == m["label"@]->Str_0
            } else if m.contains_key("title"@) && m["title"@] is Str {
                g.name(id) == m["title"@]->Str_0
            } else {
                g.name(id) == id
            }
        },
{
}

/// A node without data, and what is no node, are called by the id.
pub proof fn nameless_node_is_called_by_its_id(g: GraphV, id: Seq<char>)
    ensures
        (g.node(id) matches Some(n) ==> !(n.data is Object)) ==> g.name(id) == id,
{
}

/// The run ends at the nodes of the end kind, and at no other.
pub proof fn only_end_nodes_are_terminal(g: GraphV, id: Seq<char>)
    ensures
        g.terminal(id) <==> (g.node(id) matches Some(n) && n.kind == NodeKind::End),
{
}

/// The shared prompt is the prompt of the global node, where there is one.
pub proof fn shared_prompt_is_the_global_nodes(g: GraphV, p: Seq<char>)
    ensures
        g.global is None ==> g.global_prompt() is None,
        g.global_prompt() == Some(p) <==> (g.global matches Some(id) && g.node(id) matches Some(n)
            && n.data matches JsonV::Object(m) && m.contains_key("prompt"@) && m["prompt"@]
            == JsonV::Str(p)),
{
}

/// The bounds on the edges of each kind of node.
pub proof fn bounds_by_kind(k: NodeKind)
    ensures
        ({
            let b = crate::graph::bounds(k);
            let isolated = k is Global || k is Webhook || k is Qa || k is Tuner;
            &&& b.min_in == if k is Agent || k is End {
                Some(1usize)
            } else if isolated {
                Some(0usize)
            } else {
                None
            }
            &&& b.max_in == if k is Start || k is Trigger || isolated {
                Some(0usize)
            } else {
                None
            }
            &&& b.min_out == if k is End || isolated {
                Some(0usize)
            } else {
                None
            }
            &&& b.max_out == if k is End || isolated {
                Some(0usize)
            } else {
                None
            }
        }),
{
}

// ── What is wrong with a graph ────────────────────────────────────────────

/// There is no finding exactly where every start and trigger node has no incoming
/// edge, every agent node has one at least, every end node has an incoming and no
/// outgoing edge, and every global, webhook, review and tuner node has no edge at
/// all. Nothing is asked of other nodes, nor of the edges that leave an agent.
pub proof fn sound_graph_has_no_finding(g: GraphV)
    ensures
        g.cardinality_errors().len() == 0 <==> forall|k: int|
            0 <= k < g.nodes.len() ==> {
                let n = #[trigger] g.nodes[k];
                let i = g.edges.filter(|e: EdgeV| e.target == n.id).len();
                let o = g.edges.filter(|e: EdgeV| e.source == n.id).len();
                &&& n.kind is Start ==> i == 0
                &&& n.kind is Trigger ==> i == 0
                &&& n.kind is Agent ==> i >= 1
                &&& n.kind is End ==> i >= 1 && o == 0
                &&& n.kind is Global ==> i == 0 && o == 0
                &&& n.kind is Webhook ==> i == 0 && o == 0
                &&& n.kind is Qa ==> i == 0 && o == 0
                &&& n.kind is Tuner ==> i == 0 && o == 0
            },
{
    no_finding_iff_within_bounds(g);
    if g.cardinality_errors().len() == 0 {
        assert forall|k: int| 0 <= k < g.nodes.len() implies {
            let n = #[trigger] g.nodes[k];
            let i = g.edges.filter(|e: EdgeV| e.target == n.id).len();
            let o = g.edges.filter(|e: EdgeV| e.source == n.id).len();
            &&& n.kind is Start ==> i == 0
            &&& n.kind is Trigger ==> i == 0
            &&& n.kind is Agent ==> i >= 1
            &&& n.kind is End ==> i >= 1 && o == 0
            &&& n.kind is Global ==> i == 0 && o == 0
            &&& n.kind is Webhook ==> i == 0 && o == 0
            &&& n.kind is Qa ==> i == 0 && o == 0
            &&& n.kind is Tuner ==> i == 0 && o == 0
        } by {
            let n = g.nodes[k];
            assert(g.incoming(n.id) == g.edges.filter(|e: EdgeV| e.target == n.id));
            assert(g.outgoing(n.id) == g.edges.filter(|e: EdgeV| e.source == n.id));
        }
    } else {
        let k = choose|k: int|
            0 <= k < g.nodes.len() && {
                let n = #[trigger] g.nodes[k];
                let b = crate::graph::bounds(n.kind);
                !(crate::graph::within(g.incoming(n.id).len(), b.min_in, b.max_in)
                    && crate::graph::within(g.outgoing(n.id).len(), b.min_out, b.max_out))
            };
        let n = g.nodes[k];
        assert(g.incoming(n.id) == g.edges.filter(|e: EdgeV| e.target == n.id));
        assert(g.outgoing(n.id) == g.edges.filter(|e: EdgeV| e.source == n.id));
    }
}

/// What is said of a node with `i` incoming and `o` outgoing edges: whether a
/// finding about it must have this reason.
pub open spec fn at_fault(kind: NodeKind, i: nat, o: nat, reason: Seq<char>) -> bool {
    let isolated = kind is Global || kind is Webhook || kind is Qa || kind is Tuner;
    ||| (kind is Start || kind is Trigger || isolated) && i > 0 && reason
        == "cannot have incoming edges"@
    ||| (kind is End || isolated) && o > 0 && reason == "cannot have outgoing edges"@
    ||| (kind is Agent || kind is End) && i == 0 && reason
        == "must have at least 1 incoming edge(s)"@
}

/// What a finding calls a node of a kind.
pub open spec fn called(kind: NodeKind) -> Seq<char> {
    match kind {
        NodeKind::Start => "Start node \""@,
        NodeKind::Agent => "Agent node \""@,
        NodeKind::End => "End node \""@,
        NodeKind::Global => "Global node \""@,
        NodeKind::Trigger => "Trigger node \""@,
        NodeKind::Webhook => "Webhook node \""@,
        NodeKind::Qa => "QA node \""@,
        NodeKind::Tuner => "Tuner node \""@,
        NodeKind::Other => "Node node \""@,
    }
}

proof fn reasons_are_faults(kind: NodeKind, i: nat, o: nat, reason: Seq<char>)
    ensures
        crate::graph::reasons(kind, i, o).contains(reason) <==> at_fault(kind, i, o, reason),
{
    reveal_strlit("must have at least ");
    reveal_strlit(" ");
    reveal_strlit("incoming");
    reveal_strlit("outgoing");
    reveal_strlit(" edge(s)");
    reveal_strlit("cannot have ");
    reveal_strlit(" edges");
    reveal_strlit("cannot have incoming edges");
    reveal_strlit("cannot have outgoing edges");
    reveal_strlit("must have at least 1 incoming edge(s)");
    let one = crate::text::decimal(1);
    assert(one =~= seq!['1']);
    let few = "must have at least "@ + one + " "@ + "incoming"@ + " edge(s)"@;
    let many_in = "cannot have "@ + "incoming"@ + " edges"@;
    let many_out = "cannot have "@ + "outgoing"@ + " edges"@;
    assert(few =~= "must have at least 1 incoming edge(s)"@);
    assert(many_in =~= "cannot have incoming edges"@);
    assert(many_out =~= "cannot have outgoing edges"@);
    let rs = crate::graph::reasons(kind, i, o);
    match kind {
        NodeKind::Start | NodeKind::Trigger => {
            assert(rs =~= if i > 0 {
                seq![many_in]
            } else {
                seq![]
            });
        },
        NodeKind::Agent => {
            assert(rs =~= if i == 0 {
                seq![few]
            } else {
                seq![]
            });
        },
        NodeKind::End => {
            assert(rs =~= (if i == 0 {
                seq![few]
            } else {
                seq![]
            }) + if o > 0 {
                seq![many_out]
            } else {
                seq![]
            });
            if i == 0 {
                assert(rs[0] == few);
            }
            if o > 0 {
                assert(rs.last() == many_out);
            }
        },
        NodeKind::Other => {
            assert(rs =~= seq![]);
        },
        _ => {
            assert(rs =~= (if i > 0 {
                seq![many_in]
            } else {
                seq![]
            }) + if o > 0 {
                seq![many_out]
            } else {
                seq![]
            });
            if i > 0 {
                assert(rs[0] == many_in);
            }
            if o > 0 {
                assert(rs.last() == many_out);
            }
        },
    }
    if i > 0 && rs.len() > 0 {
        assert(rs.contains(rs[0]));
    }
    if i == 0 && rs.len() > 0 {
        assert(rs.contains(rs[0]));
    }
    if rs.len() > 0 {
        assert(rs.contains(rs.last()));
    }
}

/// A finding about a node.
pub open spec fn about(n: NodeV, reason: Seq<char>) -> ValidationErrorV {
    ValidationErrorV {
        kind: "node"@,
        id: Some(n.id),
        message: called(n.kind) + n.id + "\": "@ + reason,
    }
}

proof fn finding_is_about(n: NodeV, reason: Seq<char>)
    ensures
        crate::graph::finding(n, reason) == about(n, reason),
{
    reveal_strlit(" node \"");
    reveal_strlit("Start");
    reveal_strlit("Agent");
    reveal_strlit("End");
    reveal_strlit("Global");
    reveal_strlit("Trigger");
    reveal_strlit("Webhook");
    reveal_strlit("QA");
    reveal_strlit("Tuner");
    reveal_strlit("Node");
    reveal_strlit("Start node \"");
    reveal_strlit("Agent node \"");
    reveal_strlit("End node \"");
    reveal_strlit("Global node \"");
    reveal_strlit("Trigger node \"");
    reveal_strlit("Webhook node \"");
    reveal_strlit("QA node \"");
    reveal_strlit("Tuner node \"");
    reveal_strlit("Node node \"");
    assert(crate::graph::kind_label(n.kind) + " node \""@ =~= called(n.kind));
}

proof fn findings_so_far(g: GraphV, to: nat, f: ValidationErrorV)
    requires
        to <= g.nodes.len(),
    ensures
        g.findings_up_to(to).contains(f) <==> exists|k: int, reason: Seq<char>|
            #![trigger about(g.nodes[k], reason)]
            0 <= k < to && f == about(g.nodes[k], reason) && at_fault(
                g.nodes[k].kind,
                g.edges.filter(|e: EdgeV| e.target == g.nodes[k].id).len(),
                g.edges.filter(|e: EdgeV| e.source == g.nodes[k].id).len(),
                reason,
            ),
    decreases to,
{
    if to > 0 {
        let j = to - 1;
        findings_so_far(g, j as nat, f);
        let n = g.nodes[j];
        let i = g.incoming(n.id).len();
        let o = g.outgoing(n.id).len();
        assert(i == g.edges.filter(|e: EdgeV| e.target == g.nodes[j].id).len());
        assert(o == g.edges.filter(|e: EdgeV| e.source == g.nodes[j].id).len());
        let before = g.findings_up_to(j as nat);
        let here = g.findings_at(j);
        let rs = crate::graph::reasons(n.kind, i, o);
        let all = g.findings_up_to(to);
        assert(all == before + here);
        if all.contains(f) {
            let x = choose|x: int| 0 <= x < all.len() && all[x] == f;
            if x < before.len() {
                assert(before[x] == f);
                assert(before.contains(f));
            } else {
                let r = rs[x - before.len()];
                assert(here[x - before.len()] == crate::graph::finding(n, r));
                assert(rs.contains(r));
                reasons_are_faults(n.kind, i, o, r);
                finding_is_about(n, r);
                assert(f == about(g.nodes[j], r));
            }
        }
        if exists|k: int, reason: Seq<char>|
            #![trigger about(g.nodes[k], reason)]
            0 <= k < to && f == about(g.nodes[k], reason) && at_fault(
                g.nodes[k].kind,
                g.edges.filter(|e: EdgeV| e.target == g.nodes[k].id).len(),
                g.edges.filter(|e: EdgeV| e.source == g.nodes[k].id).len(),
                reason,
            ) {
            let (k, reason) = choose|k: int, reason: Seq<char>|
                #![trigger about(g.nodes[k], reason)]
                0 <= k < to && f == about(g.nodes[k], reason) && at_fault(
                    g.nodes[k].kind,
                    g.edges.filter(|e: EdgeV| e.target == g.nodes[k].id).len(),
                    g.edges.filter(|e: EdgeV| e.source == g.nodes[k].id).len(),
                    reason,
                );
            if k < j {
                assert(before.contains(f));
                let x = choose|x: int| 0 <= x < before.len() && before[x] == f;
                assert(all[x] == f);
            } else {
                reasons_are_faults(n.kind, i, o, reason);
                finding_is_about(n, reason);
                let x = choose|x: int| 0 <= x < rs.len() && rs[x] == reason;
                assert(here[x] == f);
                assert(all[before.len() + x] == f);
            }
        }
    }
}

/// The findings are those that the nodes' edges give, each under its node's id and
/// in these words; there are no others.
pub proof fn findings_are_the_faults(g: GraphV, f: ValidationErrorV)
    ensures
        g.cardinality_errors().contains(f) <==> exists|k: int, reason: Seq<char>|
            #![trigger about(g.nodes[k], reason)]
            0 <= k < g.nodes.len() && f == about(g.nodes[k], reason) && at_fault(
                g.nodes[k].kind,
                g.edges.filter(|e: EdgeV| e.target == g.nodes[k].id).len(),
                g.edges.filter(|e: EdgeV| e.source == g.nodes[k].id).len(),
                reason,
            ),
{
    findings_so_far(g, g.nodes.len(), f);
}

proof fn findings_stay(g: GraphV, n: NodeV, k: nat)
    requires
        k <= g.nodes.len(),
    ensures
        (GraphV { nodes: g.nodes.push(n), ..g }).findings_up_to(k) == g.findings_up_to(k),
    decreases k,
{
    if k > 0 {
        findings_stay(g, n, (k - 1) as nat);
        let more = GraphV { nodes: g.nodes.push(n), ..g };
        assert(more.nodes[k - 1] == g.nodes[k - 1]);
        assert(more.findings_at(k - 1) =~= g.findings_at(k - 1));
    }
}

/// Findings come in the order of the nodes, for each node those about its incoming
/// edges first, and each once.
pub proof fn findings_follow_the_nodes(g: GraphV, n: NodeV)
    ensures
        (GraphV { nodes: Seq::<NodeV>::empty(), ..g }).cardinality_errors().len() == 0,
        ({
            let i = g.edges.filter(|e: EdgeV| e.target == n.id).len();
            let o = g.edges.filter(|e: EdgeV| e.source == n.id).len();
            let isolated = n.kind is Global || n.kind is Webhook || n.kind is Qa || n.kind is Tuner;
            let incoming: Seq<ValidationErrorV> = if (n.kind is Agent || n.kind is End) && i == 0 {
                seq![about(n, "must have at least 1 incoming edge(s)"@)]
            } else if (n.kind is Start || n.kind is Trigger || isolated) && i > 0 {
                seq![about(n, "cannot have incoming edges"@)]
            } else {
                seq![]
            };
            let outgoing: Seq<ValidationErrorV> = if (n.kind is End || isolated) && o > 0 {
                seq![about(n, "cannot have outgoing edges"@)]
            } else {
                seq![]
            };
            (GraphV { nodes: g.nodes.push(n), ..g }).cardinality_errors() == g.cardinality_errors()
                + incoming + outgoing
        }),
{
    let more = GraphV { nodes: g.nodes.push(n), ..g };
    let len = g.nodes.len();
    findings_stay(g, n, len);
    assert(more.nodes[len as int] == n);
    let i = g.edges.filter(|e: EdgeV| e.target == n.id).len();
    let o = g.edges.filter(|e: EdgeV| e.source == n.id).len();
    assert(more.incoming(n.id).len() == i);
    assert(more.outgoing(n.id).len() == o);
    assert(more.findings_up_to((len + 1) as nat) == more.findings_up_to(len) + more.findings_at(
        len as int,
    ));
    reveal_strlit("must have at least ");
    reveal_strlit(" ");
    reveal_strlit("incoming");
    reveal_strlit("outgoing");
    reveal_strlit(" edge(s)");
    reveal_strlit("cannot have ");
    reveal_strlit(" edges");
    reveal_strlit("cannot have incoming edges");
    reveal_strlit("cannot have outgoing edges");
    reveal_strlit("must have at least 1 incoming edge(s)");
    let one = crate::text::decimal(1);
    assert(one =~= seq!['1']);
    assert("must have at least "@ + one + " "@ + "incoming"@ + " edge(s)"@
        =~= "must have at least 1 incoming edge(s)"@);
    assert("cannot have "@ + "incoming"@ + " edges"@ =~= "cannot have incoming edges"@);
    assert("cannot have "@ + "outgoing"@ + " edges"@ =~= "cannot have outgoing edges"@);
    finding_is_about(n, "must have at least 1 incoming edge(s)"@);
    finding_is_about(n, "cannot have incoming edges"@);
    finding_is_about(n, "cannot have outgoing edges"@);
    let isolated = n.kind is Global || n.kind is Webhook || n.kind is Qa || n.kind is Tuner;
    let incoming: Seq<ValidationErrorV> = if (n.kind is Agent || n.kind is End) && i == 0 {
        seq![about(n, "must have at least 1 incoming edge(s)"@)]
    } else if (n.kind is Start || n.kind is Trigger || isolated) && i > 0 {
        seq![about(n, "cannot have incoming edges"@)]
    } else {
        seq![]
    };
    let outgoing: Seq<ValidationErrorV> = if (n.kind is End || isolated) && o > 0 {
        seq![about(n, "cannot have outgoing edges"@)]
    } else {
        seq![]
    };
    assert(more.findings_at(len as int) =~= incoming + outgoing);
    assert(g.cardinality_errors() + incoming + outgoing =~= g.cardinality_errors() + (incoming
        + outgoing));
}

/// How many edges leave a start, trigger, agent or other node changes nothing about
/// what is wrong with it.
pub proof fn agents_may_lead_anywhere(kind: NodeKind, i: nat, o: nat, more: nat)
    requires
        kind is Agent || kind is Start || kind is Trigger || kind is Other,
    ensures
        crate::graph::reasons(kind, i, o) == crate::graph::reasons(kind, i, more),
{
    assert(crate::graph::reasons(kind, i, o) =~= crate::graph::reasons(kind, i, more));
}

/// Validating a document gives the findings about its graph, and where there is no
/// graph the one reason for that.
pub proof fn validation_gives_the_findings(j: JsonV)
    ensures
        match graph_of(j) {
            Ok(g) => crate::engine::validation_of(j) == g.cardinality_errors(),
            Err(e) => {
                &&& crate::engine::validation_of(j).len() == 1
                &&& crate::engine::validation_of(j)[0].kind == "graph"@
                &&& crate::engine::validation_of(j)[0].id is None
                &&& crate::engine::validation_of(j)[0].message == e.message()
            },
        },
{
}

} // verus!
