//! Workflow graph model.
//!
//! An agent is authored as a node/edge graph and kept as JSON. This module turns
//! that JSON into a validated directed graph that the engine can traverse.

use crate::decode::{raw_of, RawGraph, RawGraphV};
use crate::json::{opt_text, Json, JsonV};
use crate::text::{decimal, decimal_text, join2, join3, same, texts};
use vstd::prelude::*;
use vstd::string::StringExecFns;

verus! {

/// Node roles the engine understands. Unknown types are kept as `Other`, so
/// authoring is not blocked on engine support.
#[derive(Debug, Clone, Copy, PartialEq, Eq, Structural)]
pub enum NodeKind {
    Start,
    Agent,
    End,
    /// The optional persona node whose prompt is prepended to every node that
    /// opts in. It carries no edges, so it is never traversed.
    Global,
    /// Inbound entry point (no incoming edges).
    Trigger,
    /// Side-effect node, isolated.
    Webhook,
    /// Post-call review node, isolated.
    Qa,
    /// Agent-tuner export node, isolated.
    Tuner,
    Other,
}

/// A node of the graph.
#[derive(Debug, Clone)]
pub struct Node {
    pub id: String,
    pub kind: NodeKind,
    pub data: Json,
}

/// A directed edge of the graph.
#[derive(Debug, Clone)]
pub struct Edge {
    pub id: String,
    pub source: String,
    pub target: String,
    pub label: Option<String>,
    pub data: Json,
}

/// The view of a [`Node`].
#[verifier::ext_equal]
pub struct NodeV {
    pub id: Seq<char>,
    pub kind: NodeKind,
    pub data: JsonV,
}

/// The view of an [`Edge`].
#[verifier::ext_equal]
pub struct EdgeV {
    pub id: Seq<char>,
    pub source: Seq<char>,
    pub target: Seq<char>,
    pub label: Option<Seq<char>>,
    pub data: JsonV,
}

impl View for Node {
    type V = NodeV;

    open spec fn view(&self) -> NodeV {
        NodeV { id: self.id@, kind: self.kind, data: self.data@ }
    }
}

impl View for Edge {
    type V = EdgeV;

    open spec fn view(&self) -> EdgeV {
        EdgeV {
            id: self.id@,
            source: self.source@,
            target: self.target@,
            label: match self.label {
                Some(l) => Some(l@),
                None => None,
            },
            data: self.data@,
        }
    }
}

/// The views of a sequence of nodes.
pub open spec fn nodes_view(s: Seq<Node>) -> Seq<NodeV> {
    Seq::new(s.len(), |i: int| s[i]@)
}

/// The views of a sequence of edges.
pub open spec fn edges_view(s: Seq<Edge>) -> Seq<EdgeV> {
    Seq::new(s.len(), |i: int| s[i]@)
}

/// The kind of a node that states none.
pub fn default_kind() -> (k: NodeKind)
    ensures
        k == NodeKind::Other,
{
    NodeKind::Other
}

// ── Kinds and their edges ─────────────────────────────────────────────────

/// Edge-cardinality bounds of a node kind (`None`: unbounded).
#[derive(Debug, Clone, Copy)]
pub struct EdgeBounds {
    pub min_in: Option<usize>,
    pub max_in: Option<usize>,
    pub min_out: Option<usize>,
    pub max_out: Option<usize>,
}

/// The edge-cardinality bounds of each node kind: entry points take no incoming
/// edge, an agent needs one, an end needs one and has no outgoing, and the
/// isolated kinds have none at all.
pub open spec fn bounds(k: NodeKind) -> EdgeBounds {
    match k {
        NodeKind::Start | NodeKind::Trigger => EdgeBounds {
            min_in: None,
            max_in: Some(0),
            min_out: None,
            max_out: None,
        },
        NodeKind::Agent => EdgeBounds {
            min_in: Some(1),
            max_in: None,
            min_out: None,
            max_out: None,
        },
        NodeKind::End => EdgeBounds {
            min_in: Some(1),
            max_in: None,
            min_out: Some(0),
            max_out: Some(0),
        },
        NodeKind::Global | NodeKind::Webhook | NodeKind::Qa | NodeKind::Tuner => EdgeBounds {
            min_in: Some(0),
            max_in: Some(0),
            min_out: Some(0),
            max_out: Some(0),
        },
        NodeKind::Other => EdgeBounds {
            min_in: None,
            max_in: None,
            min_out: None,
            max_out: None,
        },
    }
}

/// The word for a node kind in messages.
pub open spec fn kind_label(k: NodeKind) -> Seq<char> {
    match k {
        NodeKind::Start => "Start"@,
        NodeKind::Agent => "Agent"@,
        NodeKind::End => "End"@,
        NodeKind::Global => "Global"@,
        NodeKind::Trigger => "Trigger"@,
        NodeKind::Webhook => "Webhook"@,
        NodeKind::Qa => "QA"@,
        NodeKind::Tuner => "Tuner"@,
        NodeKind::Other => "Node"@,
    }
}

impl NodeKind {
    /// The edge-cardinality bounds of this kind.
    pub fn edge_bounds(&self) -> (b: EdgeBounds)
        ensures
            b == bounds(*self),
    {
        match self {
            // Entry points: no incoming, outgoing unbounded.
            NodeKind::Start | NodeKind::Trigger => EdgeBounds {
                min_in: None,
                max_in: Some(0),
                min_out: None,
                max_out: None,
            },
            // At least one incoming; outgoing unbounded.
            NodeKind::Agent => EdgeBounds {
                min_in: Some(1),
                max_in: None,
                min_out: None,
                max_out: None,
            },
            // At least one incoming; no outgoing.
            NodeKind::End => EdgeBounds {
                min_in: Some(1),
                max_in: None,
                min_out: Some(0),
                max_out: Some(0),
            },
            // Isolated: no edges at all.
            NodeKind::Global | NodeKind::Webhook | NodeKind::Qa | NodeKind::Tuner => EdgeBounds {
                min_in: Some(0),
                max_in: Some(0),
                min_out: Some(0),
                max_out: Some(0),
            },
            // An unknown type is not constrained.
            NodeKind::Other => EdgeBounds {
                min_in: None,
                max_in: None,
                min_out: None,
                max_out: None,
            },
        }
    }

    /// The word for this kind in messages.
    pub fn label(&self) -> (s: &'static str)
        ensures
            s@ == kind_label(*self),
    {
        match self {
            NodeKind::Start => "Start",
            NodeKind::Agent => "Agent",
            NodeKind::End => "End",
            NodeKind::Global => "Global",
            NodeKind::Trigger => "Trigger",
            NodeKind::Webhook => "Webhook",
            NodeKind::Qa => "QA",
            NodeKind::Tuner => "Tuner",
            NodeKind::Other => "Node",
        }
    }
}

// ── Errors ────────────────────────────────────────────────────────────────

/// Why a document is no graph that can be run.
#[derive(Debug)]
pub enum GraphError {
    /// No node has the start kind.
    NoStart,
    /// An edge names a node that the document does not hold.
    DanglingEdge(String),
    /// The document does not have the shape of a graph.
    Malformed(String),
}

/// The view of a [`GraphError`].
pub enum GraphErrorV {
    NoStart,
    DanglingEdge(Seq<char>),
    Malformed(Seq<char>),
}

impl View for GraphError {
    type V = GraphErrorV;

    open spec fn view(&self) -> GraphErrorV {
        match self {
            GraphError::NoStart => GraphErrorV::NoStart,
            GraphError::DanglingEdge(s) => GraphErrorV::DanglingEdge(s@),
            GraphError::Malformed(s) => GraphErrorV::Malformed(s@),
        }
    }
}

impl GraphErrorV {
    /// The message for a reader.
    pub open spec fn message(self) -> Seq<char> {
        match self {
            GraphErrorV::NoStart => "graph has no start node"@,
            GraphErrorV::DanglingEdge(s) => "edge references unknown node: "@ + s,
            GraphErrorV::Malformed(s) => "malformed graph spec: "@ + s,
        }
    }
}

impl GraphError {
    /// The message for a reader.
    pub fn message(&self) -> (r: String)
        ensures
            r@ == self@.message(),
    {
        match self {
            GraphError::NoStart => String::from_str("graph has no start node"),
            GraphError::DanglingEdge(s) => join2("edge references unknown node: ", s.as_str()),
            GraphError::Malformed(s) => join2("malformed graph spec: ", s.as_str()),
        }
    }
}

/// One finding of a validation: `kind` says what it is about, `id` names the
/// offending node where there is one, and `message` gives the reason.
#[derive(Debug, Clone, PartialEq, Eq)]
pub struct ValidationError {
    pub kind: &'static str,
    pub id: Option<String>,
    pub message: String,
}

/// The view of a [`ValidationError`].
#[verifier::ext_equal]
pub struct ValidationErrorV {
    pub kind: Seq<char>,
    pub id: Option<Seq<char>>,
    pub message: Seq<char>,
}

impl View for ValidationError {
    type V = ValidationErrorV;

    open spec fn view(&self) -> ValidationErrorV {
        ValidationErrorV {
            kind: self.kind@,
            id: match self.id {
                Some(s) => Some(s@),
                None => None,
            },
            message: self.message@,
        }
    }
}

/// The views of a sequence of findings.
pub open spec fn findings(s: Seq<ValidationError>) -> Seq<ValidationErrorV> {
    Seq::new(s.len(), |i: int| s[i]@)
}

// ── The graph ─────────────────────────────────────────────────────────────

/// What a graph is: nodes with distinct ids, edges between them, the node where
/// a run starts and the node of the global directive.
#[verifier::ext_equal]
pub struct GraphV {
    pub nodes: Seq<NodeV>,
    pub edges: Seq<EdgeV>,
    pub start: Seq<char>,
    pub global: Option<Seq<char>>,
}

/// The position of the node `id`.
pub open spec fn place(nodes: Seq<NodeV>, id: Seq<char>) -> Option<int>
    decreases nodes.len(),
{
    if nodes.len() == 0 {
        None
    } else if nodes.last().id == id {
        Some(nodes.len() - 1)
    } else {
        place(nodes.drop_last(), id)
    }
}

/// The node `id`.
pub open spec fn node_in(nodes: Seq<NodeV>, id: Seq<char>) -> Option<NodeV> {
    match place(nodes, id) {
        Some(i) => Some(nodes[i]),
        None => None,
    }
}

/// Whether some node has the id `id`.
pub open spec fn known(nodes: Seq<NodeV>, id: Seq<char>) -> bool {
    exists|i: int| 0 <= i < nodes.len() && (#[trigger] nodes[i]).id == id
}

/// No two nodes have the same id.
pub open spec fn distinct(nodes: Seq<NodeV>) -> bool {
    forall|i: int, j: int|
        0 <= i < j < nodes.len() ==> (#[trigger] nodes[i]).id != (#[trigger] nodes[j]).id
}

/// `nodes` with `n` in it: in place of the node with its id, or at the end.
pub open spec fn put(nodes: Seq<NodeV>, n: NodeV) -> Seq<NodeV> {
    match place(nodes, n.id) {
        Some(i) => nodes.update(i, n),
        None => nodes.push(n),
    }
}

/// The nodes of a document: of those that share an id, the last one counts, at
/// the place of the first.
pub open spec fn settled(raw: Seq<NodeV>) -> Seq<NodeV>
    decreases raw.len(),
{
    if raw.len() == 0 {
        Seq::empty()
    } else {
        put(settled(raw.drop_last()), raw.last())
    }
}

/// The id of the first node of a kind.
pub open spec fn first_of(nodes: Seq<NodeV>, kind: NodeKind) -> Option<Seq<char>>
    decreases nodes.len(),
{
    if nodes.len() == 0 {
        None
    } else if nodes[0].kind == kind {
        Some(nodes[0].id)
    } else {
        first_of(nodes.drop_first(), kind)
    }
}

/// The first node id that an edge names and no node has.
pub open spec fn dangling(nodes: Seq<NodeV>, edges: Seq<EdgeV>) -> Option<Seq<char>>
    decreases edges.len(),
{
    if edges.len() == 0 {
        None
    } else if !known(nodes, edges[0].source) {
        Some(edges[0].source)
    } else if !known(nodes, edges[0].target) {
        Some(edges[0].target)
    } else {
        dangling(nodes, edges.drop_first())
    }
}

/// The graph of a document, or why there is none.
pub open spec fn graph_of_raw(raw: RawGraphV) -> Result<GraphV, GraphErrorV> {
    let nodes = settled(raw.nodes);
    match first_of(nodes, NodeKind::Start) {
        None => Err(GraphErrorV::NoStart),
        Some(start) => match dangling(nodes, raw.edges) {
            Some(id) => Err(GraphErrorV::DanglingEdge(id)),
            None => Ok(
                GraphV { nodes, edges: raw.edges, start, global: first_of(nodes, NodeKind::Global) },
            ),
        },
    }
}

/// The graph of a JSON document, or why there is none.
pub open spec fn graph_of(j: JsonV) -> Result<GraphV, GraphErrorV> {
    match raw_of(j) {
        Err(m) => Err(GraphErrorV::Malformed(m)),
        Ok(raw) => graph_of_raw(raw),
    }
}

impl GraphV {
    /// The node `id`.
    pub open spec fn node(self, id: Seq<char>) -> Option<NodeV> {
        node_in(self.nodes, id)
    }

    /// The edges that leave `id`, in declaration order.
    pub open spec fn outgoing(self, id: Seq<char>) -> Seq<EdgeV> {
        self.edges.filter(|e: EdgeV| e.source == id)
    }

    /// The edges that enter `id`, in declaration order.
    pub open spec fn incoming(self, id: Seq<char>) -> Seq<EdgeV> {
        self.edges.filter(|e: EdgeV| e.target == id)
    }

    /// Distinct ids, no dangling edge, a start node of the start kind and a
    /// global node of the global kind.
    pub open spec fn wf(self) -> bool {
        &&& distinct(self.nodes)
        &&& dangling(self.nodes, self.edges) is None
        &&& first_of(self.nodes, NodeKind::Start) == Some(self.start)
        &&& self.global == first_of(self.nodes, NodeKind::Global)
    }

    /// The prompt of the global node, as it was written.
    pub open spec fn global_prompt(self) -> Option<Seq<char>> {
        match self.global {
            Some(id) => match self.node(id) {
                Some(n) => n.data.str_at("prompt"@),
                None => None,
            },
            None => None,
        }
    }

    /// The display name of a node: the first of `name`, `label` and `title` that
    /// its data holds as a string, or else its id.
    pub open spec fn name(self, id: Seq<char>) -> Seq<char> {
        match self.node(id) {
            Some(n) => match n.data.str_at("name"@) {
                Some(s) => s,
                None => match n.data.str_at("label"@) {
                    Some(s) => s,
                    None => match n.data.str_at("title"@) {
                        Some(s) => s,
                        None => id,
                    },
                },
            },
            None => id,
        }
    }

    /// Whether a run that reaches `id` is over.
    pub open spec fn terminal(self, id: Seq<char>) -> bool {
        self.node(id) matches Some(n) && n.kind == NodeKind::End
    }
}

// ── Facts about the model ─────────────────────────────────────────────────

/// A place is in bounds and holds the id; there is one exactly where the id is
/// known.
pub proof fn place_is_known(nodes: Seq<NodeV>, id: Seq<char>)
    ensures
        place(nodes, id) matches Some(i) ==> 0 <= i < nodes.len() && nodes[i].id == id,
        place(nodes, id) is Some <==> known(nodes, id),
    decreases nodes.len(),
{
    if nodes.len() > 0 {
        let r = nodes.drop_last();
        if nodes.last().id != id {
            place_is_known(r, id);
            if known(r, id) {
                let i = choose|i: int| 0 <= i < r.len() && (#[trigger] r[i]).id == id;
                assert(nodes[i].id == id);
            }
            if known(nodes, id) {
                let i = choose|i: int| 0 <= i < nodes.len() && (#[trigger] nodes[i]).id == id;
                assert(r[i].id == id);
            }
        } else {
            assert(nodes[nodes.len() - 1].id == id);
        }
    }
}

proof fn put_keeps_distinct(nodes: Seq<NodeV>, n: NodeV)
    requires
        distinct(nodes),
    ensures
        distinct(put(nodes, n)),
{
    place_is_known(nodes, n.id);
    let p = put(nodes, n);
    match place(nodes, n.id) {
        Some(k) => {
            assert forall|i: int, j: int| 0 <= i < j < p.len() implies (#[trigger] p[i]).id != (
            #[trigger] p[j]).id by {
                assert(nodes[i].id != nodes[j].id);
                assert(p[i].id == nodes[i].id);
                assert(p[j].id == nodes[j].id);
            }
        },
        None => {
            assert forall|i: int, j: int| 0 <= i < j < p.len() implies (#[trigger] p[i]).id != (
            #[trigger] p[j]).id by {
                assert(p[i] == nodes[i]);
                if j < nodes.len() {
                    assert(p[j] == nodes[j]);
                }
            }
        },
    }
}

/// The nodes of a document have distinct ids once they are settled.
pub proof fn settled_is_distinct(raw: Seq<NodeV>)
    ensures
        distinct(settled(raw)),
    decreases raw.len(),
{
    if raw.len() > 0 {
        settled_is_distinct(raw.drop_last());
        put_keeps_distinct(settled(raw.drop_last()), raw.last());
    }
}

/// The first node of a kind is a node of that kind.
pub proof fn first_of_is_known(nodes: Seq<NodeV>, kind: NodeKind)
    ensures
        first_of(nodes, kind) matches Some(id) ==> exists|i: int|
            0 <= i < nodes.len() && (#[trigger] nodes[i]).id == id && nodes[i].kind == kind,
    decreases nodes.len(),
{
    if nodes.len() > 0 && nodes[0].kind != kind {
        let r = nodes.drop_first();
        first_of_is_known(r, kind);
        if let Some(id) = first_of(r, kind) {
            let i = choose|i: int|
                0 <= i < r.len() && (#[trigger] r[i]).id == id && r[i].kind == kind;
            assert(nodes[i + 1] == r[i]);
        }
    }
}

/// The node at a position is the one that its id finds, as ids are distinct.
pub proof fn node_of_place(nodes: Seq<NodeV>, i: int)
    requires
        distinct(nodes),
        0 <= i < nodes.len(),
    ensures
        place(nodes, nodes[i].id) == Some(i),
        node_in(nodes, nodes[i].id) == Some(nodes[i]),
{
    place_is_known(nodes, nodes[i].id);
    let k = place(nodes, nodes[i].id)->Some_0;
    if k < i {
        assert(nodes[k].id != nodes[i].id);
    } else if i < k {
        assert(nodes[i].id != nodes[k].id);
    }
}

/// Nothing dangles exactly where both ends of every edge are known.
pub proof fn none_dangling(nodes: Seq<NodeV>, edges: Seq<EdgeV>)
    ensures
        dangling(nodes, edges) is None <==> forall|i: int|
            0 <= i < edges.len() ==> known(nodes, (#[trigger] edges[i]).source) && known(
                nodes,
                edges[i].target,
            ),
    decreases edges.len(),
{
    if edges.len() > 0 {
        let r = edges.drop_first();
        none_dangling(nodes, r);
        if known(nodes, edges[0].source) && known(nodes, edges[0].target) {
            if dangling(nodes, r) is None {
                assert forall|i: int| 0 <= i < edges.len() implies known(
                    nodes,
                    (#[trigger] edges[i]).source,
                ) && known(nodes, edges[i].target) by {
                    if i > 0 {
                        assert(edges[i] == r[i - 1]);
                    }
                }
            } else {
                let i = choose|i: int|
                    0 <= i < r.len() && !(known(nodes, (#[trigger] r[i]).source) && known(
                        nodes,
                        r[i].target,
                    ));
                assert(edges[i + 1] == r[i]);
            }
        } else {
            assert(edges[0] == edges[0]);
        }
    }
}

/// The indices of the edges that leave `id`.
pub open spec fn out_indices(edges: Seq<EdgeV>, id: Seq<char>) -> Seq<usize>
    decreases edges.len(),
{
    if edges.len() == 0 {
        Seq::empty()
    } else {
        let r = out_indices(edges.drop_last(), id);
        if edges.last().source == id {
            r.push((edges.len() - 1) as usize)
        } else {
            r
        }
    }
}

/// The indices lead to the edges that leave `id`.
proof fn out_indices_filter(edges: Seq<EdgeV>, id: Seq<char>)
    requires
        edges.len() <= usize::MAX,
    ensures
        out_indices(edges, id).len() == edges.filter(|e: EdgeV| e.source == id).len(),
        forall|i: int|
            #![trigger out_indices(edges, id)[i]]
            0 <= i < out_indices(edges, id).len() ==> {
                &&& out_indices(edges, id)[i] < edges.len()
                &&& edges[out_indices(edges, id)[i] as int] == edges.filter(
                    |e: EdgeV| e.source == id,
                )[i]
            },
    decreases edges.len(),
{
    reveal(Seq::filter);
    if edges.len() > 0 {
        out_indices_filter(edges.drop_last(), id);
    }
}

// ── The executable graph ──────────────────────────────────────────────────

/// Parsed, validated workflow graph with adjacency precomputed.
#[derive(Debug, Clone)]
pub struct Graph {
    /// The nodes, with distinct ids.
    pub nodes: Vec<Node>,
    pub edges: Vec<Edge>,
    pub start_id: String,
    /// The global-directive node, if the workflow has one.
    global_id: Option<String>,
    /// For each node the indices of the edges that leave it.
    adjacency: Vec<Vec<usize>>,
}

impl View for Graph {
    type V = GraphV;

    closed spec fn view(&self) -> GraphV {
        GraphV {
            nodes: nodes_view(self.nodes@),
            edges: edges_view(self.edges@),
            start: self.start_id@,
            global: match self.global_id {
                Some(s) => Some(s@),
                None => None,
            },
        }
    }
}

/// The adjacency lists what leaves each node.
spec fn lists(adjacency: Seq<Vec<usize>>, nodes: Seq<NodeV>, edges: Seq<EdgeV>) -> bool {
    &&& adjacency.len() == nodes.len()
    &&& forall|k: int|
        0 <= k < nodes.len() ==> (#[trigger] adjacency[k])@ == out_indices(edges, nodes[k].id)
}

/// The views of a sequence of borrowed edges.
pub open spec fn edge_refs_view<'a>(s: Seq<&'a Edge>) -> Seq<EdgeV> {
    Seq::new(s.len(), |i: int| s[i]@)
}

/// A parsed graph agrees with its model.
pub open spec fn graph_result(r: Result<Graph, GraphError>, v: Result<GraphV, GraphErrorV>) -> bool {
    match (r, v) {
        (Ok(a), Ok(b)) => a@ == b && a.wf(),
        (Err(a), Err(b)) => a@ == b,
        _ => false,
    }
}

fn find_place(nodes: &Vec<Node>, id: &str) -> (r: Option<usize>)
    ensures
        match r {
            Some(k) => k < nodes@.len() && place(nodes_view(nodes@), id@) == Some(k as int),
            None => place(nodes_view(nodes@), id@) is None,
        },
{
    let mut k: usize = nodes.len();
    let ghost v = nodes_view(nodes@);
    assert(v.take(k as int) =~= v);
    while k > 0
        invariant
            k <= nodes@.len(),
            v == nodes_view(nodes@),
            place(v.take(k as int), id@) == place(v, id@),
        decreases k,
    {
        assert(v.take(k as int).drop_last() =~= v.take(k - 1));
        k -= 1;
        if same(nodes[k].id.as_str(), id) {
            return Some(k);
        }
    }
    None
}

/// Puts `n` in place of the node with its id, or at the end.
fn put_node(nodes: &mut Vec<Node>, n: Node)
    ensures
        nodes_view(final(nodes)@) == put(nodes_view(old(nodes)@), n@),
{
    let ghost before = nodes@;
    match find_place(nodes, n.id.as_str()) {
        Some(k) => {
            nodes.set(k, n);
            assert(nodes_view(nodes@) =~= nodes_view(before).update(k as int, n@));
        },
        None => {
            nodes.push(n);
            assert(nodes_view(nodes@) =~= nodes_view(before).push(n@));
        },
    }
}

/// The id of the first node of a kind.
fn first_id(nodes: &Vec<Node>, kind: NodeKind) -> (r: Option<String>)
    ensures
        match r {
            Some(s) => first_of(nodes_view(nodes@), kind) == Some(s@),
            None => first_of(nodes_view(nodes@), kind) is None,
        },
{
    let ghost v = nodes_view(nodes@);
    let mut i: usize = 0;
    assert(v.skip(0) =~= v);
    while i < nodes.len()
        invariant
            i <= nodes@.len(),
            v == nodes_view(nodes@),
            first_of(v.skip(i as int), kind) == first_of(v, kind),
        decreases nodes@.len() - i,
    {
        if nodes[i].kind == kind {
            return Some(nodes[i].id.clone());
        }
        assert(v.skip(i as int).drop_first() =~= v.skip(i + 1));
        i += 1;
    }
    None
}

impl Graph {
    /// The invariant of a parsed graph.
    pub closed spec fn wf(&self) -> bool {
        &&& self@.wf()
        &&& lists(self.adjacency@, nodes_view(self.nodes@), edges_view(self.edges@))
    }

    /// A well-formed graph has a well-formed view.
    pub proof fn wf_view(&self)
        requires
            self.wf(),
        ensures
            self@.wf(),
    {
    }

    /// Parse and validate a graph document.
    pub fn parse(spec: &Json) -> (r: Result<Graph, GraphError>)
        ensures
            graph_result(r, graph_of(spec@)),
    {
        let raw: RawGraph = match RawGraph::decode(spec) {
            Ok(raw) => raw,
            Err(m) => return Err(GraphError::Malformed(m)),
        };
        let ghost rv = raw@;
        let RawGraph { nodes: stated, edges } = raw;
        let mut nodes: Vec<Node> = Vec::new();
        assert(nodes_view(nodes@) =~= settled(rv.nodes.take(0)));
        for n in iter: stated
            invariant
                rv.nodes == nodes_view(iter.seq()),
                nodes_view(nodes@) == settled(rv.nodes.take(iter.index())),
        {
            proof {
                let k = iter.index();
                assert(rv.nodes.take(k + 1).drop_last() =~= rv.nodes.take(k));
            }
            put_node(&mut nodes, n);
        }
        assert(rv.nodes.take(rv.nodes.len() as int) =~= rv.nodes);
        let ghost ns = settled(rv.nodes);
        let start_id: String = match first_id(&nodes, NodeKind::Start) {
            Some(s) => s,
            None => return Err(GraphError::NoStart),
        };
        let global_id: Option<String> = first_id(&nodes, NodeKind::Global);
        let mut adjacency: Vec<Vec<usize>> = Vec::new();
        let mut k: usize = 0;
        while k < nodes.len()
            invariant
                k <= nodes@.len(),
                adjacency@.len() == k,
                forall|i: int| 0 <= i < k ==> (#[trigger] adjacency@[i])@ == Seq::<usize>::empty(),
            decreases nodes@.len() - k,
        {
            adjacency.push(Vec::new());
            k += 1;
        }
        proof {
            settled_is_distinct(rv.nodes);
            assert(rv.edges.take(0) =~= Seq::<EdgeV>::empty());
            assert(rv.edges.skip(0) =~= rv.edges);
        }
        let mut i: usize = 0;
        while i < edges.len()
            invariant
                i <= edges@.len(),
                rv.edges == edges_view(edges@),
                ns == nodes_view(nodes@),
                distinct(ns),
                lists(adjacency@, ns, rv.edges.take(i as int)),
                dangling(ns, rv.edges.skip(i as int)) == dangling(ns, rv.edges),
                raw_of(spec@) == Ok::<RawGraphV, Seq<char>>(rv),
                ns == settled(rv.nodes),
                first_of(ns, NodeKind::Start) is Some,
            decreases edges@.len() - i,
        {
            proof {
                place_is_known(ns, edges@[i as int].source@);
                place_is_known(ns, edges@[i as int].target@);
                assert(rv.edges.skip(i as int)[0] == edges@[i as int]@);
                assert(rv.edges.skip(i as int).drop_first() =~= rv.edges.skip(i + 1));
            }
            let k: usize = match find_place(&nodes, edges[i].source.as_str()) {
                Some(k) => k,
                None => return Err(GraphError::DanglingEdge(edges[i].source.clone())),
            };
            if find_place(&nodes, edges[i].target.as_str()).is_none() {
                return Err(GraphError::DanglingEdge(edges[i].target.clone()));
            }
            let ghost before = adjacency@;
            adjacency[k].push(i);
            proof {
                let e = rv.edges.take(i + 1);
                assert(e.drop_last() =~= rv.edges.take(i as int));
                assert forall|j: int| 0 <= j < ns.len() implies (#[trigger] adjacency@[j])@
                    == out_indices(e, ns[j].id) by {
                    assert(before[j]@ == out_indices(rv.edges.take(i as int), ns[j].id));
                    if j < k {
                        assert(ns[j].id != ns[k as int].id);
                    } else if j > k {
                        assert(ns[k as int].id != ns[j].id);
                    }
                }
            }
            i += 1;
        }
        assert(rv.edges.take(i as int) =~= rv.edges);
        Ok(Graph { nodes, edges, start_id, global_id, adjacency })
    }

    /// The id of the start node.
    pub fn start_node(&self) -> (r: &str)
        ensures
            r@ == self@.start,
    {
        self.start_id.as_str()
    }

    /// The node `id`.
    pub fn node(&self, id: &str) -> (r: Option<&Node>)
        ensures
            match r {
                Some(n) => self@.node(id@) == Some(n@),
                None => self@.node(id@) is None,
            },
    {
        match find_place(&self.nodes, id) {
            Some(k) => Some(&self.nodes[k]),
            None => None,
        }
    }

    /// The edges that leave a node, in declaration order.
    pub fn outgoing(&self, node_id: &str) -> (r: Vec<&Edge>)
        requires
            self.wf(),
        ensures
            edge_refs_view(r@) == self@.outgoing(node_id@),
    {
        let mut out: Vec<&Edge> = Vec::new();
        match find_place(&self.nodes, node_id) {
            Some(k) => {
                let ghost es = edges_view(self.edges@);
                proof {
                    assert(self.edges.len() == es.len());
                    place_is_known(self@.nodes, node_id@);
                    out_indices_filter(es, node_id@);
                }
                let list: &Vec<usize> = &self.adjacency[k];
                let mut i: usize = 0;
                while i < list.len()
                    invariant
                        i <= list@.len(),
                        es == edges_view(self.edges@),
                        list@ == out_indices(es, node_id@),
                        es.len() <= usize::MAX,
                        out@.len() == i,
                        forall|j: int|
                            0 <= j < i ==> (#[trigger] out@[j])@ == es[list@[j] as int],
                    decreases list@.len() - i,
                {
                    proof {
                        out_indices_filter(es, node_id@);
                        assert(out_indices(es, node_id@)[i as int] < es.len());
                    }
                    out.push(&self.edges[list[i]]);
                    i += 1;
                }
                assert(edge_refs_view(out@) =~= self@.outgoing(node_id@));
            },
            None => {
                proof {
                    none_dangling(self@.nodes, self@.edges);
                    place_is_known(self@.nodes, node_id@);
                    assert(self@.outgoing(node_id@).len() == 0) by {
                        filter_none(self@.edges, node_id@);
                    }
                    assert(edge_refs_view(out@) =~= self@.outgoing(node_id@));
                }
            },
        }
        out
    }

    /// The global node's prompt as it was written, if the workflow has a global
    /// node that carries one.
    pub fn global_prompt(&self) -> (r: Option<&str>)
        ensures
            opt_text(r) == self@.global_prompt(),
    {
        match &self.global_id {
            Some(id) => match self.node(id.as_str()) {
                Some(n) => n.data.str_at("prompt"),
                None => None,
            },
            None => None,
        }
    }

    /// The node's display name, or its id where it carries none.
    pub fn node_name(&self, id: &str) -> (r: String)
        ensures
            r@ == self@.name(id@),
    {
        if let Some(n) = self.node(id) {
            if let Some(s) = n.data.str_at("name") {
                return String::from_str(s);
            }
            if let Some(s) = n.data.str_at("label") {
                return String::from_str(s);
            }
            if let Some(s) = n.data.str_at("title") {
                return String::from_str(s);
            }
        }
        String::from_str(id)
    }

    /// Whether a run that reaches `id` is over.
    pub fn is_terminal(&self, id: &str) -> (r: bool)
        ensures
            r == self@.terminal(id@),
    {
        match self.node(id) {
            Some(n) => n.kind == NodeKind::End,
            None => false,
        }
    }
}

proof fn filter_none(edges: Seq<EdgeV>, id: Seq<char>)
    requires
        forall|i: int| 0 <= i < edges.len() ==> (#[trigger] edges[i]).source != id,
    ensures
        edges.filter(|e: EdgeV| e.source == id).len() == 0,
    decreases edges.len(),
{
    reveal(Seq::filter);
    if edges.len() > 0 {
        let r = edges.drop_last();
        assert forall|i: int| 0 <= i < r.len() implies (#[trigger] r[i]).source != id by {
            assert(r[i] == edges[i]);
        }
        filter_none(r, id);
        assert(edges[edges.len() - 1].source != id);
    }
}

// ── Edge cardinality ──────────────────────────────────────────────────────

/// The reason, if any, for which `n` edges of a direction are too few.
pub open spec fn too_few(n: nat, min: Option<usize>, direction: Seq<char>) -> Seq<Seq<char>> {
    match min {
        Some(m) => if n < m {
            seq!["must have at least "@ + decimal(m as nat) + " "@ + direction + " edge(s)"@]
        } else {
            seq![]
        },
        None => seq![],
    }
}

/// The reason, if any, for which `n` edges of a direction are too many.
pub open spec fn too_many(n: nat, max: Option<usize>, direction: Seq<char>) -> Seq<Seq<char>> {
    match max {
        Some(m) => if n > m {
            if m == 0 {
                seq!["cannot have "@ + direction + " edges"@]
            } else {
                seq!["must have at most "@ + decimal(m as nat) + " "@ + direction + " edge(s)"@]
            }
        } else {
            seq![]
        },
        None => seq![],
    }
}

/// The reasons for which a node of a kind cannot have `i` incoming and `o`
/// outgoing edges.
pub open spec fn reasons(kind: NodeKind, i: nat, o: nat) -> Seq<Seq<char>> {
    let b = bounds(kind);
    too_few(i, b.min_in, "incoming"@) + too_many(i, b.max_in, "incoming"@) + too_few(
        o,
        b.min_out,
        "outgoing"@,
    ) + too_many(o, b.max_out, "outgoing"@)
}

/// The finding that gives a reason against a node.
pub open spec fn finding(n: NodeV, reason: Seq<char>) -> ValidationErrorV {
    ValidationErrorV {
        kind: "node"@,
        id: Some(n.id),
        message: kind_label(n.kind) + " node \""@ + n.id + "\": "@ + reason,
    }
}

impl GraphV {
    /// The findings on the node at position `k`.
    pub open spec fn findings_at(self, k: int) -> Seq<ValidationErrorV> {
        let n = self.nodes[k];
        let rs = reasons(n.kind, self.incoming(n.id).len(), self.outgoing(n.id).len());
        Seq::new(rs.len(), |i: int| finding(n, rs[i]))
    }

    /// The findings on the first `k` nodes.
    pub open spec fn findings_up_to(self, k: nat) -> Seq<ValidationErrorV>
        decreases k,
    {
        if k == 0 {
            Seq::empty()
        } else {
            self.findings_up_to((k - 1) as nat) + self.findings_at(k - 1)
        }
    }

    /// All edge-cardinality findings, in the order of the nodes.
    pub open spec fn cardinality_errors(self) -> Seq<ValidationErrorV> {
        self.findings_up_to(self.nodes.len())
    }
}

/// A degree that the bounds admit.
pub open spec fn within(n: nat, min: Option<usize>, max: Option<usize>) -> bool {
    &&& min matches Some(m) ==> n >= m
    &&& max matches Some(m) ==> n <= m
}

/// There is no finding exactly where every node has as many incoming and
/// outgoing edges as its kind admits.
pub proof fn no_finding_iff_within_bounds(g: GraphV)
    ensures
        g.cardinality_errors().len() == 0 <==> forall|k: int|
            0 <= k < g.nodes.len() ==> {
                let n = #[trigger] g.nodes[k];
                let b = bounds(n.kind);
                &&& within(g.incoming(n.id).len(), b.min_in, b.max_in)
                &&& within(g.outgoing(n.id).len(), b.min_out, b.max_out)
            },
{
    no_finding_up_to(g, g.nodes.len());
}

proof fn no_finding_up_to(g: GraphV, to: nat)
    requires
        to <= g.nodes.len(),
    ensures
        g.findings_up_to(to).len() == 0 <==> forall|k: int|
            0 <= k < to ==> {
                let n = #[trigger] g.nodes[k];
                let b = bounds(n.kind);
                &&& within(g.incoming(n.id).len(), b.min_in, b.max_in)
                &&& within(g.outgoing(n.id).len(), b.min_out, b.max_out)
            },
    decreases to,
{
    if to > 0 {
        no_finding_up_to(g, (to - 1) as nat);
        let n = g.nodes[to - 1];
        let b = bounds(n.kind);
        assert(g.findings_at(to - 1).len() == 0 <==> within(
            g.incoming(n.id).len(),
            b.min_in,
            b.max_in,
        ) && within(g.outgoing(n.id).len(), b.min_out, b.max_out));
    }
}

fn push_too_few(out: &mut Vec<String>, n: usize, min: Option<usize>, direction: &str)
    ensures
        texts(final(out)@) == texts(old(out)@) + too_few(n as nat, min, direction@),
{
    let ghost before = out@;
    if let Some(m) = min {
        if n < m {
            let mut s: String = join3("must have at least ", decimal_text(m as u64).as_str(), " ");
            s.append(direction);
            s.append(" edge(s)");
            out.push(s);
            assert(texts(out@) =~= texts(before).push(s@));
        }
    }
    assert(texts(out@) =~= texts(before) + too_few(n as nat, min, direction@));
}

fn push_too_many(out: &mut Vec<String>, n: usize, max: Option<usize>, direction: &str)
    ensures
        texts(final(out)@) == texts(old(out)@) + too_many(n as nat, max, direction@),
{
    let ghost before = out@;
    if let Some(m) = max {
        if n > m {
            let s: String = if m == 0 {
                join3("cannot have ", direction, " edges")
            } else {
                let mut s: String = join3("must have at most ", decimal_text(m as u64).as_str(), " ");
                s.append(direction);
                s.append(" edge(s)");
                s
            };
            out.push(s);
            assert(texts(out@) =~= texts(before).push(s@));
        }
    }
    assert(texts(out@) =~= texts(before) + too_many(n as nat, max, direction@));
}

impl Graph {
    /// The number of edges that enter a node.
    fn in_degree(&self, id: &str) -> (n: usize)
        ensures
            n == self@.incoming(id@).len(),
    {
        let ghost es = self@.edges;
        let mut n: usize = 0;
        let mut i: usize = 0;
        assert(es.take(0) =~= Seq::<EdgeV>::empty());
        proof {
            reveal(Seq::filter);
        }
        while i < self.edges.len()
            invariant
                n <= i <= self.edges@.len(),
                es == edges_view(self.edges@),
                n == es.take(i as int).filter(|e: EdgeV| e.target == id@).len(),
            decreases self.edges@.len() - i,
        {
            proof {
                reveal(Seq::filter);
                assert(es.take(i + 1).drop_last() =~= es.take(i as int));
            }
            if same(self.edges[i].target.as_str(), id) {
                n += 1;
            }
            i += 1;
        }
        assert(es.take(i as int) =~= es);
        n
    }

    /// The edge-cardinality violations of every node, with the offending node
    /// named in each. Parsing stays lenient about them, so that a draft can be
    /// run.
    pub fn cardinality_errors(&self) -> (r: Vec<ValidationError>)
        requires
            self.wf(),
        ensures
            findings(r@) == self@.cardinality_errors(),
    {
        let mut errors: Vec<ValidationError> = Vec::new();
        let mut k: usize = 0;
        assert(findings(errors@) =~= self@.findings_up_to(0));
        while k < self.nodes.len()
            invariant
                self.wf(),
                k <= self.nodes@.len(),
                findings(errors@) == self@.findings_up_to(k as nat),
            decreases self.nodes@.len() - k,
        {
            let node: &Node = &self.nodes[k];
            let ghost n = self@.nodes[k as int];
            let i: usize = self.in_degree(node.id.as_str());
            let o: usize = self.outgoing(node.id.as_str()).len();
            let b: EdgeBounds = node.kind.edge_bounds();
            let mut msgs: Vec<String> = Vec::new();
            push_too_few(&mut msgs, i, b.min_in, "incoming");
            push_too_many(&mut msgs, i, b.max_in, "incoming");
            push_too_few(&mut msgs, o, b.min_out, "outgoing");
            push_too_many(&mut msgs, o, b.max_out, "outgoing");
            let ghost rs = reasons(n.kind, i as nat, o as nat);
            assert(texts(msgs@) =~= rs);
            let ghost before = errors@;
            let mut j: usize = 0;
            while j < msgs.len()
                invariant
                    j <= msgs@.len(),
                    n == node@,
                    texts(msgs@) == rs,
                    findings(errors@) == findings(before) + Seq::new(
                        j as nat,
                        |i: int| finding(n, rs[i]),
                    ),
                decreases msgs@.len() - j,
            {
                let mut message: String = join3(node.kind.label(), " node \"", node.id.as_str());
                message.append("\": ");
                message.append(msgs[j].as_str());
                let ghost was = errors@;
                errors.push(
                    ValidationError { kind: "node", id: Some(node.id.clone()), message },
                );
                proof {
                    assert(rs[j as int] == msgs@[j as int]@);
                    assert(findings(errors@) =~= findings(was).push(finding(n, rs[j as int])));
                    assert(Seq::new((j + 1) as nat, |i: int| finding(n, rs[i])) =~= Seq::new(
                        j as nat,
                        |i: int| finding(n, rs[i]),
                    ).push(finding(n, rs[j as int])));
                }
                j += 1;
            }
            assert(findings(errors@) =~= self@.findings_up_to((k + 1) as nat));
            k += 1;
        }
        errors
    }
}

// ── Laws ──────────────────────────────────────────────────────────────────

/// A graph is seen as its fields.
proof fn graph_is_seen_whole(g: Graph)
    ensures
        g@.nodes == nodes_view(g.nodes@),
        g@.edges == edges_view(g.edges@),
        g@.start == g.start_id@,
{
}

/// Whatever parses is fit to run: ids are distinct, both ends of every edge are
/// nodes of the graph, and the run starts on a node of the start kind.
pub proof fn parsed_graph_is_runnable(j: JsonV)
    ensures
        graph_of(j) matches Ok(g) ==> {
            &&& g.wf()
            &&& forall|i: int|
                0 <= i < g.edges.len() ==> known(g.nodes, (#[trigger] g.edges[i]).source) && known(
                    g.nodes,
                    g.edges[i].target,
                )
            &&& g.node(g.start) matches Some(n) && n.kind == NodeKind::Start
        },
{
    if let Ok(raw) = raw_of(j) {
        let nodes = settled(raw.nodes);
        settled_is_distinct(raw.nodes);
        none_dangling(nodes, raw.edges);
        first_of_is_known(nodes, NodeKind::Start);
        if let Some(start) = first_of(nodes, NodeKind::Start) {
            let i = choose|i: int|
                0 <= i < nodes.len() && (#[trigger] nodes[i]).id == start && nodes[i].kind
                    == NodeKind::Start;
            node_of_place(nodes, i);
        }
    }
}

/// Every edge that leaves a node leads to a node of the graph.
pub proof fn outgoing_leads_to_nodes(g: GraphV, id: Seq<char>, i: int)
    requires
        g.wf(),
        0 <= i < g.outgoing(id).len(),
    ensures
        g.outgoing(id)[i].source == id,
        known(g.nodes, g.outgoing(id)[i].target),
        g.node(g.outgoing(id)[i].target) is Some,
{
    none_dangling(g.nodes, g.edges);
    filter_is_part(g.edges, id, i);
    place_is_known(g.nodes, g.outgoing(id)[i].target);
}

proof fn filter_is_part(edges: Seq<EdgeV>, id: Seq<char>, i: int)
    requires
        0 <= i < edges.filter(|e: EdgeV| e.source == id).len(),
    ensures
        edges.filter(|e: EdgeV| e.source == id)[i].source == id,
        exists|k: int|
            0 <= k < edges.len() && #[trigger] edges[k] == edges.filter(
                |e: EdgeV| e.source == id,
            )[i],
    decreases edges.len(),
{
    reveal(Seq::filter);
    let f = edges.filter(|e: EdgeV| e.source == id);
    let r = edges.drop_last();
    let fr = r.filter(|e: EdgeV| e.source == id);
    if i < fr.len() {
        filter_is_part(r, id, i);
        let k = choose|k: int| 0 <= k < r.len() && #[trigger] r[k] == fr[i];
        assert(edges[k] == f[i]);
    } else {
        assert(edges[edges.len() - 1] == f[i]);
    }
}

} // verus!
