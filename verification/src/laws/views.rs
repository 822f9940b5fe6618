//! Every value is seen as its own fields, one for one.

use crate::asyncai::{tts_frames, Decoded, DecodedV, TtsFrame, TtsFrameV};
use crate::brain::{tools_view, BrainAction, BrainActionV, ToolDecl};
use crate::config::{ConfigError, ConfigErrorV, GraphSource, GraphSourceV, ProviderSpec};
use crate::decode::RawGraph;
use crate::engine::{
    targets_view, transitions_view, variables_view, Action, ActionV, EngineError, EngineErrorV,
    ExtractionSpec, ExtractionVar, NodePrompt, TransferTarget, TransitionSpec,
};
use crate::graph::{
    edge_refs_view, edges_view, findings, nodes_view, Edge, GraphError, GraphErrorV, Node,
    ValidationError,
};
use crate::json::opt_string;
use crate::plivo::{carries, SerIn, SerInV, WsIn, WsInV, WsOut};
use crate::run::{CallPlan, CallPlanV};
use crate::server::Reply;
use crate::socket::{Received, ReceivedV};
use crate::webrtc::{OfferAction, OfferActionV, OfferResponse};
use vstd::prelude::*;

verus! {

/// Nodes, edges and findings.
pub proof fn graph_values_are_seen_whole(
    n: Node,
    e: Edge,
    f: ValidationError,
    r: RawGraph,
    x: GraphError,
)
    ensures
        n@.id == n.id@,
        n@.kind == n.kind,
        n@.data == n.data@,
        e@.id == e.id@,
        e@.source == e.source@,
        e@.target == e.target@,
        e@.label == opt_string(e.label),
        e@.data == e.data@,
        f@.kind == f.kind@,
        f@.id == opt_string(f.id),
        f@.message == f.message@,
        r@.nodes == nodes_view(r.nodes@),
        r@.edges == edges_view(r.edges@),
        match x {
            GraphError::NoStart => x@ == GraphErrorV::NoStart,
            GraphError::DanglingEdge(s) => x@ == GraphErrorV::DanglingEdge(s@),
            GraphError::Malformed(s) => x@ == GraphErrorV::Malformed(s@),
        },
{
}

/// Lists are seen element by element.
pub proof fn lists_are_seen_in_order(
    nodes: Seq<Node>,
    edges: Seq<Edge>,
    refs: Seq<&Edge>,
    found: Seq<ValidationError>,
    i: int,
)
    ensures
        nodes_view(nodes).len() == nodes.len(),
        0 <= i < nodes.len() ==> nodes_view(nodes)[i] == nodes[i]@,
        edges_view(edges).len() == edges.len(),
        0 <= i < edges.len() ==> edges_view(edges)[i] == edges[i]@,
        edge_refs_view(refs).len() == refs.len(),
        0 <= i < refs.len() ==> edge_refs_view(refs)[i] == refs[i]@,
        findings(found).len() == found.len(),
        0 <= i < found.len() ==> findings(found)[i] == found[i]@,
{
}

/// What a run offers and does.
pub proof fn run_values_are_seen_whole(
    t: TransitionSpec,
    x: TransferTarget,
    p: NodePrompt,
    v: ExtractionVar,
    s: ExtractionSpec,
    a: Action,
    e: EngineError,
)
    ensures
        t@.name == t.name@,
        t@.target == t.target@,
        t@.description == opt_string(t.description),
        x@.name == x.name@,
        x@.target_phone == x.target_phone@,
        x@.target_name == opt_string(x.target_name),
        x@.description == opt_string(x.description),
        x@.say == opt_string(x.say),
        x@.mode == x.mode,
        p@.node_id == p.node_id@,
        p@.system_prompt == p.system_prompt@,
        p@.transitions == transitions_view(p.transitions@),
        p@.transfer_targets == targets_view(p.transfer_targets@),
        v@.name == v.name@,
        v@.var_type == v.var_type,
        v@.hint == opt_string(v.hint),
        s@.prompt == opt_string(s.prompt),
        s@.variables == variables_view(s.variables@),
        match a {
            Action::Transition { to_node, say } => a@ == (ActionV::Transition {
                to_node: to_node@,
                say: opt_string(say),
            }),
            Action::Stay => a@ is Stay,
            Action::End => a@ is End,
            Action::Transfer { target_phone, target_name, say, mode } => a@ == (ActionV::Transfer {
                target_phone: target_phone@,
                target_name: opt_string(target_name),
                say: opt_string(say),
                mode,
            }),
        },
        match e {
            EngineError::Graph(g) => e@ == EngineErrorV::Graph(g@),
            EngineError::UnknownNode(id) => e@ == EngineErrorV::UnknownNode(id@),
        },
{
}

/// What a run offers is seen element by element.
pub proof fn offers_are_seen_in_order(
    ts: Seq<TransitionSpec>,
    xs: Seq<TransferTarget>,
    vs: Seq<ExtractionVar>,
    tools: Seq<ToolDecl>,
    frames: Seq<TtsFrame>,
    i: int,
)
    ensures
        transitions_view(ts).len() == ts.len(),
        0 <= i < ts.len() ==> transitions_view(ts)[i] == ts[i]@,
        targets_view(xs).len() == xs.len(),
        0 <= i < xs.len() ==> targets_view(xs)[i] == xs[i]@,
        variables_view(vs).len() == vs.len(),
        0 <= i < vs.len() ==> variables_view(vs)[i] == vs[i]@,
        tools_view(tools).len() == tools.len(),
        0 <= i < tools.len() ==> tools_view(tools)[i] == tools[i]@,
        tts_frames(frames).len() == frames.len(),
        0 <= i < frames.len() ==> tts_frames(frames)[i] == frames[i]@,
{
}

/// What the model is offered and told.
pub proof fn tools_are_seen_whole(t: ToolDecl, a: BrainAction)
    ensures
        t@.name == t.name@,
        t@.description == t.description@,
        t@.params == t.params@,
        match a {
            BrainAction::Transition { system_prompt, tools, say } => a@
                == (BrainActionV::Transition {
                system_prompt: system_prompt@,
                tools: tools_view(tools@),
                say: opt_string(say),
            }),
            BrainAction::End { disposition } => a@ == (BrainActionV::End {
                disposition: opt_string(disposition),
            }),
            BrainAction::Stay => a@ is Stay,
        },
{
}

/// What goes over the wire.
pub proof fn messages_are_seen_whole(
    w: WsIn,
    s: SerIn,
    d: Decoded,
    f: TtsFrame,
    r: Received,
    out: WsOut,
    v: crate::json::JsonV,
)
    ensures
        match w {
            WsIn::Text(t) => w@ == WsInV::Text(t@),
            WsIn::Binary(b) => w@ == WsInV::Binary(b@),
            WsIn::Close => w@ is Close,
        },
        match s {
            SerIn::StreamStart { call_id, stream_id } => s@ == (SerInV::StreamStart {
                call_id: call_id@,
                stream_id: opt_string(stream_id),
            }),
            SerIn::Audio { ulaw, sample_rate } => s@ == (SerInV::Audio {
                ulaw: ulaw@,
                sample_rate,
            }),
            SerIn::Stop => s@ is Stop,
            SerIn::Ignore => s@ is Ignore,
        },
        match d {
            Decoded::Audio(p) => d@ == DecodedV::Audio(p@),
            Decoded::Done => d@ is Done,
            Decoded::Ignore => d@ is Ignore,
        },
        match f {
            TtsFrame::Started { context_id } => f@ == (TtsFrameV::Started {
                context_id: context_id@,
            }),
            TtsFrame::Audio { pcm, sample_rate, context_id } => f@ == (TtsFrameV::Audio {
                pcm: pcm@,
                sample_rate,
                context_id: context_id@,
            }),
            TtsFrame::Stopped { context_id } => f@ == (TtsFrameV::Stopped {
                context_id: context_id@,
            }),
        },
        match r {
            Received::Deliver(m) => r@ == ReceivedV::Deliver(m@),
            Received::Again => r@ is Again,
            Received::Over => r@ is Over,
        },
        carries(out, v) <==> (out matches WsOut::Text(t) && t@ == crate::json::json_text(v)
            && crate::json::reads_as(t@, v)),
{
}

/// What the server is configured with and replies.
pub proof fn server_values_are_seen_whole(
    p: ProviderSpec,
    e: ConfigError,
    g: GraphSource,
    c: CallPlan,
    r: Reply,
    o: OfferResponse,
    a: OfferAction,
)
    ensures
        p@.provider == p.provider@,
        p@.model == p.model@,
        p@.api_key == p.api_key@,
        p@.options == p.options@,
        match e {
            ConfigError::Read { path, source } => e@ == (ConfigErrorV::Read {
                path: path@,
                source: source@,
            }),
            ConfigError::Parse { path, msg } => e@ == (ConfigErrorV::Parse {
                path: path@,
                msg: msg@,
            }),
            ConfigError::Graph(m) => e@ == ConfigErrorV::Graph(m@),
        },
        match g {
            GraphSource::Inline(j) => g@ == GraphSourceV::Inline(j@),
            GraphSource::File(path) => g@ == GraphSourceV::File(path@),
        },
        match c {
            CallPlan::Realtime { backend, model } => c@ == (CallPlanV::Realtime {
                backend: backend@,
                model: model@,
            }),
            CallPlan::Cascaded { stt, llm, tts } => c@ == (CallPlanV::Cascaded {
                stt: stt@,
                llm: llm@,
                tts: tts@,
            }),
        },
        r@.status == r.status,
        r@.content_type == r.content_type@,
        r@.body == r.body@,
        o@.sdp == o.sdp@,
        o@.pc_id == o.pc_id@,
        match a {
            OfferAction::Accept => a@ is Accept,
            OfferAction::Refuse(x) => a@ == OfferActionV::Refuse(x@),
            OfferAction::Run(x) => a@ == OfferActionV::Run(x@),
            OfferAction::Unexpected => a@ is Unexpected,
        },
{
}

/// A result agrees with what it should be exactly where both succeed with the same
/// value, or both fail with the same error.
pub proof fn results_agree(
    g: Result<crate::graph::Graph, GraphError>,
    gv: Result<crate::graph::GraphV, GraphErrorV>,
    e: Result<crate::engine::Engine, EngineError>,
    ev: Result<crate::engine::EngineV, EngineErrorV>,
    b: Result<crate::brain::DeclarativeBrain, EngineError>,
    s: Result<GraphSource, ConfigError>,
    sv: Result<GraphSourceV, ConfigErrorV>,
    a: Result<crate::brain::DeclarativeBrain, Reply>,
    av: Result<crate::engine::EngineV, crate::server::ReplyV>,
)
    ensures
        crate::graph::graph_result(g, gv) <==> {
            ||| g is Ok && gv is Ok && g->Ok_0@ == gv->Ok_0 && g->Ok_0.wf()
            ||| g is Err && gv is Err && g->Err_0@ == gv->Err_0
        },
        crate::engine::engine_result(e, ev) <==> {
            ||| e is Ok && ev is Ok && e->Ok_0@ == ev->Ok_0 && e->Ok_0.wf()
            ||| e is Err && ev is Err && e->Err_0@ == ev->Err_0
        },
        crate::brain::brain_result(b, ev) <==> {
            ||| b is Ok && ev is Ok && b->Ok_0@ == ev->Ok_0 && b->Ok_0.wf()
            ||| b is Err && ev is Err && b->Err_0@ == ev->Err_0
        },
        crate::config::source_result(s, sv) <==> {
            ||| s is Ok && sv is Ok && s->Ok_0@ == sv->Ok_0
            ||| s is Err && sv is Err && s->Err_0@ == sv->Err_0
        },
        crate::server::agent_result(a, av) <==> {
            ||| a is Ok && av is Ok && a->Ok_0@ == av->Ok_0 && a->Ok_0.wf()
            ||| a is Err && av is Err && a->Err_0@ == av->Err_0
        },
{
}

/// A part of a document that was read agrees with what it should be in the same way.
pub proof fn read_parts_agree(
    n: Result<Node, String>,
    nv: Result<crate::graph::NodeV, Seq<char>>,
    e: Result<Edge, String>,
    ev: Result<crate::graph::EdgeV, Seq<char>>,
    r: Result<RawGraph, String>,
    rv: Result<crate::decode::RawGraphV, Seq<char>>,
    k: Result<crate::graph::NodeKind, String>,
    kv: Result<crate::graph::NodeKind, Seq<char>>,
    t: Result<String, String>,
    tv: Result<Seq<char>, Seq<char>>,
    f: Result<crate::webrtc::OfferFlow, Reply>,
    fv: Result<crate::engine::EngineV, crate::server::ReplyV>,
)
    ensures
        crate::decode::node_result(n, nv) <==> {
            ||| n is Ok && nv is Ok && n->Ok_0@ == nv->Ok_0
            ||| n is Err && nv is Err && n->Err_0@ == nv->Err_0
        },
        crate::decode::edge_result(e, ev) <==> {
            ||| e is Ok && ev is Ok && e->Ok_0@ == ev->Ok_0
            ||| e is Err && ev is Err && e->Err_0@ == ev->Err_0
        },
        crate::decode::raw_result(r, rv) <==> {
            ||| r is Ok && rv is Ok && r->Ok_0@ == rv->Ok_0
            ||| r is Err && rv is Err && r->Err_0@ == rv->Err_0
        },
        crate::decode::kind_result(k, kv) <==> {
            ||| k is Ok && kv is Ok && k->Ok_0 == kv->Ok_0
            ||| k is Err && kv is Err && k->Err_0@ == kv->Err_0
        },
        crate::decode::text_result(t, tv) <==> {
            ||| t is Ok && tv is Ok && t->Ok_0@ == tv->Ok_0
            ||| t is Err && tv is Err && t->Err_0@ == tv->Err_0
        },
        crate::webrtc::flow_result(f, fv) <==> {
            ||| f is Ok && fv is Ok && f->Ok_0.agent() == fv->Ok_0 && f->Ok_0.wf()
                && f->Ok_0.stage() == crate::webrtc::OfferStage::Binding && f->Ok_0.run() is None
            ||| f is Err && fv is Err && f->Err_0@ == fv->Err_0
        },
{
}

} // verus!
