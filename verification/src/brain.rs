//! The agent that drives one run's [`Engine`].
//!
//! Each transition of the active node is offered to the model as a tool without
//! arguments, and `endCall` is offered on every node so that the agent can
//! always hang up.

use crate::clock::{calendar, unix_now};
use crate::engine::{
    engine_of, first_named_is_one, not_blank, slug_has_no_capital, transitions_view, Action,
    ActionV, Engine, EngineError, EngineErrorV, EngineV, TransitionSpec, TransitionSpecV,
};
use crate::json::{opt_string, tree, trees, Json, JsonMap, JsonV};
use crate::text::{is_blank, join3, same, texts};
use vstd::prelude::*;
use vstd::string::StringExecFns;

verus! {

/// The tool that the model calls to end the call.
pub const END_CALL_TOOL: &'static str = "endCall";

/// A tool that the model may call.
#[derive(Debug, Clone)]
pub struct ToolDecl {
    pub name: String,
    pub description: String,
    /// The JSON schema of the arguments.
    pub params: Json,
}

/// The view of a [`ToolDecl`].
#[verifier::ext_equal]
pub struct ToolDeclV {
    pub name: Seq<char>,
    pub description: Seq<char>,
    pub params: JsonV,
}

impl View for ToolDecl {
    type V = ToolDeclV;

    open spec fn view(&self) -> ToolDeclV {
        ToolDeclV { name: self.name@, description: self.description@, params: self.params@ }
    }
}

/// The views of a sequence of tools.
pub open spec fn tools_view(s: Seq<ToolDecl>) -> Seq<ToolDeclV> {
    Seq::new(s.len(), |i: int| s[i]@)
}

/// What the pipeline should do after a tool call.
#[derive(Debug, Clone)]
pub enum BrainAction {
    /// Re-arm the model for the new node.
    Transition { system_prompt: String, tools: Vec<ToolDecl>, say: Option<String> },
    /// End the session, with a label for the outcome.
    End { disposition: Option<String> },
    /// Go on as before.
    Stay,
}

/// The view of a [`BrainAction`].
#[verifier::ext_equal]
pub enum BrainActionV {
    Transition { system_prompt: Seq<char>, tools: Seq<ToolDeclV>, say: Option<Seq<char>> },
    End { disposition: Option<Seq<char>> },
    Stay,
}

impl View for BrainAction {
    type V = BrainActionV;

    open spec fn view(&self) -> BrainActionV {
        match self {
            BrainAction::Transition { system_prompt, tools, say } => BrainActionV::Transition {
                system_prompt: system_prompt@,
                tools: tools_view(tools@),
                say: opt_string(*say),
            },
            BrainAction::End { disposition } => BrainActionV::End {
                disposition: opt_string(*disposition),
            },
            BrainAction::Stay => BrainActionV::Stay,
        }
    }
}

// ── Tools ─────────────────────────────────────────────────────────────────

/// An object with two fields.
pub open spec fn pair(k1: Seq<char>, v1: JsonV, k2: Seq<char>, v2: JsonV) -> JsonV {
    JsonV::Object(Map::<Seq<char>, JsonV>::empty().insert(k1, v1).insert(k2, v2))
}

fn make_pair(k1: &str, v1: Json, k2: &str, v2: Json) -> (r: Json)
    ensures
        r@ == pair(k1@, v1@, k2@, v2@),
{
    broadcast use crate::json::group_json;

    let mut m: JsonMap = JsonMap::new();
    m.insert(String::from_str(k1), v1);
    m.insert(String::from_str(k2), v2);
    Json::Object(m)
}

/// The schema of a tool without arguments.
pub open spec fn no_params() -> JsonV {
    pair(
        "type"@,
        JsonV::Str("object"@),
        "properties"@,
        JsonV::Object(Map::<Seq<char>, JsonV>::empty()),
    )
}

fn make_no_params() -> (r: Json)
    ensures
        r@ == no_params(),
{
    broadcast use crate::json::group_json;

    make_pair(
        "type",
        Json::Str(String::from_str("object")),
        "properties",
        Json::Object(JsonMap::new()),
    )
}

/// The schema of `endCall`: an optional `disposition`.
pub open spec fn end_call_params() -> JsonV {
    pair(
        "type"@,
        JsonV::Str("object"@),
        "properties"@,
        JsonV::Object(
            Map::<Seq<char>, JsonV>::empty().insert(
                "disposition"@,
                pair(
                    "type"@,
                    JsonV::Str("string"@),
                    "description"@,
                    JsonV::Str("Optional short outcome label for the call."@),
                ),
            ),
        ),
    )
}

/// The `endCall` tool.
pub open spec fn end_call() -> ToolDeclV {
    ToolDeclV {
        name: END_CALL_TOOL@,
        description:
            "Hang up ONLY when the caller clearly asks to end (e.g. 'goodbye', 'that's all'). Do NOT end the call otherwise — keep talking. Optional `disposition` label for the outcome (e.g. 'completed')."@,
        params: end_call_params(),
    }
}

/// The `endCall` tool: the model may label the outcome.
pub fn end_call_tool() -> (r: ToolDecl)
    ensures
        r@ == end_call(),
{
    broadcast use crate::json::group_json;

    let disposition: Json = make_pair(
        "type",
        Json::Str(String::from_str("string")),
        "description",
        Json::Str(String::from_str("Optional short outcome label for the call.")),
    );
    let mut properties: JsonMap = JsonMap::new();
    properties.insert(String::from_str("disposition"), disposition);
    ToolDecl {
        name: String::from_str(END_CALL_TOOL),
        description: String::from_str(
            "Hang up ONLY when the caller clearly asks to end (e.g. 'goodbye', 'that's all'). Do NOT end the call otherwise — keep talking. Optional `disposition` label for the outcome (e.g. 'completed').",
        ),
        params: make_pair(
            "type",
            Json::Str(String::from_str("object")),
            "properties",
            Json::Object(properties),
        ),
    }
}

/// The tool of a transition.
pub open spec fn transition_tool(t: TransitionSpecV) -> ToolDeclV {
    ToolDeclV {
        name: t.name,
        description: match not_blank(t.description) {
            Some(d) => d,
            None => "Take the '"@ + t.name + "' transition."@,
        },
        params: no_params(),
    }
}

/// The tools of a node: one per transition, and `endCall`.
pub open spec fn tools_of(ts: Seq<TransitionSpecV>) -> Seq<ToolDeclV> {
    Seq::new(ts.len(), |i: int| transition_tool(ts[i])).push(end_call())
}

fn describe(t: &TransitionSpec) -> (r: String)
    ensures
        r@ == transition_tool(t@).description,
{
    if let Some(d) = &t.description {
        if !is_blank(d.as_str()) {
            return d.clone();
        }
    }
    join3("Take the '", t.name.as_str(), "' transition.")
}

// ── The agent ─────────────────────────────────────────────────────────────

/// The graph, options and seed variables that an agent's configuration names.
pub open spec fn configured(brain_config: JsonV) -> Result<EngineV, EngineErrorV> {
    let empty = JsonV::Object(Map::<Seq<char>, JsonV>::empty());
    engine_of(
        match brain_config.get("graph_spec"@) {
            Some(v) => v,
            None => empty,
        },
        match brain_config.get("runtime_options"@) {
            Some(v) => v,
            None => empty,
        },
        match brain_config.get("seed_vars"@) {
            Some(JsonV::Object(m)) => m,
            _ => Map::empty(),
        },
    )
}

/// What the pipeline should do for a tool call.
pub open spec fn tool_action(e: EngineV, name: Seq<char>, args: JsonV, now: i64) -> BrainActionV {
    if name == END_CALL_TOOL@ {
        BrainActionV::End { disposition: args.str_at("disposition"@) }
    } else {
        let next = e.after_transition(name);
        match e.transition_action(name) {
            ActionV::Transition { say, .. } => BrainActionV::Transition {
                system_prompt: next.system_prompt(now),
                tools: tools_of(next.transitions()),
                say,
            },
            ActionV::End => BrainActionV::End { disposition: None },
            ActionV::Transfer { .. } => BrainActionV::End { disposition: Some("transferred"@) },
            ActionV::Stay => BrainActionV::Stay,
        }
    }
}

/// The run after a tool call.
pub open spec fn after_tool_call(e: EngineV, name: Seq<char>) -> EngineV {
    if name == END_CALL_TOOL@ {
        e
    } else {
        e.after_transition(name)
    }
}

/// The variables that a run collected, with the names of the nodes visited.
pub open spec fn collected(e: EngineV) -> JsonV {
    JsonV::Object(
        e.vars.insert(
            "nodes_visited"@,
            JsonV::Array(Seq::new(e.visited.len(), |i: int| JsonV::Str(e.visited[i]))),
        ),
    )
}

/// An agent that drives one run.
pub struct DeclarativeBrain {
    engine: Engine,
}

impl View for DeclarativeBrain {
    type V = EngineV;

    closed spec fn view(&self) -> EngineV {
        self.engine@
    }
}

/// A new agent agrees with the run that it drives.
pub open spec fn brain_result(
    r: Result<DeclarativeBrain, EngineError>,
    v: Result<EngineV, EngineErrorV>,
) -> bool {
    match (r, v) {
        (Ok(a), Ok(b)) => a@ == b && a.wf(),
        (Err(a), Err(b)) => a@ == b,
        _ => false,
    }
}

impl DeclarativeBrain {
    /// The invariant of the run.
    pub closed spec fn wf(&self) -> bool {
        self.engine.wf()
    }

    /// A well-formed agent drives a well-formed run.
    pub proof fn wf_view(&self)
        requires
            self.wf(),
        ensures
            self@.wf(),
    {
        self.engine.wf_view();
    }

    /// Builds an agent from its configuration: `graph_spec`, and by default empty
    /// `runtime_options` and `seed_vars`.
    pub fn from_config(brain_config: &Json) -> (r: Result<DeclarativeBrain, EngineError>)
        ensures
            brain_result(r, configured(brain_config@)),
    {
        broadcast use crate::json::group_json;

        let empty: Json = Json::Object(JsonMap::new());
        let graph_spec: &Json = match brain_config.get("graph_spec") {
            Some(v) => v,
            None => &empty,
        };
        let runtime_options: Json = match brain_config.get("runtime_options") {
            Some(v) => v.clone(),
            None => Json::Object(JsonMap::new()),
        };
        let seed_vars: JsonMap = match brain_config.get("seed_vars") {
            Some(Json::Object(m)) => m.clone(),
            _ => JsonMap::new(),
        };
        DeclarativeBrain::new(graph_spec, runtime_options, seed_vars)
    }

    /// Builds an agent from a graph document, runtime options and seed variables.
    pub fn new(graph_spec: &Json, runtime_options: Json, seed_vars: JsonMap) -> (r: Result<
        DeclarativeBrain,
        EngineError,
    >)
        ensures
            brain_result(r, engine_of(graph_spec@, runtime_options@, seed_vars@)),
    {
        match Engine::new(graph_spec, runtime_options, seed_vars) {
            Ok(engine) => Ok(DeclarativeBrain { engine }),
            Err(e) => Err(e),
        }
    }

    /// The tools of the active node.
    fn current_tools(&self) -> (r: Vec<ToolDecl>)
        requires
            self.wf(),
        ensures
            tools_view(r@) == tools_of(self@.transitions()),
    {
        broadcast use crate::json::group_json;

        let ts: Vec<TransitionSpec> = self.engine.transitions();
        let ghost tv = transitions_view(ts@);
        let ghost all = tools_of(tv);
        let mut tools: Vec<ToolDecl> = Vec::new();
        let mut i: usize = 0;
        assert(tools_view(tools@) =~= all.take(0));
        while i < ts.len()
            invariant
                i <= ts@.len(),
                tv == transitions_view(ts@),
                all == tools_of(tv),
                tools_view(tools@) == all.take(i as int),
            decreases ts@.len() - i,
        {
            let ghost before = tools@;
            tools.push(
                ToolDecl {
                    name: ts[i].name.clone(),
                    description: describe(&ts[i]),
                    params: make_no_params(),
                },
            );
            proof {
                assert(tools_view(tools@) =~= tools_view(before).push(transition_tool(tv[i as int])));
                assert(all.take(i + 1) =~= all.take(i as int).push(transition_tool(tv[i as int])));
            }
            i += 1;
        }
        let ghost before = tools@;
        tools.push(end_call_tool());
        assert(tools_view(tools@) =~= tools_view(before).push(end_call()));
        assert(tools_view(tools@) =~= all);
        tools
    }

    /// The system prompt of the active node at an explicit instant.
    pub fn system_prompt_at(&self, now: i64) -> (r: String)
        requires
            self.wf(),
            calendar(now),
        ensures
            r@ == self@.system_prompt(now),
    {
        self.engine.current_prompt_at(now).system_prompt
    }

    /// The system prompt of the active node now.
    pub fn system_prompt(&self) -> (r: String)
        requires
            self.wf(),
        ensures
            exists|now: i64| calendar(now) && r@ == #[trigger] self@.system_prompt(now),
    {
        let now: i64 = unix_now();
        self.system_prompt_at(now)
    }

    /// The tools that the model may call on the active node.
    pub fn tools(&self) -> (r: Vec<ToolDecl>)
        requires
            self.wf(),
        ensures
            tools_view(r@) == tools_of(self@.transitions()),
    {
        self.current_tools()
    }

    /// The id of the active node.
    pub fn current_node_id(&self) -> (r: String)
        ensures
            r@ == self@.current,
    {
        String::from_str(self.engine.current_node())
    }

    /// Applies a tool call at an explicit instant.
    pub fn on_tool_call_at(&mut self, name: &str, args: &Json, now: i64) -> (r: BrainAction)
        requires
            old(self).wf(),
            calendar(now),
        ensures
            final(self).wf(),
            final(self)@ == after_tool_call(old(self)@, name@),
            r@ == tool_action(old(self)@, name@, args@, now),
    {
        if same(name, END_CALL_TOOL) {
            let disposition: Option<String> = match args.str_at("disposition") {
                Some(s) => Some(String::from_str(s)),
                None => None,
            };
            return BrainAction::End { disposition };
        }
        match self.engine.on_transition(name) {
            Action::Transition { say, .. } => {
                let system_prompt: String = self.system_prompt_at(now);
                let tools: Vec<ToolDecl> = self.current_tools();
                BrainAction::Transition { system_prompt, tools, say }
            },
            Action::End => BrainAction::End { disposition: None },
            // No outcome here can dial out, so a transfer ends the session under
            // a label of its own.
            Action::Transfer { .. } => BrainAction::End {
                disposition: Some(String::from_str("transferred")),
            },
            Action::Stay => BrainAction::Stay,
        }
    }

    /// Applies a tool call: `endCall` ends the session, and any other name is a
    /// transition of the active node.
    pub fn on_tool_call(&mut self, name: &str, args: &Json) -> (r: BrainAction)
        requires
            old(self).wf(),
        ensures
            final(self).wf(),
            final(self)@ == after_tool_call(old(self)@, name@),
            exists|now: i64|
                calendar(now) && r@ == #[trigger] tool_action(old(self)@, name@, args@, now),
    {
        let now: i64 = unix_now();
        self.on_tool_call_at(name, args, now)
    }

    /// Whether the run is over.
    pub fn is_finished(&self) -> (r: bool)
        ensures
            r == self@.finished(),
    {
        self.engine.is_finished()
    }

    /// The variables that the run collected, with the names of the nodes visited.
    pub fn collected_vars(&self) -> (r: Json)
        ensures
            r@ == collected(self@),
    {
        broadcast use crate::json::group_json;

        let snapshot: Json = self.engine.snapshot();
        proof {
            crate::engine::snapshot_fields(self@);
        }
        let mut map: JsonMap = match snapshot.get("vars") {
            Some(Json::Object(m)) => m.clone(),
            _ => JsonMap::new(),
        };
        map.insert(String::from_str("nodes_visited"), strings_json(self.engine.visited_nodes()));
        let r: Json = Json::Object(map);
        assert(r@ =~= collected(self@));
        r
    }
}

/// An array of strings.
fn strings_json(names: &[String]) -> (r: Json)
    ensures
        r@ == JsonV::Array(Seq::new(names@.len(), |i: int| JsonV::Str(texts(names@)[i]))),
{
    let mut out: Vec<Json> = Vec::new();
    let mut i: usize = 0;
    while i < names.len()
        invariant
            i <= names@.len(),
            out@.len() == i,
            forall|k: int| 0 <= k < i ==> tree(#[trigger] out@[k]) == JsonV::Str(names@[k]@),
        decreases names@.len() - i,
    {
        out.push(Json::Str(names[i].clone()));
        proof {
            crate::json::tree_cases(out@[i as int]);
        }
        i += 1;
    }
    let r: Json = Json::Array(out);
    proof {
        crate::json::tree_cases(r);
        crate::json::trees_len(out@);
        assert forall|k: int| 0 <= k < names@.len() implies #[trigger] trees(out@)[k]
            == JsonV::Str(texts(names@)[k]) by {
            crate::json::trees_index(out@, k);
        }
        assert(trees(out@) =~= Seq::new(names@.len(), |i: int| JsonV::Str(texts(names@)[i])));
    }
    r
}

// ── Laws ──────────────────────────────────────────────────────────────────

/// `endCall` is offered on every node, after one tool for each transition.
pub proof fn end_call_is_always_offered(e: EngineV)
    ensures
        tools_of(e.transitions()).len() == e.transitions().len() + 1,
        tools_of(e.transitions()).last() == end_call(),
        forall|i: int|
            0 <= i < e.transitions().len() ==> (#[trigger] tools_of(e.transitions())[i]).name
                == e.transitions()[i].name,
{
}

/// No transition is called `endCall`, so the tool takes no edge away from the
/// model.
pub proof fn end_call_hides_no_transition(e: EngineV)
    ensures
        forall|i: int|
            0 <= i < e.transitions().len() ==> (#[trigger] e.transitions()[i]).name
                != END_CALL_TOOL@,
        crate::engine::first_named(e.transitions(), END_CALL_TOOL@) is None,
{
    reveal_strlit("endCall");
    reveal_strlit("transition_");
    let edges = e.graph.outgoing(e.current);
    let ts = e.transitions();
    assert forall|i: int| 0 <= i < ts.len() implies (#[trigger] ts[i]).name != END_CALL_TOOL@ by {
        match edges[i].label {
            Some(label) => {
                assert(ts[i].name == crate::engine::slug(label));
                assert(END_CALL_TOOL@.len() == 7);
                if label.len() == 7 {
                    slug_has_no_capital(label, 3);
                    assert(END_CALL_TOOL@[3] == 'C');
                }
            },
            None => {
                assert(ts[i].name == "transition_"@ + crate::text::decimal(i as nat));
                assert(ts[i].name[0] == 't');
                assert(END_CALL_TOOL@[0] == 'e');
            },
        }
    }
    first_named_is_one(ts, END_CALL_TOOL@);
}

/// `endCall` ends the session without a move, and a name that is neither
/// `endCall` nor a transition of the node changes nothing.
pub proof fn only_transitions_move(e: EngineV, name: Seq<char>, args: JsonV, now: i64)
    ensures
        name == END_CALL_TOOL@ ==> {
            &&& after_tool_call(e, name) == e
            &&& tool_action(e, name, args, now) is End
        },
        name != END_CALL_TOOL@ && crate::engine::first_named(e.transitions(), name) is None ==> {
            &&& after_tool_call(e, name) == e
            &&& tool_action(e, name, args, now) is Stay
        },
{
}

/// A transition ends the session exactly where it leaves the run finished, and
/// re-arms the model for the new node otherwise.
pub proof fn transition_ends_or_rearms(e: EngineV, name: Seq<char>, args: JsonV, now: i64)
    requires
        name != END_CALL_TOOL@,
        crate::engine::first_named(e.transitions(), name) is Some,
    ensures
        tool_action(e, name, args, now) is End <==> after_tool_call(e, name).finished(),
        tool_action(e, name, args, now) matches BrainActionV::Transition {
            system_prompt,
            tools,
            say,
        } ==> {
            let next = after_tool_call(e, name);
            &&& !next.finished()
            &&& system_prompt == next.system_prompt(now)
            &&& tools == tools_of(next.transitions())
        },
{
}

} // verus!
