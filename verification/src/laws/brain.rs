//! Laws of the tools that a model is offered, and of what its calls do.

use crate::brain::{
    after_tool_call, collected, configured, end_call, tool_action, tools_of, BrainActionV,
};
use crate::engine::{engine_of, ActionV, EngineV};
use crate::json::{FieldsV, JsonV};
use crate::laws::engine::edge_is_called;
use crate::text::blank;
use vstd::prelude::*;

verus! {

/// The model is offered one tool for each edge that leaves the active node, under
/// the edge's name, and behind them the tool that hangs up.
pub proof fn each_edge_is_a_tool(e: EngineV, i: int)
    ensures
        tools_of(e.transitions()).len() == e.graph.outgoing(e.current).len() + 1,
        tools_of(e.transitions()).last().name == "endCall"@,
        0 <= i < e.graph.outgoing(e.current).len() ==> edge_is_called(
            e.graph.outgoing(e.current)[i],
            i,
            tools_of(e.transitions())[i].name,
        ),
{
    crate::laws::engine::each_edge_is_a_transition(e, 0, i);
}

/// A tool is described as its transition is, where that says something, and
/// otherwise by its name; it takes no arguments.
pub proof fn tool_describes_its_transition(e: EngineV, i: int, d: Seq<char>)
    requires
        0 <= i < e.transitions().len(),
    ensures
        ({
            let t = e.transitions()[i];
            let tool = tools_of(e.transitions())[i];
            &&& t.description == Some(d) && !blank(d) ==> tool.description == d
            &&& (t.description matches Some(x) ==> blank(x)) ==> tool.description == "Take the '"@
                + t.name + "' transition."@
            &&& tool.params.get("type"@) == Some(JsonV::Str("object"@))
            &&& tool.params.get("properties"@) == Some(JsonV::Object(Map::empty()))
            &&& tool.params matches JsonV::Object(m) && m.dom() == set!["type"@, "properties"@]
        }),
{
    reveal_strlit("type");
    reveal_strlit("properties");
    assert("type"@.len() != "properties"@.len());
    let tool = tools_of(e.transitions())[i];
    assert(tool.params->Object_0.dom() =~= set!["type"@, "properties"@]);
}

/// The tool that hangs up takes a label for the outcome, which is a string.
pub proof fn hanging_up_takes_a_label(p: JsonV, q: JsonV)
    requires
        end_call().params.get("properties"@) == Some(p),
        p.get("disposition"@) == Some(q),
    ensures
        end_call().name == "endCall"@,
        end_call().params.get("type"@) == Some(JsonV::Str("object"@)),
        q.get("type"@) == Some(JsonV::Str("string"@)),
        q.get("description"@) == Some(JsonV::Str("Optional short outcome label for the call."@)),
        p matches JsonV::Object(m) && m.dom() == set!["disposition"@],
        end_call().description
            == "Hang up ONLY when the caller clearly asks to end (e.g. 'goodbye', 'that's all'). Do NOT end the call otherwise — keep talking. Optional `disposition` label for the outcome (e.g. 'completed')."@,
{
    reveal_strlit("type");
    reveal_strlit("properties");
    reveal_strlit("disposition");
    reveal_strlit("description");
    assert("type"@.len() != "properties"@.len());
    assert("type"@.len() != "description"@.len());
    assert(p->Object_0.dom() =~= set!["disposition"@]);
}

/// The tool that hangs up has its properties, and among them the label.
pub proof fn hanging_up_has_a_label()
    ensures
        end_call().params.get("properties"@) matches Some(p) && p.get("disposition"@) is Some,
{
    reveal_strlit("type");
    reveal_strlit("properties");
    assert("type"@.len() != "properties"@.len());
}

/// Hanging up ends the session with the label that was given, and moves nothing.
pub proof fn hanging_up_ends_with_its_label(e: EngineV, args: JsonV, now: i64, label: Seq<char>)
    ensures
        after_tool_call(e, "endCall"@) == e,
        tool_action(e, "endCall"@, args, now) is End,
        args.get("disposition"@) == Some(JsonV::Str(label)) ==> tool_action(
            e,
            "endCall"@,
            args,
            now,
        ) == (BrainActionV::End { disposition: Some(label) }),
        (args.get("disposition"@) matches Some(v) ==> !(v is Str)) ==> tool_action(
            e,
            "endCall"@,
            args,
            now,
        ) == (BrainActionV::End { disposition: None }),
{
}

/// Any other call takes the first edge of its name: the model is armed for the node
/// that the edge leads to, and the session ends without a label where that is an end
/// node. A call of no edge changes nothing.
pub proof fn call_arms_the_model_for_its_edge(
    e: EngineV,
    name: Seq<char>,
    args: JsonV,
    now: i64,
    k: int,
)
    requires
        name != "endCall"@,
        0 <= k < e.graph.outgoing(e.current).len(),
        edge_is_called(e.graph.outgoing(e.current)[k], k, name),
        forall|j: int|
            0 <= j < k ==> !edge_is_called(#[trigger] e.graph.outgoing(e.current)[j], j, name),
    ensures
        ({
            let to = e.graph.outgoing(e.current)[k].target;
            let next = after_tool_call(e, name);
            &&& next.current == to
            &&& next == e.after_transition(name)
            &&& if e.graph.terminal(to) {
                tool_action(e, name, args, now) == (BrainActionV::End { disposition: None })
            } else {
                tool_action(e, name, args, now) == (BrainActionV::Transition {
                    system_prompt: next.system_prompt(now),
                    tools: tools_of(next.transitions()),
                    say: None,
                })
            }
        }),
{
    crate::laws::engine::call_takes_the_first_edge_of_its_name(e, name, k);
    assert(e.transition_action(name) is End || e.transition_action(name) is Transition);
}

/// A call of a name that no edge from the active node has changes nothing.
pub proof fn unknown_call_does_nothing(e: EngineV, name: Seq<char>, args: JsonV, now: i64)
    requires
        name != "endCall"@,
        forall|j: int|
            0 <= j < e.graph.outgoing(e.current).len() ==> !edge_is_called(
                #[trigger] e.graph.outgoing(e.current)[j],
                j,
                name,
            ),
    ensures
        after_tool_call(e, name) == e,
        tool_action(e, name, args, now) is Stay,
{
    crate::laws::engine::call_of_no_edge_stays(e, name);
    assert(e.transition_action(name) == ActionV::Stay);
}

/// An agent is configured by its graph, its options and its variables; what is left
/// out is empty, and variables that are no object are none.
pub proof fn agent_is_configured_by_its_fields(
    config: JsonV,
    graph: JsonV,
    options: JsonV,
    vars: FieldsV,
)
    requires
        config.get("graph_spec"@) == Some(graph) || config.get("graph_spec"@) is None && graph
            == JsonV::Object(Map::empty()),
        config.get("runtime_options"@) == Some(options) || config.get("runtime_options"@) is None
            && options == JsonV::Object(Map::empty()),
        config.get("seed_vars"@) == Some(JsonV::Object(vars)) || (config.get(
            "seed_vars"@,
        ) matches Some(v) ==> !(v is Object)) && vars == Map::<Seq<char>, JsonV>::empty(),
    ensures
        configured(config) == engine_of(graph, options, vars),
{
}

/// What a run has collected are its variables and the nodes that it has been on, in
/// order.
pub proof fn collected_are_variables_and_visits(e: EngineV, k: Seq<char>)
    ensures
        collected(e).get("nodes_visited"@) matches Some(JsonV::Array(a)) && a.len()
            == e.visited.len() && forall|i: int|
            0 <= i < a.len() ==> #[trigger] a[i] == JsonV::Str(e.visited[i]),
        k != "nodes_visited"@ && e.vars.contains_key(k) ==> collected(e).get(k) == Some(e.vars[k]),
        k != "nodes_visited"@ && !e.vars.contains_key(k) ==> collected(e).get(k) is None,
{
}

} // verus!
