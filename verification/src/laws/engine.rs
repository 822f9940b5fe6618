//! Laws of a run: how it opens, moves, hands over and records.

use crate::decode::item;
use crate::engine::{
    alphanumeric, edge_description, either, engine_of, entry_node, first_named, first_target,
    joined, slug, strings_of, target_names, targets_of, variable_of, variables_of, ActionV, EngineV,
    ExtractionVarV, RunStep, TransferMode, TransferTargetV, TransitionSpecV, VarType,
};
use crate::graph::{graph_of, EdgeV, GraphV, NodeKind};
use crate::interpolate::rendered;
use crate::json::{FieldsV, JsonV};
use crate::text::{ascii_lower, blank, decimal, is_ascii_alnum, trimmed};
use vstd::prelude::*;

verus! {

// ── Names ─────────────────────────────────────────────────────────────────

/// A tool name is its label letter by letter: letters and digits stay, ASCII capitals
/// in lower case, and every other character becomes an underscore.
pub proof fn tool_name_spells_its_label(s: Seq<char>, i: int)
    requires
        0 <= i < s.len(),
    ensures
        slug(s).len() == s.len(),
        (s[i] as u32) < 128 ==> slug(s)[i] == if is_ascii_alnum(s[i]) {
            ascii_lower(s[i])
        } else {
            '_'
        },
        (s[i] as u32) >= 128 ==> slug(s)[i] == if alphanumeric(s[i]) {
            s[i]
        } else {
            '_'
        },
{
}

/// Where the first of two keys is set, its value counts, whatever it is; otherwise
/// that of the second.
pub proof fn first_key_counts(data: JsonV, first: Seq<char>, second: Seq<char>)
    ensures
        data.get(first) is Some ==> either(data, first, second) == data.get(first),
        data.get(first) is None ==> either(data, first, second) == data.get(second),
{
}

// ── Opening a run ─────────────────────────────────────────────────────────

/// A run opens on the start node where that has something to say, or nowhere to
/// go; otherwise on the target of the first edge that leaves it.
pub proof fn run_opens_where_something_is_said(g: GraphV, p: Seq<char>)
    requires
        g.wf(),
    ensures
        g.node(g.start) is Some,
        g.node(g.start)->Some_0.data.get("prompt"@) == Some(JsonV::Str(p)) && !blank(p)
            ==> entry_node(g) == g.start,
        g.node(g.start)->Some_0.data.get("prompt"@) == Some(JsonV::Str(p)) && blank(p)
            && g.outgoing(g.start).len() > 0 ==> entry_node(g) == g.outgoing(g.start)[0].target,
        (g.node(g.start)->Some_0.data.get("prompt"@) matches Some(v) ==> !(v is Str)) && g.outgoing(
            g.start,
        ).len() > 0 ==> entry_node(g) == g.outgoing(g.start)[0].target,
        g.outgoing(g.start).len() == 0 ==> entry_node(g) == g.start,
{
    crate::graph::first_of_is_known(g.nodes, NodeKind::Start);
    crate::laws::graph::node_is_found_by_its_id(g, g.start);
}

/// A new run has the graph of its document, the variables and options it was given,
/// and has been on the node it opens on, and nowhere else.
pub proof fn run_begins_with_what_it_was_given(doc: JsonV, options: JsonV, seed: FieldsV)
    ensures
        engine_of(doc, options, seed) is Ok <==> graph_of(doc) is Ok,
        engine_of(doc, options, seed) matches Err(e) ==> e == crate::engine::EngineErrorV::Graph(
            graph_of(doc)->Err_0,
        ),
        engine_of(doc, options, seed) matches Ok(e) ==> {
            &&& e.graph == graph_of(doc)->Ok_0
            &&& e.current == entry_node(e.graph)
            &&& e.vars == seed
            &&& e.runtime_options == options
            &&& e.visited.len() == 1
            &&& e.visited[0] == e.graph.name(e.current)
        },
{
}

// ── Transitions ───────────────────────────────────────────────────────────

/// Whether the `i`-th edge that leaves a node is called by this name: by its label,
/// or without one by its number.
pub open spec fn edge_is_called(edge: EdgeV, i: int, name: Seq<char>) -> bool {
    match edge.label {
        Some(l) => name == slug(l),
        None => name == "transition_"@ + decimal(i as nat),
    }
}

/// There is one transition for each edge that leaves the active node, in order: it
/// leads to that edge's target, under that edge's name.
pub proof fn each_edge_is_a_transition(e: EngineV, now: i64, i: int)
    ensures
        e.transitions().len() == e.graph.outgoing(e.current).len(),
        e.prompt(now).transitions == e.transitions(),
        0 <= i < e.graph.outgoing(e.current).len() ==> {
            let edge = e.graph.outgoing(e.current)[i];
            let t = e.transitions()[i];
            &&& t.target == edge.target
            &&& edge_is_called(edge, i, t.name)
        },
{
}

/// A transition is described by the edge's criteria where they say something, under
/// either of their keys, and otherwise by its label.
pub proof fn transition_is_described_by_its_edge(e: EngineV, i: int, c: Seq<char>)
    requires
        0 <= i < e.graph.outgoing(e.current).len(),
    ensures
        ({
            let edge = e.graph.outgoing(e.current)[i];
            let t = e.transitions()[i];
            let criteria = if edge.data.get("transition_criteria"@) is Some {
                edge.data.get("transition_criteria"@)
            } else {
                edge.data.get("condition"@)
            };
            &&& criteria == Some(JsonV::Str(c)) && !blank(c) ==> t.description == Some(c)
            &&& criteria == Some(JsonV::Str(c)) && blank(c) ==> t.description == edge.label
            &&& (criteria matches Some(v) ==> !(v is Str)) ==> t.description == edge.label
        }),
{
    assert(e.transitions()[i].description == edge_description(e.graph.outgoing(e.current)[i]));
}

proof fn first_of_the_name(ts: Seq<TransitionSpecV>, name: Seq<char>, k: int)
    requires
        0 <= k < ts.len(),
        ts[k].name == name,
        forall|j: int| 0 <= j < k ==> (#[trigger] ts[j]).name != name,
    ensures
        first_named(ts, name) == Some(ts[k]),
    decreases ts.len(),
{
    if k > 0 {
        let r = ts.drop_first();
        assert(ts[0].name != name);
        assert(r[k - 1] == ts[k]);
        assert forall|j: int| 0 <= j < k - 1 implies (#[trigger] r[j]).name != name by {
            assert(r[j] == ts[j + 1]);
        }
        first_of_the_name(r, name, k - 1);
    }
}

proof fn none_of_the_name(ts: Seq<TransitionSpecV>, name: Seq<char>)
    requires
        forall|j: int| 0 <= j < ts.len() ==> (#[trigger] ts[j]).name != name,
    ensures
        first_named(ts, name) is None,
    decreases ts.len(),
{
    if ts.len() > 0 {
        let r = ts.drop_first();
        assert forall|j: int| 0 <= j < r.len() implies (#[trigger] r[j]).name != name by {
            assert(r[j] == ts[j + 1]);
        }
        none_of_the_name(r, name);
    }
}

/// A call takes the first edge of its name that leaves the active node: the run
/// stands on that edge's target, and the session ends there exactly if that is an end
/// node. Nothing else of the run changes but the record of visits.
pub proof fn call_takes_the_first_edge_of_its_name(e: EngineV, name: Seq<char>, k: int)
    requires
        0 <= k < e.graph.outgoing(e.current).len(),
        edge_is_called(e.graph.outgoing(e.current)[k], k, name),
        forall|j: int|
            0 <= j < k ==> !edge_is_called(#[trigger] e.graph.outgoing(e.current)[j], j, name),
    ensures
        ({
            let to = e.graph.outgoing(e.current)[k].target;
            let ends = e.graph.node(to) matches Some(n) && n.kind == NodeKind::End;
            let after = e.after_transition(name);
            &&& after.current == to
            &&& after.graph == e.graph
            &&& after.vars == e.vars
            &&& after.runtime_options == e.runtime_options
            &&& after.finished() == ends
            &&& ends ==> e.transition_action(name) is End
            &&& !ends ==> e.transition_action(name) == (ActionV::Transition {
                to_node: to,
                say: None,
            })
        }),
{
    let edges = e.graph.outgoing(e.current);
    let ts = e.transitions();
    each_edge_is_a_transition(e, 0, k);
    assert(ts[k].name == name);
    assert forall|j: int| 0 <= j < k implies (#[trigger] ts[j]).name != name by {
        assert(!edge_is_called(edges[j], j, name));
        each_edge_is_a_transition(e, 0, j);
    }
    first_of_the_name(ts, name, k);
}

/// A call of a name that no edge from the active node has changes nothing.
pub proof fn call_of_no_edge_stays(e: EngineV, name: Seq<char>)
    requires
        forall|j: int|
            0 <= j < e.graph.outgoing(e.current).len() ==> !edge_is_called(
                #[trigger] e.graph.outgoing(e.current)[j],
                j,
                name,
            ),
    ensures
        e.after_transition(name) == e,
        e.transition_action(name) is Stay,
{
    let ts = e.transitions();
    assert forall|j: int| 0 <= j < ts.len() implies (#[trigger] ts[j]).name != name by {
        assert(!edge_is_called(e.graph.outgoing(e.current)[j], j, name));
        each_edge_is_a_transition(e, 0, j);
    }
    none_of_the_name(ts, name);
}

/// Seating a run at a node of the graph moves it there, and at what is no node
/// leaves it as it is.
pub proof fn seating_moves_to_nodes_only(e: EngineV, id: Seq<char>)
    ensures
        e.graph.node(id) is None ==> e.after_seat(id) == e,
        e.graph.node(id) is Some ==> {
            let after = e.after_seat(id);
            &&& after.current == id
            &&& after.graph == e.graph
            &&& after.vars == e.vars
            &&& after.runtime_options == e.runtime_options
            &&& after.finished() <==> e.graph.node(id)->Some_0.kind == NodeKind::End
        },
{
}

/// Moving to a node adds its name behind the names visited before, unless the run has
/// been there already.
pub proof fn visits_are_recorded_once(e: EngineV, id: Seq<char>)
    ensures
        e.visited.contains(e.graph.name(id)) ==> e.at(id).visited == e.visited,
        !e.visited.contains(e.graph.name(id)) ==> e.at(id).visited == e.visited.push(
            e.graph.name(id),
        ),
        e.graph.node(id) is Some ==> e.after_seat(id).visited == e.at(id).visited,
        e.at(id).current == id,
{
}

/// A move by a call is recorded as a seat at the same node would be.
pub proof fn call_is_recorded_as_a_visit(e: EngineV, name: Seq<char>)
    ensures
        e.after_transition(name).visited == e.visited || e.after_transition(name).visited
            == e.visited.push(e.graph.name(e.after_transition(name).current)),
        e.after_transition(name) != e ==> e.after_transition(name).visited.contains(
            e.graph.name(e.after_transition(name).current),
        ),
{
    if let Some(t) = first_named(e.transitions(), name) {
        let v = e.after_transition(name).visited;
        if !e.visited.contains(e.graph.name(t.target)) {
            assert(v.last() == e.graph.name(t.target));
        }
    }
}

/// Captured variables replace those of the same name and leave the others.
pub proof fn captured_values_win(e: EngineV, captured: FieldsV, k: Seq<char>)
    ensures
        ({
            let after = e.after_capture(captured);
            &&& captured.contains_key(k) ==> after.vars.contains_key(k) && after.vars[k]
                == captured[k]
            &&& !captured.contains_key(k) ==> after.vars.contains_key(k) == e.vars.contains_key(k)
            &&& !captured.contains_key(k) && e.vars.contains_key(k) ==> after.vars[k] == e.vars[k]
            &&& after == (EngineV { vars: after.vars, ..e })
        }),
{
}

/// A run of steps is each step in turn.
pub proof fn steps_follow_each_other(
    e: EngineV,
    steps: Seq<RunStep>,
    s: RunStep,
    name: Seq<char>,
    vars: FieldsV,
)
    ensures
        e.after_steps(Seq::<RunStep>::empty()) == e,
        e.after_steps(steps.push(s)) == e.after_steps(steps).after_step(s),
        e.after_step(RunStep::Transition(name)) == e.after_transition(name),
        e.after_step(RunStep::Seat(name)) == e.after_seat(name),
        e.after_step(RunStep::Capture(vars)) == e.after_capture(vars),
{
    assert(steps.push(s).drop_last() =~= steps);
}

/// A run is over exactly where it stands on an end node.
pub proof fn run_is_over_on_end_nodes(e: EngineV)
    ensures
        e.finished() <==> (e.graph.node(e.current) matches Some(n) && n.kind == NodeKind::End),
        e.graph.node(e.current) matches Some(n) ==> e.data() == n.data,
{
}

// ── Transfers ─────────────────────────────────────────────────────────────

/// Whether an entry has a number to dial.
pub open spec fn dials(entry: JsonV) -> bool {
    entry.get("target_phone"@) matches Some(JsonV::Str(p)) && !blank(p)
}

/// Whether the entry at place `k` is called by this name: its own, or without one
/// that of its place.
pub open spec fn entry_is_called(entry: JsonV, k: int, name: Seq<char>) -> bool {
    match entry.get("name"@) {
        Some(JsonV::Str(n)) => if n.len() > 0 {
            name == slug(n)
        } else if k == 0 {
            name == "transfer_call"@
        } else {
            name == "transfer_call_"@ + decimal(k as nat)
        },
        _ => if k == 0 {
            name == "transfer_call"@
        } else {
            name == "transfer_call_"@ + decimal(k as nat)
        },
    }
}

/// The text under a key, where it says something.
pub open spec fn told(entry: JsonV, key: Seq<char>) -> Option<Seq<char>> {
    match entry.get(key) {
        Some(JsonV::Str(s)) => if blank(s) {
            None
        } else {
            Some(s)
        },
        _ => None,
    }
}

/// Whether a target is what the entry at place `k` configures, in every part.
pub open spec fn configured_by(
    t: TransferTargetV,
    entry: JsonV,
    k: int,
    vars: FieldsV,
    now: i64,
) -> bool {
    &&& dials(entry)
    &&& t.target_phone == trimmed(entry.get("target_phone"@)->Some_0->Str_0)
    &&& entry_is_called(entry, k, t.name)
    &&& t.target_name == told(entry, "target_name"@)
    &&& match told(entry, "description"@) {
        Some(s) => t.description == Some(rendered(s, vars, now)),
        None => t.description is None,
    }
    &&& match told(entry, "say"@) {
        Some(s) => t.say == Some(rendered(s, vars, now)),
        None => t.say is None,
    }
    &&& t.mode is Warm <==> entry.get("mode"@) == Some(JsonV::Str("warm"@))
}

/// The places of the entries that have a number to dial.
pub open spec fn dialling(entries: Seq<JsonV>) -> Seq<int>
    decreases entries.len(),
{
    if entries.len() == 0 {
        Seq::empty()
    } else if dials(entries.last()) {
        dialling(entries.drop_last()).push(entries.len() - 1)
    } else {
        dialling(entries.drop_last())
    }
}

proof fn dialling_places(entries: Seq<JsonV>)
    ensures
        forall|i: int|
            0 <= i < dialling(entries).len() ==> 0 <= (#[trigger] dialling(entries)[i])
                < entries.len() && dials(entries[dialling(entries)[i]]),
        forall|i: int, j: int|
            0 <= i < j < dialling(entries).len() ==> #[trigger] dialling(entries)[i]
                < #[trigger] dialling(entries)[j],
        forall|k: int|
            0 <= k < entries.len() && dials(#[trigger] entries[k]) ==> dialling(entries).contains(
                k,
            ),
    decreases entries.len(),
{
    if entries.len() > 0 {
        let r = entries.drop_last();
        dialling_places(r);
        let d = dialling(entries);
        let b = dialling(r);
        assert forall|i: int| 0 <= i < d.len() implies 0 <= (#[trigger] d[i]) < entries.len()
            && dials(entries[d[i]]) by {
            if i < b.len() {
                assert(d[i] == b[i]);
                assert(r[b[i]] == entries[b[i]]);
            }
        }
        assert forall|i: int, j: int| 0 <= i < j < d.len() implies #[trigger] d[i]
            < #[trigger] d[j] by {
            assert(d[i] == b[i]);
            if j < b.len() {
                assert(d[j] == b[j]);
            }
        }
        assert forall|k: int| 0 <= k < entries.len() && dials(
            #[trigger] entries[k],
        ) implies d.contains(k) by {
            if k < r.len() {
                assert(r[k] == entries[k]);
                let i = choose|i: int| 0 <= i < b.len() && b[i] == k;
                assert(d[i] == k);
            } else {
                assert(d.last() == k);
            }
        }
    }
}

proof fn targets_are_configured(entries: Seq<JsonV>, vars: FieldsV, now: i64)
    ensures
        targets_of(entries, vars, now).len() == dialling(entries).len(),
        forall|i: int|
            0 <= i < dialling(entries).len() ==> configured_by(
                #[trigger] targets_of(entries, vars, now)[i],
                entries[dialling(entries)[i]],
                dialling(entries)[i],
                vars,
                now,
            ),
    decreases entries.len(),
{
    if entries.len() > 0 {
        let r = entries.drop_last();
        targets_are_configured(r, vars, now);
        dialling_places(r);
        let ts = targets_of(entries, vars, now);
        let before = targets_of(r, vars, now);
        let d = dialling(entries);
        let b = dialling(r);
        let last = entries.last();
        assert forall|i: int| 0 <= i < d.len() implies configured_by(
            #[trigger] ts[i],
            entries[d[i]],
            d[i],
            vars,
            now,
        ) by {
            if i < b.len() {
                assert(ts[i] == before[i]);
                assert(d[i] == b[i]);
                assert(configured_by(before[i], r[b[i]], b[i], vars, now));
                assert(r[b[i]] == entries[b[i]]);
            } else {
                assert(d[i] == entries.len() - 1);
                assert(entries[d[i]] == last);
            }
        }
    }
}

/// The transfer targets of the active node are its entries with a number, in order.
/// Each takes its name, number, display name, description, announcement and mode
/// from one and the same entry, and no entry with a number is left out.
pub proof fn each_target_is_one_entry(e: EngineV, entries: Seq<JsonV>, now: i64)
    requires
        e.data().get("transfer_targets"@) == Some(JsonV::Array(entries)),
    ensures
        e.prompt(now).transfer_targets == e.transfer_targets(now),
        e.transfer_targets(now).len() == dialling(entries).len(),
        forall|i: int|
            0 <= i < dialling(entries).len() ==> configured_by(
                #[trigger] e.transfer_targets(now)[i],
                entries[dialling(entries)[i]],
                dialling(entries)[i],
                e.vars,
                now,
            ),
        forall|i: int|
            0 <= i < dialling(entries).len() ==> 0 <= (#[trigger] dialling(entries)[i])
                < entries.len(),
        forall|i: int, j: int|
            0 <= i < j < dialling(entries).len() ==> #[trigger] dialling(entries)[i]
                < #[trigger] dialling(entries)[j],
        forall|k: int|
            0 <= k < entries.len() && dials(#[trigger] entries[k]) ==> dialling(entries).contains(
                k,
            ),
{
    targets_are_configured(entries, e.vars, now);
    dialling_places(entries);
}

/// A node whose transfer targets are no list has none.
pub proof fn no_list_no_targets(e: EngineV, now: i64)
    requires
        e.data().get("transfer_targets"@) matches Some(v) ==> !(v is Array),
    ensures
        e.transfer_targets(now).len() == 0,
        e.prompt(now).transfer_targets.len() == 0,
{
}

proof fn first_target_of_the_name(ts: Seq<TransferTargetV>, name: Seq<char>, k: int)
    requires
        0 <= k < ts.len(),
        ts[k].name == name,
        forall|j: int| 0 <= j < k ==> (#[trigger] ts[j]).name != name,
    ensures
        first_target(ts, name) == Some(ts[k]),
    decreases ts.len(),
{
    if k > 0 {
        let r = ts.drop_first();
        assert(ts[0].name != name);
        assert(r[k - 1] == ts[k]);
        assert forall|j: int| 0 <= j < k - 1 implies (#[trigger] r[j]).name != name by {
            assert(r[j] == ts[j + 1]);
        }
        first_target_of_the_name(r, name, k - 1);
    }
}

proof fn no_target_of_the_name(ts: Seq<TransferTargetV>, name: Seq<char>)
    requires
        forall|j: int| 0 <= j < ts.len() ==> (#[trigger] ts[j]).name != name,
    ensures
        first_target(ts, name) is None,
    decreases ts.len(),
{
    if ts.len() > 0 {
        let r = ts.drop_first();
        assert forall|j: int| 0 <= j < r.len() implies (#[trigger] r[j]).name != name by {
            assert(r[j] == ts[j + 1]);
        }
        no_target_of_the_name(r, name);
    }
}

/// A transfer dials the number of the first entry that is called so, and announces
/// what that entry says.
pub proof fn transfer_dials_the_entry_it_names(
    e: EngineV,
    entries: Seq<JsonV>,
    k: int,
    name: Seq<char>,
    now: i64,
)
    requires
        e.data().get("transfer_targets"@) == Some(JsonV::Array(entries)),
        0 <= k < entries.len(),
        dials(entries[k]),
        entry_is_called(entries[k], k, name),
        forall|j: int|
            0 <= j < k && dials(#[trigger] entries[j]) ==> !entry_is_called(entries[j], j, name),
    ensures
        e.transfer_action(name, now) == (ActionV::Transfer {
            target_phone: trimmed(entries[k].get("target_phone"@)->Some_0->Str_0),
            target_name: told(entries[k], "target_name"@),
            say: match told(entries[k], "say"@) {
                Some(s) => Some(rendered(s, e.vars, now)),
                None => None,
            },
            mode: if entries[k].get("mode"@) == Some(JsonV::Str("warm"@)) {
                TransferMode::Warm
            } else {
                TransferMode::Cold
            },
        }),
{
    each_target_is_one_entry(e, entries, now);
    let d = dialling(entries);
    let ts = e.transfer_targets(now);
    let i = choose|i: int| 0 <= i < d.len() && d[i] == k;
    assert(configured_by(ts[i], entries[d[i]], d[i], e.vars, now));
    assert(ts[i].name == name);
    assert forall|j: int| 0 <= j < i implies (#[trigger] ts[j]).name != name by {
        assert(configured_by(ts[j], entries[d[j]], d[j], e.vars, now));
        assert(d[j] < d[i]);
        assert(dials(entries[d[j]]));
    }
    first_target_of_the_name(ts, name, i);
}

/// A transfer to a name that no entry with a number has is none.
pub proof fn transfer_to_no_entry_stays(
    e: EngineV,
    entries: Seq<JsonV>,
    name: Seq<char>,
    now: i64,
)
    requires
        e.data().get("transfer_targets"@) == Some(JsonV::Array(entries)),
        forall|j: int|
            0 <= j < entries.len() && dials(#[trigger] entries[j]) ==> !entry_is_called(
                entries[j],
                j,
                name,
            ),
    ensures
        e.transfer_action(name, now) is Stay,
{
    each_target_is_one_entry(e, entries, now);
    let d = dialling(entries);
    let ts = e.transfer_targets(now);
    assert forall|j: int| 0 <= j < ts.len() implies (#[trigger] ts[j]).name != name by {
        assert(configured_by(ts[j], entries[d[j]], d[j], e.vars, now));
        assert(0 <= d[j] < entries.len());
        assert(dials(entries[d[j]]));
    }
    no_target_of_the_name(ts, name);
}

// ── Prompts ───────────────────────────────────────────────────────────────

/// Whether a node opts out of the shared prompt: by false under the first of the two
/// keys that it has.
pub open spec fn opts_out(data: JsonV) -> bool {
    if data.get("add_global_prompt"@) is Some {
        data.get("add_global_prompt"@) == Some(JsonV::Bool(false))
    } else {
        data.get("inherit_global_directive"@) == Some(JsonV::Bool(false))
    }
}

/// The text that the active node's prompt renders to.
pub open spec fn says(e: EngineV, now: i64) -> Seq<char> {
    match e.data().get("prompt"@) {
        Some(JsonV::Str(s)) => rendered(s, e.vars, now),
        _ => rendered(""@, e.vars, now),
    }
}

/// Names in backquotes, with "or" between them.
pub open spec fn named_in_turn(ts: Seq<TransferTargetV>) -> Seq<char>
    decreases ts.len(),
{
    if ts.len() == 0 {
        seq![]
    } else if ts.len() == 1 {
        ts[0].name
    } else {
        named_in_turn(ts.drop_last()) + "` or `"@ + ts.last().name
    }
}

proof fn names_are_joined(ts: Seq<TransferTargetV>)
    ensures
        joined(target_names(ts), "` or `"@) == named_in_turn(ts),
    decreases ts.len(),
{
    let names = target_names(ts);
    if ts.len() > 1 {
        names_are_joined(ts.drop_last());
        assert(names.drop_last() =~= target_names(ts.drop_last()));
    } else if ts.len() == 0 {
        assert(joined(names, "` or `"@) =~= named_in_turn(ts));
    }
}

/// What is added to the prompt of a node that can hand over to a human.
pub open spec fn handover_rule(ts: Seq<TransferTargetV>) -> Seq<char> {
    if ts.len() == 0 {
        seq![]
    } else {
        "\n\n[Human escalation] If the caller asks to speak to a human, a person, an agent, a manager, or to be transferred: FIRST say one short sentence telling them you're connecting them to a human now and to please hold, THEN call the `"@
            + named_in_turn(ts) + "` function. Never claim you are unable to transfer."@
    }
}

/// Whichever node is active: unless it opts out, its system prompt begins with the
/// shared prompt, where that says something, and a blank line before the node's own
/// prompt, where that says something. Otherwise it begins with the node's own prompt.
/// The rule for handing over ends it, where the node has targets.
pub proof fn shared_prompt_comes_first(e: EngineV, now: i64)
    ensures
        e.prompt(now).system_prompt == e.system_prompt(now),
        e.prompt(now).node_id == e.current,
        ({
            let own = says(e, now);
            let rule = handover_rule(e.transfer_targets(now));
            let shared = match e.graph.global_prompt() {
                Some(g) => rendered(g, e.vars, now),
                None => seq![],
            };
            if opts_out(e.data()) || blank(shared) {
                e.system_prompt(now) == own + rule
            } else if blank(own) {
                e.system_prompt(now) == shared + rule
            } else {
                e.system_prompt(now) == shared + "\n\n"@ + own + rule
            }
        }),
{
    names_are_joined(e.transfer_targets(now));
    let rule = handover_rule(e.transfer_targets(now));
    assert(crate::engine::escalation(e.transfer_targets(now)) =~= rule);
    assert(e.own_prompt(now) == says(e, now));
    assert(crate::engine::inherits_global(e.data()) == !opts_out(e.data()));
}

// ── What a node refers to ─────────────────────────────────────────────────

/// The strings of a list are kept in order, and what is no string is left out.
pub proof fn strings_are_kept_in_order(entries: Seq<JsonV>, j: JsonV)
    ensures
        strings_of(Seq::<JsonV>::empty()).len() == 0,
        j matches JsonV::Str(s) ==> strings_of(entries.push(j)) == strings_of(entries).push(s),
        !(j is Str) ==> strings_of(entries.push(j)) == strings_of(entries),
{
    assert(entries.push(j).drop_last() =~= entries);
}

/// The strings that a node refers to are those of the list under the key.
pub proof fn references_are_listed_under_their_key(e: EngineV, key: Seq<char>, a: Seq<JsonV>)
    ensures
        e.data().get(key) == Some(JsonV::Array(a)) ==> e.string_list(key) == strings_of(a),
        (e.data().get(key) matches Some(v) ==> !(v is Array)) ==> e.string_list(key).len() == 0,
{
}

/// The type that a variable's declaration names.
pub open spec fn names_type(j: JsonV, t: VarType) -> bool {
    match t {
        VarType::String => j == JsonV::Str("string"@),
        VarType::Number => j == JsonV::Str("number"@),
        VarType::Boolean => j == JsonV::Str("boolean"@),
    }
}

/// A variable is declared by an object with its name, its type, which is a string
/// where none is given, and a hint, which may be left out.
pub proof fn variable_is_declared_by_its_object(m: FieldsV, t: VarType)
    ensures
        variable_of(JsonV::Object(m)) matches Some(v) ==> {
            &&& m.contains_key("name"@) && m["name"@] == JsonV::Str(v.name)
            &&& m.contains_key("type"@) && m["type"@] is Str ==> names_type(
                m["type"@],
                v.var_type,
            )
            &&& !m.contains_key("type"@) ==> v.var_type is String
            &&& if m.contains_key("prompt"@) && m["prompt"@] is Str {
                v.hint == Some(m["prompt"@]->Str_0)
            } else {
                v.hint is None
            }
        },
        m.contains_key("name"@) && m["name"@] is Str && (m.contains_key("type"@) ==> names_type(
            m["type"@],
            t,
        )) && (m.contains_key("prompt"@) ==> m["prompt"@] is Str || m["prompt"@] is Null)
            ==> variable_of(JsonV::Object(m)) is Some,
        !(m.contains_key("name"@) && m["name"@] is Str) ==> variable_of(JsonV::Object(m)) is None,
        m.contains_key("prompt"@) && !(m["prompt"@] is Str || m["prompt"@] is Null)
            ==> variable_of(JsonV::Object(m)) is None,
        m.contains_key("type"@) && m["type"@] is Str && !names_type(m["type"@], VarType::String)
            && !names_type(m["type"@], VarType::Number) && !names_type(
            m["type"@],
            VarType::Boolean,
        ) ==> variable_of(JsonV::Object(m)) is None,
        m.contains_key("type"@) && !(m["type"@] is Str || m["type"@] is Object) ==> variable_of(
            JsonV::Object(m),
        ) is None,
{
    reveal_strlit("string");
    reveal_strlit("number");
    reveal_strlit("boolean");
    assert("string"@[0] != "number"@[0]);
    assert("boolean"@.len() == 7 && "string"@.len() == 6 && "number"@.len() == 6);
}

/// A variable's type may be written as the only key of an object under which there is
/// nothing.
pub proof fn type_may_be_a_lone_key(m: FieldsV, t: Seq<char>)
    ensures
        variable_of(
            JsonV::Object(
                m.insert(
                    "type"@,
                    JsonV::Object(Map::<Seq<char>, JsonV>::empty().insert(t, JsonV::Null)),
                ),
            ),
        ) == variable_of(JsonV::Object(m.insert("type"@, JsonV::Str(t)))),
{
    let lone = Map::<Seq<char>, JsonV>::empty().insert(t, JsonV::Null);
    crate::laws::json::only_field_is_alone(lone, t, JsonV::Null);
    reveal_strlit("name");
    reveal_strlit("type");
    reveal_strlit("prompt");
    assert("name"@[0] != "type"@[0]);
    assert("prompt"@.len() != "type"@.len());
}

/// A variable may be declared by a list of its name, type and hint.
pub proof fn variable_may_be_declared_by_a_list(s: Seq<JsonV>)
    ensures
        s.len() == 3 ==> variable_of(JsonV::Array(s)) == variable_of(
            JsonV::Object(
                Map::<Seq<char>, JsonV>::empty().insert("name"@, s[0]).insert("type"@, s[1]).insert(
                    "prompt"@,
                    s[2],
                ),
            ),
        ),
        s.len() == 2 ==> variable_of(JsonV::Array(s)) == variable_of(
            JsonV::Object(
                Map::<Seq<char>, JsonV>::empty().insert("name"@, s[0]).insert("type"@, s[1]),
            ),
        ),
        s.len() > 3 ==> variable_of(JsonV::Array(s)) is None,
        s.len() == 0 ==> variable_of(JsonV::Array(s)) is None,
        s.len() == 1 && s[0] is Str ==> variable_of(JsonV::Array(s)) == Some(
            ExtractionVarV { name: s[0]->Str_0, var_type: VarType::String, hint: None },
        ),
{
    reveal_strlit("name");
    reveal_strlit("type");
    reveal_strlit("prompt");
    assert("name"@[0] != "type"@[0]);
    assert("prompt"@.len() == 6 && "name"@.len() == 4 && "type"@.len() == 4);
    assert(item(s, 0) == item(s, 0));
}

/// The declared variables are kept in order, and what declares none is left out.
pub proof fn variables_are_kept_in_order(entries: Seq<JsonV>, j: JsonV)
    ensures
        variables_of(Seq::<JsonV>::empty()).len() == 0,
        variable_of(j) matches Some(v) ==> variables_of(entries.push(j)) == variables_of(
            entries,
        ).push(v),
        variable_of(j) is None ==> variables_of(entries.push(j)) == variables_of(entries),
{
    assert(entries.push(j).drop_last() =~= entries);
}

/// A node extracts variables exactly where it says so by a true and declares at
/// least one; its instruction is its own, where that says something.
pub proof fn extraction_is_asked_for(e: EngineV, entries: Seq<JsonV>)
    ensures
        e.data().get("extraction_enabled"@) != Some(JsonV::Bool(true)) ==> e.extraction() is None,
        (e.data().get("extraction_variables"@) matches Some(v) ==> !(v is Array))
            ==> e.extraction() is None,
        e.data().get("extraction_variables"@) == Some(JsonV::Array(entries)) && e.data().get(
            "extraction_enabled"@,
        ) == Some(JsonV::Bool(true)) ==> {
            if variables_of(entries).len() == 0 {
                e.extraction() is None
            } else {
                &&& e.extraction() is Some
                &&& e.extraction()->Some_0.variables == variables_of(entries)
                &&& e.extraction()->Some_0.prompt == told(e.data(), "extraction_prompt"@)
            }
        },
{
}

/// A snapshot holds where the run stands, its variables and its options, and nothing
/// else.
pub proof fn snapshot_is_the_state(e: EngineV)
    ensures
        e.snapshot() matches JsonV::Object(m) && {
            &&& m.dom() == set!["current"@, "vars"@, "runtime_options"@]
            &&& m["current"@] == JsonV::Str(e.current)
            &&& m["vars"@] == JsonV::Object(e.vars)
            &&& m["runtime_options"@] == e.runtime_options
        },
{
    crate::engine::snapshot_fields(e);
    let m = e.snapshot()->Object_0;
    assert(m.dom() =~= set!["current"@, "vars"@, "runtime_options"@]);
}

} // verus!
