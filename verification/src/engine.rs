//! The graph decision engine.
//!
//! Given a parsed graph and the run's variables, it tracks the active node,
//! composes the node's system prompt and the set of callable transitions,
//! interpolates `{{variables}}`, and advances on a transition or tool call.

use crate::clock::{calendar, unix_now};
use crate::decode::{item, item_of, read_variant, variant_of};
use crate::graph::{
    edge_refs_view, findings, first_of_is_known, graph_of, outgoing_leads_to_nodes,
    parsed_graph_is_runnable, place_is_known, Edge, EdgeV, Graph, GraphError, GraphErrorV, GraphV,
    Node, NodeKind, ValidationError, ValidationErrorV,
};
use crate::interpolate::{rendered, var_interpolate_at};
use crate::json::{
    opt_string, opt_text, opt_tree, trees, trees_index, trees_len, FieldsV, Json, JsonMap, JsonV,
};
use crate::text::{
    ascii_lower, blank, chars_of, decimal, decimal_text, is_ascii_alnum, is_ascii_upper, is_blank,
    join2, join3, same, texts, to_ascii_lower, trim, trimmed,
};
use vstd::prelude::*;
use vstd::string::StringExecFns;

verus! {

// ── Errors ────────────────────────────────────────────────────────────────

/// Why an engine cannot be built or moved.
#[derive(Debug)]
pub enum EngineError {
    /// The graph cannot be run.
    Graph(GraphError),
    /// The graph has no node of this id.
    UnknownNode(String),
}

/// The view of an [`EngineError`].
pub enum EngineErrorV {
    Graph(GraphErrorV),
    UnknownNode(Seq<char>),
}

impl View for EngineError {
    type V = EngineErrorV;

    open spec fn view(&self) -> EngineErrorV {
        match self {
            EngineError::Graph(e) => EngineErrorV::Graph(e@),
            EngineError::UnknownNode(s) => EngineErrorV::UnknownNode(s@),
        }
    }
}

impl EngineErrorV {
    /// The message for a reader.
    pub open spec fn message(self) -> Seq<char> {
        match self {
            EngineErrorV::Graph(e) => e.message(),
            EngineErrorV::UnknownNode(s) => "unknown node: "@ + s,
        }
    }
}

impl EngineError {
    /// The message for a reader.
    pub fn message(&self) -> (r: String)
        ensures
            r@ == self@.message(),
    {
        match self {
            EngineError::Graph(e) => e.message(),
            EngineError::UnknownNode(s) => join2("unknown node: ", s.as_str()),
        }
    }
}

// ── What the engine hands out ─────────────────────────────────────────────

/// How a human transfer is performed. Pinned by the operator in the node's
/// configuration, never chosen by the model. `Cold` ends the agent and then
/// bridges; `Warm` keeps the agent streaming while the human is introduced.
#[derive(Debug, Clone, Copy, PartialEq, Eq, Structural)]
pub enum TransferMode {
    Cold,
    Warm,
}

impl Default for TransferMode {
    fn default() -> (r: Self)
        ensures
            r == TransferMode::Cold,
    {
        TransferMode::Cold
    }
}

/// What the host should do after a tool or transition call.
#[derive(Debug, Clone)]
pub enum Action {
    /// Move to a node; the host re-prompts the model with the new context.
    Transition {
        to_node: String,
        /// Speech to play during the transition.
        say: Option<String>,
    },
    /// Stay on the current node.
    Stay,
    /// End the session.
    End,
    /// Escalate to a human. The number is pinned by the operator, so the set of
    /// reachable numbers is a closed list.
    Transfer {
        target_phone: String,
        target_name: Option<String>,
        /// A line spoken before the transfer.
        say: Option<String>,
        mode: TransferMode,
    },
}

/// The view of an [`Action`].
#[verifier::ext_equal]
pub enum ActionV {
    Transition { to_node: Seq<char>, say: Option<Seq<char>> },
    Stay,
    End,
    Transfer {
        target_phone: Seq<char>,
        target_name: Option<Seq<char>>,
        say: Option<Seq<char>>,
        mode: TransferMode,
    },
}

impl View for Action {
    type V = ActionV;

    open spec fn view(&self) -> ActionV {
        match self {
            Action::Transition { to_node, say } => ActionV::Transition {
                to_node: to_node@,
                say: opt_string(*say),
            },
            Action::Stay => ActionV::Stay,
            Action::End => ActionV::End,
            Action::Transfer { target_phone, target_name, say, mode } => ActionV::Transfer {
                target_phone: target_phone@,
                target_name: opt_string(*target_name),
                say: opt_string(*say),
                mode: *mode,
            },
        }
    }
}

/// A transition that the model may call by name.
#[derive(Debug, Clone)]
pub struct TransitionSpec {
    /// The name that the model calls to take this edge.
    pub name: String,
    pub target: String,
    pub description: Option<String>,
}

/// The view of a [`TransitionSpec`].
#[verifier::ext_equal]
pub struct TransitionSpecV {
    pub name: Seq<char>,
    pub target: Seq<char>,
    pub description: Option<Seq<char>>,
}

impl View for TransitionSpec {
    type V = TransitionSpecV;

    open spec fn view(&self) -> TransitionSpecV {
        TransitionSpecV {
            name: self.name@,
            target: self.target@,
            description: opt_string(self.description),
        }
    }
}

/// One human-escalation destination that the operator attached to a node. The
/// model decides whether to escalate, never to where.
#[derive(Debug, Clone)]
pub struct TransferTarget {
    /// The function name that the model calls.
    pub name: String,
    /// The destination, as the operator wrote it.
    pub target_phone: String,
    pub target_name: Option<String>,
    /// When to transfer, for the model to read.
    pub description: Option<String>,
    /// A line spoken before the transfer.
    pub say: Option<String>,
    pub mode: TransferMode,
}

/// The view of a [`TransferTarget`].
#[verifier::ext_equal]
pub struct TransferTargetV {
    pub name: Seq<char>,
    pub target_phone: Seq<char>,
    pub target_name: Option<Seq<char>>,
    pub description: Option<Seq<char>>,
    pub say: Option<Seq<char>>,
    pub mode: TransferMode,
}

impl View for TransferTarget {
    type V = TransferTargetV;

    open spec fn view(&self) -> TransferTargetV {
        TransferTargetV {
            name: self.name@,
            target_phone: self.target_phone@,
            target_name: opt_string(self.target_name),
            description: opt_string(self.description),
            say: opt_string(self.say),
            mode: self.mode,
        }
    }
}

/// The views of a sequence of transitions.
pub open spec fn transitions_view(s: Seq<TransitionSpec>) -> Seq<TransitionSpecV> {
    Seq::new(s.len(), |i: int| s[i]@)
}

/// The views of a sequence of transfer targets.
pub open spec fn targets_view(s: Seq<TransferTarget>) -> Seq<TransferTargetV> {
    Seq::new(s.len(), |i: int| s[i]@)
}

/// The prompt and the calls that the host configures the model with for a turn.
#[derive(Debug, Clone)]
pub struct NodePrompt {
    pub node_id: String,
    pub system_prompt: String,
    /// The transitions that the model may call from this node.
    pub transitions: Vec<TransitionSpec>,
    /// The human-transfer destinations that this node exposes.
    pub transfer_targets: Vec<TransferTarget>,
}

/// The view of a [`NodePrompt`].
#[verifier::ext_equal]
pub struct NodePromptV {
    pub node_id: Seq<char>,
    pub system_prompt: Seq<char>,
    pub transitions: Seq<TransitionSpecV>,
    pub transfer_targets: Seq<TransferTargetV>,
}

impl View for NodePrompt {
    type V = NodePromptV;

    open spec fn view(&self) -> NodePromptV {
        NodePromptV {
            node_id: self.node_id@,
            system_prompt: self.system_prompt@,
            transitions: transitions_view(self.transitions@),
            transfer_targets: targets_view(self.transfer_targets@),
        }
    }
}

/// The active node's identity for a transcript marker.
#[derive(Debug, Clone, PartialEq)]
pub struct NodeInfo {
    pub id: String,
    pub name: String,
    pub allow_interrupt: Option<bool>,
}

// ── Slugs ─────────────────────────────────────────────────────────────────

/// Whether a character is alphabetic or numeric in Unicode.
pub uninterp spec fn alphanumeric(c: char) -> bool;

/// `char::is_alphanumeric`.
///
/// Claimed: a function of the character; among the ASCII characters it is the
/// letters and digits.
#[verifier::external_body]
fn is_alphanumeric(c: char) -> (r: bool)
    ensures
        r == alphanumeric(c),
        (c as u32) < 128 ==> r == is_ascii_alnum(c),
{
    c.is_alphanumeric()
}

/// Whether a character is kept in a function name: a letter or a digit.
pub open spec fn kept_in_slug(c: char) -> bool {
    if (c as u32) < 128 {
        is_ascii_alnum(c)
    } else {
        alphanumeric(c)
    }
}

/// A label as a function name, character by character: letters and digits with
/// ASCII capitals made small, and `_` for anything else.
pub open spec fn slug(s: Seq<char>) -> Seq<char> {
    Seq::new(
        s.len(),
        |i: int|
            if kept_in_slug(s[i]) {
                ascii_lower(s[i])
            } else {
                '_'
            },
    )
}

/// A label as a function name.
pub fn slugify(label: &str) -> (r: String)
    ensures
        r@ == slug(label@),
{
    let v: Vec<char> = chars_of(label);
    let mut out: String = String::new();
    let mut i: usize = 0;
    while i < v.len()
        invariant
            i <= v@.len(),
            v@ == label@,
            out@ == slug(label@).take(i as int),
        decreases v@.len() - i,
    {
        let c: char = v[i];
        let ghost before = out@;
        if is_alphanumeric(c) {
            out.push(to_ascii_lower(c));
        } else {
            out.push('_');
        }
        assert(slug(label@).take(i + 1) =~= slug(label@).take(i as int).push(slug(label@)[i as int]));
        i += 1;
    }
    assert(slug(label@).take(i as int) =~= slug(label@));
    out
}

// ── The model of a run ────────────────────────────────────────────────────

/// The state of a run.
#[verifier::ext_equal]
pub struct EngineV {
    pub graph: GraphV,
    pub current: Seq<char>,
    pub vars: FieldsV,
    pub runtime_options: JsonV,
    pub visited: Seq<Seq<char>>,
}

/// The value at the first of two keys that is there.
pub open spec fn either(data: JsonV, first: Seq<char>, second: Seq<char>) -> Option<JsonV> {
    match data.get(first) {
        Some(v) => Some(v),
        None => data.get(second),
    }
}

/// A text, unless it is blank.
pub open spec fn not_blank(s: Option<Seq<char>>) -> Option<Seq<char>> {
    match s {
        Some(t) => if blank(t) {
            None
        } else {
            s
        },
        None => None,
    }
}

/// Where a run begins: on the start node if it carries an opening prompt, and
/// otherwise on the first node that it leads to.
pub open spec fn entry_node(g: GraphV) -> Seq<char> {
    let opening = match g.node(g.start) {
        Some(n) => not_blank(n.data.str_at("prompt"@)),
        None => None,
    };
    if opening is None && g.outgoing(g.start).len() > 0 {
        g.outgoing(g.start)[0].target
    } else {
        g.start
    }
}

/// The names visited, with one more at the end unless it is there.
pub open spec fn with_visit(visited: Seq<Seq<char>>, name: Seq<char>) -> Seq<Seq<char>> {
    if visited.contains(name) {
        visited
    } else {
        visited.push(name)
    }
}

/// A new run, or why there is none.
pub open spec fn engine_of(spec_doc: JsonV, runtime_options: JsonV, seed: FieldsV) -> Result<
    EngineV,
    EngineErrorV,
> {
    match graph_of(spec_doc) {
        Err(e) => Err(EngineErrorV::Graph(e)),
        Ok(g) => Ok(
            EngineV {
                graph: g,
                current: entry_node(g),
                vars: seed,
                runtime_options,
                visited: seq![g.name(entry_node(g))],
            },
        ),
    }
}

/// What the model reads to choose an edge: its criteria, or else its label.
pub open spec fn edge_description(e: EdgeV) -> Option<Seq<char>> {
    let criteria = match either(e.data, "transition_criteria"@, "condition"@) {
        Some(v) => not_blank(v.as_str()),
        None => None,
    };
    match criteria {
        Some(c) => Some(c),
        None => e.label,
    }
}

/// The name of the `i`-th transition of a node: the slug of the edge's label, or
/// its number.
pub open spec fn edge_name(e: EdgeV, i: nat) -> Seq<char> {
    match e.label {
        Some(l) => slug(l),
        None => "transition_"@ + decimal(i),
    }
}

/// The transitions of a node's outgoing edges.
pub open spec fn transitions_of(edges: Seq<EdgeV>) -> Seq<TransitionSpecV> {
    Seq::new(
        edges.len(),
        |i: int|
            TransitionSpecV {
                name: edge_name(edges[i], i as nat),
                target: edges[i].target,
                description: edge_description(edges[i]),
            },
    )
}

/// The name of the `i`-th transfer target where the operator gives none.
pub open spec fn default_target_name(i: nat) -> Seq<char> {
    if i == 0 {
        "transfer_call"@
    } else {
        "transfer_call_"@ + decimal(i)
    }
}

/// The function name of a transfer target.
pub open spec fn target_name_of(t: JsonV, i: nat) -> Seq<char> {
    match t.str_at("name"@) {
        Some(n) => if n.len() > 0 {
            slug(n)
        } else {
            default_target_name(i)
        },
        None => default_target_name(i),
    }
}

/// A text of a transfer target, rendered against the variables.
pub open spec fn rendered_field(t: JsonV, key: Seq<char>, vars: FieldsV, now: i64) -> Option<
    Seq<char>,
> {
    match not_blank(t.str_at(key)) {
        Some(s) => Some(rendered(s, vars, now)),
        None => None,
    }
}

/// The number of a transfer target: as the operator wrote it, without white
/// space around it. There is none where that leaves nothing.
pub open spec fn phone_of(t: JsonV) -> Option<Seq<char>> {
    match t.str_at("target_phone"@) {
        Some(p) => if blank(p) {
            None
        } else {
            Some(trimmed(p))
        },
        None => None,
    }
}

/// Only `warm` asks for a warm transfer.
pub open spec fn mode_of(t: JsonV) -> TransferMode {
    if t.str_at("mode"@) == Some("warm"@) {
        TransferMode::Warm
    } else {
        TransferMode::Cold
    }
}

/// The `i`-th entry of a node's transfer targets; an entry without a number is
/// none.
pub open spec fn target_of(t: JsonV, i: nat, vars: FieldsV, now: i64) -> Option<TransferTargetV> {
    match phone_of(t) {
        Some(target_phone) => Some(
            TransferTargetV {
                name: target_name_of(t, i),
                target_phone,
                target_name: not_blank(t.str_at("target_name"@)),
                description: rendered_field(t, "description"@, vars, now),
                say: rendered_field(t, "say"@, vars, now),
                mode: mode_of(t),
            },
        ),
        None => None,
    }
}

/// The transfer targets of a list of entries, in order.
pub open spec fn targets_of(entries: Seq<JsonV>, vars: FieldsV, now: i64) -> Seq<TransferTargetV>
    decreases entries.len(),
{
    if entries.len() == 0 {
        Seq::empty()
    } else {
        let before = targets_of(entries.drop_last(), vars, now);
        match target_of(entries.last(), (entries.len() - 1) as nat, vars, now) {
            Some(t) => before.push(t),
            None => before,
        }
    }
}

/// The names of the targets.
pub open spec fn target_names(targets: Seq<TransferTargetV>) -> Seq<Seq<char>> {
    Seq::new(targets.len(), |i: int| targets[i].name)
}

/// The texts with `sep` between them.
pub open spec fn joined(parts: Seq<Seq<char>>, sep: Seq<char>) -> Seq<char>
    decreases parts.len(),
{
    if parts.len() == 0 {
        Seq::empty()
    } else if parts.len() == 1 {
        parts[0]
    } else {
        joined(parts.drop_last(), sep) + sep + parts.last()
    }
}

/// What the prompt says of the transfer targets, so that the model knows that it
/// can transfer and when to.
pub open spec fn escalation(targets: Seq<TransferTargetV>) -> Seq<char> {
    if targets.len() == 0 {
        Seq::empty()
    } else {
        "\n\n[Human escalation] If the caller asks to speak to a human, a person, an agent, a manager, or to be transferred: FIRST say one short sentence telling them you're connecting them to a human now and to please hold, THEN call the `"@
            + joined(target_names(targets), "` or `"@)
            + "` function. Never claim you are unable to transfer."@
    }
}

/// Whether a node takes the global directive: by default it does.
pub open spec fn inherits_global(data: JsonV) -> bool {
    match either(data, "add_global_prompt"@, "inherit_global_directive"@) {
        Some(v) => match v.as_bool() {
            Some(b) => b,
            None => true,
        },
        None => true,
    }
}

/// A node's own prompt under the global one.
pub open spec fn under(global: Seq<char>, own: Seq<char>) -> Seq<char> {
    if blank(global) {
        own
    } else if blank(own) {
        global
    } else {
        global + "\n\n"@ + own
    }
}

/// One variable that a node wants harvested from the conversation.
#[derive(Debug, Clone)]
pub struct ExtractionVar {
    pub name: String,
    pub var_type: VarType,
    /// A hint for this variable.
    pub hint: Option<String>,
}

/// The declared type of an extracted variable.
#[derive(Debug, Clone, Copy, PartialEq, Eq, Structural)]
pub enum VarType {
    String,
    Number,
    Boolean,
}

impl Default for VarType {
    fn default() -> (r: Self)
        ensures
            r == VarType::String,
    {
        VarType::String
    }
}

/// The view of an [`ExtractionVar`].
#[verifier::ext_equal]
pub struct ExtractionVarV {
    pub name: Seq<char>,
    pub var_type: VarType,
    pub hint: Option<Seq<char>>,
}

impl View for ExtractionVar {
    type V = ExtractionVarV;

    open spec fn view(&self) -> ExtractionVarV {
        ExtractionVarV { name: self.name@, var_type: self.var_type, hint: opt_string(self.hint) }
    }
}

/// A node's variable-extraction configuration.
#[derive(Debug, Clone)]
pub struct ExtractionSpec {
    /// The overall instruction.
    pub prompt: Option<String>,
    pub variables: Vec<ExtractionVar>,
}

/// The view of an [`ExtractionSpec`].
#[verifier::ext_equal]
pub struct ExtractionSpecV {
    pub prompt: Option<Seq<char>>,
    pub variables: Seq<ExtractionVarV>,
}

/// The views of a sequence of variables.
pub open spec fn variables_view(s: Seq<ExtractionVar>) -> Seq<ExtractionVarV> {
    Seq::new(s.len(), |i: int| s[i]@)
}

impl View for ExtractionSpec {
    type V = ExtractionSpecV;

    open spec fn view(&self) -> ExtractionSpecV {
        ExtractionSpecV {
            prompt: opt_string(self.prompt),
            variables: variables_view(self.variables@),
        }
    }
}

/// The type of a variable by its name.
pub open spec fn type_named(s: Seq<char>) -> Option<VarType> {
    if s == "string"@ {
        Some(VarType::String)
    } else if s == "number"@ {
        Some(VarType::Number)
    } else if s == "boolean"@ {
        Some(VarType::Boolean)
    } else {
        None
    }
}

/// The type of a variable, by default a string.
pub open spec fn type_of(j: Option<JsonV>) -> Option<VarType> {
    match j {
        Some(v) => match variant_of(v) {
            Ok(s) => type_named(s),
            Err(_) => None,
        },
        None => Some(VarType::String),
    }
}

/// The hint of a variable, by default none.
pub open spec fn hint_of(j: Option<JsonV>) -> Option<Option<Seq<char>>> {
    match j {
        Some(JsonV::Null) | None => Some(None),
        Some(JsonV::Str(s)) => Some(Some(s)),
        _ => None,
    }
}

/// The variable of its three parts, where each is in order.
pub open spec fn variable_from(
    name: Option<JsonV>,
    var_type: Option<JsonV>,
    hint: Option<JsonV>,
) -> Option<ExtractionVarV> {
    match (name, type_of(var_type), hint_of(hint)) {
        (Some(JsonV::Str(name)), Some(var_type), Some(hint)) => Some(
            ExtractionVarV { name, var_type, hint },
        ),
        _ => None,
    }
}

/// A declared variable: an object with `name`, `type` and `prompt`, or an array
/// of the three.
pub open spec fn variable_of(j: JsonV) -> Option<ExtractionVarV> {
    match j {
        JsonV::Object(m) => variable_from(j.get("name"@), j.get("type"@), j.get("prompt"@)),
        JsonV::Array(s) => if s.len() > 3 {
            None
        } else {
            variable_from(item(s, 0), item(s, 1), item(s, 2))
        },
        _ => None,
    }
}

/// The declared variables of a list; entries that are none are left out.
pub open spec fn variables_of(entries: Seq<JsonV>) -> Seq<ExtractionVarV>
    decreases entries.len(),
{
    if entries.len() == 0 {
        Seq::empty()
    } else {
        let before = variables_of(entries.drop_last());
        match variable_of(entries.last()) {
            Some(v) => before.push(v),
            None => before,
        }
    }
}

/// The strings of a list; anything else is left out.
pub open spec fn strings_of(entries: Seq<JsonV>) -> Seq<Seq<char>>
    decreases entries.len(),
{
    if entries.len() == 0 {
        Seq::empty()
    } else {
        let before = strings_of(entries.drop_last());
        match entries.last().as_str() {
            Some(s) => before.push(s),
            None => before,
        }
    }
}

/// The first transition of a name.
pub open spec fn first_named(ts: Seq<TransitionSpecV>, name: Seq<char>) -> Option<TransitionSpecV>
    decreases ts.len(),
{
    if ts.len() == 0 {
        None
    } else if ts[0].name == name {
        Some(ts[0])
    } else {
        first_named(ts.drop_first(), name)
    }
}

/// The first transfer target of a name.
pub open spec fn first_target(ts: Seq<TransferTargetV>, name: Seq<char>) -> Option<TransferTargetV>
    decreases ts.len(),
{
    if ts.len() == 0 {
        None
    } else if ts[0].name == name {
        Some(ts[0])
    } else {
        first_target(ts.drop_first(), name)
    }
}

/// What can change a run.
pub enum RunStep {
    /// The model calls a transition by name.
    Transition(Seq<char>),
    /// The run is seated at a node.
    Seat(Seq<char>),
    /// Extracted variables are merged in.
    Capture(FieldsV),
}

impl EngineV {
    /// The active node is a node of the graph and has been recorded; no name was
    /// recorded twice.
    pub open spec fn wf(self) -> bool {
        &&& self.graph.wf()
        &&& self.graph.node(self.current) is Some
        &&& self.visited.no_duplicates()
        &&& self.visited.contains(self.graph.name(self.current))
    }

    /// The data of the active node.
    pub open spec fn data(self) -> JsonV {
        match self.graph.node(self.current) {
            Some(n) => n.data,
            None => JsonV::Null,
        }
    }

    /// The same run on another node.
    pub open spec fn at(self, id: Seq<char>) -> EngineV {
        EngineV {
            current: id,
            visited: with_visit(self.visited, self.graph.name(id)),
            ..self
        }
    }

    pub open spec fn finished(self) -> bool {
        self.graph.terminal(self.current)
    }

    /// The transitions that can be called from the active node.
    pub open spec fn transitions(self) -> Seq<TransitionSpecV> {
        transitions_of(self.graph.outgoing(self.current))
    }

    /// The transfer targets of the active node.
    pub open spec fn transfer_targets(self, now: i64) -> Seq<TransferTargetV> {
        match self.data().array_at("transfer_targets"@) {
            Some(entries) => targets_of(entries, self.vars, now),
            None => Seq::empty(),
        }
    }

    /// The active node's own prompt.
    pub open spec fn own_prompt(self, now: i64) -> Seq<char> {
        let raw = match self.data().str_at("prompt"@) {
            Some(s) => s,
            None => ""@,
        };
        rendered(raw, self.vars, now)
    }

    /// The system prompt: the node's own one under the global directive where
    /// the node takes it, with what there is to say of transfers at the end.
    pub open spec fn system_prompt(self, now: i64) -> Seq<char> {
        let own = self.own_prompt(now);
        let full = if inherits_global(self.data()) {
            match self.graph.global_prompt() {
                Some(g) => under(rendered(g, self.vars, now), own),
                None => own,
            }
        } else {
            own
        };
        full + escalation(self.transfer_targets(now))
    }

    /// What the host configures the model with.
    pub open spec fn prompt(self, now: i64) -> NodePromptV {
        NodePromptV {
            node_id: self.current,
            system_prompt: self.system_prompt(now),
            transitions: self.transitions(),
            transfer_targets: self.transfer_targets(now),
        }
    }

    /// The run after the transition `name`.
    pub open spec fn after_transition(self, name: Seq<char>) -> EngineV {
        match first_named(self.transitions(), name) {
            Some(t) => self.at(t.target),
            None => self,
        }
    }

    /// The run after it was seated at a node; an unknown one leaves it where it is.
    pub open spec fn after_seat(self, id: Seq<char>) -> EngineV {
        if self.graph.node(id) is Some {
            self.at(id)
        } else {
            self
        }
    }

    /// The run after variables were merged in.
    pub open spec fn after_capture(self, vars: FieldsV) -> EngineV {
        EngineV { vars: self.vars.union_prefer_right(vars), ..self }
    }

    /// The run after one step.
    pub open spec fn after_step(self, step: RunStep) -> EngineV {
        match step {
            RunStep::Transition(name) => self.after_transition(name),
            RunStep::Seat(id) => self.after_seat(id),
            RunStep::Capture(vars) => self.after_capture(vars),
        }
    }

    /// The run after a series of steps.
    pub open spec fn after_steps(self, steps: Seq<RunStep>) -> EngineV
        decreases steps.len(),
    {
        if steps.len() == 0 {
            self
        } else {
            self.after_steps(steps.drop_last()).after_step(steps.last())
        }
    }

    /// What the host should do for the transition `name`.
    pub open spec fn transition_action(self, name: Seq<char>) -> ActionV {
        match first_named(self.transitions(), name) {
            Some(t) => if self.graph.terminal(t.target) {
                ActionV::End
            } else {
                ActionV::Transition { to_node: t.target, say: None }
            },
            None => ActionV::Stay,
        }
    }

    /// What the host should do for the transfer `name`.
    pub open spec fn transfer_action(self, name: Seq<char>, now: i64) -> ActionV {
        match first_target(self.transfer_targets(now), name) {
            Some(t) => ActionV::Transfer {
                target_phone: t.target_phone,
                target_name: t.target_name,
                say: t.say,
                mode: t.mode,
            },
            None => ActionV::Stay,
        }
    }

    /// The strings of a list in the active node's data.
    pub open spec fn string_list(self, key: Seq<char>) -> Seq<Seq<char>> {
        match self.data().array_at(key) {
            Some(entries) => strings_of(entries),
            None => Seq::empty(),
        }
    }

    /// The variables that the active node declares.
    pub open spec fn declared(self) -> Seq<ExtractionVarV> {
        match self.data().array_at("extraction_variables"@) {
            Some(entries) => variables_of(entries),
            None => Seq::empty(),
        }
    }

    /// The extraction configuration of the active node, where extraction is
    /// enabled and a variable is declared.
    pub open spec fn extraction(self) -> Option<ExtractionSpecV> {
        if self.data().bool_at("extraction_enabled"@) == Some(true) && self.declared().len() > 0 {
            Some(
                ExtractionSpecV {
                    prompt: not_blank(self.data().str_at("extraction_prompt"@)),
                    variables: self.declared(),
                },
            )
        } else {
            None
        }
    }

    /// What is needed to resume the run.
    pub open spec fn snapshot(self) -> JsonV {
        JsonV::Object(
            Map::<Seq<char>, JsonV>::empty().insert("current"@, JsonV::Str(self.current)).insert(
                "vars"@,
                JsonV::Object(self.vars),
            ).insert("runtime_options"@, self.runtime_options),
        )
    }
}

// ── Reading node data ─────────────────────────────────────────────────────

fn either_of<'a>(data: &'a Json, first: &str, second: &str) -> (r: Option<&'a Json>)
    ensures
        opt_tree(r) == either(data@, first@, second@),
{
    match data.get(first) {
        Some(v) => Some(v),
        None => data.get(second),
    }
}

fn keep_not_blank(s: Option<&str>) -> (r: Option<String>)
    ensures
        opt_string(r) == not_blank(opt_text(s)),
{
    match s {
        Some(t) => if is_blank(t) {
            None
        } else {
            Some(String::from_str(t))
        },
        None => None,
    }
}

fn describe(e: &Edge) -> (r: Option<String>)
    ensures
        opt_string(r) == edge_description(e@),
{
    let criteria: Option<String> = match either_of(&e.data, "transition_criteria", "condition") {
        Some(v) => keep_not_blank(v.as_str()),
        None => None,
    };
    match criteria {
        Some(c) => Some(c),
        None => match &e.label {
            Some(l) => Some(l.clone()),
            None => None,
        },
    }
}

fn transitions_from(edges: Vec<&Edge>) -> (r: Vec<TransitionSpec>)
    ensures
        transitions_view(r@) == transitions_of(edge_refs_view(edges@)),
{
    let ghost es = edge_refs_view(edges@);
    let mut out: Vec<TransitionSpec> = Vec::new();
    let mut i: usize = 0;
    while i < edges.len()
        invariant
            i <= edges@.len(),
            es == edge_refs_view(edges@),
            transitions_view(out@) == transitions_of(es).take(i as int),
        decreases edges@.len() - i,
    {
        let e: &Edge = edges[i];
        let name: String = match &e.label {
            Some(l) => slugify(l.as_str()),
            None => join2("transition_", decimal_text(i as u64).as_str()),
        };
        let ghost before = out@;
        out.push(TransitionSpec { name, target: e.target.clone(), description: describe(e) });
        proof {
            assert(es[i as int] == e@);
            assert(transitions_view(out@) =~= transitions_view(before).push(
                transitions_of(es)[i as int],
            ));
            assert(transitions_of(es).take(i + 1) =~= transitions_of(es).take(i as int).push(
                transitions_of(es)[i as int],
            ));
        }
        i += 1;
    }
    assert(transitions_of(es).take(i as int) =~= transitions_of(es));
    out
}

fn render_field(t: &Json, key: &str, vars: &JsonMap, now: i64) -> (r: Option<String>)
    requires
        calendar(now),
    ensures
        opt_string(r) == rendered_field(t@, key@, vars@, now),
{
    match keep_not_blank(t.str_at(key)) {
        Some(s) => Some(var_interpolate_at(s.as_str(), vars, now)),
        None => None,
    }
}

fn read_target(t: &Json, i: usize, vars: &JsonMap, now: i64) -> (r: Option<TransferTarget>)
    requires
        calendar(now),
    ensures
        match r {
            Some(x) => target_of(t@, i as nat, vars@, now) == Some(x@),
            None => target_of(t@, i as nat, vars@, now) is None,
        },
{
    let target_phone: String = match t.str_at("target_phone") {
        Some(p) => if is_blank(p) {
            return None;
        } else {
            trim(p)
        },
        None => return None,
    };
    let given: String = match t.str_at("name") {
        Some(n) => slugify(n),
        None => String::new(),
    };
    let name: String = if !given.as_str().is_empty() {
        given
    } else if i == 0 {
        String::from_str("transfer_call")
    } else {
        join2("transfer_call_", decimal_text(i as u64).as_str())
    };
    let mode: TransferMode = match t.str_at("mode") {
        Some(m) => if same(m, "warm") {
            TransferMode::Warm
        } else {
            TransferMode::Cold
        },
        None => TransferMode::Cold,
    };
    Some(
        TransferTarget {
            name,
            target_phone,
            target_name: keep_not_blank(t.str_at("target_name")),
            description: render_field(t, "description", vars, now),
            say: render_field(t, "say", vars, now),
            mode,
        },
    )
}

fn read_targets(entries: &Vec<Json>, vars: &JsonMap, now: i64) -> (r: Vec<TransferTarget>)
    requires
        calendar(now),
    ensures
        targets_view(r@) == targets_of(trees(entries@), vars@, now),
{
    let ghost s = trees(entries@);
    let mut out: Vec<TransferTarget> = Vec::new();
    let mut i: usize = 0;
    proof {
        trees_len(entries@);
        assert(targets_view(out@) =~= targets_of(s.take(0), vars@, now));
    }
    while i < entries.len()
        invariant
            i <= entries@.len(),
            s == trees(entries@),
            s.len() == entries@.len(),
            calendar(now),
            targets_view(out@) == targets_of(s.take(i as int), vars@, now),
        decreases entries@.len() - i,
    {
        proof {
            trees_index(entries@, i as int);
            assert(s.take(i + 1).drop_last() =~= s.take(i as int));
        }
        if let Some(t) = read_target(&entries[i], i, vars, now) {
            let ghost before = out@;
            out.push(t);
            assert(targets_view(out@) =~= targets_view(before).push(t@));
        }
        i += 1;
    }
    assert(s.take(i as int) =~= s);
    out
}

fn join_names(targets: &Vec<TransferTarget>, sep: &str) -> (r: String)
    ensures
        r@ == joined(target_names(targets_view(targets@)), sep@),
{
    let ghost names = target_names(targets_view(targets@));
    let mut out: String = String::new();
    let mut i: usize = 0;
    assert(out@ =~= joined(names.take(0), sep@));
    while i < targets.len()
        invariant
            i <= targets@.len(),
            names == target_names(targets_view(targets@)),
            out@ == joined(names.take(i as int), sep@),
        decreases targets@.len() - i,
    {
        assert(names.take(i + 1).drop_last() =~= names.take(i as int));
        if i > 0 {
            out.append(sep);
        }
        out.append(targets[i].name.as_str());
        assert(out@ =~= joined(names.take(i + 1), sep@));
        i += 1;
    }
    assert(names.take(i as int) =~= names);
    out
}

fn read_type(j: Option<&Json>) -> (r: Option<VarType>)
    ensures
        r == type_of(opt_tree(j)),
{
    match j {
        Some(v) => match read_variant(v) {
            Ok(s) => if same(s.as_str(), "string") {
                Some(VarType::String)
            } else if same(s.as_str(), "number") {
                Some(VarType::Number)
            } else if same(s.as_str(), "boolean") {
                Some(VarType::Boolean)
            } else {
                None
            },
            Err(_) => None,
        },
        None => Some(VarType::String),
    }
}

fn read_variable_from(name: Option<&Json>, var_type: Option<&Json>, hint: Option<&Json>) -> (r:
    Option<ExtractionVar>)
    ensures
        match r {
            Some(v) => variable_from(opt_tree(name), opt_tree(var_type), opt_tree(hint)) == Some(v@),
            None => variable_from(opt_tree(name), opt_tree(var_type), opt_tree(hint)) is None,
        },
{
    broadcast use crate::json::group_json;

    let name: String = match name {
        Some(Json::Str(s)) => s.clone(),
        _ => return None,
    };
    let var_type: VarType = match read_type(var_type) {
        Some(t) => t,
        None => return None,
    };
    let hint: Option<String> = match hint {
        Some(Json::Null) | None => None,
        Some(Json::Str(s)) => Some(s.clone()),
        _ => return None,
    };
    Some(ExtractionVar { name, var_type, hint })
}

impl ExtractionVar {
    /// The declared variable that a JSON value stands for.
    pub fn decode(j: &Json) -> (r: Option<ExtractionVar>)
        ensures
            match r {
                Some(v) => variable_of(j@) == Some(v@),
                None => variable_of(j@) is None,
            },
    {
        broadcast use crate::json::group_json;

        match j {
            Json::Object(m) => read_variable_from(m.get("name"), m.get("type"), m.get("prompt")),
            Json::Array(v) => if v.len() > 3 {
                None
            } else {
                read_variable_from(item_of(v, 0), item_of(v, 1), item_of(v, 2))
            },
            _ => None,
        }
    }
}

fn read_variables(entries: &Vec<Json>) -> (r: Vec<ExtractionVar>)
    ensures
        variables_view(r@) == variables_of(trees(entries@)),
{
    let ghost s = trees(entries@);
    let mut out: Vec<ExtractionVar> = Vec::new();
    let mut i: usize = 0;
    proof {
        trees_len(entries@);
        assert(variables_view(out@) =~= variables_of(s.take(0)));
    }
    while i < entries.len()
        invariant
            i <= entries@.len(),
            s == trees(entries@),
            s.len() == entries@.len(),
            variables_view(out@) == variables_of(s.take(i as int)),
        decreases entries@.len() - i,
    {
        proof {
            trees_index(entries@, i as int);
            assert(s.take(i + 1).drop_last() =~= s.take(i as int));
        }
        if let Some(v) = ExtractionVar::decode(&entries[i]) {
            let ghost before = out@;
            out.push(v);
            assert(variables_view(out@) =~= variables_view(before).push(v@));
        }
        i += 1;
    }
    assert(s.take(i as int) =~= s);
    out
}

fn read_strings(entries: &Vec<Json>) -> (r: Vec<String>)
    ensures
        texts(r@) == strings_of(trees(entries@)),
{
    let ghost s = trees(entries@);
    let mut out: Vec<String> = Vec::new();
    let mut i: usize = 0;
    proof {
        trees_len(entries@);
        assert(texts(out@) =~= strings_of(s.take(0)));
    }
    while i < entries.len()
        invariant
            i <= entries@.len(),
            s == trees(entries@),
            s.len() == entries@.len(),
            texts(out@) == strings_of(s.take(i as int)),
        decreases entries@.len() - i,
    {
        proof {
            trees_index(entries@, i as int);
            assert(s.take(i + 1).drop_last() =~= s.take(i as int));
        }
        if let Some(t) = entries[i].as_str() {
            let ghost before = out@;
            out.push(String::from_str(t));
            assert(texts(out@) =~= texts(before).push(t@));
        }
        i += 1;
    }
    assert(s.take(i as int) =~= s);
    out
}

// ── The engine ────────────────────────────────────────────────────────────

/// The stateful engine of one run.
pub struct Engine {
    graph: Graph,
    current: String,
    pub vars: JsonMap,
    runtime_options: Json,
    /// The display names of the nodes that the run has been active on, in the
    /// order of the first visit and without duplicates.
    visited: Vec<String>,
}

impl View for Engine {
    type V = EngineV;

    closed spec fn view(&self) -> EngineV {
        EngineV {
            graph: self.graph@,
            current: self.current@,
            vars: self.vars@,
            runtime_options: self.runtime_options@,
            visited: texts(self.visited@),
        }
    }
}

/// A new engine agrees with its model.
pub open spec fn engine_result(r: Result<Engine, EngineError>, v: Result<EngineV, EngineErrorV>) -> bool {
    match (r, v) {
        (Ok(a), Ok(b)) => a@ == b && a.wf(),
        (Err(a), Err(b)) => a@ == b,
        _ => false,
    }
}

/// Whether `name` is among the names.
fn has_name(names: &Vec<String>, name: &str) -> (r: bool)
    ensures
        r == texts(names@).contains(name@),
{
    let mut i: usize = 0;
    while i < names.len()
        invariant
            i <= names@.len(),
            forall|k: int| 0 <= k < i ==> texts(names@)[k] != name@,
        decreases names@.len() - i,
    {
        if same(names[i].as_str(), name) {
            assert(texts(names@)[i as int] == name@);
            return true;
        }
        i += 1;
    }
    false
}

impl Engine {
    /// The invariant of a run.
    pub closed spec fn wf(&self) -> bool {
        &&& self.graph.wf()
        &&& self@.wf()
    }

    /// A well-formed engine has a well-formed view.
    pub proof fn wf_view(&self)
        requires
            self.wf(),
        ensures
            self@.wf(),
    {
    }

    /// Builds a run from the graph document, the runtime options and the seed
    /// variables.
    pub fn new(graph_spec: &Json, runtime_options: Json, seed_vars: JsonMap) -> (r: Result<
        Engine,
        EngineError,
    >)
        ensures
            engine_result(r, engine_of(graph_spec@, runtime_options@, seed_vars@)),
    {
        let graph: Graph = match Graph::parse(graph_spec) {
            Ok(g) => g,
            Err(e) => return Err(EngineError::Graph(e)),
        };
        let ghost g = graph@;
        let current: String = advance_through_start(&graph);
        let name: String = graph.node_name(current.as_str());
        let mut visited: Vec<String> = Vec::new();
        visited.push(name);
        proof {
            graph.wf_view();
            entry_is_known(g);
            assert(texts(visited@) =~= seq![g.name(entry_node(g))]);
            assert(texts(visited@)[0] == g.name(entry_node(g)));
        }
        Ok(Engine { graph, current, vars: seed_vars, runtime_options, visited })
    }

    /// Moves to a node and records the visit.
    fn move_to(&mut self, id: String)
        requires
            old(self).wf(),
            old(self)@.graph.node(id@) is Some,
        ensures
            final(self).wf(),
            final(self)@ == old(self)@.at(id@),
    {
        let name: String = self.graph.node_name(id.as_str());
        let ghost before = self@.visited;
        self.current = id;
        if !has_name(&self.visited, name.as_str()) {
            let ghost was = self.visited@;
            self.visited.push(name);
            proof {
                assert(texts(self.visited@) =~= texts(was).push(name@));
                assert(texts(self.visited@)[was.len() as int] == name@);
            }
        }
        proof {
            visit_keeps_distinct(before, name@);
            assert(self@ =~= old(self)@.at(id@));
        }
    }

    /// Seats the engine at a node, to resume after a restart.
    pub fn set_current_node(&mut self, node_id: &str) -> (r: Result<(), EngineError>)
        requires
            old(self).wf(),
        ensures
            final(self).wf(),
            final(self)@ == old(self)@.after_seat(node_id@),
            match r {
                Ok(_) => old(self)@.graph.node(node_id@) is Some,
                Err(e) => old(self)@.graph.node(node_id@) is None && e@
                    == EngineErrorV::UnknownNode(node_id@),
            },
    {
        if self.graph.node(node_id).is_some() {
            self.move_to(String::from_str(node_id));
            Ok(())
        } else {
            Err(EngineError::UnknownNode(String::from_str(node_id)))
        }
    }

    /// The id of the active node.
    pub fn current_node(&self) -> (r: &str)
        ensures
            r@ == self@.current,
    {
        self.current.as_str()
    }

    /// The active node's id, display name and `allow_interrupt` flag.
    pub fn current_node_info(&self) -> (r: NodeInfo)
        ensures
            r.id@ == self@.current,
            r.name@ == self@.graph.name(self@.current),
            r.allow_interrupt == (match either(
                self@.data(),
                "allow_interrupt"@,
                "allowInterrupt"@,
            ) {
                Some(v) => v.as_bool(),
                None => None,
            }),
    {
        let allow_interrupt: Option<bool> = match self.graph.node(self.current.as_str()) {
            Some(n) => match either_of(&n.data, "allow_interrupt", "allowInterrupt") {
                Some(v) => v.as_bool(),
                None => None,
            },
            None => None,
        };
        NodeInfo {
            id: self.current.clone(),
            name: self.graph.node_name(self.current.as_str()),
            allow_interrupt,
        }
    }

    /// The display names of the nodes visited, in the order of the first visit.
    pub fn visited_nodes(&self) -> (r: &[String])
        ensures
            texts(r@) == self@.visited,
    {
        self.visited.as_slice()
    }

    /// Whether the run is over.
    pub fn is_finished(&self) -> (r: bool)
        ensures
            r == self@.finished(),
    {
        self.graph.is_terminal(self.current.as_str())
    }

    /// The transitions that can be called from the active node.
    pub fn transitions(&self) -> (r: Vec<TransitionSpec>)
        requires
            self.wf(),
        ensures
            transitions_view(r@) == self@.transitions(),
    {
        transitions_from(self.graph.outgoing(self.current.as_str()))
    }

    /// The transfer targets of the active node at an explicit instant.
    fn transfer_targets_at(&self, now: i64) -> (r: Vec<TransferTarget>)
        requires
            calendar(now),
        ensures
            targets_view(r@) == self@.transfer_targets(now),
    {
        if let Some(n) = self.graph.node(self.current.as_str()) {
            if let Some(entries) = n.data.array_at("transfer_targets") {
                return read_targets(entries, &self.vars, now);
            }
        }
        let out: Vec<TransferTarget> = Vec::new();
        assert(targets_view(out@) =~= Seq::<TransferTargetV>::empty());
        out
    }

    /// The prompt, transitions and transfer targets of the active node at an
    /// explicit instant.
    pub fn current_prompt_at(&self, now: i64) -> (r: NodePrompt)
        requires
            self.wf(),
            calendar(now),
        ensures
            r@ == self@.prompt(now),
    {
        let node: Option<&Node> = self.graph.node(self.current.as_str());
        let raw: &str = match node {
            Some(n) => match n.data.str_at("prompt") {
                Some(s) => s,
                None => "",
            },
            None => "",
        };
        let mut system_prompt: String = var_interpolate_at(raw, &self.vars, now);
        let inherit_global: bool = match node {
            Some(n) => match either_of(&n.data, "add_global_prompt", "inherit_global_directive") {
                Some(v) => match v.as_bool() {
                    Some(b) => b,
                    None => true,
                },
                None => true,
            },
            None => true,
        };
        if inherit_global {
            if let Some(global_raw) = self.graph.global_prompt() {
                let global: String = var_interpolate_at(global_raw, &self.vars, now);
                if !is_blank(global.as_str()) {
                    system_prompt = if is_blank(system_prompt.as_str()) {
                        global
                    } else {
                        join3(global.as_str(), "\n\n", system_prompt.as_str())
                    };
                }
            }
        }
        let transitions: Vec<TransitionSpec> = self.transitions();
        let transfer_targets: Vec<TransferTarget> = self.transfer_targets_at(now);
        let ghost before = system_prompt@;
        if transfer_targets.len() > 0 {
            system_prompt.append(
                "\n\n[Human escalation] If the caller asks to speak to a human, a person, an agent, a manager, or to be transferred: FIRST say one short sentence telling them you're connecting them to a human now and to please hold, THEN call the `",
            );
            system_prompt.append(join_names(&transfer_targets, "` or `").as_str());
            system_prompt.append("` function. Never claim you are unable to transfer.");
        }
        assert(system_prompt@ =~= before + escalation(targets_view(transfer_targets@)));
        NodePrompt { node_id: self.current.clone(), system_prompt, transitions, transfer_targets }
    }

    /// The prompt, transitions and transfer targets of the active node now.
    pub fn current_prompt(&self) -> (r: NodePrompt)
        requires
            self.wf(),
        ensures
            exists|now: i64| calendar(now) && r@ == #[trigger] self@.prompt(now),
    {
        let now: i64 = unix_now();
        self.current_prompt_at(now)
    }

    /// Takes the transition that the model called by name. An unknown name keeps
    /// the engine where it is.
    pub fn on_transition(&mut self, name: &str) -> (r: Action)
        requires
            old(self).wf(),
        ensures
            final(self).wf(),
            final(self)@ == old(self)@.after_transition(name@),
            r@ == old(self)@.transition_action(name@),
    {
        let specs: Vec<TransitionSpec> = self.transitions();
        let ghost ts = transitions_view(specs@);
        let mut i: usize = 0;
        assert(ts.skip(0) =~= ts);
        while i < specs.len()
            invariant
                i <= specs@.len(),
                self.wf(),
                self@ == old(self)@,
                ts == transitions_view(specs@),
                ts == self@.transitions(),
                first_named(ts.skip(i as int), name@) == first_named(ts, name@),
            decreases specs@.len() - i,
        {
            assert(ts.skip(i as int)[0] == specs@[i as int]@);
            assert(ts.skip(i as int).drop_first() =~= ts.skip(i + 1));
            if same(specs[i].name.as_str(), name) {
                let to: String = specs[i].target.clone();
                proof {
                    self.wf_view();
                    outgoing_leads_to_nodes(self@.graph, self@.current, i as int);
                }
                self.move_to(to.clone());
                return if self.is_finished() {
                    Action::End
                } else {
                    Action::Transition { to_node: to, say: None }
                };
            }
            i += 1;
        }
        Action::Stay
    }

    /// Looks up the transfer that the model called by name, at an explicit
    /// instant.
    pub fn on_transfer_at(&self, name: &str, now: i64) -> (r: Action)
        requires
            calendar(now),
        ensures
            r@ == self@.transfer_action(name@, now),
    {
        let targets: Vec<TransferTarget> = self.transfer_targets_at(now);
        let ghost ts = targets_view(targets@);
        assert(ts.skip(0) =~= ts);
        for t in iter: targets
            invariant
                ts == targets_view(iter.seq()),
                ts == self@.transfer_targets(now),
                first_target(ts.skip(iter.index()), name@) == first_target(ts, name@),
        {
            let ghost i = iter.index();
            assert(ts.skip(i)[0] == t@);
            assert(ts.skip(i).drop_first() =~= ts.skip(i + 1));
            if same(t.name.as_str(), name) {
                return Action::Transfer {
                    target_phone: t.target_phone,
                    target_name: t.target_name,
                    say: t.say,
                    mode: t.mode,
                };
            }
        }
        Action::Stay
    }

    /// Looks up the transfer that the model called by name. The active node stays
    /// as it is: the session ends through the media path.
    pub fn on_transfer(&self, name: &str) -> (r: Action)
        ensures
            exists|now: i64| calendar(now) && r@ == #[trigger] self@.transfer_action(name@, now),
    {
        let now: i64 = unix_now();
        self.on_transfer_at(name, now)
    }

    /// The active node's extraction configuration, if extraction is enabled and a
    /// variable is declared.
    pub fn extraction_spec(&self) -> (r: Option<ExtractionSpec>)
        ensures
            match r {
                Some(x) => self@.extraction() == Some(x@),
                None => self@.extraction() is None,
            },
    {
        let node: &Node = match self.graph.node(self.current.as_str()) {
            Some(n) => n,
            None => return None,
        };
        let enabled: bool = match node.data.bool_at("extraction_enabled") {
            Some(b) => b,
            None => false,
        };
        if !enabled {
            return None;
        }
        let variables: Vec<ExtractionVar> = match node.data.array_at("extraction_variables") {
            Some(entries) => read_variables(entries),
            None => return None,
        };
        if variables.len() == 0 {
            return None;
        }
        let prompt: Option<String> = keep_not_blank(node.data.str_at("extraction_prompt"));
        Some(ExtractionSpec { prompt, variables })
    }

    /// The ids of the tools that the active node enables.
    pub fn tool_refs(&self) -> (r: Vec<String>)
        ensures
            texts(r@) == self@.string_list("tool_uuids"@),
    {
        self.string_array_field("tool_uuids")
    }

    /// The ids of the documents that the active node attaches.
    pub fn document_refs(&self) -> (r: Vec<String>)
        ensures
            texts(r@) == self@.string_list("document_uuids"@),
    {
        self.string_array_field("document_uuids")
    }

    /// The strings of a list in the active node's data.
    fn string_array_field(&self, key: &str) -> (r: Vec<String>)
        ensures
            texts(r@) == self@.string_list(key@),
    {
        if let Some(n) = self.graph.node(self.current.as_str()) {
            if let Some(entries) = n.data.array_at(key) {
                return read_strings(entries);
            }
        }
        let out: Vec<String> = Vec::new();
        assert(texts(out@) =~= Seq::<Seq<char>>::empty());
        out
    }

    /// Merges extracted variables into the run; a new value takes the place of an
    /// old one.
    pub fn capture(&mut self, vars: JsonMap)
        ensures
            old(self).wf() ==> final(self).wf(),
            final(self)@ == old(self)@.after_capture(vars@),
    {
        self.vars.extend(vars);
    }

    /// What is needed to resume the run later.
    pub fn snapshot(&self) -> (r: Json)
        ensures
            r@ == self@.snapshot(),
    {
        broadcast use crate::json::group_json;

        let mut m: JsonMap = JsonMap::new();
        m.insert(String::from_str("current"), Json::Str(self.current.clone()));
        m.insert(String::from_str("vars"), Json::Object(self.vars.clone()));
        m.insert(String::from_str("runtime_options"), self.runtime_options.clone());
        Json::Object(m)
    }
}

/// Where a run begins.
fn advance_through_start(graph: &Graph) -> (r: String)
    requires
        graph.wf(),
    ensures
        r@ == entry_node(graph@),
{
    let has_prompt: bool = match graph.node(graph.start_node()) {
        Some(n) => match n.data.str_at("prompt") {
            Some(s) => !is_blank(s),
            None => false,
        },
        None => false,
    };
    let out: Vec<&Edge> = graph.outgoing(graph.start_node());
    if !has_prompt && out.len() > 0 {
        out[0].target.clone()
    } else {
        String::from_str(graph.start_node())
    }
}

/// A run begins on a node of the graph.
proof fn entry_is_known(g: GraphV)
    requires
        g.wf(),
    ensures
        g.node(entry_node(g)) is Some,
{
    first_of_is_known(g.nodes, NodeKind::Start);
    place_is_known(g.nodes, g.start);
    if g.outgoing(g.start).len() > 0 {
        outgoing_leads_to_nodes(g, g.start, 0);
    }
}

/// Recording a visit keeps the names distinct.
proof fn visit_keeps_distinct(visited: Seq<Seq<char>>, name: Seq<char>)
    requires
        visited.no_duplicates(),
    ensures
        with_visit(visited, name).no_duplicates(),
        with_visit(visited, name).contains(name),
{
    if !visited.contains(name) {
        let w = visited.push(name);
        assert(w[visited.len() as int] == name);
        assert forall|i: int, j: int| 0 <= i < w.len() && 0 <= j < w.len() && i != j implies w[i]
            != w[j] by {
            if i < visited.len() {
                assert(visited.contains(visited[i]));
            }
            if j < visited.len() {
                assert(visited.contains(visited[j]));
            }
        }
    }
}

// ── Validation ────────────────────────────────────────────────────────────

/// The findings on a graph document: those on the edges of its nodes, or the one
/// reason for which it cannot be parsed.
pub open spec fn validation_of(j: JsonV) -> Seq<ValidationErrorV> {
    match graph_of(j) {
        Ok(g) => g.cardinality_errors(),
        Err(e) => seq![ValidationErrorV { kind: "graph"@, id: None, message: e.message() }],
    }
}

/// Validates a graph document without building a run: it parses, has a start
/// node and no dangling edge.
pub fn validate(graph_spec: &Json) -> (r: Result<(), EngineError>)
    ensures
        match r {
            Ok(_) => graph_of(graph_spec@) is Ok,
            Err(e) => graph_of(graph_spec@) matches Err(g) && e@ == EngineErrorV::Graph(g),
        },
{
    match Graph::parse(graph_spec) {
        Ok(_) => Ok(()),
        Err(e) => Err(EngineError::Graph(e)),
    }
}

/// Validates a graph document for an editor, with the edge-cardinality rules. An
/// empty result means that the document is valid.
pub fn validate_detailed(graph_spec: &Json) -> (r: Vec<ValidationError>)
    ensures
        findings(r@) == validation_of(graph_spec@),
{
    match Graph::parse(graph_spec) {
        Ok(graph) => graph.cardinality_errors(),
        Err(e) => {
            let mut out: Vec<ValidationError> = Vec::new();
            out.push(ValidationError { kind: "graph", id: None, message: e.message() });
            assert(findings(out@) =~= validation_of(graph_spec@));
            out
        },
    }
}

/// Extraction configuration by node id.
pub type ExtractionRules = JsonMap;

// ── Laws ──────────────────────────────────────────────────────────────────

/// The variables of a run are seen as they are.
proof fn variables_are_seen_whole(e: Engine)
    ensures
        e@.vars == e.vars@,
{
}

/// A slug is as long as its label and is its own slug.
pub proof fn slug_is_stable(s: Seq<char>)
    ensures
        slug(s).len() == s.len(),
        slug(slug(s)) == slug(s),
{
    assert forall|i: int| 0 <= i < s.len() implies #[trigger] slug(slug(s))[i] == slug(s)[i] by {
        assert(slug(s)[i] == if kept_in_slug(s[i]) {
            ascii_lower(s[i])
        } else {
            '_'
        });
    }
    assert(slug(slug(s)) =~= slug(s));
}

/// A slug holds no ASCII capital.
pub proof fn slug_has_no_capital(s: Seq<char>, i: int)
    requires
        0 <= i < s.len(),
    ensures
        !is_ascii_upper(slug(s)[i]),
{
}

/// Every new run is in order: it stands on a node of its graph, which is the one
/// node recorded.
pub proof fn new_run_is_in_order(spec_doc: JsonV, runtime_options: JsonV, seed: FieldsV)
    ensures
        engine_of(spec_doc, runtime_options, seed) matches Ok(e) ==> e.wf() && e.visited.len() == 1,
{
    parsed_graph_is_runnable(spec_doc);
    if let Ok(g) = graph_of(spec_doc) {
        entry_is_known(g);
        assert(seq![g.name(entry_node(g))][0] == g.name(entry_node(g)));
    }
}

/// Neither the variables nor the time can change where a transfer leads: its
/// function name, number, display name and mode are those of the configuration.
pub proof fn transfers_are_pinned(
    entries: Seq<JsonV>,
    vars1: FieldsV,
    now1: i64,
    vars2: FieldsV,
    now2: i64,
)
    ensures
        targets_of(entries, vars1, now1).len() == targets_of(entries, vars2, now2).len(),
        forall|i: int|
            #![trigger targets_of(entries, vars1, now1)[i]]
            0 <= i < targets_of(entries, vars1, now1).len() ==> {
                let a = targets_of(entries, vars1, now1)[i];
                let b = targets_of(entries, vars2, now2)[i];
                &&& a.name == b.name
                &&& a.target_phone == b.target_phone
                &&& a.target_name == b.target_name
                &&& a.mode == b.mode
            },
    decreases entries.len(),
{
    if entries.len() > 0 {
        transfers_are_pinned(entries.drop_last(), vars1, now1, vars2, now2);
    }
}

/// Every number that a node can transfer to is written in its configuration.
pub proof fn transfer_numbers_are_configured(
    entries: Seq<JsonV>,
    vars: FieldsV,
    now: i64,
    i: int,
)
    requires
        0 <= i < targets_of(entries, vars, now).len(),
    ensures
        exists|k: int|
            0 <= k < entries.len() && phone_of(#[trigger] entries[k]) == Some(
                targets_of(entries, vars, now)[i].target_phone,
            ),
    decreases entries.len(),
{
    let r = entries.drop_last();
    let before = targets_of(r, vars, now);
    if i < before.len() {
        transfer_numbers_are_configured(r, vars, now, i);
        let k = choose|k: int|
            0 <= k < r.len() && phone_of(#[trigger] r[k]) == Some(before[i].target_phone);
        assert(entries[k] == r[k]);
    } else {
        assert(entries[entries.len() - 1] == entries.last());
    }
}

/// A transfer never goes to a number that the node's configuration does not
/// name, whatever the run has collected.
pub proof fn transfer_goes_to_a_configured_number(e: EngineV, name: Seq<char>, now: i64)
    ensures
        e.transfer_action(name, now) matches ActionV::Transfer { target_phone, .. } ==> {
            &&& e.data().array_at("transfer_targets"@) is Some
            &&& exists|k: int|
                0 <= k < e.data().array_at("transfer_targets"@)->Some_0.len() && phone_of(
                    #[trigger] e.data().array_at("transfer_targets"@)->Some_0[k],
                ) == Some(target_phone)
        },
{
    let ts = e.transfer_targets(now);
    first_target_is_one(ts, name);
    if let Some(t) = first_target(ts, name) {
        let i = choose|i: int| 0 <= i < ts.len() && #[trigger] ts[i] == t;
        transfer_numbers_are_configured(
            e.data().array_at("transfer_targets"@)->Some_0,
            e.vars,
            now,
            i,
        );
    }
}

proof fn first_target_is_one(ts: Seq<TransferTargetV>, name: Seq<char>)
    ensures
        first_target(ts, name) matches Some(t) ==> t.name == name && exists|i: int|
            0 <= i < ts.len() && #[trigger] ts[i] == t,
    decreases ts.len(),
{
    if ts.len() > 0 && ts[0].name != name {
        let r = ts.drop_first();
        first_target_is_one(r, name);
        if let Some(t) = first_target(r, name) {
            let i = choose|i: int| 0 <= i < r.len() && #[trigger] r[i] == t;
            assert(ts[i + 1] == t);
        }
    } else if ts.len() > 0 {
        assert(ts[0] == ts[0]);
    }
}

/// A call of an unknown transition changes nothing; a known one moves to its
/// target, and ends the session exactly where that is terminal.
pub proof fn transition_moves_or_stays(e: EngineV, name: Seq<char>)
    ensures
        match first_named(e.transitions(), name) {
            None => e.after_transition(name) == e && e.transition_action(name) is Stay,
            Some(t) => {
                &&& e.after_transition(name).current == t.target
                &&& e.transition_action(name) is End <==> e.after_transition(name).finished()
                &&& e.transition_action(name) is Transition <==> !e.after_transition(name).finished()
            },
        },
{
}

/// The names visited only grow: what was recorded stays, in order.
pub proof fn visits_only_grow(e: EngineV, id: Seq<char>)
    ensures
        e.visited.is_prefix_of(e.at(id).visited),
        e.at(id).visited.len() <= e.visited.len() + 1,
{
    assert(e.visited =~= e.at(id).visited.take(e.visited.len() as int));
}

/// Whatever transitions the model calls, wherever the run is seated and whatever it
/// collects, it stays in order: it stands on a node of its graph, no name is
/// recorded twice, and neither a name nor a variable is lost. The graph and the
/// options stay as they are, and so do the variables where none are merged in.
pub proof fn runs_stay_in_order(e: EngineV, steps: Seq<RunStep>)
    requires
        e.wf(),
    ensures
        ({
            let after = e.after_steps(steps);
            &&& after.wf()
            &&& after.graph == e.graph
            &&& after.runtime_options == e.runtime_options
            &&& e.visited.is_prefix_of(after.visited)
            &&& e.vars.dom().subset_of(after.vars.dom())
            &&& (forall|i: int| 0 <= i < steps.len() ==> !(#[trigger] steps[i] is Capture))
                ==> after.vars == e.vars
        }),
    decreases steps.len(),
{
    if steps.len() > 0 {
        let rest = steps.drop_last();
        runs_stay_in_order(e, rest);
        let before = e.after_steps(rest);
        let after = e.after_steps(steps);
        match steps.last() {
            RunStep::Transition(name) => {
                let ts = before.transitions();
                first_named_is_one(ts, name);
                if let Some(t) = first_named(ts, name) {
                    let i = choose|i: int| 0 <= i < ts.len() && #[trigger] ts[i] == t;
                    outgoing_leads_to_nodes(before.graph, before.current, i);
                    moving_keeps_order(before, t.target);
                }
            },
            RunStep::Seat(id) => {
                if before.graph.node(id) is Some {
                    moving_keeps_order(before, id);
                }
            },
            RunStep::Capture(_) => {},
        }
        assert(before.visited.is_prefix_of(after.visited)) by {
            if before.visited == after.visited {
                assert(before.visited =~= after.visited.take(before.visited.len() as int));
            }
        }
        assert(e.visited =~= after.visited.take(e.visited.len() as int));
        if forall|i: int| 0 <= i < steps.len() ==> !(#[trigger] steps[i] is Capture) {
            assert(!(steps[steps.len() - 1] is Capture));
            assert forall|i: int| 0 <= i < rest.len() implies !(#[trigger] rest[i] is Capture) by {
                assert(rest[i] == steps[i]);
            }
        }
    } else {
        assert(e.visited =~= e.visited.take(e.visited.len() as int));
    }
}

/// A move to a node of the graph keeps the run in order.
proof fn moving_keeps_order(e: EngineV, id: Seq<char>)
    requires
        e.wf(),
        e.graph.node(id) is Some,
    ensures
        e.at(id).wf(),
        e.visited.is_prefix_of(e.at(id).visited),
{
    visit_keeps_distinct(e.visited, e.graph.name(id));
    visits_only_grow(e, id);
}

/// What is found by a name has it, and is one of the transitions.
pub proof fn first_named_is_one(ts: Seq<TransitionSpecV>, name: Seq<char>)
    ensures
        first_named(ts, name) matches Some(t) ==> t.name == name && exists|i: int|
            0 <= i < ts.len() && #[trigger] ts[i] == t,
    decreases ts.len(),
{
    if ts.len() > 0 && ts[0].name != name {
        let r = ts.drop_first();
        first_named_is_one(r, name);
        if let Some(t) = first_named(r, name) {
            let i = choose|i: int| 0 <= i < r.len() && #[trigger] r[i] == t;
            assert(ts[i + 1] == t);
        }
    } else if ts.len() > 0 {
        assert(ts[0] == ts[0]);
    }
}

/// A snapshot names the active node, and seating the run there again changes
/// nothing.
pub proof fn snapshot_resumes(e: EngineV)
    requires
        e.wf(),
    ensures
        e.snapshot().str_at("current"@) == Some(e.current),
        e.snapshot().get("vars"@) == Some(JsonV::Object(e.vars)),
        e.snapshot().get("runtime_options"@) == Some(e.runtime_options),
        e.graph.node(e.current) is Some,
        e.at(e.current) == e,
{
    snapshot_fields(e);
}

/// A new run on the same document, with the variables and options of a snapshot
/// and seated at its node, goes on as the run that the snapshot was taken of: only
/// the record of visits is its own.
pub proof fn run_goes_on_from_its_snapshot(spec_doc: JsonV, e: EngineV, now: i64)
    requires
        e.wf(),
        graph_of(spec_doc) is Ok,
        graph_of(spec_doc)->Ok_0 == e.graph,
    ensures
        ({
            let s = e.snapshot();
            let options = s.get("runtime_options"@)->Some_0;
            let vars = s.get("vars"@)->Some_0->Object_0;
            let again = engine_of(spec_doc, options, vars)->Ok_0.at(s.str_at("current"@)->Some_0);
            &&& engine_of(spec_doc, options, vars) is Ok
            &&& again == (EngineV { visited: again.visited, ..e })
            &&& again.prompt(now) == e.prompt(now)
            &&& again.finished() == e.finished()
        }),
{
    snapshot_fields(e);
}

/// What a snapshot holds under each of its keys.
pub proof fn snapshot_fields(e: EngineV)
    ensures
        e.snapshot().str_at("current"@) == Some(e.current),
        e.snapshot().get("vars"@) == Some(JsonV::Object(e.vars)),
        e.snapshot().get("runtime_options"@) == Some(e.runtime_options),
{
    reveal_strlit("current");
    reveal_strlit("vars");
    reveal_strlit("runtime_options");
    assert("current"@.len() != "vars"@.len());
    assert("current"@.len() != "runtime_options"@.len());
    assert("vars"@.len() != "runtime_options"@.len());
}

/// Capturing the same variables again changes nothing, and a captured variable
/// has the captured value.
pub proof fn capture_is_idempotent(vars: FieldsV, captured: FieldsV)
    ensures
        vars.union_prefer_right(captured).union_prefer_right(captured) == vars.union_prefer_right(
            captured,
        ),
        forall|k: Seq<char>|
            #![trigger captured[k]]
            captured.contains_key(k) ==> vars.union_prefer_right(captured).contains_key(k)
                && vars.union_prefer_right(captured)[k] == captured[k],
{
    assert(vars.union_prefer_right(captured).union_prefer_right(captured)
        =~= vars.union_prefer_right(captured));
}

/// A document parses exactly where the detailed validation finds nothing about
/// the graph as a whole.
pub proof fn validation_agrees_with_parsing(j: JsonV)
    ensures
        graph_of(j) is Err <==> exists|i: int|
            0 <= i < validation_of(j).len() && (#[trigger] validation_of(j)[i]).kind == "graph"@,
{
    match graph_of(j) {
        Ok(g) => {
            findings_are_about_nodes(g, g.nodes.len());
            reveal_strlit("graph");
            reveal_strlit("node");
            assert("graph"@.len() != "node"@.len());
        },
        Err(e) => {
            assert(validation_of(j)[0].kind == "graph"@);
        },
    }
}

proof fn findings_are_about_nodes(g: GraphV, k: nat)
    ensures
        forall|i: int|
            0 <= i < g.findings_up_to(k).len() ==> (#[trigger] g.findings_up_to(k)[i]).kind
                == "node"@ && g.findings_up_to(k)[i].id is Some,
    decreases k,
{
    if k > 0 {
        findings_are_about_nodes(g, (k - 1) as nat);
        let a = g.findings_up_to((k - 1) as nat);
        let b = g.findings_at(k - 1);
        assert forall|i: int| 0 <= i < g.findings_up_to(k).len() implies (
        #[trigger] g.findings_up_to(k)[i]).kind == "node"@ && g.findings_up_to(k)[i].id is Some by {
            if i < a.len() {
                assert(g.findings_up_to(k)[i] == a[i]);
            } else {
                assert(g.findings_up_to(k)[i] == b[i - a.len()]);
            }
        }
    }
}

} // verus!
