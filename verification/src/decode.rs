//! Decoding of a graph document.
//!
//! A struct is written as an object, or as an array of its fields in order. The
//! fields of an object are read in the order of their keys, so the first bad one
//! in that order is the one reported; keys that no field claims are skipped.

use crate::graph::{default_kind, edges_view, nodes_view, Edge, EdgeV, Node, NodeKind, NodeV};
use crate::json::{
    copy, field, only_field, opt_tree, trees, trees_index, trees_len, FieldsV, Json, JsonMap, JsonV,
    Number, NumberV,
};
use crate::text::{decimal, decimal_int, decimal_int_text, decimal_text, join2, join3, same};
use vstd::prelude::*;
use vstd::string::StringExecFns;

verus! {

// ── Messages ──────────────────────────────────────────────────────────────

/// The `Debug` text of a string: quoted, with escapes.
pub uninterp spec fn debug_text(s: Seq<char>) -> Seq<char>;

/// The `Debug` formatting of `str`.
///
/// Claimed: the text is a function of the characters alone.
#[verifier::external_body]
pub(crate) fn debug_of(s: &str) -> (r: String)
    ensures
        r@ == debug_text(s@),
{
    format!("{:?}", s)
}

/// How a value is named in a message.
pub open spec fn found(j: JsonV) -> Seq<char> {
    match j {
        JsonV::Null => "null"@,
        JsonV::Bool(b) => if b {
            "boolean `true`"@
        } else {
            "boolean `false`"@
        },
        JsonV::Number(NumberV::PosInt(n)) => "integer `"@ + decimal(n as nat) + "`"@,
        JsonV::Number(NumberV::NegInt(n)) => "integer `"@ + decimal_int(n as int) + "`"@,
        JsonV::Number(NumberV::Float(t)) => "floating point `"@ + t + "`"@,
        JsonV::Str(s) => "string "@ + debug_text(s),
        JsonV::Array(_) => "sequence"@,
        JsonV::Object(_) => "map"@,
    }
}

fn found_text(j: &Json) -> (r: String)
    ensures
        r@ == found(j@),
{
    broadcast use crate::json::group_json;

    match j {
        Json::Null => String::from_str("null"),
        Json::Bool(b) => if *b {
            String::from_str("boolean `true`")
        } else {
            String::from_str("boolean `false`")
        },
        Json::Number(Number::PosInt(n)) => join3("integer `", decimal_text(*n).as_str(), "`"),
        Json::Number(Number::NegInt(n)) => join3("integer `", decimal_int_text(*n).as_str(), "`"),
        Json::Number(Number::Float(t)) => join3("floating point `", t.as_str(), "`"),
        Json::Str(s) => join2("string ", debug_of(s.as_str()).as_str()),
        Json::Array(_) => String::from_str("sequence"),
        Json::Object(_) => String::from_str("map"),
    }
}

/// The message for a value of another type than `expected`.
pub open spec fn wrong_type(j: JsonV, expected: Seq<char>) -> Seq<char> {
    "invalid type: "@ + found(j) + ", expected "@ + expected
}

fn wrong_type_text(j: &Json, expected: &str) -> (r: String)
    ensures
        r@ == wrong_type(j@, expected@),
{
    let mut s: String = join3("invalid type: ", found_text(j).as_str(), ", expected ");
    s.append(expected);
    s
}

/// The message for an array of the wrong length.
pub open spec fn wrong_length(n: nat, expected: Seq<char>) -> Seq<char> {
    "invalid length "@ + decimal(n) + ", expected "@ + expected
}

fn wrong_length_text(n: usize, expected: &str) -> (r: String)
    ensures
        r@ == wrong_length(n as nat, expected@),
{
    let mut s: String = join3("invalid length ", decimal_text(n as u64).as_str(), ", expected ");
    s.append(expected);
    s
}

/// The message for a field that is not there.
pub open spec fn missing(key: Seq<char>) -> Seq<char> {
    "missing field `"@ + key + "`"@
}

/// A result of text agrees with its model.
pub open spec fn text_result(r: Result<String, String>, v: Result<Seq<char>, Seq<char>>) -> bool {
    match (r, v) {
        (Ok(a), Ok(b)) => a@ == b,
        (Err(a), Err(b)) => a@ == b,
        _ => false,
    }
}

/// A result of optional text agrees with its model.
pub open spec fn opt_text_result(
    r: Result<Option<String>, String>,
    v: Result<Option<Seq<char>>, Seq<char>>,
) -> bool {
    match (r, v) {
        (Ok(Some(a)), Ok(Some(b))) => a@ == b,
        (Ok(None), Ok(None)) => true,
        (Err(a), Err(b)) => a@ == b,
        _ => false,
    }
}

// ── Scalars ───────────────────────────────────────────────────────────────

/// A string.
pub open spec fn string_of(j: JsonV) -> Result<Seq<char>, Seq<char>> {
    match j {
        JsonV::Str(s) => Ok(s),
        _ => Err(wrong_type(j, "a string"@)),
    }
}

fn read_string(j: &Json) -> (r: Result<String, String>)
    ensures
        text_result(r, string_of(j@)),
{
    broadcast use crate::json::group_json;

    match j {
        Json::Str(s) => Ok(s.clone()),
        _ => Err(wrong_type_text(j, "a string")),
    }
}

/// A string, or `null` for none.
pub open spec fn opt_string_of(j: JsonV) -> Result<Option<Seq<char>>, Seq<char>> {
    match j {
        JsonV::Null => Ok(None),
        _ => match string_of(j) {
            Ok(s) => Ok(Some(s)),
            Err(e) => Err(e),
        },
    }
}

fn read_opt_string(j: &Json) -> (r: Result<Option<String>, String>)
    ensures
        opt_text_result(r, opt_string_of(j@)),
{
    broadcast use crate::json::group_json;

    match j {
        Json::Null => Ok(None),
        _ => match read_string(j) {
            Ok(s) => Ok(Some(s)),
            Err(e) => Err(e),
        },
    }
}

/// The string at `key`, if the object has the key.
pub open spec fn string_field(m: FieldsV, key: Seq<char>) -> Result<Option<Seq<char>>, Seq<char>> {
    match field(m, key) {
        None => Ok(None),
        Some(v) => match string_of(v) {
            Ok(s) => Ok(Some(s)),
            Err(e) => Err(e),
        },
    }
}

fn read_string_field(m: &JsonMap, key: &str) -> (r: Result<Option<String>, String>)
    ensures
        opt_text_result(r, string_field(m@, key@)),
{
    match m.get(key) {
        None => Ok(None),
        Some(v) => match read_string(v) {
            Ok(s) => Ok(Some(s)),
            Err(e) => Err(e),
        },
    }
}

/// The string at position `i` of the array that stands for `what`.
pub open spec fn string_item(s: Seq<JsonV>, i: int, what: Seq<char>) -> Result<
    Seq<char>,
    Seq<char>,
> {
    if i < s.len() {
        string_of(s[i])
    } else {
        Err(wrong_length(i as nat, what))
    }
}

fn read_string_item(v: &Vec<Json>, i: usize, what: &str) -> (r: Result<String, String>)
    ensures
        text_result(r, string_item(trees(v@), i as int, what@)),
{
    proof {
        trees_len(v@);
    }
    if i < v.len() {
        proof {
            trees_index(v@, i as int);
        }
        read_string(&v[i])
    } else {
        Err(wrong_length_text(i, what))
    }
}

/// The value at position `i`, or `null` past the end.
pub open spec fn item_or_null(s: Seq<JsonV>, i: int) -> JsonV {
    if i < s.len() {
        s[i]
    } else {
        JsonV::Null
    }
}

fn copy_item(v: &Vec<Json>, i: usize) -> (r: Json)
    ensures
        r@ == item_or_null(trees(v@), i as int),
{
    broadcast use crate::json::group_json;

    if i < v.len() {
        proof {
            trees_index(v@, i as int);
        }
        copy(&v[i])
    } else {
        Json::Null
    }
}

/// The value at `key`, or `null` where the object has no such key.
pub open spec fn field_or_null(m: FieldsV, key: Seq<char>) -> JsonV {
    match field(m, key) {
        Some(v) => v,
        None => JsonV::Null,
    }
}

fn copy_field(m: &JsonMap, key: &str) -> (r: Json)
    ensures
        r@ == field_or_null(m@, key@),
{
    broadcast use crate::json::group_json;

    match m.get(key) {
        Some(v) => copy(v),
        None => Json::Null,
    }
}

// ── Node kinds ────────────────────────────────────────────────────────────

/// The node kind of a type name: the bare role, or the name that the editor's
/// catalog gives it. Any other name is `Other`.
pub open spec fn kind_named(s: Seq<char>) -> NodeKind {
    if s == "start"@ || s == "startCall"@ {
        NodeKind::Start
    } else if s == "agent"@ || s == "agentNode"@ {
        NodeKind::Agent
    } else if s == "end"@ || s == "endCall"@ {
        NodeKind::End
    } else if s == "global"@ || s == "globalNode"@ {
        NodeKind::Global
    } else if s == "trigger"@ {
        NodeKind::Trigger
    } else if s == "webhook"@ {
        NodeKind::Webhook
    } else if s == "qa"@ {
        NodeKind::Qa
    } else if s == "tuner"@ {
        NodeKind::Tuner
    } else {
        NodeKind::Other
    }
}

impl NodeKind {
    /// The node kind of a type name.
    pub fn named(s: &str) -> (k: NodeKind)
        ensures
            k == kind_named(s@),
    {
        if same(s, "start") || same(s, "startCall") {
            NodeKind::Start
        } else if same(s, "agent") || same(s, "agentNode") {
            NodeKind::Agent
        } else if same(s, "end") || same(s, "endCall") {
            NodeKind::End
        } else if same(s, "global") || same(s, "globalNode") {
            NodeKind::Global
        } else if same(s, "trigger") {
            NodeKind::Trigger
        } else if same(s, "webhook") {
            NodeKind::Webhook
        } else if same(s, "qa") {
            NodeKind::Qa
        } else if same(s, "tuner") {
            NodeKind::Tuner
        } else {
            NodeKind::Other
        }
    }
}

/// A variant name: a string, or an object with the name as its only key and
/// `null` there.
pub open spec fn variant_of(j: JsonV) -> Result<Seq<char>, Seq<char>> {
    match j {
        JsonV::Str(s) => Ok(s),
        JsonV::Object(m) => match only_field(m) {
            Some((k, v)) => if v is Null {
                Ok(k)
            } else {
                Err(wrong_type(v, "unit"@))
            },
            None => Err("invalid value: map, expected map with a single key"@),
        },
        _ => Err(wrong_type(j, "string or map"@)),
    }
}

/// A variant name.
pub fn read_variant(j: &Json) -> (r: Result<String, String>)
    ensures
        text_result(r, variant_of(j@)),
{
    broadcast use crate::json::group_json;

    match j {
        Json::Str(s) => Ok(s.clone()),
        Json::Object(m) => match m.only() {
            Some((k, v)) => match v {
                Json::Null => Ok(k.clone()),
                _ => Err(wrong_type_text(v, "unit")),
            },
            None => Err(String::from_str("invalid value: map, expected map with a single key")),
        },
        _ => Err(wrong_type_text(j, "string or map")),
    }
}

/// A node kind.
pub open spec fn kind_of(j: JsonV) -> Result<NodeKind, Seq<char>> {
    match variant_of(j) {
        Ok(s) => Ok(kind_named(s)),
        Err(e) => Err(e),
    }
}

/// A decoded node kind agrees with its model.
pub open spec fn kind_result(r: Result<NodeKind, String>, v: Result<NodeKind, Seq<char>>) -> bool {
    match (r, v) {
        (Ok(a), Ok(b)) => a == b,
        (Err(a), Err(b)) => a@ == b,
        _ => false,
    }
}

impl NodeKind {
    /// The node kind that a JSON value stands for.
    pub fn decode(j: &Json) -> (r: Result<NodeKind, String>)
        ensures
            kind_result(r, kind_of(j@)),
    {
        match read_variant(j) {
            Ok(s) => Ok(NodeKind::named(s.as_str())),
            Err(e) => Err(e),
        }
    }
}

// ── Nodes ─────────────────────────────────────────────────────────────────

/// A node: `id`, `type` (by default unknown) and `data` (by default `null`).
pub open spec fn node_of(j: JsonV) -> Result<NodeV, Seq<char>> {
    match j {
        JsonV::Object(m) => match string_field(m, "id"@) {
            Err(e) => Err(e),
            Ok(id) => match kind_field(m) {
                Err(e) => Err(e),
                Ok(kind) => match id {
                    None => Err(missing("id"@)),
                    Some(id) => Ok(NodeV { id, kind, data: field_or_null(m, "data"@) }),
                },
            },
        },
        JsonV::Array(s) => match string_item(s, 0, "struct Node with 3 elements"@) {
            Err(e) => Err(e),
            Ok(id) => match kind_item(s) {
                Err(e) => Err(e),
                Ok(kind) => if s.len() > 3 {
                    Err(wrong_length(s.len(), "fewer elements in array"@))
                } else {
                    Ok(NodeV { id, kind, data: item_or_null(s, 2) })
                },
            },
        },
        _ => Err(wrong_type(j, "struct Node"@)),
    }
}

/// The kind under `type` of a node's object.
pub open spec fn kind_field(m: FieldsV) -> Result<NodeKind, Seq<char>> {
    match field(m, "type"@) {
        Some(v) => kind_of(v),
        None => Ok(NodeKind::Other),
    }
}

/// The kind in a node's array.
pub open spec fn kind_item(s: Seq<JsonV>) -> Result<NodeKind, Seq<char>> {
    if s.len() > 1 {
        kind_of(s[1])
    } else {
        Ok(NodeKind::Other)
    }
}

/// A decoded node agrees with its model.
pub open spec fn node_result(r: Result<Node, String>, v: Result<NodeV, Seq<char>>) -> bool {
    match (r, v) {
        (Ok(a), Ok(b)) => a@ == b,
        (Err(a), Err(b)) => a@ == b,
        _ => false,
    }
}

impl Node {
    /// The node that a JSON value stands for.
    pub fn decode(j: &Json) -> (r: Result<Node, String>)
        ensures
            node_result(r, node_of(j@)),
    {
        broadcast use crate::json::group_json;

        match j {
            Json::Object(m) => {
                let id: Option<String> = match read_string_field(m, "id") {
                    Ok(id) => id,
                    Err(e) => return Err(e),
                };
                let kind: NodeKind = match m.get("type") {
                    Some(v) => match NodeKind::decode(v) {
                        Ok(k) => k,
                        Err(e) => return Err(e),
                    },
                    None => default_kind(),
                };
                match id {
                    Some(id) => Ok(Node { id, kind, data: copy_field(m, "data") }),
                    None => Err(join3("missing field `", "id", "`")),
                }
            },
            Json::Array(v) => {
                let id: String = match read_string_item(v, 0, "struct Node with 3 elements") {
                    Ok(id) => id,
                    Err(e) => return Err(e),
                };
                let kind: NodeKind = if v.len() > 1 {
                    proof {
                        trees_index(v@, 1);
                    }
                    match NodeKind::decode(&v[1]) {
                        Ok(k) => k,
                        Err(e) => return Err(e),
                    }
                } else {
                    default_kind()
                };
                if v.len() > 3 {
                    Err(wrong_length_text(v.len(), "fewer elements in array"))
                } else {
                    Ok(Node { id, kind, data: copy_item(v, 2) })
                }
            },
            _ => Err(wrong_type_text(j, "struct Node")),
        }
    }
}

// ── Edges ─────────────────────────────────────────────────────────────────

/// The optional label in an edge's object.
pub open spec fn label_field(m: FieldsV) -> Result<Option<Seq<char>>, Seq<char>> {
    match field(m, "label"@) {
        Some(v) => opt_string_of(v),
        None => Ok(None),
    }
}

/// The optional label in an edge's array.
pub open spec fn label_item(s: Seq<JsonV>) -> Result<Option<Seq<char>>, Seq<char>> {
    if s.len() > 3 {
        opt_string_of(s[3])
    } else {
        Ok(None)
    }
}

/// An edge: `id`, `source` and `target`, with an optional `label` and `data`.
pub open spec fn edge_of(j: JsonV) -> Result<EdgeV, Seq<char>> {
    let what = "struct Edge with 5 elements"@;
    match j {
        JsonV::Object(m) => match string_field(m, "id"@) {
            Err(e) => Err(e),
            Ok(id) => match label_field(m) {
                Err(e) => Err(e),
                Ok(label) => match string_field(m, "source"@) {
                    Err(e) => Err(e),
                    Ok(source) => match string_field(m, "target"@) {
                        Err(e) => Err(e),
                        Ok(target) => match (id, source, target) {
                            (Some(id), Some(source), Some(target)) => Ok(
                                EdgeV { id, source, target, label, data: field_or_null(m, "data"@) },
                            ),
                            (None, _, _) => Err(missing("id"@)),
                            (_, None, _) => Err(missing("source"@)),
                            (_, _, None) => Err(missing("target"@)),
                        },
                    },
                },
            },
        },
        JsonV::Array(s) => match string_item(s, 0, what) {
            Err(e) => Err(e),
            Ok(id) => match string_item(s, 1, what) {
                Err(e) => Err(e),
                Ok(source) => match string_item(s, 2, what) {
                    Err(e) => Err(e),
                    Ok(target) => match label_item(s) {
                        Err(e) => Err(e),
                        Ok(label) => if s.len() > 5 {
                            Err(wrong_length(s.len(), "fewer elements in array"@))
                        } else {
                            Ok(EdgeV { id, source, target, label, data: item_or_null(s, 4) })
                        },
                    },
                },
            },
        },
        _ => Err(wrong_type(j, "struct Edge"@)),
    }
}

/// A decoded edge agrees with its model.
pub open spec fn edge_result(r: Result<Edge, String>, v: Result<EdgeV, Seq<char>>) -> bool {
    match (r, v) {
        (Ok(a), Ok(b)) => a@ == b,
        (Err(a), Err(b)) => a@ == b,
        _ => false,
    }
}

impl Edge {
    /// The edge that a JSON value stands for.
    pub fn decode(j: &Json) -> (r: Result<Edge, String>)
        ensures
            edge_result(r, edge_of(j@)),
    {
        broadcast use crate::json::group_json;

        match j {
            Json::Object(m) => {
                let id: Option<String> = match read_string_field(m, "id") {
                    Ok(id) => id,
                    Err(e) => return Err(e),
                };
                let label: Option<String> = match m.get("label") {
                    Some(v) => match read_opt_string(v) {
                        Ok(l) => l,
                        Err(e) => return Err(e),
                    },
                    None => None,
                };
                let source: Option<String> = match read_string_field(m, "source") {
                    Ok(s) => s,
                    Err(e) => return Err(e),
                };
                let target: Option<String> = match read_string_field(m, "target") {
                    Ok(t) => t,
                    Err(e) => return Err(e),
                };
                match (id, source, target) {
                    (Some(id), Some(source), Some(target)) => Ok(
                        Edge { id, source, target, label, data: copy_field(m, "data") },
                    ),
                    (None, _, _) => Err(join3("missing field `", "id", "`")),
                    (_, None, _) => Err(join3("missing field `", "source", "`")),
                    (_, _, None) => Err(join3("missing field `", "target", "`")),
                }
            },
            Json::Array(v) => {
                let id: String = match read_string_item(v, 0, "struct Edge with 5 elements") {
                    Ok(id) => id,
                    Err(e) => return Err(e),
                };
                let source: String = match read_string_item(v, 1, "struct Edge with 5 elements") {
                    Ok(s) => s,
                    Err(e) => return Err(e),
                };
                let target: String = match read_string_item(v, 2, "struct Edge with 5 elements") {
                    Ok(t) => t,
                    Err(e) => return Err(e),
                };
                let label: Option<String> = if v.len() > 3 {
                    proof {
                        trees_index(v@, 3);
                    }
                    match read_opt_string(&v[3]) {
                        Ok(l) => l,
                        Err(e) => return Err(e),
                    }
                } else {
                    None
                };
                if v.len() > 5 {
                    Err(wrong_length_text(v.len(), "fewer elements in array"))
                } else {
                    Ok(Edge { id, source, target, label, data: copy_item(v, 4) })
                }
            },
            _ => Err(wrong_type_text(j, "struct Edge")),
        }
    }
}

// ── Documents ─────────────────────────────────────────────────────────────

/// The nodes of an array; the first bad one decides the error.
pub open spec fn all_nodes(s: Seq<JsonV>) -> Result<Seq<NodeV>, Seq<char>>
    decreases s.len(),
{
    if s.len() == 0 {
        Ok(Seq::empty())
    } else {
        match all_nodes(s.drop_last()) {
            Err(e) => Err(e),
            Ok(v) => match node_of(s.last()) {
                Err(e) => Err(e),
                Ok(n) => Ok(v.push(n)),
            },
        }
    }
}

/// The edges of an array; the first bad one decides the error.
pub open spec fn all_edges(s: Seq<JsonV>) -> Result<Seq<EdgeV>, Seq<char>>
    decreases s.len(),
{
    if s.len() == 0 {
        Ok(Seq::empty())
    } else {
        match all_edges(s.drop_last()) {
            Err(e) => Err(e),
            Ok(v) => match edge_of(s.last()) {
                Err(e) => Err(e),
                Ok(n) => Ok(v.push(n)),
            },
        }
    }
}

/// A list of nodes.
pub open spec fn nodes_of(j: JsonV) -> Result<Seq<NodeV>, Seq<char>> {
    match j {
        JsonV::Array(s) => all_nodes(s),
        _ => Err(wrong_type(j, "a sequence"@)),
    }
}

/// A list of edges.
pub open spec fn edges_of(j: JsonV) -> Result<Seq<EdgeV>, Seq<char>> {
    match j {
        JsonV::Array(s) => all_edges(s),
        _ => Err(wrong_type(j, "a sequence"@)),
    }
}

proof fn all_nodes_error(s: Seq<JsonV>, k: int)
    requires
        0 <= k <= s.len(),
        all_nodes(s.take(k)) is Err,
    ensures
        all_nodes(s) == all_nodes(s.take(k)),
    decreases s.len(),
{
    if k == s.len() {
        assert(s.take(k) =~= s);
    } else {
        assert(s.drop_last().take(k) =~= s.take(k));
        all_nodes_error(s.drop_last(), k);
    }
}

proof fn all_edges_error(s: Seq<JsonV>, k: int)
    requires
        0 <= k <= s.len(),
        all_edges(s.take(k)) is Err,
    ensures
        all_edges(s) == all_edges(s.take(k)),
    decreases s.len(),
{
    if k == s.len() {
        assert(s.take(k) =~= s);
    } else {
        assert(s.drop_last().take(k) =~= s.take(k));
        all_edges_error(s.drop_last(), k);
    }
}

/// A decoded list of nodes agrees with its model.
pub open spec fn nodes_result(r: Result<Vec<Node>, String>, v: Result<Seq<NodeV>, Seq<char>>) -> bool {
    match (r, v) {
        (Ok(a), Ok(b)) => nodes_view(a@) == b,
        (Err(a), Err(b)) => a@ == b,
        _ => false,
    }
}

/// A decoded list of edges agrees with its model.
pub open spec fn edges_result(r: Result<Vec<Edge>, String>, v: Result<Seq<EdgeV>, Seq<char>>) -> bool {
    match (r, v) {
        (Ok(a), Ok(b)) => edges_view(a@) == b,
        (Err(a), Err(b)) => a@ == b,
        _ => false,
    }
}

fn read_nodes(j: &Json) -> (r: Result<Vec<Node>, String>)
    ensures
        nodes_result(r, nodes_of(j@)),
{
    broadcast use crate::json::group_json;

    match j {
        Json::Array(v) => {
            let mut out: Vec<Node> = Vec::new();
            let mut i: usize = 0;
            let ghost s = trees(v@);
            assert(nodes_view(out@) =~= Seq::<NodeV>::empty());
            assert(all_nodes(s.take(0)) == Ok::<Seq<NodeV>, Seq<char>>(nodes_view(out@)));
            while i < v.len()
                invariant
                    i <= v@.len(),
                    s == trees(v@),
                    s.len() == v@.len(),
                    all_nodes(s.take(i as int)) == Ok::<Seq<NodeV>, Seq<char>>(nodes_view(out@)),
                    j@ == JsonV::Array(s),
                decreases v@.len() - i,
            {
                proof {
                    trees_index(v@, i as int);
                    assert(s.take(i + 1).drop_last() =~= s.take(i as int));
                }
                match Node::decode(&v[i]) {
                    Ok(n) => {
                        let ghost before = out@;
                        out.push(n);
                        assert(nodes_view(out@) =~= nodes_view(before).push(n@));
                    },
                    Err(e) => {
                        proof {
                            all_nodes_error(s, i + 1);
                        }
                        return Err(e);
                    },
                }
                i += 1;
            }
            assert(s.take(i as int) =~= s);
            Ok(out)
        },
        _ => Err(wrong_type_text(j, "a sequence")),
    }
}

fn read_edges(j: &Json) -> (r: Result<Vec<Edge>, String>)
    ensures
        edges_result(r, edges_of(j@)),
{
    broadcast use crate::json::group_json;

    match j {
        Json::Array(v) => {
            let mut out: Vec<Edge> = Vec::new();
            let mut i: usize = 0;
            let ghost s = trees(v@);
            assert(edges_view(out@) =~= Seq::<EdgeV>::empty());
            assert(all_edges(s.take(0)) == Ok::<Seq<EdgeV>, Seq<char>>(edges_view(out@)));
            while i < v.len()
                invariant
                    i <= v@.len(),
                    s == trees(v@),
                    s.len() == v@.len(),
                    all_edges(s.take(i as int)) == Ok::<Seq<EdgeV>, Seq<char>>(edges_view(out@)),
                    j@ == JsonV::Array(s),
                decreases v@.len() - i,
            {
                proof {
                    trees_index(v@, i as int);
                    assert(s.take(i + 1).drop_last() =~= s.take(i as int));
                }
                match Edge::decode(&v[i]) {
                    Ok(n) => {
                        let ghost before = out@;
                        out.push(n);
                        assert(edges_view(out@) =~= edges_view(before).push(n@));
                    },
                    Err(e) => {
                        proof {
                            all_edges_error(s, i + 1);
                        }
                        return Err(e);
                    },
                }
                i += 1;
            }
            assert(s.take(i as int) =~= s);
            Ok(out)
        },
        _ => Err(wrong_type_text(j, "a sequence")),
    }
}

/// What a graph document states before it is checked.
pub struct RawGraph {
    pub nodes: Vec<Node>,
    pub edges: Vec<Edge>,
}

/// The view of a [`RawGraph`].
#[verifier::ext_equal]
pub struct RawGraphV {
    pub nodes: Seq<NodeV>,
    pub edges: Seq<EdgeV>,
}

impl View for RawGraph {
    type V = RawGraphV;

    open spec fn view(&self) -> RawGraphV {
        RawGraphV { nodes: nodes_view(self.nodes@), edges: edges_view(self.edges@) }
    }
}

/// The list of nodes of a document that may leave it out.
pub open spec fn nodes_or_none(j: Option<JsonV>) -> Result<Seq<NodeV>, Seq<char>> {
    match j {
        Some(j) => nodes_of(j),
        None => Ok(Seq::empty()),
    }
}

/// The list of edges of a document that may leave it out.
pub open spec fn edges_or_none(j: Option<JsonV>) -> Result<Seq<EdgeV>, Seq<char>> {
    match j {
        Some(j) => edges_of(j),
        None => Ok(Seq::empty()),
    }
}

/// The value at position `i`, if there is one.
pub open spec fn item(s: Seq<JsonV>, i: int) -> Option<JsonV> {
    if i < s.len() {
        Some(s[i])
    } else {
        None
    }
}

/// A graph document: `nodes` and `edges`, each empty by default.
pub open spec fn raw_of(j: JsonV) -> Result<RawGraphV, Seq<char>> {
    match j {
        JsonV::Object(m) => match edges_or_none(field(m, "edges"@)) {
            Err(e) => Err(e),
            Ok(edges) => match nodes_or_none(field(m, "nodes"@)) {
                Err(e) => Err(e),
                Ok(nodes) => Ok(RawGraphV { nodes, edges }),
            },
        },
        JsonV::Array(s) => match nodes_or_none(item(s, 0)) {
            Err(e) => Err(e),
            Ok(nodes) => match edges_or_none(item(s, 1)) {
                Err(e) => Err(e),
                Ok(edges) => if s.len() > 2 {
                    Err(wrong_length(s.len(), "fewer elements in array"@))
                } else {
                    Ok(RawGraphV { nodes, edges })
                },
            },
        },
        _ => Err(wrong_type(j, "struct RawGraph"@)),
    }
}

/// A decoded document agrees with its model.
pub open spec fn raw_result(r: Result<RawGraph, String>, v: Result<RawGraphV, Seq<char>>) -> bool {
    match (r, v) {
        (Ok(a), Ok(b)) => a@ == b,
        (Err(a), Err(b)) => a@ == b,
        _ => false,
    }
}

fn read_opt_nodes(j: Option<&Json>) -> (r: Result<Vec<Node>, String>)
    ensures
        nodes_result(r, nodes_or_none(opt_tree(j))),
{
    match j {
        Some(j) => read_nodes(j),
        None => {
            let v: Vec<Node> = Vec::new();
            assert(nodes_view(v@) =~= Seq::<NodeV>::empty());
            Ok(v)
        },
    }
}

fn read_opt_edges(j: Option<&Json>) -> (r: Result<Vec<Edge>, String>)
    ensures
        edges_result(r, edges_or_none(opt_tree(j))),
{
    match j {
        Some(j) => read_edges(j),
        None => {
            let v: Vec<Edge> = Vec::new();
            assert(edges_view(v@) =~= Seq::<EdgeV>::empty());
            Ok(v)
        },
    }
}

/// The value at position `i`, if there is one.
pub fn item_of(v: &Vec<Json>, i: usize) -> (r: Option<&Json>)
    ensures
        opt_tree(r) == item(trees(v@), i as int),
{
    broadcast use crate::json::group_json;

    if i < v.len() {
        proof {
            trees_index(v@, i as int);
        }
        Some(&v[i])
    } else {
        None
    }
}

impl RawGraph {
    /// The document that a JSON value stands for.
    pub fn decode(j: &Json) -> (r: Result<RawGraph, String>)
        ensures
            raw_result(r, raw_of(j@)),
    {
        broadcast use crate::json::group_json;

        match j {
            Json::Object(m) => {
                let edges: Vec<Edge> = match read_opt_edges(m.get("edges")) {
                    Ok(v) => v,
                    Err(e) => return Err(e),
                };
                let nodes: Vec<Node> = match read_opt_nodes(m.get("nodes")) {
                    Ok(v) => v,
                    Err(e) => return Err(e),
                };
                Ok(RawGraph { nodes, edges })
            },
            Json::Array(v) => {
                let nodes: Vec<Node> = match read_opt_nodes(item_of(v, 0)) {
                    Ok(v) => v,
                    Err(e) => return Err(e),
                };
                let edges: Vec<Edge> = match read_opt_edges(item_of(v, 1)) {
                    Ok(v) => v,
                    Err(e) => return Err(e),
                };
                if v.len() > 2 {
                    Err(wrong_length_text(v.len(), "fewer elements in array"))
                } else {
                    Ok(RawGraph { nodes, edges })
                }
            },
            _ => Err(wrong_type_text(j, "struct RawGraph")),
        }
    }
}

} // verus!
