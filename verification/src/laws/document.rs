//! Laws of reading a graph document.

use crate::decode::{
    edge_of, edges_of, found, item, kind_named, kind_of, node_of, nodes_of, raw_of,
    string_of, variant_of,
};
use crate::graph::{EdgeV, NodeKind, NodeV};
use crate::json::{only_field, FieldsV, JsonV, NumberV};
use crate::text::{decimal, decimal_int};
use vstd::prelude::*;

verus! {

/// The kinds of nodes and their spellings. Any other spelling means a node of
/// another kind.
pub proof fn kinds_by_their_spellings(s: Seq<char>)
    ensures
        kind_named(s) == NodeKind::Start <==> s == "start"@ || s == "startCall"@,
        kind_named(s) == NodeKind::Agent <==> s == "agent"@ || s == "agentNode"@,
        kind_named(s) == NodeKind::End <==> s == "end"@ || s == "endCall"@,
        kind_named(s) == NodeKind::Global <==> s == "global"@ || s == "globalNode"@,
        kind_named(s) == NodeKind::Trigger <==> s == "trigger"@,
        kind_named(s) == NodeKind::Webhook <==> s == "webhook"@,
        kind_named(s) == NodeKind::Qa <==> s == "qa"@,
        kind_named(s) == NodeKind::Tuner <==> s == "tuner"@,
{
    reveal_strlit("start");
    reveal_strlit("startCall");
    reveal_strlit("agent");
    reveal_strlit("agentNode");
    reveal_strlit("end");
    reveal_strlit("endCall");
    reveal_strlit("global");
    reveal_strlit("globalNode");
    reveal_strlit("trigger");
    reveal_strlit("webhook");
    reveal_strlit("qa");
    reveal_strlit("tuner");
    assert("start"@[0] == 's' && "startCall"@[0] == 's' && "agent"@[0] == 'a');
    assert("agentNode"@[0] == 'a' && "end"@[0] == 'e' && "endCall"@[0] == 'e');
    assert("global"@[0] == 'g' && "globalNode"@[0] == 'g' && "trigger"@[0] == 't');
    assert("webhook"@[0] == 'w' && "qa"@[0] == 'q' && "tuner"@[0] == 't');
    assert("trigger"@.len() != "tuner"@.len());
}

/// A node's kind is spelt as a string, or as the only key of an object under which
/// there is nothing.
pub proof fn kind_is_a_name(j: JsonV, s: Seq<char>)
    ensures
        kind_of(JsonV::Str(s)) is Ok && kind_of(JsonV::Str(s))->Ok_0 == kind_named(s),
        kind_of(j) is Ok <==> j is Str || (j matches JsonV::Object(m) && exists|k: Seq<char>|
            m == #[trigger] Map::<Seq<char>, JsonV>::empty().insert(k, JsonV::Null)),
        j == JsonV::Object(Map::<Seq<char>, JsonV>::empty().insert(s, JsonV::Null)) ==> kind_of(
            j,
        ) is Ok && kind_of(j)->Ok_0 == kind_named(s),
{
    if let JsonV::Object(m) = j {
        crate::laws::json::only_field_is_alone(m, s, JsonV::Null);
        if kind_of(j) is Ok {
            let e = only_field(m)->Some_0;
            crate::laws::json::only_field_is_alone(m, e.0, e.1);
            assert(m == Map::<Seq<char>, JsonV>::empty().insert(e.0, JsonV::Null));
        }
        if exists|k: Seq<char>|
            m == #[trigger] Map::<Seq<char>, JsonV>::empty().insert(k, JsonV::Null) {
            let k = choose|k: Seq<char>|
                m == #[trigger] Map::<Seq<char>, JsonV>::empty().insert(k, JsonV::Null);
            crate::laws::json::only_field_is_alone(m, k, JsonV::Null);
        }
    }
}

/// A name is a string, or the only key of an object under which there is nothing.
pub proof fn name_is_a_string_or_a_lone_key(s: Seq<char>, j: JsonV)
    ensures
        variant_of(JsonV::Str(s)) is Ok && variant_of(JsonV::Str(s))->Ok_0 == s,
        j == JsonV::Object(Map::<Seq<char>, JsonV>::empty().insert(s, JsonV::Null)) ==> variant_of(
            j,
        ) is Ok && variant_of(j)->Ok_0 == s,
        variant_of(j) is Ok <==> kind_of(j) is Ok,
{
    if let JsonV::Object(m) = j {
        crate::laws::json::only_field_is_alone(m, s, JsonV::Null);
    }
}

/// An element is there up to the length of its list.
pub proof fn elements_are_there_up_to_the_length(s: Seq<JsonV>, i: int)
    requires
        0 <= i,
    ensures
        i < s.len() ==> item(s, i) == Some(s[i]),
        i >= s.len() ==> item(s, i) is None,
{
}

/// A node's object gives its id, its kind and its data: without a type it is of
/// another kind, without data the data are null, and without an id that is a string
/// there is no node.
pub proof fn node_is_read_from_its_object(m: FieldsV)
    ensures
        node_of(JsonV::Object(m)) is Ok <==> {
            &&& m.contains_key("id"@) && m["id"@] is Str
            &&& m.contains_key("type"@) ==> kind_of(m["type"@]) is Ok
        },
        node_of(JsonV::Object(m)) matches Ok(n) ==> {
            &&& m["id"@] == JsonV::Str(n.id)
            &&& if m.contains_key("type"@) {
                kind_of(m["type"@])->Ok_0 == n.kind
            } else {
                n.kind == NodeKind::Other
            }
            &&& if m.contains_key("data"@) {
                n.data == m["data"@]
            } else {
                n.data is Null
            }
        },
        !m.contains_key("id"@) && !m.contains_key("type"@) ==> node_of(JsonV::Object(m))->Err_0
            == "missing field `"@ + "id"@ + "`"@,
{
}

/// A node may be written as a list of its id, type and data.
pub proof fn node_is_read_from_its_list(s: Seq<JsonV>)
    ensures
        s.len() == 3 ==> ({
            let m = Map::<Seq<char>, JsonV>::empty().insert("id"@, s[0]).insert(
                "type"@,
                s[1],
            ).insert("data"@, s[2]);
            &&& node_of(JsonV::Array(s)) is Ok <==> node_of(JsonV::Object(m)) is Ok
            &&& node_of(JsonV::Array(s)) is Ok ==> node_of(JsonV::Array(s))->Ok_0 == node_of(
                JsonV::Object(m),
            )->Ok_0
        }),
        s.len() == 2 ==> ({
            let m = Map::<Seq<char>, JsonV>::empty().insert("id"@, s[0]).insert("type"@, s[1]);
            &&& node_of(JsonV::Array(s)) is Ok <==> node_of(JsonV::Object(m)) is Ok
            &&& node_of(JsonV::Array(s)) is Ok ==> node_of(JsonV::Array(s))->Ok_0 == node_of(
                JsonV::Object(m),
            )->Ok_0
        }),
        node_of(JsonV::Array(s)) is Ok ==> 1 <= s.len() <= 3,
        s.len() == 1 && s[0] is Str ==> node_of(JsonV::Array(s)) is Ok && node_of(
            JsonV::Array(s),
        )->Ok_0 == (NodeV { id: s[0]->Str_0, kind: NodeKind::Other, data: JsonV::Null }),
{
    reveal_strlit("id");
    reveal_strlit("type");
    reveal_strlit("data");
    assert("id"@.len() != "type"@.len());
    assert("id"@.len() != "data"@.len());
    assert("type"@[0] != "data"@[0]);
}

/// An edge's object gives its id, its two ends, its label and its data: a label that
/// is absent or null is none, and an id or an end that is absent or no string makes
/// no edge.
pub proof fn edge_is_read_from_its_object(m: FieldsV)
    ensures
        edge_of(JsonV::Object(m)) is Ok <==> {
            &&& m.contains_key("id"@) && m["id"@] is Str
            &&& m.contains_key("source"@) && m["source"@] is Str
            &&& m.contains_key("target"@) && m["target"@] is Str
            &&& m.contains_key("label"@) ==> m["label"@] is Str || m["label"@] is Null
        },
        edge_of(JsonV::Object(m)) matches Ok(e) ==> {
            &&& m["id"@] == JsonV::Str(e.id)
            &&& m["source"@] == JsonV::Str(e.source)
            &&& m["target"@] == JsonV::Str(e.target)
            &&& if m.contains_key("label"@) && m["label"@] is Str {
                e.label == Some(m["label"@]->Str_0)
            } else {
                e.label is None
            }
            &&& if m.contains_key("data"@) {
                e.data == m["data"@]
            } else {
                e.data is Null
            }
        },
{
}

/// An edge may be written as a list of its id, source, target, label and data.
pub proof fn edge_is_read_from_its_list(s: Seq<JsonV>)
    ensures
        s.len() == 5 ==> ({
            let m = Map::<Seq<char>, JsonV>::empty().insert("id"@, s[0]).insert(
                "source"@,
                s[1],
            ).insert("target"@, s[2]).insert("label"@, s[3]).insert("data"@, s[4]);
            &&& edge_of(JsonV::Array(s)) is Ok <==> edge_of(JsonV::Object(m)) is Ok
            &&& edge_of(JsonV::Array(s)) is Ok ==> edge_of(JsonV::Array(s))->Ok_0 == edge_of(
                JsonV::Object(m),
            )->Ok_0
        }),
        s.len() == 4 ==> ({
            let m = Map::<Seq<char>, JsonV>::empty().insert("id"@, s[0]).insert(
                "source"@,
                s[1],
            ).insert("target"@, s[2]).insert("label"@, s[3]);
            &&& edge_of(JsonV::Array(s)) is Ok <==> edge_of(JsonV::Object(m)) is Ok
            &&& edge_of(JsonV::Array(s)) is Ok ==> edge_of(JsonV::Array(s))->Ok_0 == edge_of(
                JsonV::Object(m),
            )->Ok_0
        }),
        edge_of(JsonV::Array(s)) is Ok ==> 3 <= s.len() <= 5,
        s.len() == 3 && s[0] is Str && s[1] is Str && s[2] is Str ==> edge_of(JsonV::Array(s)) is Ok
            && edge_of(JsonV::Array(s))->Ok_0 == (EdgeV {
            id: s[0]->Str_0,
            source: s[1]->Str_0,
            target: s[2]->Str_0,
            label: None,
            data: JsonV::Null,
        }),
{
    reveal_strlit("id");
    reveal_strlit("source");
    reveal_strlit("target");
    reveal_strlit("label");
    reveal_strlit("data");
    assert("id"@.len() == 2 && "source"@.len() == 6 && "target"@.len() == 6 && "label"@.len() == 5
        && "data"@.len() == 4);
    assert("source"@[0] != "target"@[0]);
}

proof fn nodes_in_order(s: Seq<JsonV>)
    ensures
        crate::decode::all_nodes(s) is Ok <==> forall|i: int|
            0 <= i < s.len() ==> node_of(#[trigger] s[i]) is Ok,
        crate::decode::all_nodes(s) matches Ok(v) ==> v.len() == s.len() && forall|i: int|
            0 <= i < s.len() ==> node_of(s[i])->Ok_0 == #[trigger] v[i],
    decreases s.len(),
{
    if s.len() > 0 {
        let r = s.drop_last();
        nodes_in_order(r);
        if crate::decode::all_nodes(s) is Ok {
            assert forall|i: int| 0 <= i < s.len() implies node_of(#[trigger] s[i]) is Ok by {
                if i < r.len() {
                    assert(r[i] == s[i]);
                }
            }
        }
        if forall|i: int| 0 <= i < s.len() ==> node_of(#[trigger] s[i]) is Ok {
            assert forall|i: int| 0 <= i < r.len() implies node_of(#[trigger] r[i]) is Ok by {
                assert(r[i] == s[i]);
            }
            assert(node_of(s[s.len() - 1]) is Ok);
        }
    }
}

proof fn edges_in_order(s: Seq<JsonV>)
    ensures
        crate::decode::all_edges(s) is Ok <==> forall|i: int|
            0 <= i < s.len() ==> edge_of(#[trigger] s[i]) is Ok,
        crate::decode::all_edges(s) matches Ok(v) ==> v.len() == s.len() && forall|i: int|
            0 <= i < s.len() ==> edge_of(s[i])->Ok_0 == #[trigger] v[i],
    decreases s.len(),
{
    if s.len() > 0 {
        let r = s.drop_last();
        edges_in_order(r);
        if crate::decode::all_edges(s) is Ok {
            assert forall|i: int| 0 <= i < s.len() implies edge_of(#[trigger] s[i]) is Ok by {
                if i < r.len() {
                    assert(r[i] == s[i]);
                }
            }
        }
        if forall|i: int| 0 <= i < s.len() ==> edge_of(#[trigger] s[i]) is Ok {
            assert forall|i: int| 0 <= i < r.len() implies edge_of(#[trigger] r[i]) is Ok by {
                assert(r[i] == s[i]);
            }
            assert(edge_of(s[s.len() - 1]) is Ok);
        }
    }
}

/// A list of nodes or edges that may be left out.
pub open spec fn listed(m: FieldsV, key: Seq<char>) -> Seq<JsonV> {
    if m.contains_key(key) {
        m[key]->Array_0
    } else {
        Seq::empty()
    }
}

/// A document gives the nodes and the edges of its two lists, one for one and in
/// order. A list that is left out is empty; one that is no list, or that holds
/// something else, makes the document malformed.
pub proof fn document_gives_its_lists(m: FieldsV)
    ensures
        raw_of(JsonV::Object(m)) is Ok <==> {
            &&& m.contains_key("nodes"@) ==> m["nodes"@] is Array
            &&& m.contains_key("edges"@) ==> m["edges"@] is Array
            &&& forall|i: int|
                0 <= i < listed(m, "nodes"@).len() ==> node_of(
                    #[trigger] listed(m, "nodes"@)[i],
                ) is Ok
            &&& forall|i: int|
                0 <= i < listed(m, "edges"@).len() ==> edge_of(
                    #[trigger] listed(m, "edges"@)[i],
                ) is Ok
        },
        raw_of(JsonV::Object(m)) matches Ok(g) ==> {
            &&& g.nodes.len() == listed(m, "nodes"@).len()
            &&& g.edges.len() == listed(m, "edges"@).len()
            &&& forall|i: int|
                0 <= i < g.nodes.len() ==> node_of(listed(m, "nodes"@)[i])->Ok_0
                    == #[trigger] g.nodes[i]
            &&& forall|i: int|
                0 <= i < g.edges.len() ==> edge_of(listed(m, "edges"@)[i])->Ok_0
                    == #[trigger] g.edges[i]
        },
{
    let ns = listed(m, "nodes"@);
    let es = listed(m, "edges"@);
    nodes_in_order(ns);
    edges_in_order(es);
}

/// A document may be written as a list of its nodes and its edges.
pub proof fn document_may_be_a_list(s: Seq<JsonV>)
    ensures
        s.len() == 2 ==> ({
            let m = Map::<Seq<char>, JsonV>::empty().insert("nodes"@, s[0]).insert("edges"@, s[1]);
            &&& raw_of(JsonV::Array(s)) is Ok <==> raw_of(JsonV::Object(m)) is Ok
            &&& raw_of(JsonV::Array(s)) is Ok ==> raw_of(JsonV::Array(s))->Ok_0 == raw_of(
                JsonV::Object(m),
            )->Ok_0
        }),
        s.len() == 1 ==> ({
            let m = Map::<Seq<char>, JsonV>::empty().insert("nodes"@, s[0]);
            &&& raw_of(JsonV::Array(s)) is Ok <==> raw_of(JsonV::Object(m)) is Ok
            &&& raw_of(JsonV::Array(s)) is Ok ==> raw_of(JsonV::Array(s))->Ok_0 == raw_of(
                JsonV::Object(m),
            )->Ok_0
        }),
        s.len() == 0 ==> raw_of(JsonV::Array(s)) == raw_of(JsonV::Object(Map::empty())),
        s.len() > 2 ==> raw_of(JsonV::Array(s)) is Err,
{
    reveal_strlit("nodes");
    reveal_strlit("edges");
    assert("nodes"@[0] != "edges"@[0]);
}

/// Only an object or a list is read as a node, an edge or a document.
pub proof fn nothing_else_is_a_document(j: JsonV)
    requires
        !(j is Object),
        !(j is Array),
    ensures
        node_of(j) is Err,
        edge_of(j) is Err,
        raw_of(j) is Err,
        raw_of(j)->Err_0 == "invalid type: "@ + found(j) + ", expected "@ + "struct RawGraph"@,
{
}

/// What is no string is refused where a string is wanted, and what is no list where a
/// list is wanted, by naming both.
pub proof fn wrong_types_are_named(j: JsonV)
    ensures
        !(j is Str) ==> string_of(j) is Err && string_of(j)->Err_0 == "invalid type: "@ + found(j)
            + ", expected "@ + "a string"@,
        j matches JsonV::Str(s) ==> string_of(j) is Ok && string_of(j)->Ok_0 == s,
        !(j is Array) ==> nodes_of(j) is Err && nodes_of(j)->Err_0 == "invalid type: "@ + found(j)
            + ", expected "@ + "a sequence"@,
        !(j is Array) ==> edges_of(j) is Err && edges_of(j)->Err_0 == "invalid type: "@ + found(j)
            + ", expected "@ + "a sequence"@,
        !(j is Str) && !(j is Object) ==> kind_of(j) is Err && kind_of(j)->Err_0
            == "invalid type: "@ + found(j) + ", expected "@ + "string or map"@,
        !(j is Array) && !(j is Object) ==> node_of(j) is Err && node_of(j)->Err_0
            == "invalid type: "@ + found(j) + ", expected "@ + "struct Node"@,
        !(j is Array) && !(j is Object) ==> edge_of(j) is Err && edge_of(j)->Err_0
            == "invalid type: "@ + found(j) + ", expected "@ + "struct Edge"@,
{
}

/// Of an object without a field that it must have, the first such field is named; a
/// field of the wrong type is named before that.
pub proof fn missing_fields_are_named(m: FieldsV)
    ensures
        m.contains_key("id"@) && !(m["id"@] is Str) ==> {
            &&& node_of(JsonV::Object(m))->Err_0 == string_of(m["id"@])->Err_0
            &&& edge_of(JsonV::Object(m))->Err_0 == string_of(m["id"@])->Err_0
        },
        ({
            let sound = |key: Seq<char>| m.contains_key(key) ==> m[key] is Str;
            let label = m.contains_key("label"@) ==> m["label"@] is Str || m["label"@] is Null;
            sound("id"@) && label && sound("source"@) && sound("target"@) ==> {
                &&& !m.contains_key("id"@) ==> edge_of(JsonV::Object(m))->Err_0
                    == "missing field `"@ + "id"@ + "`"@
                &&& m.contains_key("id"@) && !m.contains_key("source"@) ==> edge_of(
                    JsonV::Object(m),
                )->Err_0 == "missing field `"@ + "source"@ + "`"@
                &&& m.contains_key("id"@) && m.contains_key("source"@) && !m.contains_key(
                    "target"@,
                ) ==> edge_of(JsonV::Object(m))->Err_0 == "missing field `"@ + "target"@ + "`"@
            }
        }),
{
}

/// A list with too few or too many elements is refused by its length.
pub proof fn wrong_lengths_are_named(s: Seq<JsonV>)
    ensures
        s.len() == 0 ==> node_of(JsonV::Array(s))->Err_0 == "invalid length "@ + decimal(0)
            + ", expected "@ + "struct Node with 3 elements"@,
        s.len() > 3 && s[0] is Str && s[1] is Str ==> node_of(JsonV::Array(s))->Err_0
            == "invalid length "@ + decimal(s.len()) + ", expected "@ + "fewer elements in array"@,
        s.len() == 0 ==> edge_of(JsonV::Array(s))->Err_0 == "invalid length "@ + decimal(0)
            + ", expected "@ + "struct Edge with 5 elements"@,
        s.len() == 1 && s[0] is Str ==> edge_of(JsonV::Array(s))->Err_0 == "invalid length "@
            + decimal(1) + ", expected "@ + "struct Edge with 5 elements"@,
        s.len() == 2 && s[0] is Str && s[1] is Str ==> edge_of(JsonV::Array(s))->Err_0
            == "invalid length "@ + decimal(2) + ", expected "@ + "struct Edge with 5 elements"@,
        s.len() > 5 && s[0] is Str && s[1] is Str && s[2] is Str && s[3] is Null ==> edge_of(
            JsonV::Array(s),
        )->Err_0 == "invalid length "@ + decimal(s.len()) + ", expected "@
            + "fewer elements in array"@,
        s.len() > 2 && s[0] == JsonV::Array(Seq::empty()) && s[1] == JsonV::Array(Seq::empty())
            ==> raw_of(JsonV::Array(s))->Err_0 == "invalid length "@ + decimal(s.len())
            + ", expected "@ + "fewer elements in array"@,
{
}

/// The first node that cannot be read is the reason for refusing a list of them.
pub proof fn first_bad_node_is_the_reason(s: Seq<JsonV>, k: int)
    requires
        0 <= k < s.len(),
        node_of(s[k]) is Err,
        forall|i: int| 0 <= i < k ==> node_of(#[trigger] s[i]) is Ok,
    ensures
        nodes_of(JsonV::Array(s)) is Err,
        nodes_of(JsonV::Array(s))->Err_0 == node_of(s[k])->Err_0,
    decreases s.len(),
{
    let r = s.drop_last();
    if k < r.len() {
        assert(r[k] == s[k]);
        assert forall|i: int| 0 <= i < k implies node_of(#[trigger] r[i]) is Ok by {
            assert(r[i] == s[i]);
        }
        first_bad_node_is_the_reason(r, k);
    } else {
        nodes_in_order(r);
        assert forall|i: int| 0 <= i < r.len() implies node_of(#[trigger] r[i]) is Ok by {
            assert(r[i] == s[i]);
        }
        assert(s.last() == s[k]);
    }
}

/// The first edge that cannot be read is the reason for refusing a list of them.
pub proof fn first_bad_edge_is_the_reason(s: Seq<JsonV>, k: int)
    requires
        0 <= k < s.len(),
        edge_of(s[k]) is Err,
        forall|i: int| 0 <= i < k ==> edge_of(#[trigger] s[i]) is Ok,
    ensures
        edges_of(JsonV::Array(s)) is Err,
        edges_of(JsonV::Array(s))->Err_0 == edge_of(s[k])->Err_0,
    decreases s.len(),
{
    let r = s.drop_last();
    if k < r.len() {
        assert(r[k] == s[k]);
        assert forall|i: int| 0 <= i < k implies edge_of(#[trigger] r[i]) is Ok by {
            assert(r[i] == s[i]);
        }
        first_bad_edge_is_the_reason(r, k);
    } else {
        edges_in_order(r);
        assert forall|i: int| 0 <= i < r.len() implies edge_of(#[trigger] r[i]) is Ok by {
            assert(r[i] == s[i]);
        }
        assert(s.last() == s[k]);
    }
}

/// A document's edges are looked at before its nodes.
pub proof fn edges_are_looked_at_first(m: FieldsV)
    ensures
        m.contains_key("edges"@) && edges_of(m["edges"@]) is Err ==> raw_of(
            JsonV::Object(m),
        )->Err_0 == edges_of(m["edges"@])->Err_0,
        (m.contains_key("edges"@) ==> edges_of(m["edges"@]) is Ok) && m.contains_key("nodes"@)
            && nodes_of(m["nodes"@]) is Err ==> raw_of(JsonV::Object(m))->Err_0 == nodes_of(
            m["nodes"@],
        )->Err_0,
{
}

/// How an error names what was found.
pub proof fn errors_name_what_was_found(
    b: bool,
    n: u64,
    k: i64,
    t: Seq<char>,
    a: Seq<JsonV>,
    m: FieldsV,
)
    ensures
        found(JsonV::Null) == "null"@,
        found(JsonV::Bool(b)) == "boolean `"@ + (if b {
            "true"@
        } else {
            "false"@
        }) + "`"@,
        found(JsonV::Number(NumberV::PosInt(n))) == "integer `"@ + decimal(n as nat) + "`"@,
        found(JsonV::Number(NumberV::NegInt(k))) == "integer `"@ + decimal_int(k as int) + "`"@,
        found(JsonV::Number(NumberV::Float(t))) == "floating point `"@ + t + "`"@,
        found(JsonV::Str(t)) == "string "@ + crate::decode::debug_text(t),
        found(JsonV::Array(a)) == "sequence"@,
        found(JsonV::Object(m)) == "map"@,
{
    reveal_strlit("boolean `");
    reveal_strlit("true");
    reveal_strlit("false");
    reveal_strlit("`");
    reveal_strlit("boolean `true`");
    reveal_strlit("boolean `false`");
    assert("boolean `"@ + "true"@ + "`"@ =~= "boolean `true`"@);
    assert("boolean `"@ + "false"@ + "`"@ =~= "boolean `false`"@);
}

} // verus!
