//! Laws of the JSON model.

use crate::json::{
    field, fields_of, float_json, held, layer_json, normal, only_field, opt_string, opt_text,
    opt_tree, plain, reads_as, value_json, FieldsV, Json, JsonV, Layer, Number, NumberV,
};
use vstd::prelude::*;

verus! {

/// A value is what it is built from: scalars are kept, elements in order, and an
/// object is its fields.
pub proof fn values_are_what_they_hold(j: Json)
    ensures
        match j {
            Json::Null => j@ is Null,
            Json::Bool(b) => j@ == JsonV::Bool(b),
            Json::Number(Number::PosInt(n)) => j@ == JsonV::Number(NumberV::PosInt(n)),
            Json::Number(Number::NegInt(n)) => j@ == JsonV::Number(NumberV::NegInt(n)),
            Json::Number(Number::Float(t)) => j@ == JsonV::Number(NumberV::Float(t@)),
            Json::Str(s) => j@ == JsonV::Str(s@),
            Json::Array(v) => j@ matches JsonV::Array(s) && s.len() == v@.len() && forall|i: int|
                0 <= i < s.len() ==> #[trigger] s[i] == v@[i]@,
            Json::Object(m) => j@ == JsonV::Object(m@),
        },
{
    broadcast use crate::json::group_json;

}

/// An optional value is seen as the value, where there is one.
pub proof fn options_are_what_they_hold(j: Option<&Json>, s: Option<String>, t: Option<&str>)
    ensures
        opt_tree(j) is Some <==> j is Some,
        j matches Some(v) ==> opt_tree(j) == Some(v@),
        opt_string(s) is Some <==> s is Some,
        s matches Some(v) ==> opt_string(s) == Some(v@),
        opt_text(t) is Some <==> t is Some,
        t matches Some(v) ==> opt_text(t) == Some(v@),
{
}

/// A field is found under its own key and under no other; where there is no object
/// there is no field.
pub proof fn fields_are_found_by_their_keys(
    m: FieldsV,
    key: Seq<char>,
    other: Seq<char>,
    v: JsonV,
    j: JsonV,
)
    ensures
        JsonV::Object(m.insert(key, v)).get(key) == Some(v),
        other != key ==> JsonV::Object(m.insert(key, v)).get(other) == JsonV::Object(m).get(other),
        JsonV::Object(m.remove(key)).get(key) is None,
        field(m, key) == JsonV::Object(m).get(key),
        j.get(key) is Some ==> j is Object,
{
}

/// A typed read gives a value of that type, and nothing else.
pub proof fn typed_reads_convert_nothing(
    j: JsonV,
    key: Seq<char>,
    s: Seq<char>,
    b: bool,
    a: Seq<JsonV>,
    m: FieldsV,
)
    ensures
        j.as_str() == Some(s) <==> j == JsonV::Str(s),
        j.as_bool() == Some(b) <==> j == JsonV::Bool(b),
        j.as_array() == Some(a) <==> j == JsonV::Array(a),
        j.as_object() == Some(m) <==> j == JsonV::Object(m),
        j.str_at(key) == Some(s) <==> j.get(key) == Some(JsonV::Str(s)),
        j.bool_at(key) == Some(b) <==> j.get(key) == Some(JsonV::Bool(b)),
        j.array_at(key) == Some(a) <==> j.get(key) == Some(JsonV::Array(a)),
{
}

/// Of entries with the same key the last one counts.
pub proof fn later_entries_win(s: Seq<(String, Json)>, e: (String, Json))
    ensures
        fields_of(Seq::<(String, Json)>::empty()) == Map::<Seq<char>, JsonV>::empty(),
        fields_of(s.push(e)) == fields_of(s).insert(e.0@, e.1@),
{
    assert(s.push(e).drop_last() =~= s);
}

/// An object has an only field exactly where it holds that field and no other.
pub proof fn only_field_is_alone(m: FieldsV, key: Seq<char>, v: JsonV)
    ensures
        only_field(m) == Some((key, v)) <==> m == Map::<Seq<char>, JsonV>::empty().insert(key, v),
        only_field(m) is None <==> forall|k: Seq<char>, w: JsonV|
            m != #[trigger] Map::<Seq<char>, JsonV>::empty().insert(k, w),
{
    let one = Map::<Seq<char>, JsonV>::empty().insert(key, v);
    if m == one {
        assert(m.dom() =~= set![key]);
        let k = choose|k: Seq<char>| m.dom() == #[trigger] set![k];
        assert(set![k].contains(key));
    }
    if only_field(m) is Some {
        let k = choose|k: Seq<char>| m.dom() == #[trigger] set![k];
        assert(set![k].contains(k));
        assert(m =~= Map::<Seq<char>, JsonV>::empty().insert(k, m[k]));
    }
    assert forall|k: Seq<char>, w: JsonV|
        m == #[trigger] Map::<Seq<char>, JsonV>::empty().insert(k, w) implies only_field(
        m,
    ) is Some by {
        assert(m.dom() =~= set![k]);
    }
}

/// Bringing a value into its normal form changes numbers only: integers keep their
/// value.
pub proof fn normal_form_changes_numbers_only(j: JsonV)
    ensures
        match j {
            JsonV::Number(NumberV::PosInt(n)) => normal(j) == j,
            JsonV::Number(NumberV::NegInt(n)) => if n < 0 {
                normal(j) == j
            } else {
                normal(j) == JsonV::Number(NumberV::PosInt(n as u64))
            },
            JsonV::Number(NumberV::Float(t)) => normal(j) == float_json(t),
            JsonV::Array(s) => normal(j) matches JsonV::Array(t) && t.len() == s.len() && forall|
                i: int,
            |
                0 <= i < s.len() ==> #[trigger] t[i] == normal(s[i]),
            JsonV::Object(m) => normal(j) matches JsonV::Object(t) && t.dom() == m.dom() && forall|
                k: Seq<char>,
            |
                m.contains_key(k) ==> #[trigger] t[k] == normal(m[k]),
            _ => normal(j) == j,
        },
{
    if let JsonV::Object(m) = j {
        assert(normal(j)->Object_0.dom() =~= m.dom());
    }
}

/// What is surely read back: strings, booleans, integers, and lists and objects of
/// such, up to a depth.
pub proof fn plain_values(j: JsonV, depth: nat)
    ensures
        match j {
            JsonV::Null | JsonV::Bool(_) | JsonV::Str(_) => plain(j, depth),
            JsonV::Number(NumberV::PosInt(_)) => plain(j, depth),
            JsonV::Number(NumberV::NegInt(n)) => plain(j, depth) <==> n < 0,
            JsonV::Number(NumberV::Float(_)) => !plain(j, depth),
            JsonV::Array(s) => {
                &&& !plain(j, 0)
                &&& plain(j, depth + 1) <==> forall|i: int|
                    0 <= i < s.len() ==> plain(#[trigger] s[i], depth)
            },
            JsonV::Object(m) => {
                &&& !plain(j, 0)
                &&& plain(j, depth + 1) <==> !m.contains_key("$serde_json::private::RawValue"@)
                    && forall|k: Seq<char>|
                    #![trigger m[k]]
                    m.contains_key(k) ==> plain(m[k], depth)
            },
        },
{
    assert((depth + 1 - 1) as nat == depth);
    if let JsonV::Array(s) = j {
        if plain(j, depth + 1) {
            assert forall|i: int| 0 <= i < s.len() implies plain(#[trigger] s[i], depth) by {}
        }
        if forall|i: int| 0 <= i < s.len() ==> plain(#[trigger] s[i], depth) {
            assert(plain(j, depth + 1));
        }
    }
    if let JsonV::Object(m) = j {
        if plain(j, depth + 1) {
            assert forall|k: Seq<char>| #![trigger m[k]] m.contains_key(k) implies plain(
                m[k],
                depth,
            ) by {}
        }
    }
}

/// The layers of a parsed value are what it holds.
pub proof fn layers_are_what_they_hold<'a>(l: Layer<'a>)
    ensures
        match l {
            Layer::Null => layer_json(l) is Null,
            Layer::Bool(b) => layer_json(l) == JsonV::Bool(b),
            Layer::Number(n) => layer_json(l) == JsonV::Number(n@),
            Layer::Str(s) => layer_json(l) == JsonV::Str(s@),
            Layer::Array(v) => layer_json(l) matches JsonV::Array(s) && s.len() == v@.len()
                && forall|i: int| 0 <= i < s.len() ==> #[trigger] s[i] == value_json(v@[i]),
            Layer::Object(es) => layer_json(l) == JsonV::Object(held(es@)),
        },
{
}

/// The fields of a parsed object are its entries.
pub proof fn parsed_fields_are_the_entries<'a>(
    s: Seq<(&'a String, &'a serde_json::Value)>,
    e: (&'a String, &'a serde_json::Value),
)
    ensures
        held(Seq::<(&'a String, &'a serde_json::Value)>::empty()) == Map::<
            Seq<char>,
            JsonV,
        >::empty(),
        held(s.push(e)) == held(s).insert(e.0@, value_json(*e.1)),
{
    assert(s.push(e).drop_last() =~= s);
}

/// One text is read as one value.
pub proof fn text_reads_one_way(text: Seq<char>, v: JsonV, w: JsonV)
    requires
        reads_as(text, v),
        reads_as(text, w),
    ensures
        v == w,
        crate::json::json_of_text(text) is Ok,
{
}

} // verus!
