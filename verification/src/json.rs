//! JSON values.
//!
//! [`Json`] is the tree that every configuration, variable and wire frame of
//! this library is made of. Its view, [`JsonV`], is the same tree over
//! mathematical sequences and maps: an object is a map from keys to values, so
//! the order in which keys were written plays no part.

use crate::text::same;
use vstd::prelude::*;

verus! {

// ── The model ─────────────────────────────────────────────────────────────

/// A JSON number: an integer of 64 bits, or the text of any other number.
pub enum NumberV {
    PosInt(u64),
    NegInt(i64),
    Float(Seq<char>),
}

/// A JSON value.
#[verifier::ext_equal]
pub enum JsonV {
    Null,
    Bool(bool),
    Number(NumberV),
    Str(Seq<char>),
    Array(Seq<JsonV>),
    Object(Map<Seq<char>, JsonV>),
}

/// The variables of a run, or the fields of an object.
pub type FieldsV = Map<Seq<char>, JsonV>;

/// The value at `key`, if the map holds one.
pub open spec fn field(m: FieldsV, key: Seq<char>) -> Option<JsonV> {
    if m.contains_key(key) {
        Some(m[key])
    } else {
        None
    }
}

/// The key and value of a map with exactly one key.
pub open spec fn only_field(m: FieldsV) -> Option<(Seq<char>, JsonV)> {
    if exists|k: Seq<char>| m.dom() == #[trigger] set![k] {
        let k = choose|k: Seq<char>| m.dom() == #[trigger] set![k];
        Some((k, m[k]))
    } else {
        None
    }
}

impl JsonV {
    /// The value at `key` of an object; nothing for any other value.
    pub open spec fn get(self, key: Seq<char>) -> Option<JsonV> {
        match self {
            JsonV::Object(m) => field(m, key),
            _ => None,
        }
    }

    pub open spec fn as_str(self) -> Option<Seq<char>> {
        match self {
            JsonV::Str(s) => Some(s),
            _ => None,
        }
    }

    pub open spec fn as_bool(self) -> Option<bool> {
        match self {
            JsonV::Bool(b) => Some(b),
            _ => None,
        }
    }

    pub open spec fn as_array(self) -> Option<Seq<JsonV>> {
        match self {
            JsonV::Array(a) => Some(a),
            _ => None,
        }
    }

    pub open spec fn as_object(self) -> Option<FieldsV> {
        match self {
            JsonV::Object(m) => Some(m),
            _ => None,
        }
    }

    /// The string at `key`, if this is an object with a string there.
    pub open spec fn str_at(self, key: Seq<char>) -> Option<Seq<char>> {
        match self.get(key) {
            Some(v) => v.as_str(),
            None => None,
        }
    }

    /// The boolean at `key`, if this is an object with a boolean there.
    pub open spec fn bool_at(self, key: Seq<char>) -> Option<bool> {
        match self.get(key) {
            Some(v) => v.as_bool(),
            None => None,
        }
    }

    /// The array at `key`, if this is an object with an array there.
    pub open spec fn array_at(self, key: Seq<char>) -> Option<Seq<JsonV>> {
        match self.get(key) {
            Some(v) => v.as_array(),
            None => None,
        }
    }
}

// ── The executable tree ───────────────────────────────────────────────────

/// A JSON number: an integer of 64 bits, or the text of any other number.
#[derive(Debug)]
pub enum Number {
    PosInt(u64),
    NegInt(i64),
    Float(String),
}

/// A JSON value.
#[derive(Debug)]
pub enum Json {
    Null,
    Bool(bool),
    Number(Number),
    Str(String),
    Array(Vec<Json>),
    Object(JsonMap),
}

/// A map from keys to JSON values.
#[derive(Debug)]
pub struct JsonMap {
    entries: Vec<(String, Json)>,
}

impl View for Number {
    type V = NumberV;

    open spec fn view(&self) -> NumberV {
        match self {
            Number::PosInt(n) => NumberV::PosInt(*n),
            Number::NegInt(n) => NumberV::NegInt(*n),
            Number::Float(t) => NumberV::Float(t@),
        }
    }
}

impl View for Json {
    type V = JsonV;

    open spec fn view(&self) -> JsonV {
        tree(*self)
    }
}

impl View for JsonMap {
    type V = FieldsV;

    closed spec fn view(&self) -> FieldsV {
        fields_of(self.entries@)
    }
}

/// The tree that a value stands for.
pub closed spec fn tree(j: Json) -> JsonV
    decreases j,
{
    match j {
        Json::Null => JsonV::Null,
        Json::Bool(b) => JsonV::Bool(b),
        Json::Number(n) => JsonV::Number(n@),
        Json::Str(s) => JsonV::Str(s@),
        Json::Array(v) => JsonV::Array(trees(v@)),
        Json::Object(m) => JsonV::Object(fields_of(m.entries@)),
    }
}

/// The trees of a sequence of values.
pub closed spec fn trees(s: Seq<Json>) -> Seq<JsonV>
    decreases s,
{
    if s.len() == 0 {
        Seq::empty()
    } else {
        trees(s.drop_last()).push(tree(s.last()))
    }
}

/// The map that a list of entries stands for; the last entry of a key counts.
pub open spec fn fields_of(s: Seq<(String, Json)>) -> FieldsV
    decreases s,
{
    if s.len() == 0 {
        Map::empty()
    } else {
        fields_of(s.drop_last()).insert(s.last().0@, tree(s.last().1))
    }
}

/// What each kind of value stands for.
pub broadcast proof fn tree_cases(j: Json)
    ensures
        #[trigger] tree(j) == (match j {
            Json::Null => JsonV::Null,
            Json::Bool(b) => JsonV::Bool(b),
            Json::Number(n) => JsonV::Number(n@),
            Json::Str(s) => JsonV::Str(s@),
            Json::Array(v) => JsonV::Array(trees(v@)),
            Json::Object(m) => JsonV::Object(m@),
        }),
{
}

/// The trees of a sequence stand at the places of its values.
pub broadcast proof fn trees_len(s: Seq<Json>)
    ensures
        #[trigger] trees(s).len() == s.len(),
    decreases s,
{
    if s.len() > 0 {
        trees_len(s.drop_last());
    }
}

/// The trees of a sequence stand at the places of its values.
pub broadcast proof fn trees_index(s: Seq<Json>, i: int)
    requires
        0 <= i < s.len(),
    ensures
        #[trigger] trees(s)[i] == tree(s[i]),
    decreases s,
{
    trees_len(s);
    trees_len(s.drop_last());
    if i < s.len() - 1 {
        trees_index(s.drop_last(), i);
    }
}

pub broadcast group group_json {
    tree_cases,
    trees_len,
    trees_index,
}

/// The trees of `s` with one value more.
pub proof fn trees_push(s: Seq<Json>, j: Json)
    ensures
        trees(s.push(j)) == trees(s).push(tree(j)),
{
    assert(s.push(j).drop_last() =~= s);
}

/// The view of an optional borrowed value.
pub open spec fn opt_tree(o: Option<&Json>) -> Option<JsonV> {
    match o {
        Some(j) => Some(tree(*j)),
        None => None,
    }
}

/// The view of an optional borrowed text.
pub open spec fn opt_text(o: Option<&str>) -> Option<Seq<char>> {
    match o {
        Some(s) => Some(s@),
        None => None,
    }
}

/// The view of an optional owned text.
pub open spec fn opt_string(o: Option<String>) -> Option<Seq<char>> {
    match o {
        Some(s) => Some(s@),
        None => None,
    }
}

// ── Maps ──────────────────────────────────────────────────────────────────

/// No entry from `from` on has the key `key`.
spec fn absent_from(s: Seq<(String, Json)>, key: Seq<char>, from: int) -> bool {
    forall|i: int| from <= i < s.len() ==> (#[trigger] s[i]).0@ != key
}

proof fn fields_absent(s: Seq<(String, Json)>, key: Seq<char>)
    requires
        absent_from(s, key, 0),
    ensures
        !fields_of(s).contains_key(key),
    decreases s,
{
    if s.len() > 0 {
        let r = s.drop_last();
        assert forall|i: int| 0 <= i < r.len() implies (#[trigger] r[i]).0@ != key by {
            assert(r[i] == s[i]);
        }
        fields_absent(r, key);
        assert(s[s.len() - 1].0@ != key);
    }
}

proof fn fields_last(s: Seq<(String, Json)>, key: Seq<char>, k: int)
    requires
        0 <= k < s.len(),
        s[k].0@ == key,
        absent_from(s, key, k + 1),
    ensures
        fields_of(s).contains_key(key),
        fields_of(s)[key] == tree(s[k].1),
    decreases s,
{
    let r = s.drop_last();
    if k < s.len() - 1 {
        assert forall|i: int| k + 1 <= i < r.len() implies (#[trigger] r[i]).0@ != key by {
            assert(r[i] == s[i]);
        }
        fields_last(r, key, k);
        assert(s[s.len() - 1].0@ != key);
    }
}

proof fn fields_update(s: Seq<(String, Json)>, k: int, e: (String, Json))
    requires
        0 <= k < s.len(),
        s[k].0@ == e.0@,
        absent_from(s, e.0@, k + 1),
    ensures
        fields_of(s.update(k, e)) == fields_of(s).insert(e.0@, tree(e.1)),
    decreases s,
{
    let u = s.update(k, e);
    let r = s.drop_last();
    if k < s.len() - 1 {
        assert forall|i: int| k + 1 <= i < r.len() implies (#[trigger] r[i]).0@ != e.0@ by {
            assert(r[i] == s[i]);
        }
        fields_update(r, k, e);
        assert(u.drop_last() =~= r.update(k, e));
        assert(s[s.len() - 1].0@ != e.0@);
        assert(fields_of(u) =~= fields_of(s).insert(e.0@, tree(e.1)));
    } else {
        assert(u.drop_last() =~= r);
        assert(fields_of(u) =~= fields_of(s).insert(e.0@, tree(e.1)));
    }
}

impl JsonMap {
    /// A map that holds nothing.
    pub fn new() -> (m: JsonMap)
        ensures
            m@ == Map::<Seq<char>, JsonV>::empty(),
    {
        JsonMap { entries: Vec::new() }
    }

    /// Where the entry of `key` that counts stands.
    fn position(&self, key: &str) -> (r: Option<usize>)
        ensures
            match r {
                Some(k) => k < self.entries@.len() && self.entries@[k as int].0@ == key@
                    && absent_from(self.entries@, key@, k + 1),
                None => absent_from(self.entries@, key@, 0),
            },
    {
        let mut k: usize = self.entries.len();
        while k > 0
            invariant
                k <= self.entries@.len(),
                absent_from(self.entries@, key@, k as int),
            decreases k,
        {
            k -= 1;
            if same(self.entries[k].0.as_str(), key) {
                return Some(k);
            }
        }
        None
    }

    /// The value at `key`.
    pub fn get(&self, key: &str) -> (r: Option<&Json>)
        ensures
            opt_tree(r) == field(self@, key@),
    {
        match self.position(key) {
            Some(k) => {
                proof {
                    fields_last(self.entries@, key@, k as int);
                }
                Some(&self.entries[k].1)
            },
            None => {
                proof {
                    fields_absent(self.entries@, key@);
                }
                None
            },
        }
    }

    /// Put `value` at `key`, in place of what stood there.
    pub fn insert(&mut self, key: String, value: Json)
        ensures
            final(self)@ == old(self)@.insert(key@, value@),
    {
        match self.position(key.as_str()) {
            Some(k) => {
                proof {
                    fields_update(self.entries@, k as int, (key, value));
                }
                self.entries.set(k, (key, value));
            },
            None => {
                let ghost before = self.entries@;
                self.entries.push((key, value));
                assert(self.entries@.drop_last() =~= before);
            },
        }
    }

    /// The entries as they are kept.
    pub closed spec fn listed(&self) -> Seq<(String, Json)> {
        self.entries@
    }

    /// The map that a list of entries stands for.
    pub fn from_entries(entries: Vec<(String, Json)>) -> (m: JsonMap)
        ensures
            m@ == fields_of(entries@),
    {
        JsonMap { entries }
    }

    /// The number of entries as they are kept.
    pub fn size(&self) -> (n: usize)
        ensures
            n == self.listed().len(),
    {
        self.entries.len()
    }

    /// The entry at a position.
    pub fn entry(&self, i: usize) -> (e: (&String, &Json))
        requires
            i < self.listed().len(),
        ensures
            *e.0 == self.listed()[i as int].0,
            *e.1 == self.listed()[i as int].1,
    {
        (&self.entries[i].0, &self.entries[i].1)
    }

    /// The entries stand for the map.
    pub proof fn listed_is_view(&self)
        ensures
            self@ == fields_of(self.listed()),
    {
    }

    /// A value that a map holds is smaller than the map.
    pub proof fn entry_is_smaller(&self, i: int)
        requires
            0 <= i < self.listed().len(),
        ensures
            decreases_to!(self => self.listed()[i].1),
    {
        assert(decreases_to!(self.entries@ => self.entries@[i]));
        assert(decreases_to!(self.entries@[i] => self.entries@[i].1));
    }

    /// Puts every entry of `other` in, in place of what stood at its key.
    pub fn extend(&mut self, other: JsonMap)
        ensures
            final(self)@ == old(self)@.union_prefer_right(other@),
    {
        let ghost before = self@;
        let ghost es = other.entries@;
        assert(self@ =~= before.union_prefer_right(fields_of(es.take(0))));
        for e in iter: other.entries
            invariant
                iter.seq() == es,
                self@ == before.union_prefer_right(fields_of(es.take(iter.index()))),
        {
            let ghost k = iter.index();
            let ghost was = self@;
            self.insert(e.0, e.1);
            proof {
                assert(es.take(k + 1).drop_last() =~= es.take(k));
                assert(self@ =~= before.union_prefer_right(fields_of(es.take(k + 1))));
            }
        }
        assert(es.take(es.len() as int) =~= es);
    }

    /// The entry of a map with exactly one key.
    pub fn only(&self) -> (r: Option<(&String, &Json)>)
        ensures
            match r {
                Some(e) => only_field(self@) == Some((e.0@, tree(*e.1))),
                None => only_field(self@) is None,
            },
    {
        let n: usize = self.entries.len();
        if n == 0 {
            proof {
                assert forall|k: Seq<char>| self@.dom() != set![k] by {
                    assert(set![k].contains(k));
                }
            }
            return None;
        }
        let mut i: usize = 0;
        while i + 1 < n
            invariant
                n == self.entries.len(),
                i < n,
                forall|k: int| n - 1 - i <= k < n ==> (#[trigger] self.entries@[k]).0@ == self.entries@[n - 1].0@,
            decreases n - i,
        {
            i += 1;
            if !same(self.entries[n - 1 - i].0.as_str(), self.entries[n - 1].0.as_str()) {
                proof {
                    let a = self.entries@[n - 1 - i].0@;
                    let b = self.entries@[n - 1].0@;
                    fields_has(self.entries@, n - 1 - i);
                    fields_has(self.entries@, n - 1);
                    assert forall|k: Seq<char>| self@.dom() != set![k] by {
                        assert(self@.dom().contains(a) && self@.dom().contains(b));
                        assert(set![k].contains(a) ==> k == a);
                        assert(set![k].contains(b) ==> k == b);
                    }
                }
                return None;
            }
        }
        proof {
            let k = self.entries@[n - 1].0@;
            fields_last(self.entries@, k, n - 1);
            assert forall|x: Seq<char>| self@.contains_key(x) implies x == k by {
                if x != k {
                    fields_absent(self.entries@, x);
                }
            }
            assert(self@.dom() =~= set![k]);
            assert forall|x: Seq<char>| self@.dom() == set![x] implies x == k by {
                assert(set![x].contains(k));
            }
        }
        Some((&self.entries[n - 1].0, &self.entries[n - 1].1))
    }
}

proof fn fields_has(s: Seq<(String, Json)>, k: int)
    requires
        0 <= k < s.len(),
    ensures
        fields_of(s).contains_key(s[k].0@),
    decreases s,
{
    if k < s.len() - 1 {
        assert(s.drop_last()[k] == s[k]);
        fields_has(s.drop_last(), k);
    }
}

// ── Values ────────────────────────────────────────────────────────────────

impl Json {
    /// The value at `key` of an object; nothing for any other value.
    pub fn get(&self, key: &str) -> (r: Option<&Json>)
        ensures
            opt_tree(r) == self@.get(key@),
    {
        match self {
            Json::Object(m) => m.get(key),
            _ => None,
        }
    }

    pub fn as_str(&self) -> (r: Option<&str>)
        ensures
            opt_text(r) == self@.as_str(),
    {
        match self {
            Json::Str(s) => Some(s.as_str()),
            _ => None,
        }
    }

    pub fn as_bool(&self) -> (r: Option<bool>)
        ensures
            r == self@.as_bool(),
    {
        match self {
            Json::Bool(b) => Some(*b),
            _ => None,
        }
    }

    pub fn as_array(&self) -> (r: Option<&Vec<Json>>)
        ensures
            match r {
                Some(v) => self@.as_array() == Some(trees(v@)),
                None => self@.as_array() is None,
            },
    {
        match self {
            Json::Array(v) => Some(v),
            _ => None,
        }
    }

    pub fn as_object(&self) -> (r: Option<&JsonMap>)
        ensures
            match r {
                Some(m) => self@.as_object() == Some(m@),
                None => self@.as_object() is None,
            },
    {
        match self {
            Json::Object(m) => Some(m),
            _ => None,
        }
    }

    /// The string at `key`, if this is an object with a string there.
    pub fn str_at(&self, key: &str) -> (r: Option<&str>)
        ensures
            opt_text(r) == self@.str_at(key@),
    {
        match self.get(key) {
            Some(v) => v.as_str(),
            None => None,
        }
    }

    /// The boolean at `key`, if this is an object with a boolean there.
    pub fn bool_at(&self, key: &str) -> (r: Option<bool>)
        ensures
            r == self@.bool_at(key@),
    {
        match self.get(key) {
            Some(v) => v.as_bool(),
            None => None,
        }
    }

    /// The array at `key`, if this is an object with an array there.
    pub fn array_at(&self, key: &str) -> (r: Option<&Vec<Json>>)
        ensures
            match r {
                Some(v) => self@.array_at(key@) == Some(trees(v@)),
                None => self@.array_at(key@) is None,
            },
    {
        match self.get(key) {
            Some(v) => v.as_array(),
            None => None,
        }
    }
}

/// A copy of `j`.
pub fn copy(j: &Json) -> (r: Json)
    ensures
        r@ == j@,
    decreases j,
{
    broadcast use group_json;

    match j {
        Json::Null => Json::Null,
        Json::Bool(b) => Json::Bool(*b),
        Json::Number(n) => Json::Number(copy_number(n)),
        Json::Str(s) => Json::Str(s.clone()),
        Json::Array(v) => {
            let mut out: Vec<Json> = Vec::new();
            let mut i: usize = 0;
            while i < v.len()
                invariant
                    i <= v@.len(),
                    *j == Json::Array(*v),
                    trees(out@) == trees(v@).take(i as int),
                decreases v@.len() - i,
            {
                proof {
                    trees_len(v@);
                    trees_index(v@, i as int);
                    assert(decreases_to!(j => j->Array_0));
                    assert(decreases_to!(v@ => v@[i as int]));
                }
                let c: Json = copy(&v[i]);
                proof {
                    trees_push(out@, c);
                    assert(trees(v@).take(i + 1) =~= trees(v@).take(i as int).push(tree(v@[i as int])));
                }
                out.push(c);
                i += 1;
            }
            assert(trees(v@).take(i as int) =~= trees(v@));
            Json::Array(out)
        },
        Json::Object(m) => Json::Object(copy_map_of(m)),
    }
}

fn copy_number(n: &Number) -> (r: Number)
    ensures
        r@ == n@,
{
    match n {
        Number::PosInt(k) => Number::PosInt(*k),
        Number::NegInt(k) => Number::NegInt(*k),
        Number::Float(t) => Number::Float(t.clone()),
    }
}

/// A copy of `m`.
fn copy_map_of(m: &JsonMap) -> (r: JsonMap)
    ensures
        r@ == m@,
    decreases m,
{
    let mut out: Vec<(String, Json)> = Vec::new();
    let mut i: usize = 0;
    while i < m.entries.len()
        invariant
            i <= m.entries@.len(),
            fields_of(out@) == fields_of(m.entries@.take(i as int)),
        decreases m.entries@.len() - i,
    {
        let k: String = m.entries[i].0.clone();
        let c: Json = copy(&m.entries[i].1);
        let ghost before = out@;
        out.push((k, c));
        proof {
            assert(out@.drop_last() =~= before);
            assert(m.entries@.take(i + 1).drop_last() =~= m.entries@.take(i as int));
        }
        i += 1;
    }
    assert(m.entries@.take(i as int) =~= m.entries@);
    JsonMap { entries: out }
}

impl Clone for Json {
    fn clone(&self) -> (r: Self)
        ensures
            r@ == self@,
    {
        copy(self)
    }
}

impl Clone for JsonMap {
    fn clone(&self) -> (r: Self)
        ensures
            r@ == self@,
    {
        copy_map_of(self)
    }
}

// ── Values of serde_json ──────────────────────────────────────────────────

/// `serde_json::Value`, carried through as it is.
#[verifier::external_type_specification]
#[verifier::external_body]
pub struct ExValue(serde_json::Value);

/// The tree that a `serde_json::Value` holds.
pub uninterp spec fn value_json(v: serde_json::Value) -> JsonV;

/// What `serde_json::from_str` reads from a text: the tree, or the message of
/// its error.
pub uninterp spec fn json_of_text(text: Seq<char>) -> Result<JsonV, Seq<char>>;

/// What `serde_yaml::from_str` reads from a text as a JSON tree: the tree, or the
/// message of its error.
pub uninterp spec fn json_of_yaml(text: Seq<char>) -> Result<JsonV, Seq<char>>;

/// The JSON text `text` holds the tree `v`.
pub open spec fn reads_as(text: Seq<char>, v: JsonV) -> bool {
    json_of_text(text) is Ok && json_of_text(text)->Ok_0 == v
}

/// The compact text that `serde_json` writes for a tree.
pub uninterp spec fn json_text(v: JsonV) -> Seq<char>;

/// What `serde_json` holds for the text of a number that is no 64-bit integer.
pub uninterp spec fn float_json(text: Seq<char>) -> JsonV;

/// The outermost layer of a `serde_json::Value`.
pub enum Layer<'a> {
    Null,
    Bool(bool),
    Number(Number),
    Str(String),
    Array(&'a Vec<serde_json::Value>),
    Object(Vec<(&'a String, &'a serde_json::Value)>),
}

/// The trees of a sequence of `serde_json` values.
pub open spec fn values_json(s: Seq<serde_json::Value>) -> Seq<JsonV> {
    Seq::new(s.len(), |i: int| value_json(s[i]))
}

/// The map that a list of entries stands for; the last entry of a key counts.
pub open spec fn held<'a>(s: Seq<(&'a String, &'a serde_json::Value)>) -> FieldsV
    decreases s.len(),
{
    if s.len() == 0 {
        Map::empty()
    } else {
        held(s.drop_last()).insert(s.last().0@, value_json(*s.last().1))
    }
}

/// The tree that a layer stands for.
pub open spec fn layer_json<'a>(l: Layer<'a>) -> JsonV {
    match l {
        Layer::Null => JsonV::Null,
        Layer::Bool(b) => JsonV::Bool(b),
        Layer::Number(n) => JsonV::Number(n@),
        Layer::Str(s) => JsonV::Str(s@),
        Layer::Array(v) => JsonV::Array(values_json(v@)),
        Layer::Object(es) => JsonV::Object(held(es@)),
    }
}

/// Takes `serde_json::Value` apart by its variants, one layer deep.
///
/// Claimed: the layer stands for the same tree, and the entries of an object
/// have distinct keys. A number is read through `Number::as_u64`,
/// `Number::as_i64` and, where it is no 64-bit integer, its `Display` text.
#[verifier::external_body]
fn open_value<'a>(v: &'a serde_json::Value) -> (l: Layer<'a>)
    ensures
        layer_json(l) == value_json(*v),
        l matches Layer::Object(es) ==> forall|i: int, j: int|
            0 <= i < j < es@.len() ==> (#[trigger] es@[i]).0@ != (#[trigger] es@[j]).0@,
{
    match v {
        serde_json::Value::Null => Layer::Null,
        serde_json::Value::Bool(b) => Layer::Bool(*b),
        serde_json::Value::Number(n) => Layer::Number(match (n.as_u64(), n.as_i64()) {
            (Some(k), _) => Number::PosInt(k),
            (None, Some(k)) => Number::NegInt(k),
            (None, None) => Number::Float(n.to_string()),
        }),
        serde_json::Value::String(s) => Layer::Str(s.clone()),
        serde_json::Value::Array(a) => Layer::Array(a),
        serde_json::Value::Object(m) => Layer::Object(m.iter().collect()),
    }
}

/// `serde_json::from_str` into a `Value`.
///
/// Claimed: the value or the error's `Display` text is a function of the text
/// alone.
#[verifier::external_body]
fn parse_value(text: &str) -> (r: Result<serde_json::Value, String>)
    ensures
        match r {
            Ok(v) => reads_as(text@, value_json(v)),
            Err(m) => json_of_text(text@) is Err && json_of_text(text@)->Err_0 == m@,
        },
{
    serde_json::from_str(text).map_err(|e: serde_json::Error| e.to_string())
}

/// `serde_yaml::from_str` into a `serde_json::Value`.
///
/// Claimed: the value or the error's `Display` text is a function of the text
/// alone.
#[verifier::external_body]
fn parse_yaml_value(text: &str) -> (r: Result<serde_json::Value, String>)
    ensures
        match r {
            Ok(v) => json_of_yaml(text@) is Ok && json_of_yaml(text@)->Ok_0 == value_json(v),
            Err(m) => json_of_yaml(text@) is Err && json_of_yaml(text@)->Err_0 == m@,
        },
{
    serde_yaml::from_str(text).map_err(|e: serde_yaml::Error| e.to_string())
}

/// The key of an entry stands in the map with its value, as no later entry has
/// the same key.
proof fn held_at<'a>(s: Seq<(&'a String, &'a serde_json::Value)>, i: int)
    requires
        0 <= i < s.len(),
        forall|i: int, j: int|
            0 <= i < j < s.len() ==> (#[trigger] s[i]).0@ != (#[trigger] s[j]).0@,
    ensures
        held(s).contains_key(s[i].0@),
        held(s)[s[i].0@] == value_json(*s[i].1),
    decreases s.len(),
{
    if i < s.len() - 1 {
        let r = s.drop_last();
        assert forall|i: int, j: int| 0 <= i < j < r.len() implies (#[trigger] r[i]).0@ != (
        #[trigger] r[j]).0@ by {
            assert(r[i] == s[i] && r[j] == s[j]);
        }
        assert(r[i] == s[i]);
        held_at(r, i);
        assert(s[i].0@ != s[s.len() - 1].0@);
    }
}

/// The tree of a `serde_json` value.
pub fn from_value(v: &serde_json::Value) -> (j: Json)
    ensures
        j@ == value_json(*v),
    decreases value_json(*v),
{
    match open_value(v) {
        Layer::Null => Json::Null,
        Layer::Bool(b) => Json::Bool(b),
        Layer::Number(n) => Json::Number(n),
        Layer::Str(s) => Json::Str(s),
        Layer::Array(a) => {
            let mut out: Vec<Json> = Vec::new();
            let mut i: usize = 0;
            while i < a.len()
                invariant
                    i <= a@.len(),
                    value_json(*v) == JsonV::Array(values_json(a@)),
                    trees(out@) == values_json(a@).take(i as int),
                decreases a@.len() - i,
            {
                proof {
                    assert(decreases_to!(value_json(*v) => value_json(*v)->Array_0));
                    assert(decreases_to!(values_json(a@) => values_json(a@)[i as int]));
                }
                let c: Json = from_value(&a[i]);
                proof {
                    trees_push(out@, c);
                    assert(values_json(a@).take(i + 1) =~= values_json(a@).take(i as int).push(
                        value_json(a@[i as int]),
                    ));
                }
                out.push(c);
                i += 1;
            }
            assert(values_json(a@).take(i as int) =~= values_json(a@));
            Json::Array(out)
        },
        Layer::Object(es) => {
            let mut out: Vec<(String, Json)> = Vec::new();
            let mut i: usize = 0;
            while i < es.len()
                invariant
                    i <= es@.len(),
                    value_json(*v) == JsonV::Object(held(es@)),
                    forall|i: int, j: int|
                        0 <= i < j < es@.len() ==> (#[trigger] es@[i]).0@ != (
                        #[trigger] es@[j]).0@,
                    fields_of(out@) == held(es@.take(i as int)),
                decreases es@.len() - i,
            {
                proof {
                    held_at(es@, i as int);
                    assert(decreases_to!(value_json(*v) => value_json(*v)->Object_0[es@[i as int].0@]));
                }
                let k: String = es[i].0.clone();
                let c: Json = from_value(es[i].1);
                let ghost before = out@;
                out.push((k, c));
                proof {
                    assert(out@.drop_last() =~= before);
                    assert(es@.take(i + 1).drop_last() =~= es@.take(i as int));
                }
                i += 1;
            }
            assert(es@.take(i as int) =~= es@);
            Json::Object(JsonMap { entries: out })
        },
    }
}

impl Json {
    /// The value that a JSON text holds, or why it holds none.
    pub fn parse(text: &str) -> (r: Result<Json, String>)
        ensures
            match r {
                Ok(j) => reads_as(text@, j@),
                Err(m) => json_of_text(text@) is Err && json_of_text(text@)->Err_0 == m@,
            },
    {
        match parse_value(text) {
            Ok(v) => Ok(from_value(&v)),
            Err(m) => Err(m),
        }
    }

    /// The value that a YAML text holds, or why it holds none.
    pub fn parse_yaml(text: &str) -> (r: Result<Json, String>)
        ensures
            match r {
                Ok(j) => json_of_yaml(text@) is Ok && json_of_yaml(text@)->Ok_0 == j@,
                Err(m) => json_of_yaml(text@) is Err && json_of_yaml(text@)->Err_0 == m@,
            },
    {
        match parse_yaml_value(text) {
            Ok(v) => Ok(from_value(&v)),
            Err(m) => Err(m),
        }
    }
}

// ── Writing ───────────────────────────────────────────────────────────────

/// The number as `serde_json` holds it: a negative integer stays one, and the
/// text of any other number is read as a float.
pub open spec fn normal_number(n: NumberV) -> JsonV {
    match n {
        NumberV::PosInt(k) => JsonV::Number(n),
        NumberV::NegInt(k) => if k < 0 {
            JsonV::Number(n)
        } else {
            JsonV::Number(NumberV::PosInt(k as u64))
        },
        NumberV::Float(t) => float_json(t),
    }
}

/// The tree as `serde_json` holds it: the same tree with each number as
/// [`normal_number`] gives it.
pub open spec fn normal(j: JsonV) -> JsonV
    decreases j,
{
    match j {
        JsonV::Number(n) => normal_number(n),
        JsonV::Array(s) => JsonV::Array(
            Seq::new(
                s.len(),
                |i: int|
                    if 0 <= i < s.len() {
                        normal(s[i])
                    } else {
                        JsonV::Null
                    },
            ),
        ),
        JsonV::Object(m) => JsonV::Object(
            Map::new(
                |k: Seq<char>| m.contains_key(k),
                |k: Seq<char>|
                    if m.contains_key(k) {
                        normal(m[k])
                    } else {
                        JsonV::Null
                    },
            ),
        ),
        _ => j,
    }
}

/// The key by which `serde_json` marks an object that stands for raw JSON text.
pub open spec fn raw_marker() -> Seq<char> {
    "$serde_json::private::RawValue"@
}

/// A key that is shorter than the marker is another one.
pub proof fn short_key_is_no_marker(key: Seq<char>)
    requires
        key.len() < 30,
    ensures
        key != raw_marker(),
{
    reveal_strlit("$serde_json::private::RawValue");
}

/// A tree whose numbers are all 64-bit integers in their own form, without the
/// marker of raw text among its keys, and nested at most `depth` deep.
pub open spec fn plain(j: JsonV, depth: nat) -> bool
    decreases j,
{
    match j {
        JsonV::Number(NumberV::NegInt(k)) => k < 0,
        JsonV::Number(NumberV::Float(t)) => false,
        JsonV::Array(s) => depth > 0 && forall|i: int|
            0 <= i < s.len() ==> plain(#[trigger] s[i], (depth - 1) as nat),
        JsonV::Object(m) => depth > 0 && !m.contains_key(raw_marker()) && forall|k: Seq<char>|
            #![trigger m[k]]
            m.contains_key(k) ==> plain(m[k], (depth - 1) as nat),
        _ => true,
    }
}

/// An object without fields is plain.
pub proof fn plain_empty(depth: nat)
    requires
        depth > 0,
    ensures
        plain(JsonV::Object(Map::empty()), depth),
{
}

/// A plain object stays plain with another plain field, under any key but the
/// marker.
pub proof fn plain_insert(m: FieldsV, key: Seq<char>, v: JsonV, depth: nat)
    requires
        depth > 0,
        key != raw_marker(),
        plain(JsonV::Object(m), depth),
        plain(v, (depth - 1) as nat),
    ensures
        plain(JsonV::Object(m.insert(key, v)), depth),
{
    let n = m.insert(key, v);
    let j = JsonV::Object(m);
    assert(plain(j, depth));
    assert(!j->Object_0.contains_key(raw_marker()));
    assert forall|k: Seq<char>| m.contains_key(k) implies plain(#[trigger] m[k], (depth - 1) as nat) by {
        assert(j->Object_0.contains_key(k));
        assert(plain(j->Object_0[k], (depth - 1) as nat));
    }
    assert forall|k: Seq<char>| #![trigger n[k]] n.contains_key(k) implies plain(
        n[k],
        (depth - 1) as nat,
    ) by {
        if k != key {
            assert(m.contains_key(k));
            assert(plain(m[k], (depth - 1) as nat));
            assert(n[k] == m[k]);
        } else {
            assert(n[k] == v);
        }
    }
}

/// What is nested at most one depth is nested at most a greater one.
pub proof fn plain_deeper(j: JsonV, depth: nat, more: nat)
    requires
        plain(j, depth),
        depth <= more,
    ensures
        plain(j, more),
    decreases j,
{
    match j {
        JsonV::Array(s) => {
            assert forall|i: int| 0 <= i < s.len() implies plain(
                #[trigger] s[i],
                (more - 1) as nat,
            ) by {
                plain_deeper(s[i], (depth - 1) as nat, (more - 1) as nat);
            }
        },
        JsonV::Object(m) => {
            assert forall|k: Seq<char>|
                #![trigger m[k]]
                m.contains_key(k) implies plain(m[k], (more - 1) as nat) by {
                plain_deeper(m[k], (depth - 1) as nat, (more - 1) as nat);
            }
        },
        _ => {},
    }
}

/// A plain tree is held as it is.
pub proof fn plain_is_normal(j: JsonV, depth: nat)
    requires
        plain(j, depth),
    ensures
        normal(j) == j,
    decreases j,
{
    match j {
        JsonV::Array(s) => {
            assert forall|i: int| 0 <= i < s.len() implies normal(#[trigger] s[i]) == s[i] by {
                plain_is_normal(s[i], (depth - 1) as nat);
            }
            assert(normal(j)->Array_0 =~= s);
        },
        JsonV::Object(m) => {
            assert forall|k: Seq<char>| m.contains_key(k) implies normal(#[trigger] m[k])
                == m[k] by {
                plain_is_normal(m[k], (depth - 1) as nat);
            }
            assert(normal(j)->Object_0 =~= m);
        },
        _ => {},
    }
}

/// The outermost layer of a `serde_json::Value` that is being built.
enum Building {
    Null,
    Bool(bool),
    Unsigned(u64),
    Signed(i64),
    Str(String),
    Array(Vec<serde_json::Value>),
    Object(Vec<(String, serde_json::Value)>),
}

/// The map that a list of entries stands for; the last entry of a key counts.
spec fn kept(s: Seq<(String, serde_json::Value)>) -> FieldsV
    decreases s.len(),
{
    if s.len() == 0 {
        Map::empty()
    } else {
        kept(s.drop_last()).insert(s.last().0@, value_json(s.last().1))
    }
}

/// The tree that a layer becomes.
spec fn building_json(b: Building) -> JsonV {
    match b {
        Building::Null => JsonV::Null,
        Building::Bool(b) => JsonV::Bool(b),
        Building::Unsigned(k) => normal_number(NumberV::PosInt(k)),
        Building::Signed(k) => normal_number(NumberV::NegInt(k)),
        Building::Str(s) => JsonV::Str(s@),
        Building::Array(v) => JsonV::Array(values_json(v@)),
        Building::Object(es) => JsonV::Object(kept(es@)),
    }
}

/// Makes a `serde_json::Value` of one layer.
///
/// Claimed: the value holds the layer's tree; `Value::from` takes a signed
/// integer that is not negative as unsigned.
#[verifier::external_body]
fn close_value(b: Building) -> (v: serde_json::Value)
    ensures
        value_json(v) == building_json(b),
{
    match b {
        Building::Null => serde_json::Value::Null,
        Building::Bool(b) => serde_json::Value::Bool(b),
        Building::Unsigned(k) => serde_json::Value::from(k),
        Building::Signed(k) => serde_json::Value::from(k),
        Building::Str(s) => serde_json::Value::String(s),
        Building::Array(v) => serde_json::Value::Array(v),
        Building::Object(es) => serde_json::Value::Object(es.into_iter().collect()),
    }
}

/// `Number::from_f64` on what `str::parse` reads, with `null` for a text that
/// is no finite number.
///
/// Claimed: the value is a function of the text alone.
#[verifier::external_body]
fn float_value(text: &str) -> (v: serde_json::Value)
    ensures
        value_json(v) == float_json(text@),
{
    text.parse().ok().and_then(serde_json::Number::from_f64).into()
}

/// `Value::to_string`: the compact JSON text of a value.
///
/// Claimed: the text is a function of the tree alone, and `serde_json::from_str`
/// reads the tree back from it where every number is a 64-bit integer, the nesting
/// stays within the reader's limit and no key is the marker of raw text, which the
/// reader takes for itself.
#[verifier::external_body]
fn print_value(v: &serde_json::Value) -> (r: String)
    ensures
        r@ == json_text(value_json(*v)),
        plain(value_json(*v), 127) ==> reads_as(r@, value_json(*v)),
{
    v.to_string()
}

proof fn normal_fields(s: Seq<(String, Json)>, e: (String, Json))
    ensures
        normal(JsonV::Object(fields_of(s.push(e))))->Object_0 == normal(
            JsonV::Object(fields_of(s)),
        )->Object_0.insert(e.0@, normal(tree(e.1))),
{
    assert(s.push(e).drop_last() =~= s);
    assert(normal(JsonV::Object(fields_of(s.push(e))))->Object_0 =~= normal(
        JsonV::Object(fields_of(s)),
    )->Object_0.insert(e.0@, normal(tree(e.1))));
}

/// The `serde_json` value of a tree.
pub fn to_value(j: &Json) -> (v: serde_json::Value)
    ensures
        value_json(v) == normal(j@),
    decreases j,
{
    match j {
        Json::Null => close_value(Building::Null),
        Json::Bool(b) => close_value(Building::Bool(*b)),
        Json::Number(Number::PosInt(k)) => close_value(Building::Unsigned(*k)),
        Json::Number(Number::NegInt(k)) => close_value(Building::Signed(*k)),
        Json::Number(Number::Float(t)) => float_value(t.as_str()),
        Json::Str(s) => close_value(Building::Str(s.clone())),
        Json::Array(a) => {
            let mut out: Vec<serde_json::Value> = Vec::new();
            let mut i: usize = 0;
            while i < a.len()
                invariant
                    i <= a@.len(),
                    *j == Json::Array(*a),
                    out@.len() == i,
                    forall|k: int| 0 <= k < i ==> value_json(#[trigger] out@[k]) == normal(tree(a@[k])),
                decreases a@.len() - i,
            {
                proof {
                    assert(decreases_to!(j => j->Array_0));
                    assert(decreases_to!(a@ => a@[i as int]));
                }
                out.push(to_value(&a[i]));
                i += 1;
            }
            proof {
                trees_len(a@);
                assert forall|k: int| 0 <= k < a@.len() implies #[trigger] values_json(out@)[k]
                    == normal(trees(a@)[k]) by {
                    trees_index(a@, k);
                }
                assert(values_json(out@) =~= normal(j@)->Array_0);
            }
            close_value(Building::Array(out))
        },
        Json::Object(m) => {
            let mut out: Vec<(String, serde_json::Value)> = Vec::new();
            let mut i: usize = 0;
            proof {
                assert(normal(JsonV::Object(fields_of(m.entries@.take(0))))->Object_0 =~= kept(out@));
            }
            while i < m.entries.len()
                invariant
                    i <= m.entries@.len(),
                    *j == Json::Object(*m),
                    kept(out@) == normal(JsonV::Object(fields_of(m.entries@.take(i as int))))->Object_0,
                decreases m.entries@.len() - i,
            {
                proof {
                    assert(decreases_to!(j => j->Object_0));
                    assert(decreases_to!(m.entries@ => m.entries@[i as int]));
                    assert(decreases_to!(m.entries@[i as int] => m.entries@[i as int].1));
                }
                let k: String = m.entries[i].0.clone();
                let v: serde_json::Value = to_value(&m.entries[i].1);
                let ghost before = out@;
                out.push((k, v));
                proof {
                    assert(out@.drop_last() =~= before);
                    assert(m.entries@.take(i + 1) =~= m.entries@.take(i as int).push(
                        m.entries@[i as int],
                    ));
                    normal_fields(m.entries@.take(i as int), m.entries@[i as int]);
                }
                i += 1;
            }
            assert(m.entries@.take(i as int) =~= m.entries@);
            close_value(Building::Object(out))
        },
    }
}

impl Json {
    /// The compact JSON text of this value.
    pub fn text(&self) -> (r: String)
        ensures
            r@ == json_text(normal(self@)),
            plain(self@, 127) ==> reads_as(r@, self@),
    {
        proof {
            if plain(self@, 127) {
                plain_is_normal(self@, 127);
            }
        }
        let v: serde_json::Value = to_value(self);
        print_value(&v)
    }
}

// ── Laws ──────────────────────────────────────────────────────────────────

/// A layer is built from what it holds; integers keep their value.
proof fn layers_keep_what_they_hold(b: Building)
    ensures
        match b {
            Building::Null => building_json(b) is Null,
            Building::Bool(x) => building_json(b) == JsonV::Bool(x),
            Building::Unsigned(k) => building_json(b) == JsonV::Number(NumberV::PosInt(k)),
            Building::Signed(k) => building_json(b) == if k < 0 {
                JsonV::Number(NumberV::NegInt(k))
            } else {
                JsonV::Number(NumberV::PosInt(k as u64))
            },
            Building::Str(s) => building_json(b) == JsonV::Str(s@),
            Building::Array(v) => building_json(b) matches JsonV::Array(s) && s.len() == v@.len()
                && forall|i: int| 0 <= i < s.len() ==> #[trigger] s[i] == value_json(v@[i]),
            Building::Object(es) => building_json(b) == JsonV::Object(kept(es@)),
        },
{
}

/// An object is built from its entries, of which the last of a key counts.
proof fn entries_are_kept(s: Seq<(String, serde_json::Value)>, e: (String, serde_json::Value))
    ensures
        kept(Seq::<(String, serde_json::Value)>::empty()) == Map::<Seq<char>, JsonV>::empty(),
        kept(s.push(e)) == kept(s).insert(e.0@, value_json(e.1)),
{
    assert(s.push(e).drop_last() =~= s);
}

} // verus!
