//! Interpolation of `{{ path | fallback }}` placeholders against the variables
//! of a run.
//!
//! - A path walks objects by key and arrays by index: `{{customer.tags.0}}`.
//! - A fallback, `{{name | there}}` or `{{name | fallback:there}}`, is used where
//!   the path is missing, null or an empty string; without one the placeholder
//!   renders empty.
//! - Objects and arrays render as JSON, scalars as plain text.
//! - A `{{` that nothing closes stays as it is, and a literal `\n` becomes a
//!   newline.
//! - The time placeholders of [`crate::clock`] come before the variables.

use crate::clock::{calendar, time_builtin, time_value, unix_now};
use crate::json::{
    field, fields_of, json_text, normal, opt_tree, tree, trees, trees_index, FieldsV, Json, JsonMap,
    JsonV, Number, NumberV,
};
use crate::text::{
    after_prefix, chars_of, contains, decimal, decimal_int, decimal_int_text, decimal_text, find,
    find_from_is_first, find_in, find_shift, index_value, parse_index, pieces, replace, replaced,
    replaced_without_match, split, stands_at, starts_with, string_of, strip_prefix, texts, trim,
    trimmed,
};
use vstd::prelude::*;
use vstd::string::StringExecFns;

verus! {

// ── Paths ─────────────────────────────────────────────────────────────────

/// One step of a path: by key into an object, by index into an array.
pub open spec fn step(cur: JsonV, part: Seq<char>) -> Option<JsonV> {
    match cur {
        JsonV::Object(m) => field(m, part),
        JsonV::Array(a) => match index_value(part) {
            Some(i) => if i < a.len() {
                Some(a[i as int])
            } else {
                None
            },
            None => None,
        },
        _ => None,
    }
}

/// What the steps `parts` lead to from `cur`.
pub open spec fn walk(cur: JsonV, parts: Seq<Seq<char>>) -> Option<JsonV>
    decreases parts.len(),
{
    if parts.len() == 0 {
        Some(cur)
    } else {
        match step(cur, parts[0]) {
            Some(next) => walk(next, parts.drop_first()),
            None => None,
        }
    }
}

/// What a dot-separated path leads to among the variables.
pub open spec fn nested(vars: FieldsV, path: Seq<char>) -> Option<JsonV> {
    let parts = pieces(path, '.');
    match field(vars, parts[0]) {
        Some(v) => walk(v, parts.drop_first()),
        None => None,
    }
}

/// What a dot-separated path leads to among the variables.
pub fn get_nested<'a>(vars: &'a JsonMap, path: &str) -> (r: Option<&'a Json>)
    ensures
        opt_tree(r) == nested(vars@, path@),
{
    broadcast use crate::json::group_json;

    let parts: Vec<String> = split(path, '.');
    let ghost ps = texts(parts@);
    let mut cur: &'a Json = match vars.get(parts[0].as_str()) {
        Some(v) => v,
        None => return None,
    };
    assert(ps[0] == parts@[0]@);
    let mut k: usize = 1;
    assert(ps.skip(1) =~= ps.drop_first());
    while k < parts.len()
        invariant
            1 <= k <= parts@.len(),
            ps == texts(parts@),
            walk(cur@, ps.skip(k as int)) == nested(vars@, path@),
        decreases parts@.len() - k,
    {
        let p: &str = parts[k].as_str();
        assert(ps.skip(k as int)[0] == p@);
        assert(ps.skip(k as int).drop_first() =~= ps.skip(k + 1));
        cur = match step_into(cur, p) {
            Some(v) => v,
            None => return None,
        };
        k += 1;
    }
    Some(cur)
}

fn step_into<'a>(cur: &'a Json, part: &str) -> (r: Option<&'a Json>)
    ensures
        opt_tree(r) == step(cur@, part@),
{
    broadcast use crate::json::group_json;

    match cur {
        Json::Object(m) => m.get(part),
        Json::Array(a) => match parse_index(part) {
            Some(i) => if i < a.len() {
                proof {
                    trees_index(a@, i as int);
                }
                Some(&a[i])
            } else {
                None
            },
            None => None,
        },
        _ => None,
    }
}

// ── Values ────────────────────────────────────────────────────────────────

/// Null and the empty string leave the word to the fallback.
pub open spec fn empty_value(v: JsonV) -> bool {
    v is Null || v == JsonV::Str(seq![])
}

/// Whether a value leaves the word to the fallback.
pub fn is_empty_value(v: &Json) -> (r: bool)
    ensures
        r == empty_value(v@),
{
    broadcast use crate::json::group_json;

    match v {
        Json::Null => true,
        Json::Str(s) => {
            assert(s@.len() == 0 <==> s@ =~= Seq::<char>::empty());
            s.as_str().is_empty()
        },
        _ => false,
    }
}

/// A value as text: strings as they are, objects and arrays as JSON, scalars
/// plain, null as nothing.
pub open spec fn shown(v: JsonV) -> Seq<char> {
    match v {
        JsonV::Str(s) => s,
        JsonV::Null => seq![],
        JsonV::Bool(b) => if b {
            "true"@
        } else {
            "false"@
        },
        JsonV::Number(NumberV::PosInt(n)) => decimal(n as nat),
        JsonV::Number(NumberV::NegInt(n)) => decimal_int(n as int),
        JsonV::Number(NumberV::Float(t)) => t,
        JsonV::Array(_) | JsonV::Object(_) => json_text(normal(v)),
    }
}

/// A value as text.
pub fn value_to_string(v: &Json) -> (r: String)
    ensures
        r@ == shown(v@),
{
    broadcast use crate::json::group_json;

    match v {
        Json::Str(s) => s.clone(),
        Json::Null => String::new(),
        Json::Bool(b) => if *b {
            String::from_str("true")
        } else {
            String::from_str("false")
        },
        Json::Number(Number::PosInt(n)) => decimal_text(*n),
        Json::Number(Number::NegInt(n)) => decimal_int_text(*n),
        Json::Number(Number::Float(t)) => t.clone(),
        Json::Array(_) | Json::Object(_) => v.text(),
    }
}

// ── Placeholders ──────────────────────────────────────────────────────────

/// The path of a placeholder: what stands before its first bar.
pub open spec fn path_of(inner: Seq<char>) -> Seq<char> {
    match find(inner, "|"@) {
        Some(k) => trimmed(inner.take(k)),
        None => trimmed(inner),
    }
}

/// The fallback of a placeholder: what follows its first bar, without the word
/// `fallback:` in front; nothing where there is no bar.
pub open spec fn fallback_of(inner: Seq<char>) -> Seq<char> {
    match find(inner, "|"@) {
        Some(k) => {
            let f = trimmed(inner.skip(k + 1));
            match after_prefix(f, "fallback:"@) {
                Some(g) => trimmed(g),
                None => f,
            }
        },
        None => seq![],
    }
}

/// The text of a `path | fallback` placeholder.
pub open spec fn resolved(inner: Seq<char>, vars: FieldsV) -> Seq<char> {
    match nested(vars, path_of(inner)) {
        Some(v) => if empty_value(v) {
            fallback_of(inner)
        } else {
            shown(v)
        },
        None => fallback_of(inner),
    }
}

/// The text of a `path | fallback` placeholder.
pub fn resolve_placeholder(inner: &str, vars: &JsonMap) -> (r: String)
    ensures
        r@ == resolved(inner@, vars@),
{
    proof {
        reveal_strlit("|");
        find_from_is_first(inner@, "|"@, 0);
    }
    let v: Vec<char> = chars_of(inner);
    let bar: Vec<char> = chars_of("|");
    let (path, fallback): (String, String) = match find_in(&v, &bar, 0) {
        Some(k) => {
            assert(inner@.take(k as int) =~= v@.subrange(0, k as int));
            assert(inner@.skip(k + 1) =~= v@.subrange(k + 1, v@.len() as int));
            let f: String = trim(string_of(&v, k + 1, v.len()).as_str());
            let fb: String = match strip_prefix(f.as_str(), "fallback:") {
                Some(g) => trim(g.as_str()),
                None => f,
            };
            (trim(string_of(&v, 0, k).as_str()), fb)
        },
        None => (trim(inner), String::new()),
    };
    match get_nested(vars, path.as_str()) {
        Some(x) => if is_empty_value(x) {
            fallback
        } else {
            value_to_string(x)
        },
        None => fallback,
    }
}

/// What stands in place of `{{inner}}`: a time, or else a variable.
pub open spec fn placeholder(inner: Seq<char>, vars: FieldsV, now: i64) -> Seq<char> {
    match time_value(trimmed(inner), now) {
        Some(t) => t,
        None => resolved(inner, vars),
    }
}

/// What stands in place of `{{inner}}` at `now`.
fn fill(inner: &str, vars: &JsonMap, now: i64) -> (r: String)
    requires
        calendar(now),
    ensures
        r@ == placeholder(inner@, vars@, now),
{
    match time_builtin(trim(inner).as_str(), now) {
        Some(t) => t,
        None => resolve_placeholder(inner, vars),
    }
}

// ── Templates ─────────────────────────────────────────────────────────────

/// Where the first placeholder of `s` opens.
pub open spec fn opens_at(s: Seq<char>) -> Option<int> {
    find(s, "{{"@)
}

/// The template with every placeholder filled.
pub open spec fn filled(s: Seq<char>, vars: FieldsV, now: i64) -> Seq<char>
    decreases s.len(),
{
    proof {
        reveal_strlit("{{");
        reveal_strlit("}}");
        find_from_is_first(s, "{{"@, 0);
        if let Some(open) = opens_at(s) {
            find_from_is_first(s.skip(open + 2), "}}"@, 0);
        }
    }
    match opens_at(s) {
        None => s,
        Some(open) => {
            let after = s.skip(open + 2);
            match find(after, "}}"@) {
                Some(close) => s.take(open) + placeholder(after.take(close), vars, now) + filled(
                    after.skip(close + 2),
                    vars,
                    now,
                ),
                None => s.take(open) + "{{"@ + filled(after, vars, now),
            }
        },
    }
}

/// The template with every placeholder filled and every literal `\n` a newline.
pub open spec fn rendered(template: Seq<char>, vars: FieldsV, now: i64) -> Seq<char> {
    replaced(filled(template, vars, now), "\\n"@, "\n"@)
}

/// Renders a template against the variables at an explicit instant.
pub fn var_interpolate_at(template: &str, vars: &JsonMap, now: i64) -> (r: String)
    requires
        calendar(now),
    ensures
        r@ == rendered(template@, vars@, now),
{
    proof {
        reveal_strlit("{{");
        reveal_strlit("}}");
        reveal_strlit("\\n");
    }
    let v: Vec<char> = chars_of(template);
    let open: Vec<char> = chars_of("{{");
    let close: Vec<char> = chars_of("}}");
    let mut out: String = String::new();
    let mut i: usize = 0;
    assert(v@.skip(0) =~= v@);
    assert(out@ + filled(v@, vars@, now) =~= filled(v@, vars@, now));
    loop
        invariant_except_break
            i <= v@.len(),
            v@ == template@,
            open@ == "{{"@,
            close@ == "}}"@,
            open@.len() == 2,
            close@.len() == 2,
            calendar(now),
            out@ + filled(v@.skip(i as int), vars@, now) == filled(v@, vars@, now),
        ensures
            out@ == filled(template@, vars@, now),
        decreases v@.len() - i,
    {
        let ghost rest = v@.skip(i as int);
        let ghost before = out@;
        proof {
            find_shift(v@, "{{"@, i as int, i as int);
        }
        match find_in(&v, &open, i) {
            Some(a) => {
                out.append(string_of(&v, i, a).as_str());
                let from: usize = a + 2;
                let ghost after = v@.skip(from as int);
                proof {
                    assert(rest.take(a - i) =~= v@.subrange(i as int, a as int));
                    assert(rest.skip(a - i + 2) =~= after);
                    find_shift(v@, "}}"@, from as int, from as int);
                }
                match find_in(&v, &close, from) {
                    Some(b) => {
                        out.append(fill(string_of(&v, from, b).as_str(), vars, now).as_str());
                        proof {
                            assert(after.take(b - from) =~= v@.subrange(from as int, b as int));
                            assert(after.skip(b - from + 2) =~= v@.skip(b + 2));
                            assert(out@ + filled(v@.skip(b + 2), vars@, now) =~= before + filled(
                                rest,
                                vars@,
                                now,
                            ));
                        }
                        i = b + 2;
                    },
                    None => {
                        out.append("{{");
                        proof {
                            assert(out@ + filled(after, vars@, now) =~= before + filled(
                                rest,
                                vars@,
                                now,
                            ));
                        }
                        i = from;
                    },
                }
            },
            None => {
                let n: usize = v.len();
                out.append(string_of(&v, i, n).as_str());
                proof {
                    assert(rest =~= v@.subrange(i as int, n as int));
                }
                break;
            },
        }
    }
    replace(out.as_str(), "\\n", "\n")
}

/// Renders a template against the variables now. Where the template names no
/// time, the result is the same at any instant.
pub fn var_interpolate(template: &str, vars: &JsonMap) -> (r: String)
    ensures
        exists|now: i64| calendar(now) && r@ == #[trigger] rendered(template@, vars@, now),
        timeless(template@) ==> forall|now: i64| r@ == #[trigger] rendered(template@, vars@, now),
{
    let now: i64 = unix_now();
    proof {
        if timeless(template@) {
            assert forall|other: i64| rendered(template@, vars@, now) == #[trigger] rendered(
                template@,
                vars@,
                other,
            ) by {
                timeless_renders_alike(template@, vars@, now, other);
            }
        }
    }
    var_interpolate_at(template, vars, now)
}

/// A placeholder that names a time.
pub open spec fn time_name(inner: Seq<char>) -> bool {
    let name = trimmed(inner);
    ||| starts_with(name, "greeting_phrase"@)
    ||| starts_with(name, "current_time"@)
    ||| starts_with(name, "current_weekday"@)
    ||| starts_with(name, "current_date"@)
}

/// A template without a placeholder that names a time.
pub open spec fn timeless(s: Seq<char>) -> bool
    decreases s.len(),
{
    proof {
        reveal_strlit("{{");
        reveal_strlit("}}");
        find_from_is_first(s, "{{"@, 0);
        if let Some(open) = opens_at(s) {
            find_from_is_first(s.skip(open + 2), "}}"@, 0);
        }
    }
    match opens_at(s) {
        None => true,
        Some(open) => {
            let after = s.skip(open + 2);
            match find(after, "}}"@) {
                Some(close) => !time_name(after.take(close)) && timeless(after.skip(close + 2)),
                None => timeless(after),
            }
        },
    }
}

// ── JSON templates ────────────────────────────────────────────────────────

/// A JSON template with every string rendered: objects keep their keys, arrays
/// their length, and everything that is no string stays as it is.
pub open spec fn rendered_value(j: JsonV, vars: FieldsV, now: i64) -> JsonV
    decreases j,
{
    match j {
        JsonV::Str(s) => JsonV::Str(rendered(s, vars, now)),
        JsonV::Array(s) => JsonV::Array(
            Seq::new(
                s.len(),
                |i: int|
                    if 0 <= i < s.len() {
                        rendered_value(s[i], vars, now)
                    } else {
                        JsonV::Null
                    },
            ),
        ),
        JsonV::Object(m) => JsonV::Object(
            Map::new(
                |k: Seq<char>| m.contains_key(k),
                |k: Seq<char>|
                    if m.contains_key(k) {
                        rendered_value(m[k], vars, now)
                    } else {
                        JsonV::Null
                    },
            ),
        ),
        _ => j,
    }
}

proof fn rendered_fields(s: Seq<(String, Json)>, e: (String, Json), vars: FieldsV, now: i64)
    ensures
        rendered_value(JsonV::Object(fields_of(s.push(e))), vars, now)->Object_0 == rendered_value(
            JsonV::Object(fields_of(s)),
            vars,
            now,
        )->Object_0.insert(e.0@, rendered_value(tree(e.1), vars, now)),
{
    assert(s.push(e).drop_last() =~= s);
    assert(rendered_value(JsonV::Object(fields_of(s.push(e))), vars, now)->Object_0
        =~= rendered_value(JsonV::Object(fields_of(s)), vars, now)->Object_0.insert(
        e.0@,
        rendered_value(tree(e.1), vars, now),
    ));
}

/// Renders every string of a JSON template at an explicit instant.
pub fn var_interpolate_value_at(template: &Json, vars: &JsonMap, now: i64) -> (r: Json)
    requires
        calendar(now),
    ensures
        r@ == rendered_value(template@, vars@, now),
    decreases template,
{
    broadcast use crate::json::group_json;

    match template {
        Json::Str(s) => Json::Str(var_interpolate_at(s.as_str(), vars, now)),
        Json::Array(items) => {
            let mut out: Vec<Json> = Vec::new();
            let mut i: usize = 0;
            while i < items.len()
                invariant
                    i <= items@.len(),
                    *template == Json::Array(*items),
                    calendar(now),
                    out@.len() == i,
                    forall|k: int|
                        0 <= k < i ==> tree(#[trigger] out@[k]) == rendered_value(
                            tree(items@[k]),
                            vars@,
                            now,
                        ),
                decreases items@.len() - i,
            {
                proof {
                    assert(decreases_to!(template => template->Array_0));
                    assert(decreases_to!(items@ => items@[i as int]));
                }
                out.push(var_interpolate_value_at(&items[i], vars, now));
                i += 1;
            }
            proof {
                assert forall|k: int| 0 <= k < items@.len() implies #[trigger] trees(out@)[k]
                    == rendered_value(trees(items@)[k], vars@, now) by {
                    trees_index(items@, k);
                    trees_index(out@, k);
                }
                assert(trees(out@) =~= rendered_value(template@, vars@, now)->Array_0);
            }
            Json::Array(out)
        },
        Json::Object(map) => {
            let ghost es = map.listed();
            let mut out: Vec<(String, Json)> = Vec::new();
            let mut i: usize = 0;
            proof {
                map.listed_is_view();
                assert(rendered_value(
                    JsonV::Object(fields_of(es.take(0))),
                    vars@,
                    now,
                )->Object_0 =~= fields_of(out@));
            }
            while i < map.size()
                invariant
                    i <= es.len(),
                    es == map.listed(),
                    *template == Json::Object(*map),
                    calendar(now),
                    fields_of(out@) == rendered_value(
                        JsonV::Object(fields_of(es.take(i as int))),
                        vars@,
                        now,
                    )->Object_0,
                decreases es.len() - i,
            {
                let (k, v) = map.entry(i);
                proof {
                    assert(decreases_to!(template => template->Object_0));
                    map.entry_is_smaller(i as int);
                }
                let c: Json = var_interpolate_value_at(v, vars, now);
                let ghost before = out@;
                out.push((k.clone(), c));
                proof {
                    assert(out@.drop_last() =~= before);
                    assert(es.take(i + 1) =~= es.take(i as int).push(es[i as int]));
                    rendered_fields(es.take(i as int), es[i as int], vars@, now);
                }
                i += 1;
            }
            assert(es.take(i as int) =~= es);
            Json::Object(JsonMap::from_entries(out))
        },
        _ => template.clone(),
    }
}

/// Renders every string of a JSON template now.
pub fn var_interpolate_value(template: &Json, vars: &JsonMap) -> (r: Json)
    ensures
        exists|now: i64| calendar(now) && r@ == #[trigger] rendered_value(template@, vars@, now),
{
    let now: i64 = unix_now();
    var_interpolate_value_at(template, vars, now)
}

// ── Laws ──────────────────────────────────────────────────────────────────

/// A template in which nothing opens a placeholder and no `\n` is spelled out
/// renders as it is.
pub proof fn plain_text_renders_as_is(s: Seq<char>, vars: FieldsV, now: i64)
    requires
        !contains(s, "{{"@),
        !contains(s, "\\n"@),
    ensures
        rendered(s, vars, now) == s,
{
    find_from_is_first(s, "{{"@, 0);
    replaced_without_match(s, "\\n"@, "\n"@);
}

/// From a `{{` that nothing closes on, the template is left as it is.
pub proof fn unterminated_placeholder_is_literal(s: Seq<char>, vars: FieldsV, now: i64)
    requires
        opens_at(s) matches Some(k) ==> !contains(s.skip(k + 2), "}}"@),
    ensures
        filled(s, vars, now) == s,
    decreases s.len(),
{
    reveal_strlit("{{");
    reveal_strlit("}}");
    find_from_is_first(s, "{{"@, 0);
    if let Some(k) = opens_at(s) {
        let after = s.skip(k + 2);
        find_from_is_first(after, "}}"@, 0);
        if let Some(c) = find(after, "}}"@) {
            assert(stands_at(after, "}}"@, c));
        }
        find_from_is_first(after, "{{"@, 0);
        if let Some(k2) = opens_at(after) {
            let rest = after.skip(k2 + 2);
            assert forall|i: int| !stands_at(rest, "}}"@, i) by {
                if stands_at(rest, "}}"@, i) {
                    assert(rest.subrange(i, i + 2) =~= after.subrange(k2 + 2 + i, k2 + 2 + i + 2));
                    assert(stands_at(after, "}}"@, k2 + 2 + i));
                }
            }
        }
        unterminated_placeholder_is_literal(after, vars, now);
        assert(s.subrange(k, k + 2) =~= "{{"@);
        assert(s.take(k) + "{{"@ + after =~= s);
    }
}

/// A template without a placeholder that names a time renders alike at any two
/// instants.
pub proof fn timeless_renders_alike(s: Seq<char>, vars: FieldsV, now1: i64, now2: i64)
    requires
        timeless(s),
    ensures
        filled(s, vars, now1) == filled(s, vars, now2),
        rendered(s, vars, now1) == rendered(s, vars, now2),
    decreases s.len(),
{
    reveal_strlit("{{");
    reveal_strlit("}}");
    find_from_is_first(s, "{{"@, 0);
    if let Some(open) = opens_at(s) {
        let after = s.skip(open + 2);
        find_from_is_first(after, "}}"@, 0);
        match find(after, "}}"@) {
            Some(close) => {
                timeless_renders_alike(after.skip(close + 2), vars, now1, now2);
            },
            None => {
                timeless_renders_alike(after, vars, now1, now2);
            },
        }
    }
}

/// No literal `\n` survives rendering, wherever it came from.
pub proof fn no_spelled_newline_is_left(template: Seq<char>, vars: FieldsV, now: i64)
    ensures
        !contains(rendered(template, vars, now), "\\n"@),
{
    newlines_are_replaced(filled(template, vars, now));
}

proof fn newlines_are_replaced(s: Seq<char>)
    ensures
        !contains(replaced(s, "\\n"@, "\n"@), "\\n"@),
        replaced(s, "\\n"@, "\n"@).len() > 0 && replaced(s, "\\n"@, "\n"@)[0] == 'n' ==> s.len() > 0
            && s[0] == 'n',
    decreases s.len(),
{
    reveal_strlit("\\n");
    reveal_strlit("\n");
    let pat = "\\n"@;
    let r = replaced(s, pat, "\n"@);
    if s.len() > 0 {
        let (head, rest) = if starts_with(s, pat) {
            ("\n"@, s.skip(2))
        } else {
            (seq![s[0]], s.drop_first())
        };
        newlines_are_replaced(rest);
        let t = replaced(rest, pat, "\n"@);
        assert(r == head + t);
        assert forall|i: int| !stands_at(r, pat, i) by {
            if stands_at(r, pat, i) {
                assert(r.subrange(i, i + 2)[0] == '\\');
                assert(r.subrange(i, i + 2)[1] == 'n');
                if i == 0 {
                    assert(t[0] == r[1]);
                    assert(s[0] == '\\' && s[1] == 'n');
                    assert(s.take(2) =~= pat);
                } else {
                    assert(t.subrange(i - 1, i + 1) =~= r.subrange(i, i + 2));
                    assert(stands_at(t, pat, i - 1));
                }
            }
        }
    }
}

/// A placeholder is replaced by its text, with what stands before and behind it
/// in place: it is the first `{{` that opens it and the next `}}` that closes it.
pub proof fn placeholder_is_replaced(
    before: Seq<char>,
    inner: Seq<char>,
    behind: Seq<char>,
    vars: FieldsV,
    now: i64,
)
    requires
        !contains(before + seq!['{'], "{{"@),
        !contains(inner + seq!['}'], "}}"@),
    ensures
        filled(before + "{{"@ + inner + "}}"@ + behind, vars, now) == before + placeholder(
            inner,
            vars,
            now,
        ) + filled(behind, vars, now),
{
    reveal_strlit("{{");
    reveal_strlit("}}");
    let s = before + "{{"@ + inner + "}}"@ + behind;
    let a = before.len() as int;
    find_from_is_first(s, "{{"@, 0);
    assert(s.subrange(a, a + 2) =~= "{{"@);
    assert(stands_at(s, "{{"@, a));
    let open = opens_at(s)->Some_0;
    if open < a {
        let b = before + seq!['{'];
        assert(b.subrange(open, open + 2) =~= s.subrange(open, open + 2));
        assert(stands_at(b, "{{"@, open));
    }
    let after = s.skip(a + 2);
    let b = inner.len() as int;
    assert(after =~= inner + "}}"@ + behind);
    find_from_is_first(after, "}}"@, 0);
    assert(after.subrange(b, b + 2) =~= "}}"@);
    assert(stands_at(after, "}}"@, b));
    let close = find(after, "}}"@)->Some_0;
    if close < b {
        let n = inner + seq!['}'];
        assert(n.subrange(close, close + 2) =~= after.subrange(close, close + 2));
        assert(stands_at(n, "}}"@, close));
    }
    assert(s.take(a) =~= before);
    assert(after.take(b) =~= inner);
    assert(after.skip(b + 2) =~= behind);
}

/// A value that is there beats the fallback.
pub proof fn present_value_beats_fallback(inner: Seq<char>, vars: FieldsV, now: i64)
    requires
        time_value(trimmed(inner), now) is None,
        nested(vars, path_of(inner)) matches Some(v) && !empty_value(v),
    ensures
        placeholder(inner, vars, now) == shown(nested(vars, path_of(inner))->Some_0),
{
}

/// A path that leads nowhere renders the fallback, and nothing where there is
/// none.
pub proof fn missing_path_renders_fallback(inner: Seq<char>, vars: FieldsV, now: i64)
    requires
        time_value(trimmed(inner), now) is None,
        nested(vars, path_of(inner)) is None,
    ensures
        placeholder(inner, vars, now) == fallback_of(inner),
        find(inner, "|"@) is None ==> placeholder(inner, vars, now) == Seq::<char>::empty(),
{
}

/// Rendering a JSON template keeps its shape: an object its keys, an array its
/// length, and anything but a string its value.
pub proof fn rendering_keeps_shape(j: JsonV, vars: FieldsV, now: i64)
    ensures
        match j {
            JsonV::Str(_) => rendered_value(j, vars, now) is Str,
            JsonV::Array(s) => rendered_value(j, vars, now).as_array() matches Some(t) && t.len()
                == s.len(),
            JsonV::Object(m) => rendered_value(j, vars, now).as_object() matches Some(t) && t.dom()
                == m.dom(),
            _ => rendered_value(j, vars, now) == j,
        },
{
    if let JsonV::Object(m) = j {
        assert(rendered_value(j, vars, now)->Object_0.dom() =~= m.dom());
    }
}

} // verus!
