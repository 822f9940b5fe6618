//! Laws of rendering templates.

use crate::clock::{greeting, time_value};
use crate::interpolate::{
    empty_value, fallback_of, filled, nested, opens_at, path_of, placeholder,
    placeholder_is_replaced, rendered, rendered_value, resolved, shown, step, time_name, timeless,
    walk,
};
use crate::json::{field, FieldsV, JsonV, NumberV};
use crate::laws::text::pieces_lie_between_separators;
use crate::text::{
    after_prefix, all_digits, contains, decimal, decimal_int, digits_value, find,
    find_from_is_first, index_value, pieces, replaced, starts_with, trimmed,
};
use vstd::prelude::*;

verus! {

// ── Values ────────────────────────────────────────────────────────────────

proof fn decimal_reads_back(n: nat)
    ensures
        decimal(n).len() > 0,
        all_digits(decimal(n)),
        digits_value(decimal(n)) == n,
        n > 0 ==> decimal(n)[0] != '0',
    decreases n,
{
    if n >= 10 {
        decimal_reads_back(n / 10);
        assert(decimal(n).drop_last() =~= decimal(n / 10));
        assert(decimal(n)[0] == decimal(n / 10)[0]);
    } else {
        assert(decimal(n).drop_last() =~= seq![]);
        assert(digits_value(decimal(n).drop_last()) == 0);
    }
}

/// A boolean is shown as the word for it, a number by its digits, and a text as it
/// stands; null shows nothing.
pub proof fn scalars_show_their_value(b: bool, n: u64, k: i64, t: Seq<char>)
    ensures
        shown(JsonV::Bool(b)) == if b {
            "true"@
        } else {
            "false"@
        },
        shown(JsonV::Number(NumberV::PosInt(n))).len() > 0,
        all_digits(shown(JsonV::Number(NumberV::PosInt(n)))),
        digits_value(shown(JsonV::Number(NumberV::PosInt(n)))) == n,
        n > 0 ==> shown(JsonV::Number(NumberV::PosInt(n)))[0] != '0',
        k < 0 ==> {
            let s = shown(JsonV::Number(NumberV::NegInt(k)));
            &&& s.len() > 1
            &&& s[0] == '-'
            &&& s[1] != '0'
            &&& all_digits(s.skip(1))
            &&& digits_value(s.skip(1)) == -k
        },
        k >= 0 ==> shown(JsonV::Number(NumberV::NegInt(k))) == shown(
            JsonV::Number(NumberV::PosInt(k as u64)),
        ),
        shown(JsonV::Number(NumberV::Float(t))) == t,
        shown(JsonV::Str(t)) == t,
        shown(JsonV::Null).len() == 0,
{
    decimal_reads_back(n as nat);
    if k < 0 {
        let m = (-k) as nat;
        decimal_reads_back(m);
        let s = shown(JsonV::Number(NumberV::NegInt(k)));
        assert(s.skip(1) =~= decimal(m));
        assert(s[1] == decimal(m)[0]);
    }
}

/// The two booleans, and numbers that differ, are shown differently.
pub proof fn shown_scalars_tell_apart(b: bool, c: bool, n: u64, m: u64, k: i64)
    ensures
        shown(JsonV::Bool(b)) == shown(JsonV::Bool(c)) ==> b == c,
        shown(JsonV::Number(NumberV::PosInt(n))) == shown(JsonV::Number(NumberV::PosInt(m)))
            ==> n == m,
        k < 0 ==> shown(JsonV::Number(NumberV::PosInt(n))) != shown(
            JsonV::Number(NumberV::NegInt(k)),
        ),
        shown(JsonV::Bool(b)) != shown(JsonV::Number(NumberV::PosInt(n))),
{
    reveal_strlit("true");
    reveal_strlit("false");
    assert("true"@.len() != "false"@.len());
    decimal_reads_back(n as nat);
    decimal_reads_back(m as nat);
    let d = decimal(n as nat);
    assert(crate::text::is_ascii_digit(d[0]));
    assert("true"@[0] == 't' && "false"@[0] == 'f');
    if k < 0 {
        assert(decimal_int(k as int)[0] == '-');
    }
}

/// A list or an object is shown as its JSON text.
pub proof fn structures_show_as_json(j: JsonV)
    requires
        j is Array || j is Object,
    ensures
        shown(j) == crate::json::json_text(crate::json::normal(j)),
{
}

/// Only null and the empty text count as empty: a zero, a false and an empty list do
/// not.
pub proof fn only_null_and_the_empty_text_are_empty(j: JsonV)
    ensures
        empty_value(j) <==> j is Null || (j matches JsonV::Str(s) && s.len() == 0),
{
    if let JsonV::Str(s) = j {
        if s.len() == 0 {
            assert(s =~= seq![]);
        }
    }
}

// ── Paths ─────────────────────────────────────────────────────────────────

proof fn walk_one_more(cur: JsonV, parts: Seq<Seq<char>>, last: Seq<char>)
    ensures
        walk(cur, parts.push(last)) == (match walk(cur, parts) {
            Some(v) => step(v, last),
            None => None,
        }),
    decreases parts.len(),
{
    let all = parts.push(last);
    if parts.len() == 0 {
        assert(all.drop_first() =~= Seq::<Seq<char>>::empty());
        match step(cur, last) {
            Some(v) => {
                assert(walk(v, all.drop_first()) == Some(v));
            },
            None => {},
        }
    } else {
        assert(all.drop_first() =~= parts.drop_first().push(last));
        if let Some(next) = step(cur, parts[0]) {
            walk_one_more(next, parts.drop_first(), last);
        }
    }
}

proof fn pieces_one_more(p: Seq<char>, part: Seq<char>)
    requires
        !part.contains('.'),
    ensures
        pieces(p + seq!['.'] + part, '.') == pieces(p, '.').push(part),
        pieces(p, '.').len() > 0,
    decreases p.len(),
{
    pieces_lie_between_separators(part, '.', part);
    if p.contains('.') {
        find_from_is_first(p, seq!['.'], 0);
        let at = choose|i: int| 0 <= i < p.len() && p[i] == '.';
        assert(p.subrange(at, at + 1) =~= seq!['.']);
        assert(crate::text::stands_at(p, seq!['.'], at));
        let k = find(p, seq!['.'])->Some_0;
        assert(p.subrange(k, k + 1)[0] == '.');
        let a = p.take(k);
        let b = p.skip(k + 1);
        assert forall|i: int| 0 <= i < a.len() implies a[i] != '.' by {
            if a[i] == '.' {
                assert(p.subrange(i, i + 1) =~= seq!['.']);
                assert(crate::text::stands_at(p, seq!['.'], i));
            }
        }
        assert(p =~= a + seq!['.'] + b);
        pieces_lie_between_separators(a, '.', b);
        pieces_lie_between_separators(a, '.', b + seq!['.'] + part);
        assert(p + seq!['.'] + part =~= a + seq!['.'] + (b + seq!['.'] + part));
        pieces_one_more(b, part);
        assert(seq![a] + pieces(b, '.').push(part) =~= (seq![a] + pieces(b, '.')).push(part));
    } else {
        pieces_lie_between_separators(p, '.', part);
        assert(seq![p] + seq![part] =~= seq![p].push(part));
    }
}

/// A path leads to a variable by its name, and from a value one step further to the
/// field of that name or the element of that index; from a scalar it leads nowhere.
pub proof fn paths_lead_step_by_step(vars: FieldsV, path: Seq<char>, part: Seq<char>)
    requires
        !part.contains('.'),
    ensures
        nested(vars, part) == (if vars.contains_key(part) {
            Some(vars[part])
        } else {
            None
        }),
        nested(vars, path + seq!['.'] + part) == (match nested(vars, path) {
            Some(JsonV::Object(m)) => if m.contains_key(part) {
                Some(m[part])
            } else {
                None
            },
            Some(JsonV::Array(a)) => if index_value(part) is Some && index_value(part)->Some_0
                < a.len() {
                Some(a[index_value(part)->Some_0 as int])
            } else {
                None
            },
            _ => None,
        }),
{
    pieces_lie_between_separators(part, '.', part);
    let one = seq![part];
    assert(one.drop_first() =~= Seq::<Seq<char>>::empty());
    if vars.contains_key(part) {
        assert(walk(vars[part], one.drop_first()) == Some(vars[part]));
    }
    pieces_one_more(path, part);
    let ps = pieces(path, '.');
    assert(ps.push(part)[0] == ps[0]);
    assert(ps.push(part).drop_first() =~= ps.drop_first().push(part));
    if let Some(v) = field(vars, ps[0]) {
        walk_one_more(v, ps.drop_first(), part);
    }
}

// ── Placeholders ──────────────────────────────────────────────────────────

/// What stands before the bar is the path and what stands behind it the fallback,
/// with or without the word for it; both are trimmed. Without a bar there is no
/// fallback.
pub proof fn bar_separates_path_and_fallback(path: Seq<char>, fallback: Seq<char>)
    requires
        !path.contains('|'),
    ensures
        path_of(path) == trimmed(path),
        fallback_of(path).len() == 0,
        path_of(path + "|"@ + fallback) == trimmed(path),
        fallback_of(path + "|"@ + fallback) == (match after_prefix(
            trimmed(fallback),
            "fallback:"@,
        ) {
            Some(rest) => trimmed(rest),
            None => trimmed(fallback),
        }),
{
    reveal_strlit("|");
    let bar = "|"@;
    assert(bar =~= seq!['|']);
    find_from_is_first(path, bar, 0);
    if let Some(k) = find(path, bar) {
        assert(path.subrange(k, k + 1)[0] == '|');
        assert(path[k] == '|');
    }
    let s = path + bar + fallback;
    let n = path.len() as int;
    find_from_is_first(s, bar, 0);
    assert(s.subrange(n, n + 1) =~= bar);
    assert(crate::text::stands_at(s, bar, n));
    let k = find(s, bar)->Some_0;
    if k < n {
        assert(s.subrange(k, k + 1)[0] == '|');
        assert(path[k] == '|');
    }
    assert(s.take(n) =~= path);
    assert(s.skip(n + 1) =~= fallback);
}

/// A placeholder is filled with the value that its path leads to. Where that is
/// missing, null or the empty text, it is filled with the fallback.
pub proof fn placeholder_is_filled(inner: Seq<char>, vars: FieldsV, now: i64)
    requires
        time_value(trimmed(inner), now) is None,
    ensures
        placeholder(inner, vars, now) == resolved(inner, vars),
        match nested(vars, path_of(inner)) {
            None => placeholder(inner, vars, now) == fallback_of(inner),
            Some(JsonV::Null) => placeholder(inner, vars, now) == fallback_of(inner),
            Some(JsonV::Str(s)) => placeholder(inner, vars, now) == if s.len() == 0 {
                fallback_of(inner)
            } else {
                s
            },
            Some(v) => placeholder(inner, vars, now) == shown(v),
        },
{
    if let Some(JsonV::Str(s)) = nested(vars, path_of(inner)) {
        only_null_and_the_empty_text_are_empty(JsonV::Str(s));
    }
}

/// A time name is filled from the clock, whatever the variables hold.
pub proof fn time_comes_before_variables(inner: Seq<char>, vars: FieldsV, now: i64)
    requires
        time_value(trimmed(inner), now) is Some,
    ensures
        placeholder(inner, vars, now) == time_value(trimmed(inner), now)->Some_0,
{
}

/// A variable that is a boolean or a number is written out in full.
pub proof fn scalar_variable_is_written_out(
    before: Seq<char>,
    name: Seq<char>,
    behind: Seq<char>,
    vars: FieldsV,
    now: i64,
)
    requires
        !contains(before + seq!['{'], "{{"@),
        !contains(name + seq!['}'], "}}"@),
        !name.contains('|'),
        !name.contains('.'),
        trimmed(name) == name,
        time_value(name, now) is None,
        vars.contains_key(name),
    ensures
        filled(before + "{{"@ + name + "}}"@ + behind, vars, now) == before + (match vars[name] {
            JsonV::Bool(b) => if b {
                "true"@
            } else {
                "false"@
            },
            JsonV::Number(NumberV::PosInt(n)) => decimal(n as nat),
            JsonV::Number(NumberV::NegInt(n)) => decimal_int(n as int),
            JsonV::Number(NumberV::Float(t)) => t,
            JsonV::Str(s) => s,
            JsonV::Null => seq![],
            v => crate::json::json_text(crate::json::normal(v)),
        }) + filled(behind, vars, now),
{
    placeholder_is_replaced(before, name, behind, vars, now);
    bar_separates_path_and_fallback(name, seq![]);
    paths_lead_step_by_step(vars, name, name);
    placeholder_is_filled(name, vars, now);
    if let JsonV::Str(s) = vars[name] {
        if s.len() == 0 {
            assert(fallback_of(name) =~= s);
        }
    }
    if vars[name] is Null {
        assert(fallback_of(name) =~= seq![]);
    }
}

// ── Templates ─────────────────────────────────────────────────────────────

/// Text before the first placeholder is kept, and text without one is kept whole.
pub proof fn literal_text_is_kept(s: Seq<char>, vars: FieldsV, now: i64)
    ensures
        opens_at(s) is None ==> filled(s, vars, now) == s,
        opens_at(s) matches Some(k) ==> 0 <= k <= filled(s, vars, now).len() && filled(
            s,
            vars,
            now,
        ).take(k) == s.take(k),
        opens_at(s) == find(s, "{{"@),
{
    find_from_is_first(s, "{{"@, 0);
    if let Some(k) = opens_at(s) {
        let after = s.skip(k + 2);
        match find(after, "}}"@) {
            Some(close) => {
                assert(filled(s, vars, now).take(k) =~= s.take(k));
            },
            None => {
                assert(filled(s, vars, now).take(k) =~= s.take(k));
            },
        }
    }
}

/// A rendered template is the filled one with each spelled line break made a real
/// one.
pub proof fn spelled_line_breaks_become_real(template: Seq<char>, vars: FieldsV, now: i64)
    ensures
        rendered(template, vars, now) == replaced(filled(template, vars, now), "\\n"@, "\n"@),
        match find(filled(template, vars, now), "\\n"@) {
            None => rendered(template, vars, now) == filled(template, vars, now),
            Some(k) => {
                let s = filled(template, vars, now);
                rendered(template, vars, now) == s.take(k) + seq!['\n'] + replaced(
                    s.skip(k + 2),
                    "\\n"@,
                    "\n"@,
                )
            },
        },
{
    reveal_strlit("\\n");
    reveal_strlit("\n");
    assert("\n"@ =~= seq!['\n']);
    crate::laws::text::matches_are_replaced_in_turn(
        filled(template, vars, now),
        "\\n"@,
        "\n"@,
    );
}

/// In a template value every text is rendered, in its place, and nothing else
/// changes.
pub proof fn every_text_in_a_value_is_rendered(j: JsonV, vars: FieldsV, now: i64)
    ensures
        match j {
            JsonV::Str(s) => rendered_value(j, vars, now) == JsonV::Str(rendered(s, vars, now)),
            JsonV::Array(s) => rendered_value(j, vars, now) matches JsonV::Array(t) && t.len()
                == s.len() && forall|i: int|
                0 <= i < s.len() ==> #[trigger] t[i] == rendered_value(s[i], vars, now),
            JsonV::Object(m) => rendered_value(j, vars, now) matches JsonV::Object(t) && t.dom()
                == m.dom() && forall|k: Seq<char>|
                m.contains_key(k) ==> #[trigger] t[k] == rendered_value(m[k], vars, now),
            _ => rendered_value(j, vars, now) == j,
        },
{
    if let JsonV::Object(m) = j {
        assert(rendered_value(j, vars, now)->Object_0.dom() =~= m.dom());
    }
}

// ── Time ──────────────────────────────────────────────────────────────────

/// The greeting of each hour of the day.
pub proof fn greetings_by_the_hour(hour: u32)
    ensures
        greeting(hour) == "Good morning"@ <==> 5 <= hour < 12,
        greeting(hour) == "Good afternoon"@ <==> 12 <= hour < 17,
        greeting(hour) == "Good evening"@ <==> 17 <= hour < 22,
        greeting(hour) == "Hello"@ <==> hour < 5 || hour >= 22,
{
    reveal_strlit("Good morning");
    reveal_strlit("Good afternoon");
    reveal_strlit("Good evening");
    reveal_strlit("Hello");
    assert("Good morning"@.len() == 12 && "Good evening"@.len() == 12 && "Good afternoon"@.len()
        == 14 && "Hello"@.len() == 5);
    assert("Good morning"@[5] != "Good evening"@[5]);
}

/// A name that begins with none of the four time names, or that goes on with
/// something other than an underscore, has no time value.
pub proof fn other_names_have_no_time(name: Seq<char>, now: i64)
    ensures
        !starts_with(name, "greeting_phrase"@) && !starts_with(name, "current_time"@)
            && !starts_with(name, "current_weekday"@) && !starts_with(name, "current_date"@)
            ==> time_value(name, now) is None,
        after_prefix(name, "current_time"@) matches Some(rest) ==> rest.len() > 0 && rest[0] != '_'
            ==> time_value(name, now) is None,
        after_prefix(name, "current_weekday"@) matches Some(rest) ==> rest.len() > 0 && rest[0]
            != '_' ==> time_value(name, now) is None,
        after_prefix(name, "current_date"@) matches Some(rest) ==> rest.len() > 0 && rest[0] != '_'
            ==> time_value(name, now) is None,
        after_prefix(name, "greeting_phrase"@) matches Some(rest) ==> rest.len() > 0 && rest[0]
            != '_' ==> time_value(name, now) is None,
{
    reveal_strlit("_");
    reveal_strlit("greeting_phrase");
    reveal_strlit("current_time");
    reveal_strlit("current_weekday");
    reveal_strlit("current_date");
    let g = "greeting_phrase"@;
    let t = "current_time"@;
    let w = "current_weekday"@;
    let d = "current_date"@;
    assert(g[0] == 'g' && t[0] == 'c' && w[0] == 'c' && d[0] == 'c');
    assert(t[8] == 't' && w[8] == 'w' && d[8] == 'd');
    if starts_with(name, g) {
        assert(name[0] == name.take(g.len() as int)[0]);
    }
    if starts_with(name, t) {
        assert(name[0] == name.take(t.len() as int)[0]);
        assert(name[8] == name.take(t.len() as int)[8]);
    }
    if starts_with(name, w) {
        assert(name[0] == name.take(w.len() as int)[0]);
        assert(name[8] == name.take(w.len() as int)[8]);
    }
    if starts_with(name, d) {
        assert(name[0] == name.take(d.len() as int)[0]);
        assert(name[8] == name.take(d.len() as int)[8]);
    }
    assert forall|rest: Seq<char>| rest.len() > 0 && rest[0] != '_' implies #[trigger] after_prefix(
        rest,
        "_"@,
    ) is None by {
        assert(rest.take(1)[0] == rest[0]);
    }
    if let Some(rest) = after_prefix(name, g) {
        assert(after_prefix(rest, "_"@) == after_prefix(rest, "_"@));
    }
}

/// Eight hours ahead of the universal day: the hours run from eight to eight.
pub proof fn eight_hours_ahead(now: i64, day: int, hour: int, rest: int)
    requires
        now as int == 86400 * day + 3600 * hour + rest,
        0 <= hour < 24,
        0 <= rest < 3600,
    ensures
        crate::clock::utc8_hour(now) == if hour < 16 {
            hour + 8
        } else {
            hour - 16
        },
{
    let h = 24 * day + hour + 8;
    assert((now + 28800) / 3600 == h) by {
        assert(now + 28800 == 3600 * h + rest);
    }
    assert(h % 24 == (hour + 8) % 24);
}

/// The days of the first week, in order.
pub proof fn weekdays_in_order(now: i64, d: int)
    requires
        0 <= d < 7,
        now as int == 86400 * d,
        0 <= now,
    ensures
        crate::clock::weekday(now) == seq![
            "Thursday"@,
            "Friday"@,
            "Saturday"@,
            "Sunday"@,
            "Monday"@,
            "Tuesday"@,
            "Wednesday"@,
        ][d],
{
    assert((now as int / 86400) % 7 == d);
}

/// The weekday depends on the day only, and comes round after a week.
pub proof fn weekday_comes_round(now: i64, weeks: int, seconds: int, later: i64)
    requires
        0 <= seconds < 86400,
        now as int % 86400 == 0,
        later as int == now as int + 604800 * weeks + seconds,
    ensures
        crate::clock::weekday(later) == crate::clock::weekday(now),
{
    let d = now as int / 86400;
    assert(later as int / 86400 == d + 7 * weeks) by {
        assert(later as int == 86400 * (d + 7 * weeks) + seconds);
    }
    assert((d + 7 * weeks) % 7 == d % 7);
}

/// A template without a placeholder depends on no clock; one with a placeholder does
/// not where neither the placeholder nor what stands behind it does.
pub proof fn clocks_matter_to_time_names_only(s: Seq<char>)
    ensures
        opens_at(s) is None ==> timeless(s),
        opens_at(s) matches Some(k) ==> match find(s.skip(k + 2), "}}"@) {
            Some(close) => {
                let inner = s.skip(k + 2).take(close);
                let behind = s.skip(k + 2).skip(close + 2);
                timeless(s) <==> timeless(behind) && !starts_with(
                    trimmed(inner),
                    "greeting_phrase"@,
                ) && !starts_with(trimmed(inner), "current_time"@) && !starts_with(
                    trimmed(inner),
                    "current_weekday"@,
                ) && !starts_with(trimmed(inner), "current_date"@)
            },
            None => timeless(s) <==> timeless(s.skip(k + 2)),
        },
{
    find_from_is_first(s, "{{"@, 0);
    if let Some(k) = opens_at(s) {
        let after = s.skip(k + 2);
        find_from_is_first(after, "}}"@, 0);
        if let Some(close) = find(after, "}}"@) {
            assert(time_name(after.take(close)) == time_name(after.take(close)));
        }
    }
}

} // verus!
