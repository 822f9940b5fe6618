//! Time placeholders.
//!
//! `current_time`, `current_date`, `current_weekday` and `greeting_phrase`, each
//! with an optional `_<IANA zone>` suffix. An instant is given in seconds since
//! the Unix epoch.

use crate::text::{after_prefix, starts_with, strip_prefix};
use vstd::prelude::*;
use vstd::string::StringExecFns;

verus! {

/// The instants that the calendar of `chrono` covers.
pub open spec fn calendar(now: i64) -> bool {
    -8334601228800 <= now <= 8210266876799
}

/// The formats in use: date, time and zone; weekday; date.
pub open spec fn format_in_use(fmt: Seq<char>) -> bool {
    fmt == "%Y-%m-%d %H:%M %Z"@ || fmt == "%A"@ || fmt == "%Y-%m-%d"@
}

/// The hour of the day in a zone at an instant, where the zone is known.
pub uninterp spec fn zone_hour_at(zone: Seq<char>, now: i64) -> Option<u32>;

/// An instant as a format renders it in a zone, where the zone is known.
pub uninterp spec fn zone_stamp(zone: Seq<char>, now: i64, fmt: Seq<char>) -> Option<Seq<char>>;

/// The day of the week at an instant, in UTC.
pub open spec fn weekday(now: i64) -> Seq<char> {
    let day = (now as int / 86400) % 7;
    if day == 0 {
        "Thursday"@
    } else if day == 1 {
        "Friday"@
    } else if day == 2 {
        "Saturday"@
    } else if day == 3 {
        "Sunday"@
    } else if day == 4 {
        "Monday"@
    } else if day == 5 {
        "Tuesday"@
    } else {
        "Wednesday"@
    }
}

/// The hour of the day at an instant, eight hours ahead of UTC.
pub open spec fn utc8_hour(now: i64) -> u32 {
    (((now + 28800) / 3600) % 24) as u32
}

/// `chrono::Utc::now`, in whole seconds.
///
/// Claimed: the instant lies in the calendar. Which instant it is depends on the
/// machine, so nothing more is said of it.
#[verifier::external_body]
pub(crate) fn unix_now() -> (now: i64)
    ensures
        calendar(now),
{
    chrono::Utc::now().timestamp()
}

/// `DateTime::with_timezone` to `chrono_tz::Asia::Singapore`, and its hour.
///
/// Claimed: the zone is the one named `Asia/Singapore`, the hour is below 24, and
/// from the start of 1982 on, in Singapore, it is the hour of UTC+8.
#[verifier::external_body]
fn singapore_hour(now: i64) -> (h: u32)
    requires
        calendar(now),
    ensures
        zone_hour_at("Asia/Singapore"@, now) == Some(h),
        h < 24,
        378662400 <= now ==> h == utc8_hour(now),
{
    let at = chrono::DateTime::from_timestamp(now, 0).unwrap();
    chrono::Timelike::hour(&at.with_timezone(&chrono_tz::Asia::Singapore))
}

/// `chrono_tz::Tz` parsed from its name, `DateTime::with_timezone` to it, and
/// the hour.
///
/// Claimed: a function of the name and the instant, below 24 where the name is
/// known.
#[verifier::external_body]
fn zone_hour(zone: &str, now: i64) -> (h: Option<u32>)
    requires
        calendar(now),
    ensures
        h == zone_hour_at(zone@, now),
        h matches Some(n) ==> n < 24,
{
    let tz: chrono_tz::Tz = zone.parse().ok()?;
    let at = chrono::DateTime::from_timestamp(now, 0)?;
    Some(chrono::Timelike::hour(&at.with_timezone(&tz)))
}

/// `DateTime::format` in UTC.
///
/// Claimed: the text is that of the zone named `UTC`, and `%A` gives the name of
/// the weekday.
#[verifier::external_body]
fn utc_text(now: i64, fmt: &str) -> (s: String)
    requires
        calendar(now),
        format_in_use(fmt@),
    ensures
        zone_stamp("UTC"@, now, fmt@) == Some(s@),
        fmt@ == "%A"@ ==> s@ == weekday(now),
{
    chrono::DateTime::from_timestamp(now, 0).unwrap().format(fmt).to_string()
}

/// `chrono_tz::Tz` parsed from its name, and `DateTime::format` in that zone.
///
/// Claimed: the text is a function of the name, the instant and the format, and
/// there is none where the name is unknown.
#[verifier::external_body]
fn zone_text(zone: &str, now: i64, fmt: &str) -> (s: Option<String>)
    requires
        calendar(now),
        format_in_use(fmt@),
    ensures
        match s {
            Some(t) => zone_stamp(zone@, now, fmt@) == Some(t@),
            None => zone_stamp(zone@, now, fmt@) is None,
        },
{
    let tz: chrono_tz::Tz = zone.parse().ok()?;
    let at = chrono::DateTime::from_timestamp(now, 0)?;
    Some(at.with_timezone(&tz).format(fmt).to_string())
}

/// The phrase for an hour of the day.
pub open spec fn greeting(hour: u32) -> Seq<char> {
    if 5 <= hour <= 11 {
        "Good morning"@
    } else if 12 <= hour <= 16 {
        "Good afternoon"@
    } else if 17 <= hour <= 21 {
        "Good evening"@
    } else {
        "Hello"@
    }
}

/// The phrase for an hour of the day. Late at night it is neutral, since "good
/// night" reads as a farewell.
pub fn greeting_phrase(hour: u32) -> (s: &'static str)
    ensures
        s@ == greeting(hour),
{
    if 5 <= hour && hour <= 11 {
        "Good morning"
    } else if 12 <= hour && hour <= 16 {
        "Good afternoon"
    } else if 17 <= hour && hour <= 21 {
        "Good evening"
    } else {
        "Hello"
    }
}

/// The zone that the suffix of a placeholder names: nothing for the default one,
/// or `_` and a zone.
pub open spec fn zone_of(suffix: Seq<char>, default_zone: Seq<char>) -> Option<Seq<char>> {
    if suffix.len() == 0 {
        Some(default_zone)
    } else {
        after_prefix(suffix, "_"@)
    }
}

/// The greeting for what follows `greeting_phrase`, by default in Singapore.
pub open spec fn greeting_value(suffix: Seq<char>, now: i64) -> Option<Seq<char>> {
    match zone_of(suffix, "Asia/Singapore"@) {
        Some(zone) => match zone_hour_at(zone, now) {
            Some(h) => Some(greeting(h)),
            None => None,
        },
        None => None,
    }
}

/// The stamp for what follows the name of a `current_` placeholder, by default in
/// UTC.
pub open spec fn stamp_value(suffix: Seq<char>, fmt: Seq<char>, now: i64) -> Option<Seq<char>> {
    match zone_of(suffix, "UTC"@) {
        Some(zone) => zone_stamp(zone, now, fmt),
        None => None,
    }
}

/// The value of a time placeholder, or nothing for any other name.
pub open spec fn time_value(inner: Seq<char>, now: i64) -> Option<Seq<char>> {
    match after_prefix(inner, "greeting_phrase"@) {
        Some(rest) => greeting_value(rest, now),
        None => match after_prefix(inner, "current_time"@) {
            Some(rest) => stamp_value(rest, "%Y-%m-%d %H:%M %Z"@, now),
            None => match after_prefix(inner, "current_weekday"@) {
                Some(rest) => stamp_value(rest, "%A"@, now),
                None => match after_prefix(inner, "current_date"@) {
                    Some(rest) => stamp_value(rest, "%Y-%m-%d"@, now),
                    None => None,
                },
            },
        },
    }
}

fn greeting_for(suffix: &str, now: i64) -> (r: Option<String>)
    requires
        calendar(now),
    ensures
        match r {
            Some(s) => greeting_value(suffix@, now) == Some(s@),
            None => greeting_value(suffix@, now) is None,
        },
        suffix@.len() == 0 ==> r is Some,
        suffix@.len() == 0 && 378662400 <= now ==> r->Some_0@ == greeting(utc8_hour(now)),
{
    if suffix.is_empty() {
        return Some(String::from_str(greeting_phrase(singapore_hour(now))));
    }
    match strip_prefix(suffix, "_") {
        Some(zone) => match zone_hour(zone.as_str(), now) {
            Some(h) => Some(String::from_str(greeting_phrase(h))),
            None => None,
        },
        None => None,
    }
}

fn stamp_for(suffix: &str, fmt: &str, now: i64) -> (r: Option<String>)
    requires
        calendar(now),
        format_in_use(fmt@),
    ensures
        match r {
            Some(s) => stamp_value(suffix@, fmt@, now) == Some(s@),
            None => stamp_value(suffix@, fmt@, now) is None,
        },
        suffix@.len() == 0 ==> r is Some,
        suffix@.len() == 0 && fmt@ == "%A"@ ==> r->Some_0@ == weekday(now),
{
    if suffix.is_empty() {
        return Some(utc_text(now, fmt));
    }
    match strip_prefix(suffix, "_") {
        Some(zone) => zone_text(zone.as_str(), now, fmt),
        None => None,
    }
}

/// The value of a time placeholder at `now`. Any other name gives nothing, and
/// so does an unknown zone: better empty than a wrong time. Without a suffix there
/// is always a value.
pub fn time_builtin(inner: &str, now: i64) -> (r: Option<String>)
    requires
        calendar(now),
    ensures
        match r {
            Some(s) => time_value(inner@, now) == Some(s@),
            None => time_value(inner@, now) is None,
        },
        inner@ == "greeting_phrase"@ || inner@ == "current_time"@ || inner@ == "current_weekday"@
            || inner@ == "current_date"@ ==> r is Some,
        inner@ == "greeting_phrase"@ && 378662400 <= now ==> r->Some_0@ == greeting(
            utc8_hour(now),
        ),
        inner@ == "current_weekday"@ ==> r->Some_0@ == weekday(now),
{
    proof {
        let none = Seq::<char>::empty();
        names_differ(none);
        assert("greeting_phrase"@ + none =~= "greeting_phrase"@);
        assert("current_time"@ + none =~= "current_time"@);
        assert("current_weekday"@ + none =~= "current_weekday"@);
        assert("current_date"@ + none =~= "current_date"@);
    }
    if let Some(rest) = strip_prefix(inner, "greeting_phrase") {
        return greeting_for(rest.as_str(), now);
    }
    if let Some(rest) = strip_prefix(inner, "current_time") {
        return stamp_for(rest.as_str(), "%Y-%m-%d %H:%M %Z", now);
    }
    if let Some(rest) = strip_prefix(inner, "current_weekday") {
        return stamp_for(rest.as_str(), "%A", now);
    }
    match strip_prefix(inner, "current_date") {
        Some(rest) => stamp_for(rest.as_str(), "%Y-%m-%d", now),
        None => None,
    }
}

// ── Laws ──────────────────────────────────────────────────────────────────

/// A placeholder with a `_<zone>` suffix gives the time in that zone, and nothing
/// where the zone is unknown.
pub proof fn suffix_names_the_zone(zone: Seq<char>, now: i64)
    ensures
        time_value("greeting_phrase"@ + "_"@ + zone, now) == (match zone_hour_at(zone, now) {
            Some(h) => Some(greeting(h)),
            None => None,
        }),
        time_value("current_time"@ + "_"@ + zone, now) == zone_stamp(
            zone,
            now,
            "%Y-%m-%d %H:%M %Z"@,
        ),
        time_value("current_weekday"@ + "_"@ + zone, now) == zone_stamp(zone, now, "%A"@),
        time_value("current_date"@ + "_"@ + zone, now) == zone_stamp(zone, now, "%Y-%m-%d"@),
{
    reveal_strlit("_");
    names_differ("_"@ + zone);
    assert(("_"@ + zone).take(1) =~= "_"@);
    assert(("_"@ + zone).skip(1) =~= zone);
    assert("greeting_phrase"@ + "_"@ + zone =~= "greeting_phrase"@ + ("_"@ + zone));
    assert("current_time"@ + "_"@ + zone =~= "current_time"@ + ("_"@ + zone));
    assert("current_weekday"@ + "_"@ + zone =~= "current_weekday"@ + ("_"@ + zone));
    assert("current_date"@ + "_"@ + zone =~= "current_date"@ + ("_"@ + zone));
}

/// Without a suffix a greeting goes by the hour in Singapore, and any other
/// placeholder by UTC.
pub proof fn bare_name_means_the_default_zone(now: i64)
    ensures
        time_value("greeting_phrase"@, now) == time_value(
            "greeting_phrase"@ + "_"@ + "Asia/Singapore"@,
            now,
        ),
        time_value("current_time"@, now) == time_value("current_time"@ + "_"@ + "UTC"@, now),
        time_value("current_weekday"@, now) == time_value("current_weekday"@ + "_"@ + "UTC"@, now),
        time_value("current_date"@, now) == time_value("current_date"@ + "_"@ + "UTC"@, now),
{
    suffix_names_the_zone("Asia/Singapore"@, now);
    suffix_names_the_zone("UTC"@, now);
    let none = Seq::<char>::empty();
    names_differ(none);
    assert("greeting_phrase"@ + none =~= "greeting_phrase"@);
    assert("current_time"@ + none =~= "current_time"@);
    assert("current_weekday"@ + none =~= "current_weekday"@);
    assert("current_date"@ + none =~= "current_date"@);
}

/// Each name is told from the others, whatever follows it.
proof fn names_differ(rest: Seq<char>)
    ensures
        after_prefix("greeting_phrase"@ + rest, "greeting_phrase"@) == Some(rest),
        after_prefix("current_time"@ + rest, "greeting_phrase"@) is None,
        after_prefix("current_time"@ + rest, "current_time"@) == Some(rest),
        after_prefix("current_weekday"@ + rest, "greeting_phrase"@) is None,
        after_prefix("current_weekday"@ + rest, "current_time"@) is None,
        after_prefix("current_weekday"@ + rest, "current_weekday"@) == Some(rest),
        after_prefix("current_date"@ + rest, "greeting_phrase"@) is None,
        after_prefix("current_date"@ + rest, "current_time"@) is None,
        after_prefix("current_date"@ + rest, "current_weekday"@) is None,
        after_prefix("current_date"@ + rest, "current_date"@) == Some(rest),
{
    reveal_strlit("greeting_phrase");
    reveal_strlit("current_time");
    reveal_strlit("current_weekday");
    reveal_strlit("current_date");
    let (g, t, w, d) = ("greeting_phrase"@, "current_time"@, "current_weekday"@, "current_date"@);
    assert((g + rest).take(g.len() as int) =~= g && (g + rest).skip(g.len() as int) =~= rest);
    assert((t + rest).take(t.len() as int) =~= t && (t + rest).skip(t.len() as int) =~= rest);
    assert((w + rest).take(w.len() as int) =~= w && (w + rest).skip(w.len() as int) =~= rest);
    assert((d + rest).take(d.len() as int) =~= d && (d + rest).skip(d.len() as int) =~= rest);
    assert(starts_with(t + rest, g) ==> (t + rest).take(g.len() as int)[0] == g[0]);
    assert(starts_with(w + rest, g) ==> (w + rest).take(g.len() as int)[0] == g[0]);
    assert(starts_with(d + rest, g) ==> (d + rest).take(g.len() as int)[0] == g[0]);
    assert(starts_with(w + rest, t) ==> (w + rest).take(t.len() as int)[8] == t[8]);
    assert(starts_with(d + rest, t) ==> (d + rest).take(t.len() as int)[8] == t[8]);
    assert(starts_with(d + rest, w) ==> (d + rest).take(w.len() as int)[8] == w[8]);
}

} // verus!
