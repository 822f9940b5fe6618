//! Live events of a call.
//!
//! Messages of the pipeline become `{type, payload}` frames for the browser, on
//! one channel per call. A channel is registered before the call is answered, so
//! that nothing published before the browser subscribes is lost, and it has a
//! single consumer.

use crate::json::{
    json_text, normal, plain, plain_empty, plain_insert, reads_as, short_key_is_no_marker, tree,
    Json, JsonMap, JsonV,
};
use crate::text::same;
use vstd::prelude::*;
use vstd::string::StringExecFns;

verus! {

/// A message of the pipeline.
#[derive(Debug, Clone)]
pub struct RtviMessage {
    pub kind: String,
    pub data: Option<Json>,
}

/// The browser's frame type for a kind of message; other kinds are dropped.
/// The bot's text comes from one kind only, so that it is not shown twice.
pub open spec fn frame_type(kind: Seq<char>) -> Option<Seq<char>> {
    if kind == "user-transcription"@ {
        Some("rtf-user-transcription"@)
    } else if kind == "bot-transcription"@ {
        Some("rtf-bot-text"@)
    } else if kind == "bot-started-speaking"@ {
        Some("rtf-bot-started-speaking"@)
    } else if kind == "bot-stopped-speaking"@ {
        Some("rtf-bot-stopped-speaking"@)
    } else if kind == "user-mute-started"@ {
        Some("rtf-user-mute-started"@)
    } else if kind == "user-mute-stopped"@ {
        Some("rtf-user-mute-stopped"@)
    } else if kind == "llm-function-call-started"@ || kind == "llm-function-call-in-progress"@ {
        Some("rtf-function-call-start"@)
    } else if kind == "llm-function-call-stopped"@ {
        Some("rtf-function-call-end"@)
    } else {
        None
    }
}

/// The payload of a frame: the message's data, or an empty object.
pub open spec fn frame_payload(data: Option<Json>) -> JsonV {
    match data {
        Some(d) => tree(d),
        None => JsonV::Object(Map::empty()),
    }
}

fn type_for(kind: &str) -> (r: Option<&'static str>)
    ensures
        match r {
            Some(t) => frame_type(kind@) == Some(t@),
            None => frame_type(kind@) is None,
        },
{
    if same(kind, "user-transcription") {
        Some("rtf-user-transcription")
    } else if same(kind, "bot-transcription") {
        Some("rtf-bot-text")
    } else if same(kind, "bot-started-speaking") {
        Some("rtf-bot-started-speaking")
    } else if same(kind, "bot-stopped-speaking") {
        Some("rtf-bot-stopped-speaking")
    } else if same(kind, "user-mute-started") {
        Some("rtf-user-mute-started")
    } else if same(kind, "user-mute-stopped") {
        Some("rtf-user-mute-stopped")
    } else if same(kind, "llm-function-call-started") || same(
        kind,
        "llm-function-call-in-progress",
    ) {
        Some("rtf-function-call-start")
    } else if same(kind, "llm-function-call-stopped") {
        Some("rtf-function-call-end")
    } else {
        None
    }
}

/// The browser's frame type and payload for a message; messages that the browser
/// has no use for give none.
pub fn map_rtvi_to_rtf(m: &RtviMessage) -> (r: Option<(&'static str, Json)>)
    ensures
        match r {
            Some((t, payload)) => frame_type(m.kind@) == Some(t@) && payload@ == frame_payload(
                m.data,
            ),
            None => frame_type(m.kind@) is None,
        },
{
    broadcast use crate::json::group_json;

    match type_for(m.kind.as_str()) {
        Some(t) => {
            let payload: Json = match &m.data {
                Some(d) => d.clone(),
                None => Json::Object(JsonMap::new()),
            };
            Some((t, payload))
        },
        None => None,
    }
}

/// A browser frame.
pub open spec fn frame_json(type_: Seq<char>, payload: JsonV) -> JsonV {
    JsonV::Object(
        Map::<Seq<char>, JsonV>::empty().insert("type"@, JsonV::Str(type_)).insert(
            "payload"@,
            payload,
        ),
    )
}

/// The text of a browser frame. It reads back as the frame where its payload is
/// plain.
pub fn frame_text(type_: &str, payload: Json) -> (r: String)
    ensures
        r@ == json_text(normal(frame_json(type_@, payload@))),
        plain(payload@, 126) ==> reads_as(r@, frame_json(type_@, payload@)),
{
    broadcast use crate::json::group_json;

    let mut m: JsonMap = JsonMap::new();
    m.insert(String::from_str("type"), Json::Str(String::from_str(type_)));
    m.insert(String::from_str("payload"), payload);
    let j: Json = Json::Object(m);
    assert(j@ == frame_json(type_@, payload@));
    proof {
        if plain(payload@, 126) {
            let m0 = Map::<Seq<char>, JsonV>::empty();
            reveal_strlit("type");
            reveal_strlit("payload");
            short_key_is_no_marker("type"@);
            short_key_is_no_marker("payload"@);
            plain_empty(127);
            plain_insert(m0, "type"@, JsonV::Str(type_@), 127);
            plain_insert(m0.insert("type"@, JsonV::Str(type_@)), "payload"@, payload@, 127);
        }
    }
    j.text()
}

/// The frame of a kind that is forwarded.
pub open spec fn message_frame(kind: Seq<char>, data: Option<Json>) -> JsonV {
    frame_json(frame_type(kind)->Some_0, frame_payload(data))
}

/// The text that a message puts on its call's channel, if any. It reads back as
/// the frame where the data is plain.
pub fn rtf_text(m: &RtviMessage) -> (r: Option<String>)
    ensures
        match r {
            Some(t) => {
                &&& frame_type(m.kind@) is Some
                &&& t@ == json_text(normal(message_frame(m.kind@, m.data)))
                &&& plain(frame_payload(m.data), 126) ==> reads_as(
                    t@,
                    message_frame(m.kind@, m.data),
                )
            },
            None => frame_type(m.kind@) is None,
        },
{
    match map_rtvi_to_rtf(m) {
        Some((t, payload)) => Some(frame_text(t, payload)),
        None => None,
    }
}

// ── The registry ──────────────────────────────────────────────────────────

/// What a consumer gets that takes the channel of a call.
pub open spec fn taken<R>(calls: Map<Seq<char>, Option<R>>, pc_id: Seq<char>) -> Option<R> {
    if calls.contains_key(pc_id) {
        calls[pc_id]
    } else {
        None
    }
}

/// The calls once the channel of one was taken.
pub open spec fn after_take<R>(calls: Map<Seq<char>, Option<R>>, pc_id: Seq<char>) -> Map<
    Seq<char>,
    Option<R>,
> {
    if calls.contains_key(pc_id) {
        calls.insert(pc_id, None)
    } else {
        calls
    }
}

/// The channels of the running calls by their id. The receiving half of a
/// channel is held until its one consumer takes it.
pub struct EventRegistry<R> {
    calls: Vec<(String, Option<R>)>,
}

/// The map that a list of calls stands for.
spec fn calls_of<R>(s: Seq<(String, Option<R>)>) -> Map<Seq<char>, Option<R>>
    decreases s.len(),
{
    if s.len() == 0 {
        Map::empty()
    } else {
        calls_of(s.drop_last()).insert(s.last().0@, s.last().1)
    }
}

/// No two entries have the same id.
spec fn unique_ids<R>(s: Seq<(String, Option<R>)>) -> bool {
    forall|i: int, j: int|
        0 <= i < j < s.len() ==> (#[trigger] s[i]).0@ != (#[trigger] s[j]).0@
}

proof fn calls_at<R>(s: Seq<(String, Option<R>)>, i: int)
    requires
        unique_ids(s),
        0 <= i < s.len(),
    ensures
        calls_of(s).contains_key(s[i].0@),
        calls_of(s)[s[i].0@] == s[i].1,
    decreases s.len(),
{
    let r = s.drop_last();
    if i < s.len() - 1 {
        assert forall|i: int, j: int| 0 <= i < j < r.len() implies (#[trigger] r[i]).0@ != (
        #[trigger] r[j]).0@ by {
            assert(r[i] == s[i] && r[j] == s[j]);
        }
        assert(r[i] == s[i]);
        calls_at(r, i);
        assert(s[i].0@ != s[s.len() - 1].0@);
    }
}

proof fn calls_absent<R>(s: Seq<(String, Option<R>)>, id: Seq<char>)
    requires
        forall|i: int| 0 <= i < s.len() ==> (#[trigger] s[i]).0@ != id,
    ensures
        !calls_of(s).contains_key(id),
    decreases s.len(),
{
    if s.len() > 0 {
        let r = s.drop_last();
        assert forall|i: int| 0 <= i < r.len() implies (#[trigger] r[i]).0@ != id by {
            assert(r[i] == s[i]);
        }
        calls_absent(r, id);
        assert(s[s.len() - 1].0@ != id);
    }
}

proof fn calls_without<R>(s: Seq<(String, Option<R>)>, i: int)
    requires
        unique_ids(s),
        0 <= i < s.len(),
    ensures
        calls_of(s.remove(i)) == calls_of(s).remove(s[i].0@),
        unique_ids(s.remove(i)),
    decreases s.len(),
{
    let t = s.remove(i);
    let r = s.drop_last();
    assert forall|a: int, b: int| 0 <= a < b < t.len() implies (#[trigger] t[a]).0@ != (
    #[trigger] t[b]).0@ by {
        let x = if a < i {
            a
        } else {
            a + 1
        };
        let y = if b < i {
            b
        } else {
            b + 1
        };
        assert(s[x].0@ != s[y].0@);
    }
    assert forall|i: int, j: int| 0 <= i < j < r.len() implies (#[trigger] r[i]).0@ != (
    #[trigger] r[j]).0@ by {
        assert(r[i] == s[i] && r[j] == s[j]);
    }
    if i == s.len() - 1 {
        assert(t =~= r);
        assert forall|k: int| 0 <= k < r.len() implies (#[trigger] r[k]).0@ != s[i].0@ by {
            assert(r[k] == s[k]);
        }
        calls_absent(r, s[i].0@);
        assert(calls_of(t) =~= calls_of(s).remove(s[i].0@));
    } else {
        calls_without(r, i);
        assert(r[i] == s[i]);
        assert(t.drop_last() =~= r.remove(i));
        assert(t.last() == s.last());
        assert(s[i].0@ != s[s.len() - 1].0@);
        assert(calls_of(t) =~= calls_of(s).remove(s[i].0@));
    }
}

impl<R> View for EventRegistry<R> {
    type V = Map<Seq<char>, Option<R>>;

    closed spec fn view(&self) -> Map<Seq<char>, Option<R>> {
        calls_of(self.calls@)
    }
}

impl<R> EventRegistry<R> {
    /// The invariant of a registry: each call is there once.
    pub closed spec fn wf(&self) -> bool {
        unique_ids(self.calls@)
    }

    /// A registry without calls.
    pub fn new() -> (r: EventRegistry<R>)
        ensures
            r.wf(),
            r@ == Map::<Seq<char>, Option<R>>::empty(),
    {
        EventRegistry { calls: Vec::new() }
    }

    fn position(&self, pc_id: &str) -> (r: Option<usize>)
        ensures
            match r {
                Some(i) => i < self.calls@.len() && self.calls@[i as int].0@ == pc_id@,
                None => forall|i: int|
                    0 <= i < self.calls@.len() ==> (#[trigger] self.calls@[i]).0@ != pc_id@,
            },
    {
        let mut i: usize = 0;
        while i < self.calls.len()
            invariant
                i <= self.calls@.len(),
                forall|k: int| 0 <= k < i ==> (#[trigger] self.calls@[k]).0@ != pc_id@,
            decreases self.calls@.len() - i,
        {
            if same(self.calls[i].0.as_str(), pc_id) {
                return Some(i);
            }
            i += 1;
        }
        None
    }

    /// Removes a call when it has ended.
    pub fn deregister(&mut self, pc_id: &str)
        requires
            old(self).wf(),
        ensures
            final(self).wf(),
            final(self)@ == old(self)@.remove(pc_id@),
    {
        match self.position(pc_id) {
            Some(i) => {
                proof {
                    calls_without(self.calls@, i as int);
                }
                let _gone: (String, Option<R>) = self.calls.remove(i);
            },
            None => {
                proof {
                    calls_absent(self.calls@, pc_id@);
                    assert(self@ =~= self@.remove(pc_id@));
                }
            },
        }
    }

    /// Registers the channel of a call, in place of one of the same id.
    pub fn register(&mut self, pc_id: &str, receiver: R)
        requires
            old(self).wf(),
        ensures
            final(self).wf(),
            final(self)@ == old(self)@.insert(pc_id@, Some(receiver)),
    {
        self.deregister(pc_id);
        let ghost before = self.calls@;
        proof {
            if exists|i: int| 0 <= i < before.len() && (#[trigger] before[i]).0@ == pc_id@ {
                let i = choose|i: int| 0 <= i < before.len() && (#[trigger] before[i]).0@ == pc_id@;
                calls_at(before, i);
            }
        }
        self.calls.push((String::from_str(pc_id), Some(receiver)));
        proof {
            let s = self.calls@;
            assert(s.drop_last() =~= before);
            assert forall|i: int, j: int| 0 <= i < j < s.len() implies (#[trigger] s[i]).0@ != (
            #[trigger] s[j]).0@ by {
                assert(s[i] == before[i]);
                if j < before.len() {
                    assert(s[j] == before[j]);
                }
            }
            assert(self@ =~= old(self)@.insert(pc_id@, Some(receiver)));
        }
    }

    /// Takes the receiving half of a call's channel. There is none for an unknown
    /// call, nor a second time.
    pub fn take_receiver(&mut self, pc_id: &str) -> (r: Option<R>)
        requires
            old(self).wf(),
        ensures
            final(self).wf(),
            r == taken(old(self)@, pc_id@),
            final(self)@ == after_take(old(self)@, pc_id@),
    {
        match self.position(pc_id) {
            Some(i) => {
                let ghost before = self.calls@;
                proof {
                    calls_at(before, i as int);
                    calls_without(before, i as int);
                }
                let (id, receiver) = self.calls.remove(i);
                let ghost rest = self.calls@;
                self.calls.push((id, None));
                proof {
                    let s = self.calls@;
                    assert(s.drop_last() =~= rest);
                    assert forall|a: int, b: int| 0 <= a < b < s.len() implies (
                    #[trigger] s[a]).0@ != (#[trigger] s[b]).0@ by {
                        assert(s[a] == rest[a]);
                        if b < rest.len() {
                            assert(s[b] == rest[b]);
                        } else {
                            let x = if a < i {
                                a
                            } else {
                                a + 1
                            };
                            assert(rest[a] == before[x]);
                            if x < i {
                                assert(before[x].0@ != before[i as int].0@);
                            } else {
                                assert(before[i as int].0@ != before[x].0@);
                            }
                        }
                    }
                    assert(self@ =~= old(self)@.insert(pc_id@, None));
                }
                receiver
            },
            None => {
                proof {
                    calls_absent(self.calls@, pc_id@);
                }
                None
            },
        }
    }
}

impl<R> Default for EventRegistry<R> {
    fn default() -> (r: Self)
        ensures
            r.wf(),
            r@ == Map::<Seq<char>, Option<R>>::empty(),
    {
        EventRegistry::new()
    }
}

// ── Laws ──────────────────────────────────────────────────────────────────

/// A registered channel has a single consumer: the first to take it gets it, a
/// second one gets none, and nobody does once the call has ended. Other calls
/// are left as they are.
pub proof fn channel_has_one_consumer<R>(
    calls: Map<Seq<char>, Option<R>>,
    pc_id: Seq<char>,
    receiver: R,
    other: Seq<char>,
)
    ensures
        taken(calls.insert(pc_id, Some(receiver)), pc_id) == Some(receiver),
        taken(after_take(calls, pc_id), pc_id) is None,
        taken(calls.remove(pc_id), pc_id) is None,
        other != pc_id ==> {
            &&& taken(calls.insert(pc_id, Some(receiver)), other) == taken(calls, other)
            &&& taken(after_take(calls, pc_id), other) == taken(calls, other)
            &&& taken(calls.remove(pc_id), other) == taken(calls, other)
        },
{
}

/// The bot's text comes from one kind of message only.
pub proof fn bot_text_has_one_source(kind: Seq<char>)
    ensures
        frame_type(kind) == Some("rtf-bot-text"@) <==> kind == "bot-transcription"@,
{
    reveal_strlit("rtf-user-transcription");
    reveal_strlit("rtf-bot-text");
    reveal_strlit("rtf-bot-started-speaking");
    reveal_strlit("rtf-bot-stopped-speaking");
    reveal_strlit("rtf-user-mute-started");
    reveal_strlit("rtf-user-mute-stopped");
    reveal_strlit("rtf-function-call-start");
    reveal_strlit("rtf-function-call-end");
    reveal_strlit("user-transcription");
    reveal_strlit("bot-transcription");
    assert("user-transcription"@.len() != "bot-transcription"@.len());
    let n = "rtf-bot-text"@.len();
    assert(n != "rtf-user-transcription"@.len());
    assert(n != "rtf-bot-started-speaking"@.len());
    assert(n != "rtf-bot-stopped-speaking"@.len());
    assert(n != "rtf-user-mute-started"@.len());
    assert(n != "rtf-user-mute-stopped"@.len());
    assert(n != "rtf-function-call-start"@.len());
    assert(n != "rtf-function-call-end"@.len());
}

} // verus!
