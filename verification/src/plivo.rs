//! Plivo's audio-stream protocol.
//!
//! JSON text frames in both directions, with base64 G.711 μ-law audio:
//!
//! ```json
//! {"event":"start","start":{"streamId":"…","callId":"…"}}
//! {"event":"media","media":{"payload":"<base64 μ-law>"}}
//! {"event":"stop"}
//! ```
//!
//! and outbound
//!
//! ```json
//! {"event":"playAudio","media":{"contentType":"audio/x-mulaw","sampleRate":8000,
//!   "payload":"<base64 μ-law>"},"streamId":"…"}
//! {"event":"clearAudio","streamId":"…"}
//! ```
//!
//! Audio crosses this module as μ-law bytes; expanding them to PCM is the
//! caller's part.

use crate::json::{
    json_of_text, json_text, opt_string, opt_text, plain, plain_deeper, plain_empty, plain_insert,
    plain_is_normal, reads_as, short_key_is_no_marker, FieldsV, Json, JsonMap, JsonV, Number,
    NumberV,
};
use crate::payload::{base64_bytes, base64_text, decode_base64, encode_base64, encoded_len};
use crate::text::{
    chars_of, contains, decimal_int, decimal_int_text, join3, replace, replaced,
    replaced_without_match, same, starts_with, trim_end_char, trim_end_of,
};
use vstd::prelude::*;
use vstd::string::StringExecFns;

verus! {

// ── Frames ────────────────────────────────────────────────────────────────

/// A frame from the carrier.
#[derive(Debug)]
pub enum WsIn {
    Text(String),
    Binary(Vec<u8>),
    Close,
}

/// A frame to the carrier.
#[derive(Debug)]
pub enum WsOut {
    Text(String),
    Binary(Vec<u8>),
}

/// What a carrier frame means.
#[derive(Debug)]
pub enum SerIn {
    /// The media stream begins.
    StreamStart { call_id: String, stream_id: Option<String> },
    /// μ-law audio of the caller at the carrier's sample rate.
    Audio { ulaw: Vec<u8>, sample_rate: u32 },
    /// The stream is over.
    Stop,
    /// Nothing to act on.
    Ignore,
}

/// The view of a [`WsIn`].
pub enum WsInV {
    Text(Seq<char>),
    Binary(Seq<u8>),
    Close,
}

/// The view of a [`SerIn`].
#[verifier::ext_equal]
pub enum SerInV {
    StreamStart { call_id: Seq<char>, stream_id: Option<Seq<char>> },
    Audio { ulaw: Seq<u8>, sample_rate: u32 },
    Stop,
    Ignore,
}

impl View for WsIn {
    type V = WsInV;

    open spec fn view(&self) -> WsInV {
        match self {
            WsIn::Text(t) => WsInV::Text(t@),
            WsIn::Binary(b) => WsInV::Binary(b@),
            WsIn::Close => WsInV::Close,
        }
    }
}

impl View for SerIn {
    type V = SerInV;

    open spec fn view(&self) -> SerInV {
        match self {
            SerIn::StreamStart { call_id, stream_id } => SerInV::StreamStart {
                call_id: call_id@,
                stream_id: opt_string(*stream_id),
            },
            SerIn::Audio { ulaw, sample_rate } => SerInV::Audio {
                ulaw: ulaw@,
                sample_rate: *sample_rate,
            },
            SerIn::Stop => SerInV::Stop,
            SerIn::Ignore => SerInV::Ignore,
        }
    }
}

// ── The protocol ──────────────────────────────────────────────────────────

/// The `start` object of a start event.
pub open spec fn start_of(v: JsonV) -> JsonV {
    match v.get("start"@) {
        Some(s) => s,
        None => JsonV::Null,
    }
}

/// The payload of a media event.
pub open spec fn payload_of(v: JsonV) -> Option<Seq<char>> {
    match v.get("media"@) {
        Some(m) => m.str_at("payload"@),
        None => None,
    }
}

/// The audio of a decoded payload.
pub open spec fn audio_of(ulaw: Option<Seq<u8>>, rate: u32) -> SerInV {
    match ulaw {
        Some(u) => SerInV::Audio { ulaw: u, sample_rate: rate },
        None => SerInV::Ignore,
    }
}

/// What an event means at the carrier rate `rate`.
pub open spec fn event_meaning(v: JsonV, rate: u32) -> SerInV {
    let event = v.str_at("event"@);
    if event == Some("start"@) {
        let stream_id = start_of(v).str_at("streamId"@);
        SerInV::StreamStart {
            call_id: match start_of(v).str_at("callId"@) {
                Some(c) => c,
                None => match stream_id {
                    Some(s) => s,
                    None => seq![],
                },
            },
            stream_id,
        }
    } else if event == Some("media"@) {
        match payload_of(v) {
            Some(p) => audio_of(base64_bytes(p), rate),
            None => SerInV::Ignore,
        }
    } else if event == Some("stop"@) {
        SerInV::Stop
    } else {
        SerInV::Ignore
    }
}

/// The stream that is known after an event: a start event names it anew, and any
/// other leaves it.
pub open spec fn stream_after(v: JsonV, stream_id: Option<Seq<char>>) -> Option<Seq<char>> {
    if v.str_at("event"@) == Some("start"@) {
        start_of(v).str_at("streamId"@)
    } else {
        stream_id
    }
}

/// What a carrier frame means: a frame that is no JSON text means nothing.
pub open spec fn message_meaning(msg: WsInV, rate: u32) -> SerInV {
    match msg {
        WsInV::Text(t) => match json_of_text(t) {
            Ok(v) => event_meaning(v, rate),
            Err(_) => SerInV::Ignore,
        },
        WsInV::Binary(_) => SerInV::Ignore,
        WsInV::Close => SerInV::Stop,
    }
}

/// The stream that is known after a carrier frame.
pub open spec fn stream_after_message(msg: WsInV, stream_id: Option<Seq<char>>) -> Option<
    Seq<char>,
> {
    match msg {
        WsInV::Text(t) => match json_of_text(t) {
            Ok(v) => stream_after(v, stream_id),
            Err(_) => stream_id,
        },
        _ => stream_id,
    }
}

/// The fields of an outbound frame, with the stream echoed where it is known.
pub open spec fn echoing(fields: FieldsV, stream_id: Option<Seq<char>>) -> JsonV {
    match stream_id {
        Some(s) => JsonV::Object(fields.insert("streamId"@, JsonV::Str(s))),
        None => JsonV::Object(fields),
    }
}

/// The `media` object of a `playAudio` frame.
pub open spec fn media_object(rate: u32, payload: Seq<char>) -> JsonV {
    JsonV::Object(
        Map::<Seq<char>, JsonV>::empty().insert(
            "contentType"@,
            JsonV::Str("audio/x-mulaw"@),
        ).insert("sampleRate"@, JsonV::Number(NumberV::PosInt(rate as u64))).insert(
            "payload"@,
            JsonV::Str(payload),
        ),
    )
}

/// The `playAudio` frame.
pub open spec fn play_frame(rate: u32, stream_id: Option<Seq<char>>, ulaw: Seq<u8>) -> JsonV {
    echoing(
        Map::<Seq<char>, JsonV>::empty().insert("event"@, JsonV::Str("playAudio"@)).insert(
            "media"@,
            media_object(rate, base64_text(ulaw)),
        ),
        stream_id,
    )
}

/// The `clearAudio` frame.
pub open spec fn clear_frame(stream_id: Option<Seq<char>>) -> JsonV {
    echoing(
        Map::<Seq<char>, JsonV>::empty().insert("event"@, JsonV::Str("clearAudio"@)),
        stream_id,
    )
}

/// An outbound frame is the JSON text of a tree, which reads back from it.
pub open spec fn carries(out: WsOut, v: JsonV) -> bool {
    out matches WsOut::Text(t) && t@ == json_text(v) && reads_as(t@, v)
}

/// Serializer for Plivo's audio-stream protocol.
#[derive(Debug)]
pub struct PlivoSerializer {
    /// The carrier's sample rate.
    rate: u32,
    /// The stream that the carrier named in its start event.
    stream_id: Option<String>,
}

impl Default for PlivoSerializer {
    fn default() -> (r: Self)
        ensures
            r.rate() == 0,
            r.stream() is None,
    {
        PlivoSerializer { rate: 0, stream_id: None }
    }
}

impl PlivoSerializer {
    pub closed spec fn rate(&self) -> u32 {
        self.rate
    }

    pub closed spec fn stream(&self) -> Option<Seq<char>> {
        opt_string(self.stream_id)
    }

    /// A serializer at a carrier sample rate.
    pub fn new(rate: u32) -> (r: PlivoSerializer)
        ensures
            r.rate() == rate,
            r.stream() is None,
    {
        PlivoSerializer { rate, stream_id: None }
    }

    /// The stream that the carrier named, if it has.
    pub fn stream_id(&self) -> (r: Option<&str>)
        ensures
            opt_text(r) == self.stream(),
    {
        match &self.stream_id {
            Some(s) => Some(s.as_str()),
            None => None,
        }
    }

    /// The audio of a payload, given what its base64 text decodes to.
    pub fn on_payload(&self, ulaw: Option<Vec<u8>>) -> (r: SerIn)
        ensures
            r@ == audio_of(
                match ulaw {
                    Some(u) => Some(u@),
                    None => None,
                },
                self.rate(),
            ),
    {
        match ulaw {
            Some(ulaw) => SerIn::Audio { ulaw, sample_rate: self.rate },
            None => SerIn::Ignore,
        }
    }

    /// Takes in an event of the carrier.
    pub fn on_event(&mut self, v: &Json) -> (r: SerIn)
        ensures
            final(self).rate() == old(self).rate(),
            final(self).stream() == stream_after(v@, old(self).stream()),
            r@ == event_meaning(v@, old(self).rate()),
    {
        let event: &str = match v.str_at("event") {
            Some(e) => e,
            None => return SerIn::Ignore,
        };
        if same(event, "start") {
            let stream_id: Option<String> = match v.get("start") {
                Some(s) => match s.str_at("streamId") {
                    Some(t) => Some(String::from_str(t)),
                    None => None,
                },
                None => None,
            };
            let named: Option<String> = match v.get("start") {
                Some(s) => match s.str_at("callId") {
                    Some(t) => Some(String::from_str(t)),
                    None => None,
                },
                None => None,
            };
            // Some identifier is always surfaced: the stream's where the call
            // has none.
            let call_id: String = match named {
                Some(c) => c,
                None => match &stream_id {
                    Some(s) => s.clone(),
                    None => String::new(),
                },
            };
            assert(call_id@ =~= event_meaning(v@, self.rate())->call_id);
            self.stream_id = stream_id.clone();
            SerIn::StreamStart { call_id, stream_id }
        } else if same(event, "media") {
            match v.get("media") {
                Some(m) => match m.str_at("payload") {
                    Some(p) => self.on_payload(decode_base64(p)),
                    None => SerIn::Ignore,
                },
                None => SerIn::Ignore,
            }
        } else if same(event, "stop") {
            SerIn::Stop
        } else {
            SerIn::Ignore
        }
    }

    /// Takes in a frame of the carrier. A frame that cannot be read is nothing to
    /// act on.
    pub fn on_message(&mut self, msg: &WsIn) -> (r: SerIn)
        ensures
            final(self).rate() == old(self).rate(),
            final(self).stream() == stream_after_message(msg@, old(self).stream()),
            r@ == message_meaning(msg@, old(self).rate()),
    {
        match msg {
            WsIn::Text(t) => match Json::parse(t.as_str()) {
                Ok(v) => self.on_event(&v),
                Err(_) => SerIn::Ignore,
            },
            WsIn::Binary(_) => SerIn::Ignore,
            WsIn::Close => SerIn::Stop,
        }
    }

    /// The text frame of some fields.
    fn framed(&self, fields: JsonMap) -> (r: WsOut)
        requires
            plain(JsonV::Object(fields@), 5),
        ensures
            carries(r, echoing(fields@, self.stream())),
    {
        broadcast use crate::json::group_json;

        let ghost fv = fields@;
        let mut fields: JsonMap = fields;
        if let Some(sid) = &self.stream_id {
            fields.insert(String::from_str("streamId"), Json::Str(sid.clone()));
        }
        let j: Json = Json::Object(fields);
        proof {
            assert(j@ == echoing(fv, self.stream()));
            if let Some(sid) = self.stream() {
                reveal_strlit("streamId");
                short_key_is_no_marker("streamId"@);
                plain_insert(fv, "streamId"@, JsonV::Str(sid), 5);
            }
            plain_deeper(j@, 5, 127);
            plain_is_normal(j@, 127);
        }
        WsOut::Text(j.text())
    }

    /// The frame that plays μ-law audio at the carrier's rate.
    pub fn encode_audio(&self, ulaw: &Vec<u8>) -> (r: WsOut)
        requires
            encoded_len(ulaw@.len()) <= isize::MAX,
        ensures
            carries(r, play_frame(self.rate(), self.stream(), ulaw@)),
            base64_bytes(base64_text(ulaw@)) == Some(ulaw@),
    {
        broadcast use crate::json::group_json;

        let payload: String = encode_base64(ulaw);
        let mut media: JsonMap = JsonMap::new();
        media.insert(
            String::from_str("contentType"),
            Json::Str(String::from_str("audio/x-mulaw")),
        );
        media.insert(
            String::from_str("sampleRate"),
            Json::Number(Number::PosInt(self.rate as u64)),
        );
        media.insert(String::from_str("payload"), Json::Str(payload));
        proof {
            media_is_plain(self.rate, payload@);
        }
        let mut fields: JsonMap = JsonMap::new();
        fields.insert(String::from_str("event"), Json::Str(String::from_str("playAudio")));
        fields.insert(String::from_str("media"), Json::Object(media));
        proof {
            let m0 = Map::<Seq<char>, JsonV>::empty();
            let m1 = m0.insert("event"@, JsonV::Str("playAudio"@));
            reveal_strlit("event");
            reveal_strlit("media");
            short_key_is_no_marker("event"@);
            short_key_is_no_marker("media"@);
            plain_empty(5);
            plain_insert(m0, "event"@, JsonV::Str("playAudio"@), 5);
            plain_insert(m1, "media"@, media_object(self.rate, payload@), 5);
        }
        self.framed(fields)
    }

    /// The frame that drops what is queued for playing, for an interruption.
    pub fn encode_clear(&self) -> (r: Option<WsOut>)
        ensures
            r matches Some(out) && carries(out, clear_frame(self.stream())),
    {
        broadcast use crate::json::group_json;

        let mut fields: JsonMap = JsonMap::new();
        fields.insert(String::from_str("event"), Json::Str(String::from_str("clearAudio")));
        proof {
            reveal_strlit("event");
            short_key_is_no_marker("event"@);
            plain_empty(5);
            plain_insert(Map::empty(), "event"@, JsonV::Str("clearAudio"@), 5);
        }
        Some(self.framed(fields))
    }

    /// The carrier's sample rate.
    pub fn carrier_rate(&self) -> (r: u32)
        ensures
            r == self.rate(),
    {
        self.rate
    }
}

proof fn media_is_plain(rate: u32, payload: Seq<char>)
    ensures
        plain(media_object(rate, payload), 4),
{
    let m0 = Map::<Seq<char>, JsonV>::empty();
    let v1 = JsonV::Str("audio/x-mulaw"@);
    let m1 = m0.insert("contentType"@, v1);
    let v2 = JsonV::Number(NumberV::PosInt(rate as u64));
    let m2 = m1.insert("sampleRate"@, v2);
    reveal_strlit("contentType");
    reveal_strlit("sampleRate");
    reveal_strlit("payload");
    short_key_is_no_marker("contentType"@);
    short_key_is_no_marker("sampleRate"@);
    short_key_is_no_marker("payload"@);
    plain_empty(4);
    plain_insert(m0, "contentType"@, v1, 4);
    plain_insert(m1, "sampleRate"@, v2, 4);
    plain_insert(m2, "payload"@, JsonV::Str(payload), 4);
}

// ── The answer document ───────────────────────────────────────────────────

/// A character as XML text.
pub open spec fn escaped_char(c: char) -> Seq<char> {
    if c == '&' {
        "&amp;"@
    } else if c == '<' {
        "&lt;"@
    } else if c == '>' {
        "&gt;"@
    } else {
        seq![c]
    }
}

/// A text as XML text: `&`, `<` and `>` written as entities.
pub open spec fn escaped(s: Seq<char>) -> Seq<char>
    decreases s.len(),
{
    if s.len() == 0 {
        seq![]
    } else {
        escaped(s.drop_last()) + escaped_char(s.last())
    }
}

/// A text as XML text. A raw `&` between the parameters of a URL would start an
/// entity, and the carrier refuses the document.
pub fn xml_escape(s: &str) -> (r: String)
    ensures
        r@ == escaped(s@),
{
    let v: Vec<char> = chars_of(s);
    let mut out: String = String::new();
    let mut i: usize = 0;
    assert(out@ =~= escaped(v@.take(0)));
    while i < v.len()
        invariant
            i <= v@.len(),
            out@ == escaped(v@.take(i as int)),
        decreases v@.len() - i,
    {
        assert(v@.take(i + 1).drop_last() =~= v@.take(i as int));
        let c: char = v[i];
        if c == '&' {
            out.append("&amp;");
        } else if c == '<' {
            out.append("&lt;");
        } else if c == '>' {
            out.append("&gt;");
        } else {
            let ghost before = out@;
            out.push(c);
            assert(before.push(c) =~= before + seq![c]);
        }
        i += 1;
    }
    assert(v@.take(i as int) =~= v@);
    out
}

/// A base URL with the `ws` scheme that goes with its `http` scheme.
pub open spec fn ws_base(s: Seq<char>) -> Seq<char> {
    replaced(replaced(s, "https://"@, "wss://"@), "http://"@, "ws://"@)
}

/// A base URL with the `ws` scheme that goes with its `http` scheme.
pub fn ws_scheme(public_base: &str) -> (r: String)
    ensures
        r@ == ws_base(public_base@),
{
    proof {
        reveal_strlit("https://");
        reveal_strlit("http://");
    }
    let secure: String = replace(public_base, "https://", "wss://");
    replace(secure.as_str(), "http://", "ws://")
}

/// The URL of a run's media socket.
pub open spec fn media_url(run_id: i64, token: Seq<char>, public_base: Seq<char>) -> Seq<char> {
    ws_base(trim_end_char(public_base, '/')) + "/telephony/ws/plivo/"@ + decimal_int(run_id as int)
        + "?token="@ + token
}

/// The answer document of a run.
pub open spec fn answer_xml(run_id: i64, token: Seq<char>, public_base: Seq<char>) -> Seq<char> {
    "<?xml version=\"1.0\" encoding=\"UTF-8\"?><Response><Stream contentType=\"audio/x-mulaw;rate=8000\" bidirectional=\"true\" keepCallAlive=\"true\">"@
        + escaped(media_url(run_id, token, public_base)) + "</Stream><Hangup/></Response>"@
}

/// The answer document of a run: a bidirectional stream to this host's media
/// socket, and a hangup for when that closes. The stream verb does not block, so
/// `keepCallAlive` keeps the carrier from running off the end of the document.
pub fn plivo_answer_xml(run_id: i64, token: &str, public_base: &str) -> (r: String)
    ensures
        r@ == answer_xml(run_id, token@, public_base@),
{
    let base: String = trim_end_of(public_base, '/');
    let mut url: String = ws_scheme(base.as_str());
    url.append("/telephony/ws/plivo/");
    url.append(decimal_int_text(run_id).as_str());
    url.append("?token=");
    url.append(token);
    join3(
        "<?xml version=\"1.0\" encoding=\"UTF-8\"?><Response><Stream contentType=\"audio/x-mulaw;rate=8000\" bidirectional=\"true\" keepCallAlive=\"true\">",
        xml_escape(url.as_str()).as_str(),
        "</Stream><Hangup/></Response>",
    )
}

// ── Laws ──────────────────────────────────────────────────────────────────

/// Once the carrier has named its stream, every outbound frame echoes it.
pub proof fn named_stream_is_echoed(
    v: JsonV,
    before: Option<Seq<char>>,
    rate: u32,
    ulaw: Seq<u8>,
    stream_id: Seq<char>,
)
    requires
        v.str_at("event"@) == Some("start"@),
        start_of(v).str_at("streamId"@) == Some(stream_id),
    ensures
        play_frame(rate, stream_after(v, before), ulaw).str_at("streamId"@) == Some(stream_id),
        clear_frame(stream_after(v, before)).str_at("streamId"@) == Some(stream_id),
{
}

/// A `playAudio` frame says what it is, at which rate, and holds the payload.
pub proof fn play_frame_fields(rate: u32, stream_id: Option<Seq<char>>, ulaw: Seq<u8>)
    ensures
        play_frame(rate, stream_id, ulaw).str_at("event"@) == Some("playAudio"@),
        payload_of(play_frame(rate, stream_id, ulaw)) == Some(base64_text(ulaw)),
        play_frame(rate, stream_id, ulaw).get("media"@) == Some(
            media_object(rate, base64_text(ulaw)),
        ),
        media_object(rate, base64_text(ulaw)).str_at("contentType"@) == Some("audio/x-mulaw"@),
        media_object(rate, base64_text(ulaw)).get("sampleRate"@) == Some(
            JsonV::Number(NumberV::PosInt(rate as u64)),
        ),
{
    reveal_strlit("event");
    reveal_strlit("media");
    reveal_strlit("streamId");
    reveal_strlit("contentType");
    reveal_strlit("sampleRate");
    reveal_strlit("payload");
    assert("event"@[0] != "media"@[0]);
    assert("event"@.len() != "streamId"@.len());
    assert("media"@.len() != "streamId"@.len());
    assert("contentType"@.len() != "sampleRate"@.len());
    assert("contentType"@.len() != "payload"@.len());
    assert("sampleRate"@.len() != "payload"@.len());
}

/// The audio of a media event is what its payload decodes to, at the carrier's
/// rate, and such an event leaves the stream as it is.
pub proof fn media_event_gives_its_audio(
    v: JsonV,
    rate: u32,
    stream_id: Option<Seq<char>>,
    payload: Seq<char>,
    ulaw: Seq<u8>,
)
    requires
        v.str_at("event"@) == Some("media"@),
        payload_of(v) == Some(payload),
        base64_bytes(payload) == Some(ulaw),
    ensures
        event_meaning(v, rate) == (SerInV::Audio { ulaw, sample_rate: rate }),
        stream_after(v, stream_id) == stream_id,
{
    reveal_strlit("media");
    reveal_strlit("start");
    assert("media"@[0] != "start"@[0]);
}

/// Escaped text holds no markup of its own.
pub proof fn escaped_has_no_markup(s: Seq<char>)
    ensures
        !escaped(s).contains('<'),
        !escaped(s).contains('>'),
    decreases s.len(),
{
    reveal_strlit("&amp;");
    reveal_strlit("&lt;");
    reveal_strlit("&gt;");
    if s.len() > 0 {
        escaped_has_no_markup(s.drop_last());
        let a = escaped(s.drop_last());
        let b = escaped_char(s.last());
        assert forall|i: int| 0 <= i < escaped(s).len() implies escaped(s)[i] != '<' && escaped(
            s,
        )[i] != '>' by {
            if i < a.len() {
                assert(a.contains(a[i]));
            } else {
                assert(escaped(s)[i] == b[i - a.len()]);
            }
        }
    }
}

proof fn escaped_from_front(s: Seq<char>)
    requires
        s.len() > 0,
    ensures
        escaped(s) == escaped_char(s[0]) + escaped(s.drop_first()),
    decreases s.len(),
{
    if s.len() == 1 {
        assert(s.drop_last() =~= seq![]);
        assert(s.drop_first() =~= seq![]);
        assert(escaped(s) =~= escaped_char(s[0]) + escaped(s.drop_first()));
    } else {
        escaped_from_front(s.drop_last());
        assert(s.drop_last().drop_first() =~= s.drop_first().drop_last());
        assert(escaped(s) =~= escaped_char(s[0]) + escaped(s.drop_first()));
    }
}

/// Escaping loses nothing: texts that escape alike are alike.
pub proof fn escaping_is_one_to_one(a: Seq<char>, b: Seq<char>)
    requires
        escaped(a) == escaped(b),
    ensures
        a == b,
    decreases a.len(),
{
    reveal_strlit("&amp;");
    reveal_strlit("&lt;");
    reveal_strlit("&gt;");
    if a.len() > 0 {
        escaped_from_front(a);
    }
    if b.len() > 0 {
        escaped_from_front(b);
    }
    if a.len() > 0 && b.len() > 0 {
        let ea = escaped(a);
        let x = escaped_char(a[0]);
        let y = escaped_char(b[0]);
        assert(ea[0] == x[0] && ea[0] == y[0]);
        if x[0] == '&' {
            assert(ea[1] == x[1] && ea[1] == y[1]);
        }
        assert(a[0] == b[0]);
        assert(escaped(a.drop_first()) =~= ea.skip(x.len() as int));
        assert(escaped(b.drop_first()) =~= ea.skip(x.len() as int));
        escaping_is_one_to_one(a.drop_first(), b.drop_first());
        assert(a =~= seq![a[0]] + a.drop_first());
        assert(b =~= seq![b[0]] + b.drop_first());
    } else if a.len() > 0 {
        assert(escaped(a).len() > 0);
    } else if b.len() > 0 {
        assert(escaped(b).len() > 0);
    }
}

/// An `https` base gets the `wss` scheme and an `http` base the `ws` scheme; where
/// no other URL follows in it, the rest stays as it is.
pub proof fn schemes_are_mapped(rest: Seq<char>)
    ensures
        ws_base("https://"@ + rest) == "wss://"@ + ws_base(rest),
        ws_base("http://"@ + rest) == "ws://"@ + ws_base(rest),
        !contains(rest, "https://"@) && !contains(rest, "http://"@) ==> ws_base(rest) == rest,
{
    reveal_strlit("https://");
    reveal_strlit("http://");
    reveal_strlit("wss://");
    reveal_strlit("ws://");
    let (secure, open) = ("https://"@, "http://"@);
    let once = replaced(rest, secure, "wss://"@);
    let s = secure + rest;
    assert(s.take(8) =~= secure);
    assert(s.skip(8) =~= rest);
    replaced_behind("wss://"@, once, open, "ws://"@);
    let h = open + rest;
    assert(starts_with(h, secure) ==> h.take(8)[4] == 's');
    assert(h.drop_first() =~= h.skip(1));
    assert(h.skip(1) =~= open.skip(1) + rest);
    replaced_behind(open.skip(1), rest, secure, "wss://"@);
    assert(replaced(h, secure, "wss://"@) =~= open + once);
    assert((open + once).take(7) =~= open);
    assert((open + once).skip(7) =~= once);
    if !contains(rest, secure) && !contains(rest, open) {
        replaced_without_match(rest, secure, "wss://"@);
        replaced_without_match(rest, open, "ws://"@);
    }
}

/// What cannot start the pattern is passed over.
proof fn replaced_behind(head: Seq<char>, rest: Seq<char>, pat: Seq<char>, with: Seq<char>)
    requires
        pat.len() > 0,
        forall|i: int| 0 <= i < head.len() ==> #[trigger] head[i] != pat[0],
    ensures
        replaced(head + rest, pat, with) == head + replaced(rest, pat, with),
    decreases head.len(),
{
    let s = head + rest;
    if head.len() == 0 {
        assert(s =~= rest);
        assert(head + replaced(rest, pat, with) =~= replaced(rest, pat, with));
    } else {
        assert(starts_with(s, pat) ==> s.take(pat.len() as int)[0] == pat[0]);
        assert(s.drop_first() =~= head.drop_first() + rest);
        replaced_behind(head.drop_first(), rest, pat, with);
        assert(replaced(s, pat, with) =~= head + replaced(rest, pat, with));
    }
}

} // verus!
