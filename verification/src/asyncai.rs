//! AsyncAI streaming text-to-speech.
//!
//! The provider's socket takes one init message at connect and one forced
//! transcript per utterance, and answers with base64 PCM chunks. It binds one
//! synthesis context to a socket and names it in an `init_ack`; a transcript on
//! any other context stays silent. It never ends an utterance by itself: once the
//! audio has been quiet for a while, the context is closed, and that draws the
//! terminal `final`. Closing it earlier truncates the audio.
//!
//! [`Utterance`] decides what to do for each thing that happens on the socket;
//! the caller owns the socket and the clock.

use crate::json::{json_of_text, opt_string, opt_tree, Json, JsonMap, JsonV, Number, NumberV};
use crate::payload::{base64_bytes, decode_base64};
use crate::text::{join3, same};
use vstd::prelude::*;
use vstd::string::StringExecFns;

verus! {

/// The quiet time after the last audio chunk that means that synthesis is done.
pub const IDLE_DONE_MS: u64 = 1500;

/// How long to wait for the `init_ack` and for the first audio chunk.
pub const ACK_TIMEOUT_MS: u64 = 10_000;

/// The overall cap on one utterance.
pub const MAX_WAIT_MS: u64 = 30_000;

/// The provider's socket, without its query.
pub const ASYNCAI_WSS_BASE: &'static str = "wss://api.async.com/text_to_speech/websocket/ws";

/// The version of the provider's protocol.
pub const ASYNCAI_VERSION: &'static str = "v1";

// ── Settings and messages ─────────────────────────────────────────────────

/// The settings of a session.
#[derive(Debug, Clone)]
pub struct AsyncAiTts {
    pub api_key: String,
    pub voice_id: String,
    pub model: String,
    pub sample_rate: u32,
}

/// The init message of a session.
pub open spec fn init_json(model: Seq<char>, voice_id: Seq<char>, sample_rate: u32) -> JsonV {
    let empty = Map::<Seq<char>, JsonV>::empty();
    JsonV::Object(
        empty.insert("model_id"@, JsonV::Str(model)).insert(
            "voice"@,
            JsonV::Object(
                empty.insert("mode"@, JsonV::Str("id"@)).insert("id"@, JsonV::Str(voice_id)),
            ),
        ).insert(
            "output_format"@,
            JsonV::Object(
                empty.insert("container"@, JsonV::Str("raw"@)).insert(
                    "encoding"@,
                    JsonV::Str("pcm_s16le"@),
                ).insert("sample_rate"@, JsonV::Number(NumberV::PosInt(sample_rate as u64))),
            ),
        ).insert("language"@, JsonV::Null),
    )
}

fn put_str(m: &mut JsonMap, key: &str, value: &str)
    ensures
        final(m)@ == old(m)@.insert(key@, JsonV::Str(value@)),
{
    broadcast use crate::json::group_json;

    m.insert(String::from_str(key), Json::Str(String::from_str(value)));
}

impl AsyncAiTts {
    /// The settings for a key and a voice: the `async_flash_v1.0` model and raw
    /// PCM at 24 kHz.
    pub fn new(api_key: &str, voice_id: &str) -> (r: AsyncAiTts)
        ensures
            r.api_key@ == api_key@,
            r.voice_id@ == voice_id@,
            r.model@ == "async_flash_v1.0"@,
            r.sample_rate == 24_000,
    {
        AsyncAiTts {
            api_key: String::from_str(api_key),
            voice_id: String::from_str(voice_id),
            model: String::from_str("async_flash_v1.0"),
            sample_rate: 24_000,
        }
    }

    /// The same settings with another model.
    pub fn model(self, model: &str) -> (r: AsyncAiTts)
        ensures
            r == (AsyncAiTts { model: r.model, ..self }),
            r.model@ == model@,
    {
        AsyncAiTts { model: String::from_str(model), ..self }
    }

    /// The same settings with another output sample rate.
    pub fn sample_rate(self, rate: u32) -> (r: AsyncAiTts)
        ensures
            r == (AsyncAiTts { sample_rate: rate, ..self }),
    {
        AsyncAiTts { sample_rate: rate, ..self }
    }

    /// The name of the service.
    pub fn name(&self) -> (r: &'static str)
        ensures
            r@ == "asyncai"@,
    {
        "asyncai"
    }

    /// The URL to connect to. The host is fixed; the provider takes its key only
    /// as a query parameter.
    pub fn url(&self) -> (r: String)
        ensures
            r@ == ASYNCAI_WSS_BASE@ + "?api_key="@ + self.api_key@ + "&version="@ + ASYNCAI_VERSION@,
    {
        let mut s: String = join3(ASYNCAI_WSS_BASE, "?api_key=", self.api_key.as_str());
        s.append("&version=");
        s.append(ASYNCAI_VERSION);
        s
    }

    /// The message sent once at connect.
    pub fn init_message(&self) -> (r: Json)
        ensures
            r@ == init_json(self.model@, self.voice_id@, self.sample_rate),
    {
        broadcast use crate::json::group_json;

        let mut voice: JsonMap = JsonMap::new();
        put_str(&mut voice, "mode", "id");
        put_str(&mut voice, "id", self.voice_id.as_str());
        let mut format: JsonMap = JsonMap::new();
        put_str(&mut format, "container", "raw");
        put_str(&mut format, "encoding", "pcm_s16le");
        format.insert(
            String::from_str("sample_rate"),
            Json::Number(Number::PosInt(self.sample_rate as u64)),
        );
        let mut m: JsonMap = JsonMap::new();
        put_str(&mut m, "model_id", self.model.as_str());
        m.insert(String::from_str("voice"), Json::Object(voice));
        m.insert(String::from_str("output_format"), Json::Object(format));
        m.insert(String::from_str("language"), Json::Null);
        Json::Object(m)
    }
}

/// The forced transcript of an utterance.
pub open spec fn speak_json(text: Seq<char>, context_id: Seq<char>) -> JsonV {
    JsonV::Object(
        Map::<Seq<char>, JsonV>::empty().insert("transcript"@, JsonV::Str(text)).insert(
            "context_id"@,
            JsonV::Str(context_id),
        ).insert("force"@, JsonV::Bool(true)),
    )
}

/// The one message of an utterance: the full text, forced, on the server's
/// context.
pub fn speak_message(text: &str, context_id: &str) -> (r: Json)
    ensures
        r@ == speak_json(text@, context_id@),
{
    broadcast use crate::json::group_json;

    let mut m: JsonMap = JsonMap::new();
    put_str(&mut m, "transcript", text);
    put_str(&mut m, "context_id", context_id);
    m.insert(String::from_str("force"), Json::Bool(true));
    Json::Object(m)
}

/// The message that closes a context.
pub open spec fn close_json(context_id: Seq<char>) -> JsonV {
    JsonV::Object(
        Map::<Seq<char>, JsonV>::empty().insert("context_id"@, JsonV::Str(context_id)).insert(
            "close_context"@,
            JsonV::Bool(true),
        ).insert("transcript"@, JsonV::Str(""@)),
    )
}

/// The message that closes a context and draws the terminal `final`.
pub fn close_message(context_id: &str) -> (r: Json)
    ensures
        r@ == close_json(context_id@),
{
    broadcast use crate::json::group_json;

    let mut m: JsonMap = JsonMap::new();
    put_str(&mut m, "context_id", context_id);
    m.insert(String::from_str("close_context"), Json::Bool(true));
    put_str(&mut m, "transcript", "");
    Json::Object(m)
}

// ── Server messages ───────────────────────────────────────────────────────

/// The context that a message acknowledges, if it is the `init_ack`.
pub open spec fn acked_context(v: JsonV) -> Option<Seq<char>> {
    if v.str_at("event"@) == Some("init_ack"@) {
        v.str_at("context_id"@)
    } else {
        None
    }
}

/// The context that a text frame acknowledges.
pub open spec fn acked_by(frame: Seq<char>) -> Option<Seq<char>> {
    match json_of_text(frame) {
        Ok(v) => acked_context(v),
        Err(_) => None,
    }
}

/// The context that a message acknowledges, if it is the `init_ack`.
pub fn init_ack_context(v: &Json) -> (r: Option<String>)
    ensures
        opt_string(r) == acked_context(v@),
{
    match v.str_at("event") {
        Some(e) => if same(e, "init_ack") {
            match v.str_at("context_id") {
                Some(c) => Some(String::from_str(c)),
                None => None,
            }
        } else {
            None
        },
        None => None,
    }
}

/// The context that a text frame acknowledges. A frame that is no JSON, or
/// another message, is passed over.
pub fn read_init_ack(frame: &str) -> (r: Option<String>)
    ensures
        opt_string(r) == acked_by(frame@),
{
    match Json::parse(frame) {
        Ok(v) => init_ack_context(&v),
        Err(_) => None,
    }
}

/// What a server message holds.
#[derive(Debug)]
pub enum Decoded {
    /// Audio samples.
    Audio(Vec<i16>),
    /// The end of the utterance.
    Done,
    /// Nothing of interest.
    Ignore,
}

/// The view of a [`Decoded`].
#[verifier::ext_equal]
pub enum DecodedV {
    Audio(Seq<i16>),
    Done,
    Ignore,
}

impl View for Decoded {
    type V = DecodedV;

    open spec fn view(&self) -> DecodedV {
        match self {
            Decoded::Audio(p) => DecodedV::Audio(p@),
            Decoded::Done => DecodedV::Done,
            Decoded::Ignore => DecodedV::Ignore,
        }
    }
}

/// The sample of a low and a high byte.
pub open spec fn sample(lo: u8, hi: u8) -> i16 {
    let n = lo + 256 * hi;
    if n >= 32768 {
        (n - 65536) as i16
    } else {
        n as i16
    }
}

/// The samples of little-endian bytes; a last odd byte is left out.
pub open spec fn samples(bytes: Seq<u8>) -> Seq<i16> {
    Seq::new(bytes.len() / 2, |i: int| sample(bytes[2 * i], bytes[2 * i + 1]))
}

/// The samples of little-endian bytes; a last odd byte is left out.
pub fn pcm_from_bytes(bytes: &Vec<u8>) -> (r: Vec<i16>)
    ensures
        r@ == samples(bytes@),
{
    let mut out: Vec<i16> = Vec::new();
    let n: usize = bytes.len() / 2;
    let mut i: usize = 0;
    while i < n
        invariant
            i <= n,
            n == bytes@.len() / 2,
            n <= bytes.len() / 2,
            out@.len() == i,
            forall|k: int| 0 <= k < i ==> out@[k] == sample(bytes@[2 * k], bytes@[2 * k + 1]),
        decreases n - i,
    {
        let v: i32 = (bytes[2 * i] as i32) + 256 * (bytes[2 * i + 1] as i32);
        let s: i16 = if v >= 32768 {
            (v - 65536) as i16
        } else {
            v as i16
        };
        out.push(s);
        i += 1;
    }
    assert(out@ =~= samples(bytes@));
    out
}

/// The samples of a base64 text; none where it is no such text.
pub open spec fn pcm_of(decoded: Option<Seq<u8>>) -> Seq<i16> {
    match decoded {
        Some(b) => samples(b),
        None => seq![],
    }
}

/// The samples of what a base64 text decodes to; none where it is no such text.
pub fn pcm_from_decoded(decoded: Option<Vec<u8>>) -> (r: Vec<i16>)
    ensures
        r@ == pcm_of(
            match decoded {
                Some(b) => Some(b@),
                None => None,
            },
        ),
{
    match decoded {
        Some(b) => pcm_from_bytes(&b),
        None => {
            let out: Vec<i16> = Vec::new();
            assert(out@ =~= seq![]);
            out
        },
    }
}

/// What a server message holds.
pub open spec fn decoded(v: JsonV) -> DecodedV {
    if v.bool_at("final"@) == Some(true) {
        DecodedV::Done
    } else {
        match v.str_at("audio"@) {
            Some(t) => DecodedV::Audio(pcm_of(base64_bytes(t))),
            None => DecodedV::Ignore,
        }
    }
}

/// What a server message holds: `final` ends the utterance, `audio` is PCM, and
/// anything else, like a binary frame, is ignored.
pub fn decode_message(json: Option<&Json>, _binary: Option<&[u8]>) -> (r: Decoded)
    ensures
        r@ == (match opt_tree(json) {
            Some(v) => decoded(v),
            None => DecodedV::Ignore,
        }),
{
    let value: &Json = match json {
        Some(v) => v,
        None => return Decoded::Ignore,
    };
    if let Some(done) = value.bool_at("final") {
        if done {
            return Decoded::Done;
        }
    }
    match value.str_at("audio") {
        Some(t) => Decoded::Audio(pcm_from_decoded(decode_base64(t))),
        None => Decoded::Ignore,
    }
}

// ── One utterance ─────────────────────────────────────────────────────────

/// What the utterance hands to the pipeline.
#[derive(Debug)]
pub enum TtsFrame {
    Started { context_id: String },
    Audio { pcm: Vec<i16>, sample_rate: u32, context_id: String },
    Stopped { context_id: String },
}

/// The view of a [`TtsFrame`].
#[verifier::ext_equal]
pub enum TtsFrameV {
    Started { context_id: Seq<char> },
    Audio { pcm: Seq<i16>, sample_rate: u32, context_id: Seq<char> },
    Stopped { context_id: Seq<char> },
}

impl View for TtsFrame {
    type V = TtsFrameV;

    open spec fn view(&self) -> TtsFrameV {
        match self {
            TtsFrame::Started { context_id } => TtsFrameV::Started { context_id: context_id@ },
            TtsFrame::Audio { pcm, sample_rate, context_id } => TtsFrameV::Audio {
                pcm: pcm@,
                sample_rate: *sample_rate,
                context_id: context_id@,
            },
            TtsFrame::Stopped { context_id } => TtsFrameV::Stopped { context_id: context_id@ },
        }
    }
}

/// The views of a sequence of frames.
pub open spec fn tts_frames(s: Seq<TtsFrame>) -> Seq<TtsFrameV> {
    Seq::new(s.len(), |i: int| s[i]@)
}

/// What can happen while the utterance waits.
#[derive(Debug)]
pub enum SocketEvent {
    /// The overall cap has passed.
    Deadline,
    /// Nothing came within the wait.
    Idle,
    /// The socket ended, was closed or failed.
    Closed,
    /// A text frame.
    Text(String),
    /// Any other frame.
    Other,
}

/// The view of a [`SocketEvent`], with what a text frame was decoded to.
#[verifier::ext_equal]
pub enum HappeningV {
    Deadline,
    Idle,
    Closed,
    Message(DecodedV),
    Other,
}

/// What a socket event amounts to. A text frame that is no JSON is passed over.
pub open spec fn happening(event: SocketEvent) -> HappeningV {
    match event {
        SocketEvent::Deadline => HappeningV::Deadline,
        SocketEvent::Idle => HappeningV::Idle,
        SocketEvent::Closed => HappeningV::Closed,
        SocketEvent::Text(t) => match json_of_text(t@) {
            Ok(v) => HappeningV::Message(decoded(v)),
            Err(_) => HappeningV::Other,
        },
        SocketEvent::Other => HappeningV::Other,
    }
}

/// What to do next.
#[derive(Debug, Clone, Copy, PartialEq, Eq, Structural)]
pub enum Next {
    /// Wait for the socket, for [`Utterance::wait_ms`] at most.
    Wait,
    /// Send the close message, and wait again.
    SendClose,
    /// The utterance is over.
    Finish,
}

/// The state of an utterance.
#[verifier::ext_equal]
pub struct UtteranceV {
    pub context_id: Seq<char>,
    pub sample_rate: u32,
    pub closed_sent: bool,
    /// The audio chunks so far; none of them is empty.
    pub audio: Seq<Seq<i16>>,
}

impl UtteranceV {
    /// A new utterance on a context.
    pub open spec fn start(context_id: Seq<char>, sample_rate: u32) -> UtteranceV {
        UtteranceV { context_id, sample_rate, closed_sent: false, audio: seq![] }
    }

    /// The audio so far, framed.
    pub open spec fn audio_frames(self) -> Seq<TtsFrameV> {
        Seq::new(
            self.audio.len(),
            |i: int|
                TtsFrameV::Audio {
                    pcm: self.audio[i],
                    sample_rate: self.sample_rate,
                    context_id: self.context_id,
                },
        )
    }

    /// What the pipeline gets in the end.
    pub open spec fn frames(self) -> Seq<TtsFrameV> {
        seq![TtsFrameV::Started { context_id: self.context_id }] + self.audio_frames() + seq![
            TtsFrameV::Stopped { context_id: self.context_id },
        ]
    }

    /// The state after something happened.
    pub open spec fn after(self, h: HappeningV) -> UtteranceV {
        match h {
            HappeningV::Idle => if self.audio.len() > 0 {
                UtteranceV { closed_sent: true, ..self }
            } else {
                self
            },
            HappeningV::Message(DecodedV::Audio(pcm)) => if pcm.len() > 0 {
                UtteranceV { audio: self.audio.push(pcm), ..self }
            } else {
                self
            },
            _ => self,
        }
    }

    /// What to do when something happened: the first quiet time after audio
    /// closes the context, and any other, like the end of the socket, the cap or
    /// the terminal message, ends the utterance.
    pub open spec fn next(self, h: HappeningV) -> Next {
        match h {
            HappeningV::Deadline | HappeningV::Closed => Next::Finish,
            HappeningV::Idle => if self.audio.len() > 0 && !self.closed_sent {
                Next::SendClose
            } else {
                Next::Finish
            },
            HappeningV::Message(DecodedV::Done) => Next::Finish,
            _ => Next::Wait,
        }
    }

    /// The state after a series of happenings.
    pub open spec fn after_all(self, hs: Seq<HappeningV>) -> UtteranceV
        decreases hs.len(),
    {
        if hs.len() == 0 {
            self
        } else {
            self.after_all(hs.drop_last()).after(hs.last())
        }
    }

    /// How often the close message was asked for in a series of happenings.
    pub open spec fn closes(self, hs: Seq<HappeningV>) -> nat
        decreases hs.len(),
    {
        if hs.len() == 0 {
            0
        } else {
            self.closes(hs.drop_last()) + if self.after_all(hs.drop_last()).next(hs.last())
                == Next::SendClose {
                1nat
            } else {
                0nat
            }
        }
    }
}

/// The decisions of one utterance.
#[derive(Debug)]
pub struct Utterance {
    context_id: String,
    sample_rate: u32,
    closed_sent: bool,
    audio: Vec<Vec<i16>>,
}

/// The views of a sequence of chunks.
spec fn chunks(s: Seq<Vec<i16>>) -> Seq<Seq<i16>> {
    Seq::new(s.len(), |i: int| s[i]@)
}

impl View for Utterance {
    type V = UtteranceV;

    closed spec fn view(&self) -> UtteranceV {
        UtteranceV {
            context_id: self.context_id@,
            sample_rate: self.sample_rate,
            closed_sent: self.closed_sent,
            audio: chunks(self.audio@),
        }
    }
}

impl Utterance {
    /// An utterance on the context that the server named.
    pub fn new(context_id: &str, sample_rate: u32) -> (r: Utterance)
        ensures
            r@ == UtteranceV::start(context_id@, sample_rate),
    {
        let audio: Vec<Vec<i16>> = Vec::new();
        assert(chunks(audio@) =~= seq![]);
        Utterance { context_id: String::from_str(context_id), sample_rate, closed_sent: false, audio }
    }

    /// How long to wait for the socket: long for the first chunk, and once audio
    /// flows only for the quiet time that means that it is done.
    pub fn wait_ms(&self) -> (r: u64)
        ensures
            r == (if self@.audio.len() > 0 {
                IDLE_DONE_MS
            } else {
                ACK_TIMEOUT_MS
            }),
    {
        if self.audio.len() > 0 {
            IDLE_DONE_MS
        } else {
            ACK_TIMEOUT_MS
        }
    }

    /// Takes in a decoded message.
    pub fn on_decoded(&mut self, message: Decoded) -> (r: Next)
        ensures
            final(self)@ == old(self)@.after(HappeningV::Message(message@)),
            r == old(self)@.next(HappeningV::Message(message@)),
    {
        match message {
            Decoded::Audio(pcm) => {
                if pcm.len() > 0 {
                    let ghost before = self.audio@;
                    self.audio.push(pcm);
                    assert(chunks(self.audio@) =~= chunks(before).push(pcm@));
                }
                Next::Wait
            },
            Decoded::Done => Next::Finish,
            Decoded::Ignore => Next::Wait,
        }
    }

    /// Takes in what happened on the socket.
    pub fn on_event(&mut self, event: &SocketEvent) -> (r: Next)
        ensures
            final(self)@ == old(self)@.after(happening(*event)),
            r == old(self)@.next(happening(*event)),
    {
        match event {
            SocketEvent::Deadline => Next::Finish,
            SocketEvent::Closed => Next::Finish,
            SocketEvent::Idle => {
                if self.audio.len() > 0 {
                    let first: bool = !self.closed_sent;
                    self.closed_sent = true;
                    if first {
                        Next::SendClose
                    } else {
                        Next::Finish
                    }
                } else {
                    Next::Finish
                }
            },
            SocketEvent::Text(t) => match Json::parse(t.as_str()) {
                Ok(v) => {
                    let message: Decoded = decode_message(Some(&v), None);
                    self.on_decoded(message)
                },
                Err(_) => Next::Wait,
            },
            SocketEvent::Other => Next::Wait,
        }
    }

    /// The message that [`Next::SendClose`] asks for.
    pub fn close_message(&self) -> (r: Json)
        ensures
            r@ == close_json(self@.context_id),
    {
        close_message(self.context_id.as_str())
    }

    /// What the pipeline gets: a start, the audio, and a stop.
    pub fn finish(self) -> (r: Vec<TtsFrame>)
        ensures
            tts_frames(r@) == self@.frames(),
    {
        let ghost u = self@;
        let Utterance { context_id, sample_rate, closed_sent: _, audio } = self;
        let mut out: Vec<TtsFrame> = Vec::new();
        out.push(TtsFrame::Started { context_id: context_id.clone() });
        let ghost head = seq![TtsFrameV::Started { context_id: u.context_id }];
        assert(tts_frames(out@) =~= head + u.audio_frames().take(0));
        for pcm in iter: audio
            invariant
                chunks(iter.seq()) == u.audio,
                sample_rate == u.sample_rate,
                context_id@ == u.context_id,
                tts_frames(out@) == head + u.audio_frames().take(iter.index()),
        {
            let ghost k = iter.index();
            let ghost before = out@;
            assert(u.audio[k] == pcm@);
            out.push(TtsFrame::Audio { pcm, sample_rate, context_id: context_id.clone() });
            proof {
                assert(tts_frames(out@) =~= tts_frames(before).push(u.audio_frames()[k]));
                assert(u.audio_frames().take(k + 1) =~= u.audio_frames().take(k).push(
                    u.audio_frames()[k],
                ));
                assert(tts_frames(out@) =~= head + u.audio_frames().take(k + 1));
            }
        }
        assert(u.audio_frames().take(u.audio.len() as int) =~= u.audio_frames());
        let ghost before = out@;
        out.push(TtsFrame::Stopped { context_id });
        assert(tts_frames(out@) =~= tts_frames(before).push(
            TtsFrameV::Stopped { context_id: u.context_id },
        ));
        assert(tts_frames(out@) =~= u.frames());
        out
    }
}

/// An utterance begins with the frame that acknowledges a context: the transcript
/// to send and the utterance are both on that context. Any other frame is passed
/// over.
pub fn begin_utterance(frame: &str, text: &str, sample_rate: u32) -> (r: Option<
    (Json, Utterance),
>)
    ensures
        match r {
            Some((message, utterance)) => {
                &&& acked_by(frame@) is Some
                &&& message@ == speak_json(text@, acked_by(frame@)->Some_0)
                &&& utterance@ == UtteranceV::start(acked_by(frame@)->Some_0, sample_rate)
            },
            None => acked_by(frame@) is None,
        },
{
    match read_init_ack(frame) {
        Some(context_id) => Some(
            (
                speak_message(text, context_id.as_str()),
                Utterance::new(context_id.as_str(), sample_rate),
            ),
        ),
        None => None,
    }
}

// ── Laws ──────────────────────────────────────────────────────────────────

/// Whatever happens, the context is closed at most once, and only after audio
/// came; the context and the rate stay, and no chunk is empty.
pub proof fn context_is_closed_at_most_once(
    context_id: Seq<char>,
    sample_rate: u32,
    hs: Seq<HappeningV>,
)
    ensures
        ({
            let start = UtteranceV::start(context_id, sample_rate);
            let u = start.after_all(hs);
            &&& start.closes(hs) == if u.closed_sent {
                1nat
            } else {
                0nat
            }
            &&& u.closed_sent ==> u.audio.len() > 0
            &&& u.context_id == context_id
            &&& u.sample_rate == sample_rate
            &&& forall|i: int| 0 <= i < u.audio.len() ==> (#[trigger] u.audio[i]).len() > 0
        }),
    decreases hs.len(),
{
    if hs.len() > 0 {
        context_is_closed_at_most_once(context_id, sample_rate, hs.drop_last());
    }
}

/// Everything that is sent for an utterance goes on the context that the server
/// named: the transcript and, whatever happens in between, the close message.
pub proof fn utterance_stays_on_its_context(
    text: Seq<char>,
    context_id: Seq<char>,
    sample_rate: u32,
    hs: Seq<HappeningV>,
)
    ensures
        speak_json(text, context_id).str_at("context_id"@) == Some(context_id),
        speak_json(text, context_id).str_at("transcript"@) == Some(text),
        close_json(
            UtteranceV::start(context_id, sample_rate).after_all(hs).context_id,
        ).str_at("context_id"@) == Some(context_id),
{
    reveal_strlit("context_id");
    reveal_strlit("transcript");
    reveal_strlit("force");
    reveal_strlit("close_context");
    assert("context_id"@[0] != "transcript"@[0]);
    assert("context_id"@.len() != "force"@.len());
    assert("transcript"@.len() != "force"@.len());
    assert("context_id"@.len() != "close_context"@.len());
    context_is_closed_at_most_once(context_id, sample_rate, hs);
}

/// Asking to close the context means that audio came and that it was not closed
/// before.
pub proof fn close_waits_for_audio(u: UtteranceV, h: HappeningV)
    requires
        u.next(h) == Next::SendClose,
    ensures
        h is Idle,
        u.audio.len() > 0,
        !u.closed_sent,
        u.after(h).closed_sent,
{
}

/// The pipeline gets a start, then audio only, then a stop, all on one context.
pub proof fn frames_are_bracketed(u: UtteranceV)
    ensures
        u.frames().len() == u.audio.len() + 2,
        u.frames().first() == (TtsFrameV::Started { context_id: u.context_id }),
        u.frames().last() == (TtsFrameV::Stopped { context_id: u.context_id }),
        forall|i: int|
            0 <= i < u.audio.len() ==> #[trigger] u.frames()[i + 1] == (TtsFrameV::Audio {
                pcm: u.audio[i],
                sample_rate: u.sample_rate,
                context_id: u.context_id,
            }),
{
}

/// Each sample comes from its two bytes: low byte first, two's complement.
pub proof fn samples_are_little_endian(lo: u8, hi: u8)
    ensures
        sample(lo, hi) >= 0 ==> sample(lo, hi) == lo + 256 * hi,
        sample(lo, hi) < 0 ==> sample(lo, hi) + 65536 == lo + 256 * hi,
{
}

} // verus!
