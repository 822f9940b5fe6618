//! Laws of what goes over the wire: the carrier, the voice service, the browser.

use crate::asyncai::{
    acked_by, acked_context, close_json, decoded, happening, init_json, pcm_of, samples,
    speak_json, DecodedV, HappeningV, Next, SocketEvent, UtteranceV, ACK_TIMEOUT_MS,
    ASYNCAI_VERSION, ASYNCAI_WSS_BASE, IDLE_DONE_MS, MAX_WAIT_MS,
};
use crate::events::{after_take, frame_json, frame_payload, frame_type, message_frame, taken};
use crate::json::{json_of_text, Json, JsonV, NumberV};
use crate::payload::{base64_bytes, base64_text};
use crate::plivo::{
    answer_xml, audio_of, clear_frame, escaped, event_meaning, media_url, message_meaning,
    play_frame, stream_after, stream_after_message, ws_base, SerInV, WsInV,
};
use crate::socket::{reception, CarrierFrame, ReceivedV};
use crate::text::{contains, decimal_int, find, replaced, trim_end_char};
use vstd::prelude::*;

verus! {

// ── From the carrier ──────────────────────────────────────────────────────

/// The start event opens the stream under the ids that it names; the call goes by its
/// own id, or without one by the stream's, or by none.
pub proof fn start_event_names_the_stream(
    v: JsonV,
    start: JsonV,
    rate: u32,
    before: Option<Seq<char>>,
)
    requires
        v.get("event"@) == Some(JsonV::Str("start"@)),
        v.get("start"@) == Some(start) || v.get("start"@) is None && start is Null,
    ensures
        event_meaning(v, rate) matches SerInV::StreamStart { call_id, stream_id } && {
            &&& stream_id == start.str_at("streamId"@)
            &&& stream_after(v, before) == stream_id
            &&& if start.str_at("callId"@) is Some {
                Some(call_id) == start.str_at("callId"@)
            } else if stream_id is Some {
                Some(call_id) == stream_id
            } else {
                call_id.len() == 0
            }
        },
{
}

/// A media event gives the bytes of its payload at the carrier's rate; one without a
/// payload, or with one that cannot be decoded, gives nothing. The stream stays.
pub proof fn media_event_gives_its_payload(
    v: JsonV,
    media: JsonV,
    p: Seq<char>,
    rate: u32,
    before: Option<Seq<char>>,
)
    requires
        v.get("event"@) == Some(JsonV::Str("media"@)),
    ensures
        v.get("media"@) == Some(media) && media.get("payload"@) == Some(
            JsonV::Str(p),
        ) ==> match base64_bytes(p) {
            Some(bytes) => event_meaning(v, rate) == (SerInV::Audio {
                ulaw: bytes,
                sample_rate: rate,
            }),
            None => event_meaning(v, rate) is Ignore,
        },
        v.get("media"@) is None ==> event_meaning(v, rate) is Ignore,
        v.get("media"@) == Some(media) && media.str_at("payload"@) is None ==> event_meaning(
            v,
            rate,
        ) is Ignore,
        stream_after(v, before) == before,
{
    reveal_strlit("start");
    reveal_strlit("media");
    assert("start"@[0] != "media"@[0]);
}

/// The stop event ends the stream, and any other event means nothing; neither changes
/// the stream.
pub proof fn other_events_stop_or_mean_nothing(v: JsonV, rate: u32, before: Option<Seq<char>>)
    requires
        v.str_at("event"@) != Some("start"@),
        v.str_at("event"@) != Some("media"@),
    ensures
        event_meaning(v, rate) is Stop <==> v.str_at("event"@) == Some("stop"@),
        event_meaning(v, rate) is Ignore <==> v.str_at("event"@) != Some("stop"@),
        stream_after(v, before) == before,
{
    reveal_strlit("start");
    reveal_strlit("media");
    reveal_strlit("stop");
    assert("stop"@.len() != "start"@.len());
    assert("stop"@.len() != "media"@.len());
}

/// A text message means what its event means, and nothing where it cannot be read; a
/// binary message means nothing, and closing ends the stream.
pub proof fn messages_mean_their_events(
    t: Seq<char>,
    b: Seq<u8>,
    rate: u32,
    before: Option<Seq<char>>,
)
    ensures
        json_of_text(t) matches Ok(v) ==> message_meaning(WsInV::Text(t), rate) == event_meaning(
            v,
            rate,
        ) && stream_after_message(WsInV::Text(t), before) == stream_after(v, before),
        json_of_text(t) is Err ==> message_meaning(WsInV::Text(t), rate) is Ignore
            && stream_after_message(WsInV::Text(t), before) == before,
        message_meaning(WsInV::Binary(b), rate) is Ignore,
        stream_after_message(WsInV::Binary(b), before) == before,
        message_meaning(WsInV::Close, rate) is Stop,
        stream_after_message(WsInV::Close, before) == before,
{
}

/// Decoded audio is given at the carrier's rate, and what was not decoded is nothing.
pub proof fn decoded_audio_is_given(ulaw: Seq<u8>, rate: u32)
    ensures
        audio_of(Some(ulaw), rate) == (SerInV::Audio { ulaw, sample_rate: rate }),
        audio_of(None, rate) is Ignore,
{
}

/// Text, binary and close frames are handed on as they are, a failed socket as a
/// close; keepalives are read over, and the end is the end.
pub proof fn frames_are_handed_on(frame: CarrierFrame)
    ensures
        match frame {
            CarrierFrame::Text(t) => reception(frame) == ReceivedV::Deliver(WsInV::Text(t@)),
            CarrierFrame::Binary(b) => reception(frame) == ReceivedV::Deliver(WsInV::Binary(b@)),
            CarrierFrame::Close => reception(frame) == ReceivedV::Deliver(WsInV::Close),
            CarrierFrame::Failed => reception(frame) == ReceivedV::Deliver(WsInV::Close),
            CarrierFrame::Keepalive => reception(frame) is Again,
            CarrierFrame::End => reception(frame) is Over,
        },
{
}

/// Three bytes are four characters, and so is what is left over.
pub proof fn three_bytes_are_four_characters(k: nat)
    ensures
        crate::payload::encoded_len(3 * k) == 4 * k,
        crate::payload::encoded_len(3 * k + 1) == 4 * k + 4,
        crate::payload::encoded_len(3 * k + 2) == 4 * k + 4,
{
}

// ── To the carrier ────────────────────────────────────────────────────────

/// A frame to play holds the audio, its rate and its encoding, and the stream that
/// the carrier named, where it named one; it holds nothing else.
pub proof fn play_frame_holds_the_audio(rate: u32, stream: Option<Seq<char>>, ulaw: Seq<u8>)
    ensures
        play_frame(rate, stream, ulaw) matches JsonV::Object(m) && {
            &&& m.dom() == if stream is Some {
                set!["event"@, "media"@, "streamId"@]
            } else {
                set!["event"@, "media"@]
            }
            &&& m["event"@] == JsonV::Str("playAudio"@)
            &&& stream matches Some(s) ==> m["streamId"@] == JsonV::Str(s)
            &&& m["media"@] matches JsonV::Object(p) && {
                &&& p.dom() == set!["contentType"@, "sampleRate"@, "payload"@]
                &&& p["contentType"@] == JsonV::Str("audio/x-mulaw"@)
                &&& p["sampleRate"@] == JsonV::Number(NumberV::PosInt(rate as u64))
                &&& p["payload"@] == JsonV::Str(base64_text(ulaw))
            }
        },
{
    reveal_strlit("event");
    reveal_strlit("media");
    reveal_strlit("streamId");
    reveal_strlit("contentType");
    reveal_strlit("sampleRate");
    reveal_strlit("payload");
    assert("event"@[0] != "media"@[0]);
    assert("streamId"@.len() == 8 && "event"@.len() == 5 && "media"@.len() == 5);
    assert("contentType"@.len() == 11 && "sampleRate"@.len() == 10 && "payload"@.len() == 7);
    let m = play_frame(rate, stream, ulaw)->Object_0;
    if stream is Some {
        assert(m.dom() =~= set!["event"@, "media"@, "streamId"@]);
    } else {
        assert(m.dom() =~= set!["event"@, "media"@]);
    }
    assert(m["media"@]->Object_0.dom() =~= set!["contentType"@, "sampleRate"@, "payload"@]);
}

/// A frame that clears what is playing holds that word and the stream, where the
/// carrier named one, and nothing else.
pub proof fn clear_frame_holds_the_stream(stream: Option<Seq<char>>)
    ensures
        clear_frame(stream) matches JsonV::Object(m) && {
            &&& m.dom() == if stream is Some {
                set!["event"@, "streamId"@]
            } else {
                set!["event"@]
            }
            &&& m["event"@] == JsonV::Str("clearAudio"@)
            &&& stream matches Some(s) ==> m["streamId"@] == JsonV::Str(s)
        },
{
    reveal_strlit("event");
    reveal_strlit("streamId");
    assert("streamId"@.len() == 8 && "event"@.len() == 5);
    let m = clear_frame(stream)->Object_0;
    if stream is Some {
        assert(m.dom() =~= set!["event"@, "streamId"@]);
    } else {
        assert(m.dom() =~= set!["event"@]);
    }
}

// ── The answer document ───────────────────────────────────────────────────

/// Text is escaped character by character.
pub proof fn markup_is_escaped(s: Seq<char>, c: char)
    ensures
        escaped(Seq::<char>::empty()).len() == 0,
        escaped(s.push('&')) == escaped(s) + "&amp;"@,
        escaped(s.push('<')) == escaped(s) + "&lt;"@,
        escaped(s.push('>')) == escaped(s) + "&gt;"@,
        c != '&' && c != '<' && c != '>' ==> escaped(s.push(c)) == escaped(s).push(c),
{
    assert(s.push('&').drop_last() =~= s);
    assert(s.push('<').drop_last() =~= s);
    assert(s.push('>').drop_last() =~= s);
    assert(s.push(c).drop_last() =~= s);
    if c != '&' && c != '<' && c != '>' {
        assert(escaped(s) + seq![c] =~= escaped(s).push(c));
    }
}

/// A web address is turned into that of the socket on the same host, secure for
/// secure; its trailing slashes go.
pub proof fn media_address_is_on_the_public_host(
    run_id: i64,
    token: Seq<char>,
    host: Seq<char>,
)
    requires
        !contains(host, "https://"@),
        !contains(host, "http://"@),
        host.len() > 0,
        host.last() != '/',
    ensures
        media_url(run_id, token, "https://"@ + host) == "wss://"@ + host + "/telephony/ws/plivo/"@
            + decimal_int(run_id as int) + "?token="@ + token,
        media_url(run_id, token, "http://"@ + host) == "ws://"@ + host + "/telephony/ws/plivo/"@
            + decimal_int(run_id as int) + "?token="@ + token,
        media_url(run_id, token, ("https://"@ + host).push('/')) == media_url(
            run_id,
            token,
            "https://"@ + host,
        ),
{
    crate::plivo::schemes_are_mapped(host);
    let a = "https://"@ + host;
    let b = "http://"@ + host;
    assert(a.last() == host.last());
    assert(b.last() == host.last());
    assert(trim_end_char(a, '/') == a);
    assert(trim_end_char(b, '/') == b);
    assert(a.push('/').drop_last() =~= a);
    assert(trim_end_char(a.push('/'), '/') == trim_end_char(a, '/'));
}

/// Both schemes are replaced wherever they stand, the secure one first.
pub proof fn socket_scheme_replaces_the_web_scheme(s: Seq<char>)
    ensures
        ws_base(s) == replaced(replaced(s, "https://"@, "wss://"@), "http://"@, "ws://"@),
        find(s, "https://"@) is None && find(s, "http://"@) is None ==> ws_base(s) == s,
{
    reveal_strlit("https://");
    reveal_strlit("http://");
    crate::laws::text::matches_are_replaced_in_turn(s, "https://"@, "wss://"@);
    crate::laws::text::matches_are_replaced_in_turn(s, "http://"@, "ws://"@);
}

/// The answer opens a stream in both directions to the call's media address, keeps
/// the call alive for it, and then hangs up.
pub proof fn answer_streams_to_the_media_address(run_id: i64, token: Seq<char>, base: Seq<char>)
    ensures
        answer_xml(run_id, token, base)
            == "<?xml version=\"1.0\" encoding=\"UTF-8\"?><Response><Stream contentType=\"audio/x-mulaw;rate=8000\" bidirectional=\"true\" keepCallAlive=\"true\">"@
            + escaped(media_url(run_id, token, base)) + "</Stream><Hangup/></Response>"@,
        media_url(run_id, token, base) == ws_base(trim_end_char(base, '/'))
            + "/telephony/ws/plivo/"@ + decimal_int(run_id as int) + "?token="@ + token,
{
}

// ── The voice service ─────────────────────────────────────────────────────

/// A session opens with the model, the voice and the format of the audio, and with no
/// language.
pub proof fn opening_names_model_voice_and_format(
    model: Seq<char>,
    voice_id: Seq<char>,
    rate: u32,
)
    ensures
        init_json(model, voice_id, rate) matches JsonV::Object(m) && {
            &&& m.dom() == set!["model_id"@, "voice"@, "output_format"@, "language"@]
            &&& m["model_id"@] == JsonV::Str(model)
            &&& m["language"@] is Null
            &&& m["voice"@] matches JsonV::Object(v) && {
                &&& v.dom() == set!["mode"@, "id"@]
                &&& v["mode"@] == JsonV::Str("id"@)
                &&& v["id"@] == JsonV::Str(voice_id)
            }
            &&& m["output_format"@] matches JsonV::Object(f) && {
                &&& f.dom() == set!["container"@, "encoding"@, "sample_rate"@]
                &&& f["container"@] == JsonV::Str("raw"@)
                &&& f["encoding"@] == JsonV::Str("pcm_s16le"@)
                &&& f["sample_rate"@] == JsonV::Number(NumberV::PosInt(rate as u64))
            }
        },
{
    reveal_strlit("model_id");
    reveal_strlit("voice");
    reveal_strlit("output_format");
    reveal_strlit("language");
    reveal_strlit("mode");
    reveal_strlit("id");
    reveal_strlit("container");
    reveal_strlit("encoding");
    reveal_strlit("sample_rate");
    assert("model_id"@.len() == 8 && "language"@.len() == 8 && "voice"@.len() == 5
        && "output_format"@.len() == 13);
    assert("model_id"@[0] != "language"@[0]);
    assert("mode"@.len() != "id"@.len());
    assert("container"@.len() == 9 && "encoding"@.len() == 8 && "sample_rate"@.len() == 11);
    let m = init_json(model, voice_id, rate)->Object_0;
    assert(m.dom() =~= set!["model_id"@, "voice"@, "output_format"@, "language"@]);
    assert(m["voice"@]->Object_0.dom() =~= set!["mode"@, "id"@]);
    assert(m["output_format"@]->Object_0.dom() =~= set!["container"@, "encoding"@, "sample_rate"@]);
}

/// A text is spoken at once, on its context.
pub proof fn speaking_names_text_and_context(text: Seq<char>, context_id: Seq<char>)
    ensures
        speak_json(text, context_id) matches JsonV::Object(m) && {
            &&& m.dom() == set!["transcript"@, "context_id"@, "force"@]
            &&& m["transcript"@] == JsonV::Str(text)
            &&& m["context_id"@] == JsonV::Str(context_id)
            &&& m["force"@] == JsonV::Bool(true)
        },
{
    reveal_strlit("transcript");
    reveal_strlit("context_id");
    reveal_strlit("force");
    assert("force"@.len() == 5 && "transcript"@.len() == 10 && "context_id"@.len() == 10);
    assert("transcript"@[0] != "context_id"@[0]);
    let m = speak_json(text, context_id)->Object_0;
    assert(m.dom() =~= set!["transcript"@, "context_id"@, "force"@]);
}

/// A context is closed by an empty text.
pub proof fn closing_names_the_context(context_id: Seq<char>)
    ensures
        close_json(context_id) matches JsonV::Object(m) && {
            &&& m.dom() == set!["transcript"@, "context_id"@, "close_context"@]
            &&& m["transcript"@] == JsonV::Str(""@)
            &&& m["context_id"@] == JsonV::Str(context_id)
            &&& m["close_context"@] == JsonV::Bool(true)
        },
{
    reveal_strlit("transcript");
    reveal_strlit("context_id");
    reveal_strlit("close_context");
    assert("close_context"@.len() == 13 && "transcript"@.len() == 10 && "context_id"@.len() == 10);
    assert("transcript"@[0] != "context_id"@[0]);
    let m = close_json(context_id)->Object_0;
    assert(m.dom() =~= set!["transcript"@, "context_id"@, "close_context"@]);
}

/// Only an acknowledgement with a context is one, and it gives that context.
pub proof fn acknowledgement_gives_the_context(v: JsonV, frame: Seq<char>, c: Seq<char>)
    ensures
        acked_context(v) == Some(c) <==> v.get("event"@) == Some(JsonV::Str("init_ack"@)) && v.get(
            "context_id"@,
        ) == Some(JsonV::Str(c)),
        json_of_text(frame) matches Ok(j) ==> acked_by(frame) == acked_context(j),
        json_of_text(frame) is Err ==> acked_by(frame) is None,
{
}

/// A message that says it is final ends the utterance, whatever else it holds; another
/// gives the audio that it holds, and without any it is passed over.
pub proof fn final_message_ends_the_utterance(v: JsonV, t: Seq<char>)
    ensures
        decoded(v) is Done <==> v.get("final"@) == Some(JsonV::Bool(true)),
        v.get("final"@) != Some(JsonV::Bool(true)) && v.get("audio"@) == Some(JsonV::Str(t)) ==> {
            &&& base64_bytes(t) matches Some(b) ==> decoded(v) == DecodedV::Audio(samples(b))
            &&& base64_bytes(t) is None ==> (decoded(v) matches DecodedV::Audio(p) && p.len() == 0)
        },
        v.get("final"@) != Some(JsonV::Bool(true)) && (v.get("audio"@) matches Some(x) ==> !(
        x is Str)) ==> decoded(v) is Ignore,
{
}

/// Each two bytes are one sample, the low byte first and in two's complement; an odd
/// byte at the end is dropped.
pub proof fn two_bytes_are_a_sample(bytes: Seq<u8>, i: int)
    ensures
        samples(bytes).len() == bytes.len() / 2,
        0 <= i < bytes.len() / 2 ==> {
            let n = bytes[2 * i] + 256 * bytes[2 * i + 1];
            samples(bytes)[i] == if n < 32768 {
                n
            } else {
                n - 65536
            }
        },
        pcm_of(Some(bytes)) == samples(bytes),
        pcm_of(None).len() == 0,
{
}

/// What comes from the socket means what it says; a text that cannot be read means
/// nothing.
pub proof fn socket_events_mean_what_they_say(event: SocketEvent)
    ensures
        match event {
            SocketEvent::Deadline => happening(event) is Deadline,
            SocketEvent::Idle => happening(event) is Idle,
            SocketEvent::Closed => happening(event) is Closed,
            SocketEvent::Other => happening(event) is Other,
            SocketEvent::Text(t) => match json_of_text(t@) {
                Ok(v) => happening(event) == HappeningV::Message(decoded(v)),
                Err(_) => happening(event) is Other,
            },
        },
{
}

/// The utterance is over at the deadline, when the socket closes, at the final
/// message, and when nothing comes while there is no audio or after the context was
/// closed. When nothing comes after audio, the context is closed first. Otherwise
/// there is more to wait for.
pub proof fn utterance_ends_when_nothing_more_comes(u: UtteranceV, h: HappeningV)
    ensures
        u.next(h) == Next::Finish <==> {
            ||| h is Deadline
            ||| h is Closed
            ||| h == HappeningV::Message(DecodedV::Done)
            ||| h is Idle && (u.audio.len() == 0 || u.closed_sent)
        },
        u.next(h) == Next::SendClose <==> h is Idle && u.audio.len() > 0 && !u.closed_sent,
{
}

/// Audio is kept in the order in which it comes, unless there is none in it; nothing
/// else changes the audio.
pub proof fn audio_is_kept_in_order(u: UtteranceV, h: HappeningV)
    ensures
        ({
            let after = u.after(h);
            &&& after.context_id == u.context_id
            &&& after.sample_rate == u.sample_rate
            &&& match h {
                HappeningV::Message(DecodedV::Audio(pcm)) => if pcm.len() > 0 {
                    after.audio == u.audio.push(pcm) && after.closed_sent == u.closed_sent
                } else {
                    after == u
                },
                HappeningV::Idle => after.audio == u.audio && after.closed_sent == (u.closed_sent
                    || u.audio.len() > 0),
                _ => after == u,
            }
        }),
{
}

/// An utterance starts on its context with no audio, and nothing closed.
pub proof fn utterance_starts_empty(context_id: Seq<char>, rate: u32)
    ensures
        UtteranceV::start(context_id, rate).context_id == context_id,
        UtteranceV::start(context_id, rate).sample_rate == rate,
        UtteranceV::start(context_id, rate).audio.len() == 0,
        !UtteranceV::start(context_id, rate).closed_sent,
{
}

/// The waits in milliseconds, and where the service is.
pub proof fn waits_and_address()
    ensures
        IDLE_DONE_MS == 1500,
        ACK_TIMEOUT_MS == 10_000,
        MAX_WAIT_MS == 30_000,
        ASYNCAI_WSS_BASE@ == "wss://api.async.com/text_to_speech/websocket/ws"@,
        ASYNCAI_VERSION@ == "v1"@,
        crate::kitten::KITTEN_DEFAULT_BASE@ == "http://localhost:8880/v1"@,
{
}

// ── To the browser ────────────────────────────────────────────────────────

/// Each kind of message that the browser is shown has its frame; the others have
/// none.
pub proof fn messages_have_their_frames(kind: Seq<char>)
    ensures
        kind == "user-transcription"@ ==> frame_type(kind) == Some("rtf-user-transcription"@),
        kind == "bot-transcription"@ ==> frame_type(kind) == Some("rtf-bot-text"@),
        kind == "bot-started-speaking"@ ==> frame_type(kind) == Some("rtf-bot-started-speaking"@),
        kind == "bot-stopped-speaking"@ ==> frame_type(kind) == Some("rtf-bot-stopped-speaking"@),
        kind == "user-mute-started"@ ==> frame_type(kind) == Some("rtf-user-mute-started"@),
        kind == "user-mute-stopped"@ ==> frame_type(kind) == Some("rtf-user-mute-stopped"@),
        kind == "llm-function-call-started"@ ==> frame_type(kind) == Some(
            "rtf-function-call-start"@,
        ),
        kind == "llm-function-call-in-progress"@ ==> frame_type(kind) == Some(
            "rtf-function-call-start"@,
        ),
        kind == "llm-function-call-stopped"@ ==> frame_type(kind) == Some("rtf-function-call-end"@),
        frame_type(kind) is Some ==> {
            ||| kind == "user-transcription"@
            ||| kind == "bot-transcription"@
            ||| kind == "bot-started-speaking"@
            ||| kind == "bot-stopped-speaking"@
            ||| kind == "user-mute-started"@
            ||| kind == "user-mute-stopped"@
            ||| kind == "llm-function-call-started"@
            ||| kind == "llm-function-call-in-progress"@
            ||| kind == "llm-function-call-stopped"@
        },
{
    reveal_strlit("user-transcription");
    reveal_strlit("bot-transcription");
    reveal_strlit("bot-started-speaking");
    reveal_strlit("bot-stopped-speaking");
    reveal_strlit("user-mute-started");
    reveal_strlit("user-mute-stopped");
    reveal_strlit("llm-function-call-started");
    reveal_strlit("llm-function-call-in-progress");
    reveal_strlit("llm-function-call-stopped");
    assert("user-transcription"@.len() == 18 && "bot-transcription"@.len() == 17);
    assert("bot-started-speaking"@.len() == 20 && "bot-stopped-speaking"@.len() == 20);
    assert("user-mute-started"@.len() == 17 && "user-mute-stopped"@.len() == 17);
    assert("llm-function-call-started"@.len() == 25 && "llm-function-call-stopped"@.len() == 25);
    assert("llm-function-call-in-progress"@.len() == 29);
    assert("bot-started-speaking"@[6] != "bot-stopped-speaking"@[6]);
    assert("user-mute-started"@[12] != "user-mute-stopped"@[12]);
    assert("bot-transcription"@[0] != "user-mute-started"@[0]);
    assert("bot-transcription"@[0] != "user-mute-stopped"@[0]);
    assert("llm-function-call-started"@[20] != "llm-function-call-stopped"@[20]);
}

/// A frame holds its type and its payload, which is what the message holds, or an
/// empty object where it holds nothing.
pub proof fn frame_holds_type_and_payload(
    kind: Seq<char>,
    data: Option<Json>,
    payload: JsonV,
)
    ensures
        frame_json(kind, payload) matches JsonV::Object(m) && {
            &&& m.dom() == set!["type"@, "payload"@]
            &&& m["type"@] == JsonV::Str(kind)
            &&& m["payload"@] == payload
        },
        data matches Some(d) ==> frame_payload(data) == d@,
        data is None ==> (frame_payload(data) matches JsonV::Object(m) && m.dom().is_empty()),
        frame_type(kind) matches Some(t) ==> message_frame(kind, data) == frame_json(
            t,
            frame_payload(data),
        ),
{
    reveal_strlit("type");
    reveal_strlit("payload");
    assert("type"@.len() != "payload"@.len());
    let m = frame_json(kind, payload)->Object_0;
    assert(m.dom() =~= set!["type"@, "payload"@]);
}

/// A receiver can be taken once, by the id it was registered under.
pub proof fn receiver_is_taken_once<R>(
    calls: Map<Seq<char>, Option<R>>,
    id: Seq<char>,
    other: Seq<char>,
)
    ensures
        calls.contains_key(id) ==> taken(calls, id) == calls[id],
        !calls.contains_key(id) ==> taken(calls, id) is None && after_take(calls, id) == calls,
        calls.contains_key(id) ==> after_take(calls, id).contains_key(id) && after_take(
            calls,
            id,
        )[id] is None,
        after_take(calls, id).dom() == calls.dom(),
        other != id && calls.contains_key(other) ==> after_take(calls, id)[other] == calls[other],
{
    assert(after_take(calls, id).dom() =~= calls.dom());
}

} // verus!
