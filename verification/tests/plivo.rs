use flowcat::json::Json;
use flowcat::plivo::{plivo_answer_xml, ws_scheme, xml_escape, PlivoSerializer, SerIn, WsIn, WsOut};

fn b64(bytes: &[u8]) -> String {
    base64::Engine::encode(&base64::engine::general_purpose::STANDARD, bytes)
}

fn text_of(out: WsOut) -> String {
    match out {
        WsOut::Text(t) => t,
        other => panic!("expected Text, got {other:?}"),
    }
}

#[test]
fn start_event_parses_to_stream_start_with_ids() {
    let mut s = PlivoSerializer::new(8000);
    let frame = WsIn::Text(
        r#"{
            "event": "start",
            "start": {
                "streamId": "strm-123",
                "callId": "call-abc",
                "mediaFormat": {"encoding": "audio/x-mulaw", "sampleRate": 8000}
            }
        }"#
        .to_string(),
    );
    match s.on_message(&frame) {
        SerIn::StreamStart { call_id, stream_id } => {
            assert_eq!(call_id, "call-abc");
            assert_eq!(stream_id.as_deref(), Some("strm-123"));
        }
        other => panic!("expected StreamStart, got {other:?}"),
    }
    assert_eq!(s.stream_id(), Some("strm-123"));
}

#[test]
fn media_event_base64_ulaw_decodes_to_pcm() {
    // The audio is handed on as μ-law; there is one PCM sample to a byte.
    let mut s = PlivoSerializer::new(8000);
    let ulaw_in = vec![0xFFu8, 0x00, 0x80, 0x7F];
    let frame = WsIn::Text(format!(
        r#"{{"event": "media", "media": {{"payload": "{}"}}}}"#,
        b64(&ulaw_in)
    ));
    match s.on_message(&frame) {
        SerIn::Audio { ulaw, sample_rate } => {
            assert_eq!(sample_rate, 8000);
            assert_eq!(ulaw.len(), ulaw_in.len());
            assert_eq!(ulaw, ulaw_in);
        }
        other => panic!("expected Audio, got {other:?}"),
    }
}

#[test]
fn stop_event_and_close_map_to_stop() {
    let mut s = PlivoSerializer::new(8000);
    assert!(matches!(
        s.on_message(&WsIn::Text(r#"{"event": "stop"}"#.to_string())),
        SerIn::Stop
    ));
    assert!(matches!(s.on_message(&WsIn::Close), SerIn::Stop));
}

#[test]
fn unknown_and_malformed_frames_are_ignored() {
    let mut s = PlivoSerializer::new(8000);
    assert!(matches!(
        s.on_message(&WsIn::Text(r#"{"event": "dtmf"}"#.to_string())),
        SerIn::Ignore
    ));
    assert!(matches!(
        s.on_message(&WsIn::Text("not json".to_string())),
        SerIn::Ignore
    ));
    assert!(matches!(
        s.on_message(&WsIn::Binary(vec![1, 2, 3])),
        SerIn::Ignore
    ));
    assert!(matches!(
        s.on_message(&WsIn::Text(
            r#"{"event": "media", "media": {"payload": "!!!not-b64!!!"}}"#.to_string()
        )),
        SerIn::Ignore
    ));
}

#[test]
fn encode_audio_has_plivo_keys_and_round_trippable_payload() {
    let mut s = PlivoSerializer::new(8000);
    s.on_message(&WsIn::Text(
        r#"{"event": "start", "start": {"streamId": "S1", "callId": "C1"}}"#.to_string(),
    ));
    let ulaw_out = vec![0xFFu8, 0xF2, 0x72, 0x80, 0x00];
    let text = text_of(s.encode_audio(&ulaw_out));
    let v = Json::parse(&text).unwrap();
    assert_eq!(v.str_at("event"), Some("playAudio"));
    let media = v.get("media").unwrap();
    assert_eq!(media.str_at("contentType"), Some("audio/x-mulaw"));
    assert_eq!(media.get("sampleRate").unwrap().text(), "8000");
    assert_eq!(v.str_at("streamId"), Some("S1"));

    let payload = media.str_at("payload").unwrap();
    let ulaw = base64::Engine::decode(&base64::engine::general_purpose::STANDARD, payload).unwrap();
    assert_eq!(ulaw, ulaw_out);
}

#[test]
fn encode_clear_is_plivo_clear_audio() {
    let mut s = PlivoSerializer::new(8000);
    s.on_message(&WsIn::Text(
        r#"{"event": "start", "start": {"streamId": "S9"}}"#.to_string(),
    ));
    let out = s.encode_clear().expect("plivo supports clearAudio");
    let v = Json::parse(&text_of(out)).unwrap();
    assert_eq!(v.str_at("event"), Some("clearAudio"));
    assert_eq!(v.str_at("streamId"), Some("S9"));
}

#[test]
fn carrier_rate_reflects_construction() {
    assert_eq!(PlivoSerializer::new(8000).carrier_rate(), 8000);
}

#[test]
fn a_call_without_id_goes_by_its_stream() {
    let mut s = PlivoSerializer::new(8000);
    match s.on_message(&WsIn::Text(r#"{"event":"start","start":{"streamId":"S"}}"#.to_string())) {
        SerIn::StreamStart { call_id, .. } => assert_eq!(call_id, "S"),
        other => panic!("expected StreamStart, got {other:?}"),
    }
    match s.on_message(&WsIn::Text(r#"{"event":"start"}"#.to_string())) {
        SerIn::StreamStart { call_id, stream_id } => {
            assert_eq!(call_id, "");
            assert!(stream_id.is_none());
        }
        other => panic!("expected StreamStart, got {other:?}"),
    }
    assert_eq!(s.stream_id(), None);
}

#[test]
fn frames_before_a_start_name_no_stream() {
    let s = PlivoSerializer::new(16000);
    assert_eq!(text_of(s.encode_clear().unwrap()), r#"{"event":"clearAudio"}"#);
    assert_eq!(
        text_of(s.encode_audio(&vec![1, 2, 3])),
        r#"{"event":"playAudio","media":{"contentType":"audio/x-mulaw","payload":"AQID","sampleRate":16000}}"#
    );
    assert_eq!(PlivoSerializer::default().carrier_rate(), 0);
}

#[test]
fn what_is_played_reads_back() {
    let mut out = PlivoSerializer::new(8000);
    out.on_message(&WsIn::Text(
        "{\"event\":\"start\",\"start\":{\"streamId\":\"q\\\"\\u00e9\"}}".to_string(),
    ));
    let v = Json::parse(&text_of(out.encode_audio(&vec![0, 255, 7]))).unwrap();
    assert_eq!(v.str_at("streamId"), Some("q\"é"));
    let payload = v.get("media").unwrap().str_at("payload").unwrap();
    let echo = format!(r#"{{"event":"media","media":{{"payload":"{payload}"}}}}"#);
    match PlivoSerializer::new(8000).on_message(&WsIn::Text(echo)) {
        SerIn::Audio { ulaw, .. } => assert_eq!(ulaw, vec![0, 255, 7]),
        other => panic!("expected Audio, got {other:?}"),
    }
}

#[test]
fn https_base_becomes_wss_and_query_amp_is_escaped() {
    let xml = plivo_answer_xml(42, "tok-abc", "https://voice.example.com/");
    assert!(
        xml.contains("wss://voice.example.com/telephony/ws/plivo/42?token=tok-abc"),
        "ws url wrong: {xml}"
    );
    assert!(xml.contains(
        r#"<Stream contentType="audio/x-mulaw;rate=8000" bidirectional="true" keepCallAlive="true">"#
    ));
    assert!(
        xml.contains("</Stream><Hangup/></Response>"),
        "trailing <Hangup/> must run on WS close: {xml}"
    );
    let xml2 = plivo_answer_xml(7, "t", "https://h.example/a?x=1&y=2");
    assert!(xml2.contains("&amp;"), "ampersand must be escaped: {xml2}");
}

#[test]
fn http_base_becomes_ws() {
    let xml = plivo_answer_xml(1, "tok", "http://localhost:6210");
    assert!(xml.contains("ws://localhost:6210/telephony/ws/plivo/1?token=tok"));
}

#[test]
fn the_answer_in_full() {
    assert_eq!(
        plivo_answer_xml(-3, "a<b>&c", "https://h///"),
        "<?xml version=\"1.0\" encoding=\"UTF-8\"?><Response><Stream contentType=\"audio/x-mulaw;rate=8000\" bidirectional=\"true\" keepCallAlive=\"true\">wss://h/telephony/ws/plivo/-3?token=a&lt;b&gt;&amp;c</Stream><Hangup/></Response>"
    );
}

#[test]
fn escaping_and_schemes() {
    assert_eq!(xml_escape("<a href=\"x\">&amp;</a>"), "&lt;a href=\"x\"&gt;&amp;amp;&lt;/a&gt;");
    assert_ne!(xml_escape("<"), xml_escape("&lt;"));
    assert_eq!(ws_scheme("https://a/http://b"), "wss://a/ws://b");
    assert_eq!(ws_scheme("http://a?u=https://b"), "ws://a?u=wss://b");
    assert_eq!(ws_scheme("ftp://a"), "ftp://a");
}
