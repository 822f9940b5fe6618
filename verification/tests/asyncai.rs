use flowcat::asyncai::{
    begin_utterance, close_message, decode_message, pcm_from_bytes, read_init_ack, speak_message,
    AsyncAiTts, Decoded, Next, SocketEvent, TtsFrame, Utterance, ACK_TIMEOUT_MS, IDLE_DONE_MS,
};
use flowcat::json::Json;

fn json(text: &str) -> Json {
    Json::parse(text).unwrap()
}

fn b64(bytes: &[u8]) -> String {
    base64::Engine::encode(&base64::engine::general_purpose::STANDARD, bytes)
}

fn audio(bytes: &[u8]) -> SocketEvent {
    SocketEvent::Text(format!(r#"{{"audio": "{}", "context_id": "c"}}"#, b64(bytes)))
}

#[test]
fn url_uses_the_fixed_host_with_version() {
    let t = AsyncAiTts::new("k", "voice-x");
    let url = t.url();
    assert!(url.starts_with("wss://api.async.com/text_to_speech/websocket/ws?"));
    assert!(url.contains("version=v1"));
    assert!(url.contains("api_key=k"));
    assert_eq!(
        url,
        "wss://api.async.com/text_to_speech/websocket/ws?api_key=k&version=v1"
    );
}

#[test]
fn init_carries_voice_and_output_format() {
    let init = AsyncAiTts::new("k", "voice-x")
        .sample_rate(16_000)
        .init_message();
    assert_eq!(init.str_at("model_id"), Some("async_flash_v1.0"));
    let voice = init.get("voice").unwrap();
    assert_eq!(voice.str_at("mode"), Some("id"));
    assert_eq!(voice.str_at("id"), Some("voice-x"));
    let format = init.get("output_format").unwrap();
    assert_eq!(format.str_at("container"), Some("raw"));
    assert_eq!(format.str_at("encoding"), Some("pcm_s16le"));
    assert_eq!(format.get("sample_rate").unwrap().text(), "16000");
    assert!(matches!(init.get("language"), Some(Json::Null)));
}

#[test]
fn settings_can_be_changed() {
    let t = AsyncAiTts::new("k", "v").model("m2").sample_rate(8000);
    assert_eq!((t.model.as_str(), t.sample_rate), ("m2", 8000));
    assert_eq!((t.api_key.as_str(), t.voice_id.as_str()), ("k", "v"));
    assert_eq!(AsyncAiTts::new("k", "v").sample_rate, 24_000);
    assert_eq!(t.name(), "asyncai");
}

#[test]
fn speak_message_is_single_forced_transcript() {
    let m = speak_message("hello there", "srv-ctx");
    assert_eq!(m.str_at("transcript"), Some("hello there"));
    assert_eq!(m.str_at("context_id"), Some("srv-ctx"));
    assert_eq!(m.bool_at("force"), Some(true));
}

#[test]
fn close_message_closes_the_named_context() {
    let m = close_message("srv-ctx");
    assert_eq!(m.str_at("context_id"), Some("srv-ctx"));
    assert_eq!(m.bool_at("close_context"), Some(true));
    assert_eq!(m.str_at("transcript"), Some(""));
}

#[test]
fn decode_audio_into_pcm() {
    let msg = json(&format!(
        r#"{{ "audio": "{}", "context_id": "ctx-1" }}"#,
        b64(&[1u8, 0, 255, 255])
    ));
    match decode_message(Some(&msg), None) {
        Decoded::Audio(pcm) => assert_eq!(pcm, vec![1, -1]),
        _ => panic!("expected Audio"),
    }
}

#[test]
fn decode_final_and_ignore() {
    assert!(matches!(
        decode_message(Some(&json(r#"{ "final": true, "context_id": "ctx-1" }"#)), None),
        Decoded::Done
    ));
    assert!(matches!(
        decode_message(Some(&json(r#"{ "status": "ok" }"#)), None),
        Decoded::Ignore
    ));
    assert!(matches!(
        decode_message(Some(&json("\"nope\"")), None),
        Decoded::Ignore
    ));
    assert!(matches!(decode_message(None, Some(&[1, 2])), Decoded::Ignore));
}

#[test]
fn bad_payloads_hold_no_samples() {
    match decode_message(Some(&json(r#"{"audio": "!!"}"#)), None) {
        Decoded::Audio(pcm) => assert!(pcm.is_empty()),
        other => panic!("expected Audio, got {other:?}"),
    }
    assert_eq!(pcm_from_bytes(&vec![0x00, 0x80, 0xff, 0x7f, 0x01]), vec![-32768, 32767]);
}

#[test]
fn the_init_ack_names_the_context() {
    assert_eq!(
        read_init_ack(r#"{"event": "init_ack", "context_id": "c1"}"#).as_deref(),
        Some("c1")
    );
    assert_eq!(read_init_ack(r#"{"event": "init_ack"}"#), None);
    assert_eq!(read_init_ack(r#"{"event": "other", "context_id": "c1"}"#), None);
    assert_eq!(read_init_ack("no json"), None);
}

#[test]
fn an_utterance_begins_on_the_acknowledged_context() {
    let ack = r#"{"event": "init_ack", "context_id": "srv"}"#;
    let (message, u) = begin_utterance(ack, "hello", 16_000).unwrap();
    assert_eq!(
        message.text(),
        r#"{"context_id":"srv","force":true,"transcript":"hello"}"#
    );
    assert_eq!(u.close_message().str_at("context_id"), Some("srv"));
    assert!(matches!(&u.finish()[0], TtsFrame::Started { context_id } if context_id == "srv"));
    assert!(begin_utterance(r#"{"event": "init_ack"}"#, "hello", 16_000).is_none());
    assert!(begin_utterance("no json", "hello", 16_000).is_none());
}

#[test]
fn an_utterance_from_start_to_stop() {
    let mut u = Utterance::new("c", 16_000);
    assert_eq!(u.wait_ms(), ACK_TIMEOUT_MS);
    assert_eq!(u.on_event(&SocketEvent::Other), Next::Wait);
    assert_eq!(u.on_event(&SocketEvent::Text("junk".to_string())), Next::Wait);
    assert_eq!(u.on_event(&audio(&[])), Next::Wait);
    assert_eq!(u.wait_ms(), ACK_TIMEOUT_MS);
    assert_eq!(u.on_event(&audio(&[1, 0])), Next::Wait);
    assert_eq!(u.wait_ms(), IDLE_DONE_MS);
    assert_eq!(u.on_event(&audio(&[2, 0, 3, 0])), Next::Wait);
    assert_eq!(u.on_event(&SocketEvent::Idle), Next::SendClose);
    assert_eq!(
        u.close_message().text(),
        r#"{"close_context":true,"context_id":"c","transcript":""}"#
    );
    assert_eq!(u.on_event(&audio(&[4, 0])), Next::Wait);
    assert_eq!(
        u.on_event(&SocketEvent::Text(r#"{"final": true}"#.to_string())),
        Next::Finish
    );
    let frames = u.finish();
    assert_eq!(frames.len(), 5);
    assert!(matches!(&frames[0], TtsFrame::Started { context_id } if context_id == "c"));
    assert!(matches!(&frames[4], TtsFrame::Stopped { context_id } if context_id == "c"));
    match &frames[2] {
        TtsFrame::Audio { pcm, sample_rate, context_id } => {
            assert_eq!(pcm, &vec![2i16, 3]);
            assert_eq!((*sample_rate, context_id.as_str()), (16_000, "c"));
        }
        other => panic!("expected Audio, got {other:?}"),
    }
}

#[test]
fn the_context_is_closed_once_and_not_before_audio() {
    let mut u = Utterance::new("c", 8000);
    assert_eq!(u.on_event(&SocketEvent::Idle), Next::Finish);
    let mut u = Utterance::new("c", 8000);
    assert_eq!(u.on_event(&audio(&[1, 0])), Next::Wait);
    assert_eq!(u.on_event(&SocketEvent::Idle), Next::SendClose);
    assert_eq!(u.on_event(&SocketEvent::Idle), Next::Finish);
    assert_eq!(u.on_event(&SocketEvent::Closed), Next::Finish);
    assert_eq!(u.on_event(&SocketEvent::Deadline), Next::Finish);
    assert_eq!(Utterance::new("c", 8000).finish().len(), 2);
}
