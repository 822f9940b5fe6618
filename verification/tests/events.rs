use flowcat::events::{frame_text, map_rtvi_to_rtf, rtf_text, EventRegistry, RtviMessage};
use flowcat::json::Json;
use tokio::sync::mpsc;

fn json(text: &str) -> Json {
    Json::parse(text).unwrap()
}

fn msg(kind: &str, data: Option<&str>) -> RtviMessage {
    RtviMessage {
        kind: kind.to_string(),
        data: data.map(json),
    }
}

#[test]
fn registry_register_subscribe_publish_and_drop() {
    let mut reg = EventRegistry::new();
    let (tx, rx) = mpsc::unbounded_channel::<String>();
    reg.register("pc-1", rx);
    let mut rx = reg.take_receiver("pc-1").expect("receiver");
    assert!(reg.take_receiver("pc-1").is_none());
    tx.send(frame_text(
        "rtf-user-transcription",
        json(r#"{ "text": "hi", "final": true }"#),
    ))
    .unwrap();
    let got = rx.try_recv().expect("a frame");
    assert!(got.contains("rtf-user-transcription") && got.contains("\"final\":true"));
    reg.deregister("pc-1");
    assert!(reg.take_receiver("pc-1").is_none());
}

#[test]
fn buffered_events_survive_until_an_embedder_drains_them() {
    let mut reg = EventRegistry::new();
    let (tx, rx) = mpsc::unbounded_channel::<String>();
    reg.register("pc-7", rx);
    tx.send(frame_text(
        "rtf-user-transcription",
        json(r#"{ "text": "one", "final": true }"#),
    ))
    .unwrap();
    tx.send(frame_text("rtf-bot-text", json(r#"{ "text": "two" }"#)))
        .unwrap();

    let mut rx = reg.take_receiver("pc-7").expect("receiver");
    let first = rx.try_recv().expect("buffered frame 1");
    let second = rx.try_recv().expect("buffered frame 2");
    assert!(first.contains("\"text\":\"one\""), "{first}");
    assert!(second.contains("\"text\":\"two\""), "{second}");
    assert!(reg.take_receiver("pc-7").is_none());
}

#[test]
fn map_rtvi_to_rtf_matches_the_browser_contract() {
    assert_eq!(
        map_rtvi_to_rtf(&msg(
            "user-transcription",
            Some(r#"{"text":"hi","final":true}"#)
        ))
        .unwrap()
        .0,
        "rtf-user-transcription"
    );
    assert_eq!(
        map_rtvi_to_rtf(&msg("bot-transcription", Some(r#"{"text":"hello"}"#)))
            .unwrap()
            .0,
        "rtf-bot-text"
    );
    assert_eq!(
        map_rtvi_to_rtf(&msg(
            "llm-function-call-in-progress",
            Some(r#"{"tool_call_id":"t1"}"#)
        ))
        .unwrap()
        .0,
        "rtf-function-call-start"
    );
    assert_eq!(
        map_rtvi_to_rtf(&msg(
            "llm-function-call-stopped",
            Some(r#"{"tool_call_id":"t1"}"#)
        ))
        .unwrap()
        .0,
        "rtf-function-call-end"
    );
    assert!(map_rtvi_to_rtf(&msg("bot-tts-text", Some(r#"{"text":"x"}"#))).is_none());
    assert!(map_rtvi_to_rtf(&msg("metrics", None)).is_none());
}

#[test]
fn every_kind_that_is_forwarded() {
    let table = [
        ("bot-started-speaking", "rtf-bot-started-speaking"),
        ("bot-stopped-speaking", "rtf-bot-stopped-speaking"),
        ("user-mute-started", "rtf-user-mute-started"),
        ("user-mute-stopped", "rtf-user-mute-stopped"),
        ("llm-function-call-started", "rtf-function-call-start"),
    ];
    for (kind, ty) in table {
        let (got, payload) = map_rtvi_to_rtf(&msg(kind, None)).unwrap();
        assert_eq!(got, ty);
        assert_eq!(payload.text(), "{}");
    }
    assert_eq!(
        rtf_text(&msg("bot-transcription", Some(r#"{"text":"a\"b","n":[1,-2]}"#))).unwrap(),
        r#"{"payload":{"n":[1,-2],"text":"a\"b"},"type":"rtf-bot-text"}"#
    );
    assert!(rtf_text(&msg("bot-output", None)).is_none());
}

#[test]
fn calls_do_not_touch_each_other() {
    let mut reg: EventRegistry<u8> = EventRegistry::default();
    reg.register("a", 1);
    reg.register("b", 2);
    assert_eq!(reg.take_receiver("a"), Some(1));
    assert_eq!(reg.take_receiver("b"), Some(2));
    assert_eq!(reg.take_receiver("b"), None);
    reg.register("a", 3);
    reg.register("a", 4);
    reg.deregister("b");
    assert_eq!(reg.take_receiver("a"), Some(4));
    assert_eq!(reg.take_receiver("nobody"), None);
}
