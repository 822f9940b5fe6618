use flowcat::kitten::KittenTts;

#[test]
fn points_client_at_the_configured_base() {
    let tts = KittenTts::new("k", "http://my-host:8880/v1", "Bella");
    assert_eq!(tts.name(), "kitten");
    assert_eq!(tts.url(), "http://my-host:8880/v1/audio/speech");
    assert_eq!(tts.sample_rate(), 24_000);
}

#[test]
fn empty_base_falls_back_to_localhost() {
    let tts = KittenTts::new("k", "   ", "Bella");
    assert_eq!(tts.url(), "http://localhost:8880/v1/audio/speech");
}

#[test]
fn the_other_settings_are_kept() {
    let tts = KittenTts::new("k", "", "");
    assert_eq!(tts.api_key, "k");
    assert_eq!(tts.voice, "");
    assert_eq!(tts.model, "kitten-tts-mini");
}
