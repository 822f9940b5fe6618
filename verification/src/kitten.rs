//! KittenTTS: a self-hosted speech server with the OpenAI speech interface.

use crate::text::{blank, is_blank, join2};
use vstd::prelude::*;
use vstd::string::StringExecFns;

verus! {

/// The server's base URL where none is configured.
pub const KITTEN_DEFAULT_BASE: &'static str = "http://localhost:8880/v1";

/// The settings of a speech client that is pointed at a KittenTTS server.
#[derive(Debug, Clone)]
pub struct KittenTts {
    /// Sent along, though self-hosted servers mostly ignore it.
    pub api_key: String,
    pub base_url: String,
    pub model: String,
    /// A Kitten voice; empty for the server's default.
    pub voice: String,
}

impl KittenTts {
    /// The settings for a server; a blank base URL means the local default.
    pub fn new(api_key: &str, base_url: &str, voice: &str) -> (r: KittenTts)
        ensures
            r.api_key@ == api_key@,
            r.base_url@ == (if blank(base_url@) {
                KITTEN_DEFAULT_BASE@
            } else {
                base_url@
            }),
            r.model@ == "kitten-tts-mini"@,
            r.voice@ == voice@,
    {
        let base: &str = if is_blank(base_url) {
            KITTEN_DEFAULT_BASE
        } else {
            base_url
        };
        KittenTts {
            api_key: String::from_str(api_key),
            base_url: String::from_str(base),
            model: String::from_str("kitten-tts-mini"),
            voice: String::from_str(voice),
        }
    }

    /// The name of the service.
    pub fn name(&self) -> (r: &'static str)
        ensures
            r@ == "kitten"@,
    {
        "kitten"
    }

    /// The sample rate of the raw PCM that the server sends.
    pub fn sample_rate(&self) -> (r: u32)
        ensures
            r == 24_000,
    {
        24_000
    }

    /// The URL of the speech endpoint.
    pub fn url(&self) -> (r: String)
        ensures
            r@ == self.base_url@ + "/audio/speech"@,
    {
        join2(self.base_url.as_str(), "/audio/speech")
    }
}

} // verus!
