//! The settings of one session.

use vstd::prelude::*;
use crate::encoding::{encoded_text, is_query_safe_text, percent_encode};

verus! {

/// Base URL of the speech service when none is given.
pub const MIMIC3_HOST: &'static str = "http://tts.local:59125";

/// Voice identifier when none is given.
pub const MIMIC3_VOICE: &'static str = "en_US/vctk_low#p236";

/// Noise scale when none is given, as it is written in the request.
pub const MIMIC3_NOISE: &'static str = "0.33";

/// Length scale when none is given, as it is written in the request.
pub const MIMIC3_LENGTH: &'static str = "1.2";

/// The settings that every request of a session is built from. They are
/// fixed once at startup.
///
/// The two scales are opaque to this client and are held as the decimal
/// text that goes into the request.
#[derive(Clone, Debug)]
pub struct MimicConfig {
    /// Base URL of the speech service.
    pub host: String,
    /// Voice identifier, already percent-encoded.
    pub voice: String,
    /// Noise scale, as decimal text.
    pub noise: String,
    /// Length scale, as decimal text.
    pub length: String,
    /// Whether each utterance is sent as SSML.
    pub ssml: bool,
}

impl MimicConfig {
    /// Builds the settings of a session. The voice identifier is given as the
    /// user wrote it and is percent-encoded here, once.
    pub fn new(host: String, voice: &str, noise: String, length: String, ssml: bool) -> (config:
        MimicConfig)
        ensures
            config.host@ == host@,
            config.voice@ == encoded_text(voice@),
            is_query_safe_text(config.voice@),
            config.noise@ == noise@,
            config.length@ == length@,
            config.ssml == ssml,
    {
        MimicConfig { host, voice: percent_encode(voice), noise, length, ssml }
    }
}

} // verus!
