//! The transcription engine selector and the per-device control flags.

use vstd::prelude::*;

verus! {

/// Which transcription engine the downstream consumer should use.
#[derive(Clone, Copy, Debug, PartialEq, Eq, Structural)]
pub enum AudioTranscriptionEngine {
    Deepgram,
    WhisperTiny,
    WhisperDistilLargeV3,
}

/// The text that `AudioTranscriptionEngine::label` renders.
pub open spec fn engine_label(e: AudioTranscriptionEngine) -> Seq<char> {
    match e {
        AudioTranscriptionEngine::Deepgram => "Deepgram"@,
        AudioTranscriptionEngine::WhisperTiny => "WhisperTiny"@,
        AudioTranscriptionEngine::WhisperDistilLargeV3 => "WhisperLarge"@,
    }
}

impl AudioTranscriptionEngine {
    /// A short display name for the engine.
    pub fn label(&self) -> (r: String)
        ensures
            r@ == engine_label(*self),
    {
        match self {
            AudioTranscriptionEngine::Deepgram => String::from_str("Deepgram"),
            AudioTranscriptionEngine::WhisperTiny => String::from_str("WhisperTiny"),
            AudioTranscriptionEngine::WhisperDistilLargeV3 => String::from_str("WhisperLarge"),
        }
    }
}

impl Default for AudioTranscriptionEngine {
    /// The engine used when none is chosen.
    fn default() -> (r: Self)
        ensures
            r == AudioTranscriptionEngine::WhisperTiny,
    {
        AudioTranscriptionEngine::WhisperTiny
    }
}

/// Whether a device's recording is running or paused.
#[derive(Clone, Copy, Debug, PartialEq, Eq, Structural)]
pub struct DeviceControl {
    pub is_running: bool,
    pub is_paused: bool,
}

} // verus!
