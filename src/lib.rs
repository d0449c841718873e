//! Sequencing of speech elements (text, markup, bookmarks, audio files) into
//! one playback timeline.
//!
//! The library holds the logic: the element queue and the dispatch state
//! machine that drains it, the projection of a player's state onto
//! [`SynthState`], and the checks the facade makes before it touches the
//! engines. The engines themselves (synthesis, playback, the voice catalog)
//! are driven by the caller, which hands the library plain values.

pub mod element;
pub mod error;
pub mod mixer;
pub mod queue;
pub mod state;
pub mod voice;

pub use element::{SpeechElement, SpeechUtterance};
pub use error::{NeosynthError, NeosynthResult};
pub use mixer::{Dispatch, SpeechMixer};
pub use state::{PlaybackState, SynthState};
pub use voice::{check_rate_support, find_voice, set_voice_str, VoiceInfo};

