use vstd::prelude::*;

verus! {

/// The playback state a media player reports.
#[derive(Debug, Clone, Copy, PartialEq, Eq, Structural)]
pub enum PlaybackState {
    /// No source, or playback has stopped.
    Stopped,
    Opening,
    Buffering,
    Playing,
    Paused,
}

/// The state of the synthesizer as the event sink sees it.
///
/// It is never stored: it is read from the player whenever it is needed.
#[derive(Debug, Clone, Copy, PartialEq, Eq, Structural)]
pub enum SynthState {
    Ready,
    Busy,
    Paused,
}

/// The synthesizer state that a player state stands for.
pub open spec fn synth_state_of(p: PlaybackState) -> SynthState {
    match p {
        PlaybackState::Opening | PlaybackState::Buffering | PlaybackState::Playing => SynthState::Busy,
        PlaybackState::Paused => SynthState::Paused,
        PlaybackState::Stopped => SynthState::Ready,
    }
}

impl Default for SynthState {
    fn default() -> (r: Self)
        ensures
            r == SynthState::Ready,
    {
        SynthState::Ready
    }
}

impl From<PlaybackState> for SynthState {
    fn from(p: PlaybackState) -> (r: Self)
        ensures
            r == synth_state_of(p),
    {
        match p {
            PlaybackState::Opening | PlaybackState::Buffering | PlaybackState::Playing => SynthState::Busy,
            PlaybackState::Paused => SynthState::Paused,
            PlaybackState::Stopped => SynthState::Ready,
        }
    }
}

impl vstd::std_specs::convert::FromSpecImpl<PlaybackState> for SynthState {
    open spec fn obeys_from_spec() -> bool {
        true
    }

    open spec fn from_spec(p: PlaybackState) -> SynthState {
        synth_state_of(p)
    }
}

} // verus!
