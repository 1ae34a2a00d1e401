//! What the audio player reports about itself.
use vstd::prelude::*;

verus! {

/// The phase the audio player is in.
#[derive(Debug, Copy, Clone, PartialEq, Eq, Structural)]
pub enum Playback {
    Stopped,
    Buffering,
    Paused,
    Playing,
}

impl Playback {
    /// Whether a track is loaded, that is, every phase but `Stopped`.
    pub open spec fn is_active(&self) -> bool {
        *self != Playback::Stopped
    }

    /// Whether a track is loaded, that is, every phase but `Stopped`.
    #[verifier::when_used_as_spec(is_active)]
    pub fn active(&self) -> (r: bool)
        ensures
            r == self.is_active(),
    {
        match self {
            Playback::Stopped => false,
            _ => true,
        }
    }
}

/// The player's status at one moment: what plays, in which phase, and where
/// in the track.
///
/// `time` and `duration` are in milliseconds. `rate_bits` is the playback
/// speed as the bit pattern of a 64-bit IEEE 754 number, so that 1.0 is
/// `0x3FF0_0000_0000_0000`.
#[derive(Debug)]
pub struct PlayerState {
    pub episode_pk: String,
    pub channel_pk: String,
    pub playback: Playback,
    pub time: u64,
    pub duration: u64,
    pub rate_bits: u64,
}

/// The mathematical value of a [`PlayerState`].
pub struct PlayerStateView {
    pub episode_pk: Seq<char>,
    pub channel_pk: Seq<char>,
    pub playback: Playback,
    pub time: u64,
    pub duration: u64,
    pub rate_bits: u64,
}

impl View for PlayerState {
    type V = PlayerStateView;

    open spec fn view(&self) -> PlayerStateView {
        PlayerStateView {
            episode_pk: self.episode_pk@,
            channel_pk: self.channel_pk@,
            playback: self.playback,
            time: self.time,
            duration: self.duration,
            rate_bits: self.rate_bits,
        }
    }
}

impl PartialEq for PlayerState {
    /// Two reports are equal when they agree in every field.
    fn eq(&self, other: &PlayerState) -> (same: bool) {
        *self.episode_pk.as_str() == *other.episode_pk.as_str() && *self.channel_pk.as_str()
            == *other.channel_pk.as_str() && self.playback == other.playback && self.time
            == other.time && self.duration == other.duration && self.rate_bits == other.rate_bits
    }
}

impl vstd::std_specs::cmp::PartialEqSpecImpl for PlayerState {
    open spec fn obeys_eq_spec() -> bool {
        true
    }

    open spec fn eq_spec(&self, other: &PlayerState) -> bool {
        self@ == other@
    }
}

} // verus!
