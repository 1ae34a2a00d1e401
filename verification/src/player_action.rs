//! What the audio player can be told.
use vstd::prelude::*;

verus! {

/// One order to the audio player.
///
/// Times are in milliseconds. `SetRate` carries the playback speed as the
/// bit pattern of a 64-bit IEEE 754 number.
#[derive(Debug)]
pub enum PlayerAction {
    PlayRemote { episode_pk: String, channel_pk: String, uri: String },
    Pause,
    Unpause,
    SeekForward,
    SeekBack,
    SetTime(u64),
    SetRate(u64),
}

/// The mathematical value of a [`PlayerAction`].
pub enum PlayerActionView {
    PlayRemote { episode_pk: Seq<char>, channel_pk: Seq<char>, uri: Seq<char> },
    Pause,
    Unpause,
    SeekForward,
    SeekBack,
    SetTime(u64),
    SetRate(u64),
}

impl View for PlayerAction {
    type V = PlayerActionView;

    open spec fn view(&self) -> PlayerActionView {
        match *self {
            PlayerAction::PlayRemote { episode_pk, channel_pk, uri } => PlayerActionView::PlayRemote {
                episode_pk: episode_pk@,
                channel_pk: channel_pk@,
                uri: uri@,
            },
            PlayerAction::Pause => PlayerActionView::Pause,
            PlayerAction::Unpause => PlayerActionView::Unpause,
            PlayerAction::SeekForward => PlayerActionView::SeekForward,
            PlayerAction::SeekBack => PlayerActionView::SeekBack,
            PlayerAction::SetTime(time) => PlayerActionView::SetTime(time),
            PlayerAction::SetRate(rate_bits) => PlayerActionView::SetRate(rate_bits),
        }
    }
}

impl Clone for PlayerAction {
    fn clone(&self) -> (copy: Self)
        ensures
            copy@ == self@,
    {
        match self {
            PlayerAction::PlayRemote { episode_pk, channel_pk, uri } => PlayerAction::PlayRemote {
                episode_pk: episode_pk.clone(),
                channel_pk: channel_pk.clone(),
                uri: uri.clone(),
            },
            PlayerAction::Pause => PlayerAction::Pause,
            PlayerAction::Unpause => PlayerAction::Unpause,
            PlayerAction::SeekForward => PlayerAction::SeekForward,
            PlayerAction::SeekBack => PlayerAction::SeekBack,
            PlayerAction::SetTime(time) => PlayerAction::SetTime(*time),
            PlayerAction::SetRate(rate_bits) => PlayerAction::SetRate(*rate_bits),
        }
    }
}

} // verus!
