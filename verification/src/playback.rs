//! The player's own vocabulary: how it repeats, what state it is in, and the
//! actions that remote controls ask of it.

use vstd::prelude::*;

verus! {

/// How the playlist advances once a song has finished.
#[derive(Clone, Copy, Debug, PartialEq, Eq, Structural)]
pub enum RepeatMode {
    /// Play the playlist once, in order.
    Consecutive,
    /// Play the current song again.
    RepeatOne,
    /// Start the playlist again after its last song.
    RepeatAll,
}

/// The state of the audio player.
#[derive(Clone, Copy, Debug, PartialEq, Eq, Structural)]
pub enum PlaybackState {
    Stopped,
    Playing,
    Paused,
}

/// A request sent to the player, for instance by a remote control.
#[derive(Clone, Copy, Debug, PartialEq, Eq, Structural)]
pub enum PlaybackAction {
    Play,
    Pause,
    Stop,
    SkipPrevious,
    SkipNext,
    Raise,
    /// Change the repeat mode.
    Repeat(RepeatMode),
    /// Seek by the given number of whole seconds.
    Seek(u64),
}

} // verus!
