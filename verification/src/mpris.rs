//! The decisions of the MPRIS remote-control bridge.
//!
//! The D-Bus service itself is driven by the application; this module decides
//! what the service publishes for a given player state, and which player action
//! answers each request that arrives through it.

use vstd::prelude::*;
use crate::playback::{PlaybackAction, PlaybackState, RepeatMode};

verus! {

/// The loop status that MPRIS publishes (`None`, `Track` or `Playlist` on the bus).
#[derive(Clone, Copy, Debug, PartialEq, Eq, Structural)]
pub enum MprisLoopStatus {
    /// MPRIS `None`: playback stops after the last track.
    NoLoop,
    Track,
    Playlist,
}

/// The playback status that MPRIS publishes.
#[derive(Clone, Copy, Debug, PartialEq, Eq, Structural)]
pub enum MprisPlaybackStatus {
    Playing,
    Paused,
    Stopped,
}

/// The loop status published for a repeat mode.
pub open spec fn spec_loop_status(mode: RepeatMode) -> MprisLoopStatus {
    match mode {
        RepeatMode::Consecutive => MprisLoopStatus::NoLoop,
        RepeatMode::RepeatOne => MprisLoopStatus::Track,
        RepeatMode::RepeatAll => MprisLoopStatus::Playlist,
    }
}

/// The repeat mode that a requested loop status selects.
pub open spec fn spec_repeat_mode(status: MprisLoopStatus) -> RepeatMode {
    match status {
        MprisLoopStatus::NoLoop => RepeatMode::Consecutive,
        MprisLoopStatus::Track => RepeatMode::RepeatOne,
        MprisLoopStatus::Playlist => RepeatMode::RepeatAll,
    }
}

/// The loop status to publish when the player's repeat mode changes.
pub fn loop_status_for(mode: RepeatMode) -> (status: MprisLoopStatus)
    ensures
        status == spec_loop_status(mode),
        mode == RepeatMode::Consecutive ==> status == MprisLoopStatus::NoLoop,
        mode == RepeatMode::RepeatOne ==> status == MprisLoopStatus::Track,
        mode == RepeatMode::RepeatAll ==> status == MprisLoopStatus::Playlist,
{
    match mode {
        RepeatMode::Consecutive => MprisLoopStatus::NoLoop,
        RepeatMode::RepeatOne => MprisLoopStatus::Track,
        RepeatMode::RepeatAll => MprisLoopStatus::Playlist,
    }
}

/// The repeat mode a remote control asks for with a loop status.
pub fn repeat_mode_for(status: MprisLoopStatus) -> (mode: RepeatMode)
    ensures
        mode == spec_repeat_mode(status),
        status == MprisLoopStatus::NoLoop ==> mode == RepeatMode::Consecutive,
        status == MprisLoopStatus::Track ==> mode == RepeatMode::RepeatOne,
        status == MprisLoopStatus::Playlist ==> mode == RepeatMode::RepeatAll,
{
    match status {
        MprisLoopStatus::NoLoop => RepeatMode::Consecutive,
        MprisLoopStatus::Track => RepeatMode::RepeatOne,
        MprisLoopStatus::Playlist => RepeatMode::RepeatAll,
    }
}

/// Publishing a repeat mode and reading it back as a request gives the same mode.
pub proof fn lemma_repeat_mode_round_trip(mode: RepeatMode)
    ensures
        spec_repeat_mode(spec_loop_status(mode)) == mode,
{
}

/// A requested loop status, once applied and published again, is the status requested.
pub proof fn lemma_loop_status_round_trip(status: MprisLoopStatus)
    ensures
        spec_loop_status(spec_repeat_mode(status)) == status,
{
}


/// The playback status published for a player state: playing and paused are
/// published as such, every other state as stopped.
pub open spec fn spec_playback_status(state: PlaybackState) -> MprisPlaybackStatus {
    match state {
        PlaybackState::Playing => MprisPlaybackStatus::Playing,
        PlaybackState::Paused => MprisPlaybackStatus::Paused,
        _ => MprisPlaybackStatus::Stopped,
    }
}

/// The playback status to publish when the player's state changes.
pub fn playback_status_for(state: PlaybackState) -> (status: MprisPlaybackStatus)
    ensures
        status == spec_playback_status(state),
        state == PlaybackState::Playing ==> status == MprisPlaybackStatus::Playing,
        state == PlaybackState::Paused ==> status == MprisPlaybackStatus::Paused,
        state == PlaybackState::Stopped ==> status == MprisPlaybackStatus::Stopped,
{
    match state {
        PlaybackState::Playing => MprisPlaybackStatus::Playing,
        PlaybackState::Paused => MprisPlaybackStatus::Paused,
        _ => MprisPlaybackStatus::Stopped,
    }
}

/// The action that answers a play/pause toggle, given the status currently published.
pub open spec fn spec_play_pause_action(status: MprisPlaybackStatus) -> PlaybackAction {
    match status {
        MprisPlaybackStatus::Paused => PlaybackAction::Play,
        MprisPlaybackStatus::Stopped => PlaybackAction::Stop,
        MprisPlaybackStatus::Playing => PlaybackAction::Pause,
    }
}

/// Rust's `/` on integers: the quotient rounded toward zero.
pub open spec fn div_toward_zero(a: int, b: int) -> int
    recommends
        b > 0,
{
    if a >= 0 {
        a / b
    } else {
        -((-a) / b)
    }
}

/// The whole seconds in a time given in microseconds, rounded toward zero.
pub open spec fn spec_whole_secs(micros: i64) -> int {
    div_toward_zero(micros as int, 1_000_000)
}

/// `|x|` on the integers.
pub open spec fn abs_int(x: int) -> int {
    if x < 0 {
        -x
    } else {
        x
    }
}

/// A request that arrives through the MPRIS service.
#[derive(Clone, Copy, Debug, PartialEq, Eq, Structural)]
pub enum MprisRequest {
    /// Toggle between playing and paused; carries the status published at that moment.
    PlayPause(MprisPlaybackStatus),
    Play,
    Stop,
    Pause,
    Previous,
    Next,
    Raise,
    /// Set the loop status.
    SetLoopStatus(MprisLoopStatus),
    /// Seek by an offset, in microseconds.
    Seek(i64),
}

/// The player action that answers an MPRIS request.
pub open spec fn spec_action_for(request: MprisRequest) -> PlaybackAction {
    match request {
        MprisRequest::PlayPause(status) => spec_play_pause_action(status),
        MprisRequest::Play => PlaybackAction::Play,
        MprisRequest::Stop => PlaybackAction::Stop,
        MprisRequest::Pause => PlaybackAction::Pause,
        MprisRequest::Previous => PlaybackAction::SkipPrevious,
        MprisRequest::Next => PlaybackAction::SkipNext,
        MprisRequest::Raise => PlaybackAction::Raise,
        MprisRequest::SetLoopStatus(status) => PlaybackAction::Repeat(spec_repeat_mode(status)),
        MprisRequest::Seek(offset) => PlaybackAction::Seek(abs_int(spec_whole_secs(offset)) as u64),
    }
}

/// Calls `mpris_server::Time::from_secs` and reads the time back with
/// `Time::as_micros`. `from_secs` multiplies the seconds by 1_000_000 with
/// `checked_mul` and panics when that overflows, which `requires` rules out;
/// `as_micros` returns the microseconds that the time holds.
#[verifier::external_body]
fn micros_from_secs(secs: i64) -> (micros: i64)
    requires
        i64::MIN <= secs * 1_000_000 <= i64::MAX,
    ensures
        micros == secs * 1_000_000,
{
    mpris_server::Time::from_secs(secs).as_micros()
}

/// Calls `mpris_server::Time::from_micros` and then `Time::as_secs`. `from_micros`
/// stores the microseconds unchanged and `as_secs` divides them by 1_000_000 with
/// Rust's `/`, which rounds toward zero.
#[verifier::external_body]
fn secs_from_micros(micros: i64) -> (secs: i64)
    ensures
        secs == spec_whole_secs(micros),
{
    mpris_server::Time::from_micros(micros).as_secs()
}

/// The player action that answers an MPRIS request. A seek moves by the whole
/// seconds of its offset, taken without sign.
pub fn action_for(request: MprisRequest) -> (action: PlaybackAction)
    ensures
        action == spec_action_for(request),
        request matches MprisRequest::SetLoopStatus(s) ==> (action matches PlaybackAction::Repeat(m)
            && spec_loop_status(m) == s && m == repeat_mode_for_law(s)),
        request == MprisRequest::SetLoopStatus(MprisLoopStatus::NoLoop) ==> action
            == PlaybackAction::Repeat(RepeatMode::Consecutive),
        request == MprisRequest::SetLoopStatus(MprisLoopStatus::Track) ==> action
            == PlaybackAction::Repeat(RepeatMode::RepeatOne),
        request == MprisRequest::SetLoopStatus(MprisLoopStatus::Playlist) ==> action
            == PlaybackAction::Repeat(RepeatMode::RepeatAll),
        request == MprisRequest::PlayPause(MprisPlaybackStatus::Paused) ==> action == PlaybackAction::Play,
        request == MprisRequest::PlayPause(MprisPlaybackStatus::Stopped) ==> action == PlaybackAction::Stop,
        request == MprisRequest::PlayPause(MprisPlaybackStatus::Playing) ==> action == PlaybackAction::Pause,
        request == MprisRequest::Play ==> action == PlaybackAction::Play,
        request == MprisRequest::Stop ==> action == PlaybackAction::Stop,
        request == MprisRequest::Pause ==> action == PlaybackAction::Pause,
        request == MprisRequest::Previous ==> action == PlaybackAction::SkipPrevious,
        request == MprisRequest::Next ==> action == PlaybackAction::SkipNext,
        request == MprisRequest::Raise ==> action == PlaybackAction::Raise,
        request matches MprisRequest::Seek(offset) ==> (action matches PlaybackAction::Seek(secs)
            && secs * 1_000_000 <= abs_int(offset as int) < (secs + 1) * 1_000_000),
{
    match request {
        MprisRequest::PlayPause(status) => match status {
            MprisPlaybackStatus::Paused => PlaybackAction::Play,
            MprisPlaybackStatus::Stopped => PlaybackAction::Stop,
            MprisPlaybackStatus::Playing => PlaybackAction::Pause,
        },
        MprisRequest::Play => PlaybackAction::Play,
        MprisRequest::Stop => PlaybackAction::Stop,
        MprisRequest::Pause => PlaybackAction::Pause,
        MprisRequest::Previous => PlaybackAction::SkipPrevious,
        MprisRequest::Next => PlaybackAction::SkipNext,
        MprisRequest::Raise => PlaybackAction::Raise,
        MprisRequest::SetLoopStatus(status) => PlaybackAction::Repeat(repeat_mode_for(status)),
        MprisRequest::Seek(offset) => {
            let secs = secs_from_micros(offset);
            assert(-9_223_372_036_855 <= secs <= 9_223_372_036_854);
            let magnitude: u64 = if secs < 0 {
                (0 - secs) as u64
            } else {
                secs as u64
            };
            PlaybackAction::Seek(magnitude)
        },
    }
}

/// The position published for a player position in whole seconds: the seconds,
/// read as an `i64` (two's complement, as a cast does), times 1_000_000, in microseconds.
pub open spec fn spec_position_micros(position: u64) -> int {
    (position as i64) * 1_000_000
}

/// Whether a position in seconds can be published without overflowing the
/// microsecond count.
pub open spec fn position_fits(position: u64) -> bool {
    i64::MIN <= spec_position_micros(position) <= i64::MAX
}

/// The position to publish, in microseconds, for a player position in seconds.
pub fn position_micros(position: u64) -> (micros: i64)
    requires
        position_fits(position),
    ensures
        micros == spec_position_micros(position),
        position <= i64::MAX ==> micros as int == position as int * 1_000_000,
{
    let secs: i64 = #[verifier::truncate] (position as i64);
    micros_from_secs(secs)
}


/// What the metadata of a song says of it.
#[derive(Debug)]
pub struct Song {
    pub artist: String,
    pub title: String,
    pub album: String,
    /// The length of the song, in whole seconds.
    pub duration: u64,
}

/// What became of the song's cached cover art when it was looked up.
#[derive(Debug)]
pub enum CoverArt {
    /// The song has no cached cover.
    NoCache,
    /// The cache file exists and is a regular file; carries its URI.
    Regular(String),
    /// The cache file could not be queried, or is not a regular file.
    Unusable,
}

/// The track metadata that MPRIS publishes for a song.
#[derive(Debug)]
pub struct TrackMetadata {
    /// The artists; a song has exactly one.
    pub artist: Vec<String>,
    pub title: String,
    pub album: String,
    /// The length of the track, in microseconds.
    pub length_micros: i64,
    /// The URI of the cover art, when there is a usable one.
    pub art_url: Option<String>,
}

/// Whether the song's length can be published without overflowing the
/// microsecond count.
pub open spec fn song_fits(song: Song) -> bool {
    position_fits(song.duration)
}

/// The cover art URI published for the outcome of a cover lookup.
pub open spec fn spec_art_url(cover: CoverArt) -> Option<Seq<char>> {
    match cover {
        CoverArt::Regular(uri) => Some(uri@),
        _ => None,
    }
}

/// An optional string, by its characters.
pub open spec fn opt_string_view(s: Option<String>) -> Option<Seq<char>> {
    match s {
        Some(v) => Some(v@),
        None => None,
    }
}

/// The metadata a song is published with, as views.
pub open spec fn metadata_matches(md: TrackMetadata, song: Song, cover: CoverArt) -> bool {
    &&& md.artist@.len() == 1
    &&& md.artist@[0]@ == song.artist@
    &&& md.title@ == song.title@
    &&& md.album@ == song.album@
    &&& md.length_micros == spec_position_micros(song.duration)
    &&& opt_string_view(md.art_url) == spec_art_url(cover)
}

/// The metadata to publish for the current song, if there is one; without a song
/// the published metadata is empty.
pub fn metadata_for(song: Option<&Song>, cover: &CoverArt) -> (md: Option<TrackMetadata>)
    requires
        song matches Some(s) ==> song_fits(*s),
    ensures
        song is None <==> md is None,
        song matches Some(s) ==> metadata_matches(md->0, *s, *cover),
        song matches Some(s) ==> md->0.length_micros as int == (s.duration as i64) as int * 1_000_000,
        song matches Some(s) ==> (s.duration <= 9_223_372_036_854 ==> md->0.length_micros as int
            == s.duration as int * 1_000_000),
        song matches Some(s) ==> md->0.artist@.len() == 1 && md->0.artist@[0]@ == s.artist@
            && md->0.title@ == s.title@ && md->0.album@ == s.album@,
        song matches Some(s) ==> (match *cover {
            CoverArt::Regular(uri) => md->0.art_url matches Some(u) && u@ == uri@,
            _ => md->0.art_url is None,
        }),
{
    match song {
        None => None,
        Some(s) => {
            let mut artist: Vec<String> = Vec::new();
            artist.push(s.artist.clone());
            let art_url = match cover {
                CoverArt::Regular(uri) => Some(uri.clone()),
                _ => None,
            };
            let md = TrackMetadata {
                artist,
                title: s.title.clone(),
                album: s.album.clone(),
                length_micros: position_micros(s.duration),
                art_url,
            };
            Some(md)
        },
    }
}


/// A play/pause toggle, answered against the status published for the player's
/// state, pauses a playing player, resumes a paused one, and stops a stopped one.
pub proof fn lemma_play_pause_toggles(state: PlaybackState)
    ensures
        spec_play_pause_action(spec_playback_status(state)) == (match state {
            PlaybackState::Playing => PlaybackAction::Pause,
            PlaybackState::Paused => PlaybackAction::Play,
            PlaybackState::Stopped => PlaybackAction::Stop,
        }),
{
}

/// A position published in microseconds, read back in whole seconds, is the
/// position itself.
pub proof fn lemma_position_round_trip(position: u64)
    requires
        position_fits(position),
        position <= i64::MAX,
    ensures
        spec_whole_secs(spec_position_micros(position) as i64) == position,
{
    let p = position as int;
    assert((position as i64) as int == p);
    assert(spec_position_micros(position) == p * 1_000_000);
    assert((p * 1_000_000) / 1_000_000 == p) by (nonlinear_arith)
        requires
            p >= 0,
    ;
}


/// The controls that the MPRIS service advertises when it starts.
#[derive(Clone, Copy, Debug, PartialEq, Eq, Structural)]
pub struct PlayerCapabilities {
    pub can_raise: bool,
    pub can_play: bool,
    pub can_pause: bool,
    pub can_seek: bool,
    pub can_go_next: bool,
    pub can_go_previous: bool,
    pub can_set_fullscreen: bool,
}

/// The service starts able to raise the window, pause, seek and skip both
/// ways, but not yet to play (there is nothing to play until the player
/// reports a state) and never to go full screen.
pub fn initial_capabilities() -> (caps: PlayerCapabilities)
    ensures
        caps == (PlayerCapabilities {
            can_raise: true,
            can_play: false,
            can_pause: true,
            can_seek: true,
            can_go_next: true,
            can_go_previous: true,
            can_set_fullscreen: false,
        }),
{
    PlayerCapabilities {
        can_raise: true,
        can_play: false,
        can_pause: true,
        can_seek: true,
        can_go_next: true,
        can_go_previous: true,
        can_set_fullscreen: false,
    }
}


/// The capabilities after the player reports a state: whatever the state,
/// playing becomes possible; nothing else changes.
pub open spec fn spec_caps_after_state(caps: PlayerCapabilities) -> PlayerCapabilities {
    PlayerCapabilities { can_play: true, ..caps }
}

/// What the service publishes when the player reports a state: the
/// capabilities, with playing now allowed, and the playback status for the state.
pub fn state_update(caps: PlayerCapabilities, state: PlaybackState) -> (update: (
    PlayerCapabilities,
    MprisPlaybackStatus,
))
    ensures
        update.0 == spec_caps_after_state(caps),
        update.1 == spec_playback_status(state),
{
    let next = PlayerCapabilities { can_play: true, ..caps };
    (next, playback_status_for(state))
}

/// Once the player has reported any state, playing is advertised, and every
/// other capability is still the one the service started with.
pub proof fn lemma_play_advertised_after_state(caps: PlayerCapabilities, state: PlaybackState)
    ensures
        spec_caps_after_state(caps).can_play,
        spec_caps_after_state(caps).can_raise == caps.can_raise,
        spec_caps_after_state(caps).can_pause == caps.can_pause,
        spec_caps_after_state(caps).can_seek == caps.can_seek,
        spec_caps_after_state(caps).can_go_next == caps.can_go_next,
        spec_caps_after_state(caps).can_go_previous == caps.can_go_previous,
        spec_caps_after_state(caps).can_set_fullscreen == caps.can_set_fullscreen,
{
}


/// The repeat mode that publishes back as the given loop status, named by its
/// meaning: `None` plays the list once, `Track` repeats the song, `Playlist`
/// repeats the list.
pub open spec fn repeat_mode_for_law(status: MprisLoopStatus) -> RepeatMode {
    if status == MprisLoopStatus::Track {
        RepeatMode::RepeatOne
    } else if status == MprisLoopStatus::Playlist {
        RepeatMode::RepeatAll
    } else {
        RepeatMode::Consecutive
    }
}

/// A loop-status request is answered by repeating in the mode that publishes
/// back as that very status: repeat-one for `Track`, repeat-all for `Playlist`,
/// play-once for `None`.
pub proof fn lemma_loop_request_selects_matching_mode(status: MprisLoopStatus)
    ensures
        spec_action_for(MprisRequest::SetLoopStatus(status)) matches PlaybackAction::Repeat(m)
            && spec_loop_status(m) == status,
        spec_action_for(MprisRequest::SetLoopStatus(status)) == PlaybackAction::Repeat(
            repeat_mode_for_law(status),
        ),
        spec_action_for(MprisRequest::SetLoopStatus(MprisLoopStatus::Track)) == PlaybackAction::Repeat(
            RepeatMode::RepeatOne,
        ),
        spec_action_for(MprisRequest::SetLoopStatus(MprisLoopStatus::Playlist)) == PlaybackAction::Repeat(
            RepeatMode::RepeatAll,
        ),
        spec_action_for(MprisRequest::SetLoopStatus(MprisLoopStatus::NoLoop)) == PlaybackAction::Repeat(
            RepeatMode::Consecutive,
        ),
{
}

/// A seek request moves by the whole seconds of its offset: the seconds, times
/// a million, are the largest multiple of a second not above the offset's size.
pub proof fn lemma_seek_whole_seconds(offset: i64)
    ensures
        spec_action_for(MprisRequest::Seek(offset)) matches PlaybackAction::Seek(secs)
            && secs * 1_000_000 <= abs_int(offset as int) < (secs + 1) * 1_000_000,
{
    let a = abs_int(offset as int);
    let q = a / 1_000_000;
    assert(q * 1_000_000 <= a < (q + 1) * 1_000_000) by (nonlinear_arith)
        requires
            q == a / 1_000_000,
            a >= 0,
    ;
    assert(abs_int(spec_whole_secs(offset)) == q);
    assert(q <= 9_223_372_036_855) by (nonlinear_arith)
        requires
            q * 1_000_000 <= a,
            a <= 9_223_372_036_854_775_808,
    ;
}

/// A song's published length is its duration in seconds, times a million, in
/// microseconds, whenever the duration is a count of seconds an `i64` holds.
pub proof fn lemma_length_is_duration_in_micros(duration: u64)
    requires
        position_fits(duration),
        duration <= i64::MAX,
    ensures
        spec_position_micros(duration) == duration as int * 1_000_000,
{
}

/// Metadata published for a song gives its length as the duration in seconds
/// times a million, whenever the duration is a count of seconds an `i64` holds.
pub proof fn lemma_metadata_length_is_duration(md: TrackMetadata, song: Song, cover: CoverArt)
    requires
        metadata_matches(md, song, cover),
        song_fits(song),
        song.duration <= i64::MAX,
    ensures
        md.length_micros as int == song.duration as int * 1_000_000,
{
}

} // verus!
