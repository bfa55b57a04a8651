use amberol_core::mpris::{
    action_for, initial_capabilities, loop_status_for, metadata_for, playback_status_for, position_micros,
    repeat_mode_for, state_update, CoverArt, MprisLoopStatus, MprisPlaybackStatus, MprisRequest, PlayerCapabilities, Song,
};
use amberol_core::playback::{PlaybackAction, PlaybackState, RepeatMode};

#[test]
fn repeat_modes_publish_their_loop_status() {
    assert_eq!(loop_status_for(RepeatMode::Consecutive), MprisLoopStatus::NoLoop);
    assert_eq!(loop_status_for(RepeatMode::RepeatOne), MprisLoopStatus::Track);
    assert_eq!(loop_status_for(RepeatMode::RepeatAll), MprisLoopStatus::Playlist);
}

#[test]
fn loop_status_requests_select_repeat_modes() {
    assert_eq!(repeat_mode_for(MprisLoopStatus::NoLoop), RepeatMode::Consecutive);
    assert_eq!(repeat_mode_for(MprisLoopStatus::Track), RepeatMode::RepeatOne);
    assert_eq!(repeat_mode_for(MprisLoopStatus::Playlist), RepeatMode::RepeatAll);
}

#[test]
fn repeat_mode_round_trips_through_loop_status() {
    for mode in [RepeatMode::Consecutive, RepeatMode::RepeatOne, RepeatMode::RepeatAll] {
        assert_eq!(repeat_mode_for(loop_status_for(mode)), mode);
    }
    for status in [MprisLoopStatus::NoLoop, MprisLoopStatus::Track, MprisLoopStatus::Playlist] {
        assert_eq!(loop_status_for(repeat_mode_for(status)), status);
    }
}

#[test]
fn playback_states_publish_their_status() {
    assert_eq!(playback_status_for(PlaybackState::Playing), MprisPlaybackStatus::Playing);
    assert_eq!(playback_status_for(PlaybackState::Paused), MprisPlaybackStatus::Paused);
    assert_eq!(playback_status_for(PlaybackState::Stopped), MprisPlaybackStatus::Stopped);
}

#[test]
fn play_pause_toggles_against_published_status() {
    let toggle = |s: PlaybackState| action_for(MprisRequest::PlayPause(playback_status_for(s)));
    assert_eq!(toggle(PlaybackState::Playing), PlaybackAction::Pause);
    assert_eq!(toggle(PlaybackState::Paused), PlaybackAction::Play);
    assert_eq!(toggle(PlaybackState::Stopped), PlaybackAction::Stop);
}

#[test]
fn plain_requests_map_to_actions() {
    assert_eq!(action_for(MprisRequest::Play), PlaybackAction::Play);
    assert_eq!(action_for(MprisRequest::Stop), PlaybackAction::Stop);
    assert_eq!(action_for(MprisRequest::Pause), PlaybackAction::Pause);
    assert_eq!(action_for(MprisRequest::Previous), PlaybackAction::SkipPrevious);
    assert_eq!(action_for(MprisRequest::Next), PlaybackAction::SkipNext);
    assert_eq!(action_for(MprisRequest::Raise), PlaybackAction::Raise);
    assert_eq!(
        action_for(MprisRequest::SetLoopStatus(MprisLoopStatus::Playlist)),
        PlaybackAction::Repeat(RepeatMode::RepeatAll)
    );
}

#[test]
fn seek_moves_by_whole_seconds_without_sign() {
    assert_eq!(action_for(MprisRequest::Seek(5_000_000)), PlaybackAction::Seek(5));
    assert_eq!(action_for(MprisRequest::Seek(5_999_999)), PlaybackAction::Seek(5));
    assert_eq!(action_for(MprisRequest::Seek(-2_500_000)), PlaybackAction::Seek(2));
    assert_eq!(action_for(MprisRequest::Seek(-999_999)), PlaybackAction::Seek(0));
    assert_eq!(action_for(MprisRequest::Seek(i64::MIN)), PlaybackAction::Seek(9_223_372_036_854));
}

#[test]
fn position_is_published_in_microseconds() {
    assert_eq!(position_micros(0), 0);
    assert_eq!(position_micros(3), 3_000_000);
    assert_eq!(position_micros(9_223_372_036_854), 9_223_372_036_854_000_000);
    // a position beyond i64 wraps like a cast does before scaling
    assert_eq!(position_micros(u64::MAX), -1_000_000);
}

#[test]
fn published_position_reads_back_as_seconds() {
    for secs in [0u64, 1, 59, 3_600, 9_223_372_036_854] {
        let micros = position_micros(secs);
        assert_eq!(action_for(MprisRequest::Seek(micros)), PlaybackAction::Seek(secs));
    }
}

fn song() -> Song {
    Song {
        artist: "Artist".to_string(),
        title: "Title".to_string(),
        album: "Album".to_string(),
        duration: 215,
    }
}

#[test]
fn metadata_describes_the_song() {
    let s = song();
    let md = metadata_for(Some(&s), &CoverArt::Regular("file:///cover.png".to_string())).unwrap();
    assert_eq!(md.artist, vec!["Artist".to_string()]);
    assert_eq!(md.title, "Title");
    assert_eq!(md.album, "Album");
    assert_eq!(md.length_micros, 215_000_000);
    assert_eq!(md.art_url, Some("file:///cover.png".to_string()));
}

#[test]
fn metadata_has_no_art_without_a_usable_cover() {
    let s = song();
    assert_eq!(metadata_for(Some(&s), &CoverArt::NoCache).unwrap().art_url, None);
    assert_eq!(metadata_for(Some(&s), &CoverArt::Unusable).unwrap().art_url, None);
}

#[test]
fn metadata_is_empty_without_a_song() {
    assert!(metadata_for(None, &CoverArt::NoCache).is_none());
}

#[test]
fn service_starts_without_play_or_fullscreen() {
    assert_eq!(
        initial_capabilities(),
        PlayerCapabilities {
            can_raise: true,
            can_play: false,
            can_pause: true,
            can_seek: true,
            can_go_next: true,
            can_go_previous: true,
            can_set_fullscreen: false,
        }
    );
}

#[test]
fn any_state_change_allows_play() {
    for state in [PlaybackState::Stopped, PlaybackState::Playing, PlaybackState::Paused] {
        let (caps, status) = state_update(initial_capabilities(), state);
        assert_eq!(caps, PlayerCapabilities { can_play: true, ..initial_capabilities() });
        assert_eq!(status, playback_status_for(state));
    }
}
