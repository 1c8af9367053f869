use playback_tunnel::handler::{
    handle_retry, retry_decision, same_active_track, ApiPlaybackStatus, PlaybackHandler, Player,
    PlayerAction, RetryDecision, Sleeper,
};
use playback_tunnel::models::{ApiSource, Id};
use playback_tunnel::playback::{
    default_playback_retry_options, Playback, PlaybackQuality, PlaybackRetryOptions, PlayerError,
    PlayerSource, Track,
};
use playback_tunnel::session::{
    ApiSession, ApiSessionPlaylist, PlaybackTarget, SessionPlaylistTrack,
};

struct ScriptedPlayer {
    source: PlayerSource,
    play_calls: u32,
    stop_calls: u32,
    pause_calls: u32,
    resume_calls: u32,
    seek_calls: u32,
    fail_first_plays: u32,
    cancel_on_play: bool,
}

impl ScriptedPlayer {
    fn new() -> Self {
        ScriptedPlayer {
            source: PlayerSource::Local,
            play_calls: 0,
            stop_calls: 0,
            pause_calls: 0,
            resume_calls: 0,
            seek_calls: 0,
            fail_first_plays: 0,
            cancel_on_play: false,
        }
    }
}

impl Player for ScriptedPlayer {
    fn before_play_playback(&mut self, _seek: Option<u64>) -> Result<(), PlayerError> {
        Ok(())
    }

    fn trigger_play(&mut self, _seek: Option<u64>) -> Result<(), PlayerError> {
        self.play_calls += 1;
        if self.cancel_on_play {
            return Err(PlayerError::Cancelled);
        }
        if self.fail_first_plays > 0 {
            self.fail_first_plays -= 1;
            return Err(PlayerError::InvalidState);
        }
        Ok(())
    }

    fn trigger_stop(&mut self) -> Result<(), PlayerError> {
        self.stop_calls += 1;
        Ok(())
    }

    fn trigger_seek(&mut self, _seek_ms: u64) -> Result<(), PlayerError> {
        self.seek_calls += 1;
        Ok(())
    }

    fn trigger_pause(&mut self) -> Result<(), PlayerError> {
        self.pause_calls += 1;
        Ok(())
    }

    fn trigger_resume(&mut self) -> Result<(), PlayerError> {
        self.resume_calls += 1;
        Ok(())
    }

    fn player_status(&self) -> Result<ApiPlaybackStatus, PlayerError> {
        Ok(ApiPlaybackStatus { active_playbacks: None })
    }

    fn get_source(&self) -> &PlayerSource {
        &self.source
    }
}

struct CountingSleeper {
    sleeps: u32,
    total_ms: u64,
}

impl CountingSleeper {
    fn new() -> Self {
        CountingSleeper { sleeps: 0, total_ms: 0 }
    }
}

impl Sleeper for CountingSleeper {
    fn sleep_millis(&mut self, millis: u64) {
        self.sleeps += 1;
        self.total_ms += millis;
    }
}

fn track(n: u64) -> Track {
    Track { id: Id::Number(n), source: ApiSource::Library, data: None }
}

fn handler_with_tracks(tracks: Vec<Track>) -> PlaybackHandler<ScriptedPlayer, CountingSleeper> {
    let mut h = PlaybackHandler::new(ScriptedPlayer::new(), CountingSleeper::new());
    h.update_playback(
        false,
        None,
        None,
        Some(true),
        Some(0),
        None,
        None,
        Some(tracks),
        None,
        Some(77),
        Some("prof".to_string()),
        Some(PlaybackTarget::AudioZone { audio_zone_id: 5 }),
        true,
        None,
    )
    .expect("initial state sync should succeed");
    h
}

#[test]
fn stop_twice_on_stopped_playback_keeps_playing_false() {
    let mut h = PlaybackHandler::new(ScriptedPlayer::new(), CountingSleeper::new());
    h.update_playback(
        false,
        None,
        None,
        Some(false),
        None,
        None,
        None,
        Some(vec![track(1), track(2)]),
        None,
        Some(1),
        Some("p".to_string()),
        None,
        false,
        None,
    )
    .unwrap();
    assert!(!h.playback.as_ref().unwrap().playing);
    h.stop(None).unwrap();
    h.stop(None).unwrap();
    assert!(!h.playback.as_ref().unwrap().playing);
    assert_eq!(h.player.stop_calls, 2);
}

#[test]
fn retry_succeeds_on_third_attempt_with_two_delays() {
    let mut player = ScriptedPlayer::new();
    player.fail_first_plays = 2;
    let mut sleeper = CountingSleeper::new();
    let opts = Some(PlaybackRetryOptions { max_attempts: 3, retry_delay_ms: 250 });
    let r = handle_retry(&mut player, &mut sleeper, &PlayerAction::Play { seek: None }, opts);
    assert!(r.is_ok());
    assert_eq!(player.play_calls, 3);
    assert_eq!(sleeper.sleeps, 2);
    assert_eq!(sleeper.total_ms, 500);
}

#[test]
fn retry_gives_up_when_attempts_exhausted() {
    let mut player = ScriptedPlayer::new();
    player.fail_first_plays = 10;
    let mut sleeper = CountingSleeper::new();
    let opts = Some(PlaybackRetryOptions { max_attempts: 3, retry_delay_ms: 100 });
    let r = handle_retry(&mut player, &mut sleeper, &PlayerAction::Play { seek: None }, opts);
    assert!(r.is_err());
    assert_eq!(player.play_calls, 3);
    assert_eq!(sleeper.sleeps, 2);
}

#[test]
fn retry_never_retries_a_cancellation() {
    let mut player = ScriptedPlayer::new();
    player.cancel_on_play = true;
    let mut sleeper = CountingSleeper::new();
    let opts = Some(PlaybackRetryOptions { max_attempts: 3, retry_delay_ms: 100 });
    let r = handle_retry(&mut player, &mut sleeper, &PlayerAction::Play { seek: None }, opts);
    assert!(matches!(r, Err(PlayerError::Cancelled)));
    assert_eq!(player.play_calls, 1);
    assert_eq!(sleeper.sleeps, 0);
}

#[test]
fn retry_without_options_makes_a_single_attempt() {
    let mut player = ScriptedPlayer::new();
    player.fail_first_plays = 1;
    let mut sleeper = CountingSleeper::new();
    let r = handle_retry(&mut player, &mut sleeper, &PlayerAction::Play { seek: None }, None);
    assert!(r.is_err());
    assert_eq!(player.play_calls, 1);
    assert_eq!(sleeper.sleeps, 0);
}

#[test]
fn retry_decision_table() {
    let opts = Some(PlaybackRetryOptions { max_attempts: 3, retry_delay_ms: 40 });
    assert_eq!(retry_decision(true, opts, 1), RetryDecision::ReturnError);
    assert_eq!(retry_decision(false, None, 1), RetryDecision::ReturnError);
    assert_eq!(retry_decision(false, opts, 1), RetryDecision::SleepAndRetry { delay_ms: 40 });
    assert_eq!(retry_decision(false, opts, 2), RetryDecision::SleepAndRetry { delay_ms: 40 });
    assert_eq!(retry_decision(false, opts, 3), RetryDecision::ReturnError);
}

#[test]
fn next_track_twice_reaches_third_track_with_one_event_each() {
    let mut h = handler_with_tracks(vec![track(10), track(11), track(12)]);
    h.take_events();

    h.next_track(None, None).unwrap();
    h.next_track(None, None).unwrap();

    let p = h.playback.as_ref().unwrap();
    assert_eq!(p.position, 2);
    assert!(p.playing);

    let events = h.take_events();
    assert_eq!(events.len(), 2);
    for (i, ev) in events.iter().enumerate() {
        assert_eq!(ev.position, Some((i + 1) as u16));
        assert_eq!(ev.session_id, 77);
        assert!(ev.playing.is_none());
        assert!(ev.seek.is_none());
        assert!(ev.volume.is_none());
        assert!(ev.quality.is_none());
        assert!(ev.playlist.is_none());
        assert!(ev.play.is_none());
        assert!(ev.stop.is_none());
        assert!(ev.name.is_none());
        assert!(ev.active.is_none());
    }
}

#[test]
fn next_track_past_the_end_is_out_of_bounds() {
    let mut h = handler_with_tracks(vec![track(1), track(2)]);
    h.next_track(None, None).unwrap();
    let r = h.next_track(None, None);
    assert!(matches!(r, Err(PlayerError::PositionOutOfBounds(2))));
    assert_eq!(h.playback.as_ref().unwrap().position, 1);
}

#[test]
fn previous_track_at_start_is_out_of_bounds() {
    let mut h = handler_with_tracks(vec![track(1), track(2)]);
    let r = h.previous_track(None, None);
    assert!(matches!(r, Err(PlayerError::PositionOutOfBounds(0))));
    assert_eq!(h.playback.as_ref().unwrap().position, 0);
}

#[test]
fn update_playback_with_play_starts_a_stopped_playback() {
    let mut h = PlaybackHandler::new(ScriptedPlayer::new(), CountingSleeper::new());
    h.update_playback(
        false,
        None,
        None,
        Some(false),
        Some(0),
        None,
        None,
        Some(vec![track(1), track(2), track(3)]),
        None,
        Some(9),
        Some("p".to_string()),
        Some(PlaybackTarget::AudioZone { audio_zone_id: 1 }),
        false,
        None,
    )
    .unwrap();
    assert!(!h.playback.as_ref().unwrap().playing);

    h.update_playback(
        true,
        Some(true),
        None,
        None,
        None,
        None,
        None,
        None,
        None,
        None,
        None,
        None,
        true,
        None,
    )
    .unwrap();
    assert!(h.playback.as_ref().unwrap().playing);

    h.run_play_loop(None, None).unwrap();
    assert_eq!(h.player.play_calls, 3);
    assert!(!h.playback.as_ref().unwrap().playing);
    assert_eq!(h.playback.as_ref().unwrap().position, 2);
}

#[test]
fn update_playback_without_state_demands_session_and_profile() {
    let mut h = PlaybackHandler::new(ScriptedPlayer::new(), CountingSleeper::new());
    let r = h.update_playback(
        true, None, None, None, None, None, None, None, None, None, None, None, true, None,
    );
    assert!(matches!(r, Err(PlayerError::MissingSessionId)));
    let r = h.update_playback(
        true,
        None,
        None,
        None,
        None,
        None,
        None,
        None,
        None,
        Some(3),
        None,
        None,
        true,
        None,
    );
    assert!(matches!(r, Err(PlayerError::MissingProfile)));
}

#[test]
fn update_playback_rejects_a_position_outside_the_queue() {
    let mut h = handler_with_tracks(vec![track(1), track(2)]);
    let r = h.update_playback(
        true,
        None,
        None,
        None,
        Some(5),
        None,
        None,
        None,
        None,
        None,
        None,
        None,
        true,
        None,
    );
    assert!(matches!(r, Err(PlayerError::PositionOutOfBounds(5))));
    assert_eq!(h.playback.as_ref().unwrap().position, 0);
}

#[test]
fn pause_fires_when_playing_stops_wanting_sound() {
    let mut h = handler_with_tracks(vec![track(1), track(2)]);
    h.update_playback(
        true,
        None,
        None,
        Some(false),
        None,
        None,
        None,
        None,
        None,
        None,
        None,
        None,
        true,
        None,
    )
    .unwrap();
    assert!(!h.playback.as_ref().unwrap().playing);
    assert_eq!(h.player.pause_calls, 1);
}

#[test]
fn stop_flag_stops_and_clears_playing() {
    let mut h = handler_with_tracks(vec![track(1), track(2)]);
    h.update_playback(
        true,
        None,
        Some(true),
        None,
        None,
        None,
        None,
        None,
        None,
        None,
        None,
        None,
        true,
        None,
    )
    .unwrap();
    assert!(!h.playback.as_ref().unwrap().playing);
    assert_eq!(h.player.stop_calls, 1);
}

#[test]
fn seek_without_new_tracks_drives_the_device_seek() {
    let mut h = handler_with_tracks(vec![track(1), track(2)]);
    h.update_playback(
        true,
        None,
        None,
        None,
        None,
        Some(30_000),
        None,
        None,
        None,
        None,
        None,
        None,
        true,
        None,
    )
    .unwrap();
    assert_eq!(h.player.seek_calls, 1);
    assert_eq!(h.playback.as_ref().unwrap().progress_ms, 30_000);
}

#[test]
fn play_tracks_replaces_the_queue_and_starts() {
    let mut h = handler_with_tracks(vec![track(1)]);
    h.play_tracks(
        42,
        "p2".to_string(),
        vec![track(7), track(8)],
        Some(1),
        None,
        Some(800),
        PlaybackQuality::default(),
        None,
        None,
    )
    .unwrap();
    let p = h.playback.as_ref().unwrap();
    assert_eq!(p.session_id, 42);
    assert_eq!(p.position, 1);
    assert_eq!(p.volume_milli, 800);
    assert!(p.playing);
    assert_eq!(h.player.stop_calls, 1);
}

#[test]
fn same_active_track_judges_by_identifier() {
    let pb = Playback::new(
        vec![track(1), track(2)],
        Some(1),
        1000,
        PlaybackQuality::default(),
        1,
        "p".to_string(),
        None,
    );
    assert!(same_active_track(None, None, &pb));
    assert!(same_active_track(Some(1), None, &pb));
    assert!(!same_active_track(Some(0), None, &pb));
    let same_list = vec![track(1), track(2)];
    assert!(same_active_track(None, Some(&same_list), &pb));
    let renumbered = vec![track(1), track(9)];
    assert!(!same_active_track(None, Some(&renumbered), &pb));
    let moved = vec![track(9), track(2)];
    assert!(same_active_track(Some(1), Some(&moved), &pb));
}

#[test]
fn run_play_loop_surfaces_device_failure_and_stops() {
    let mut h = handler_with_tracks(vec![track(1), track(2)]);
    h.player.fail_first_plays = 10;
    let r = h.run_play_loop(None, None);
    assert!(r.is_err());
    assert!(!h.playback.as_ref().unwrap().playing);
}

#[test]
fn init_from_api_session_adopts_the_persisted_state() {
    let mut h = PlaybackHandler::new(ScriptedPlayer::new(), CountingSleeper::new());
    let session = ApiSession {
        session_id: 31,
        name: "den".to_string(),
        active: true,
        playing: false,
        position: Some(1),
        seek: Some(4_000),
        volume: Some(900),
        playback_target: Some(PlaybackTarget::AudioZone { audio_zone_id: 2 }),
        playlist: ApiSessionPlaylist {
            session_playlist_id: 6,
            tracks: vec![
                SessionPlaylistTrack {
                    id: "100".to_string(),
                    kind: ApiSource::Library,
                    data: None,
                },
                SessionPlaylistTrack {
                    id: "yt-id".to_string(),
                    kind: ApiSource::Yt,
                    data: Some("{}".to_string()),
                },
            ],
        },
    };
    h.init_from_api_session("prof".to_string(), session).unwrap();
    let p = h.playback.as_ref().unwrap();
    assert_eq!(p.session_id, 31);
    assert_eq!(p.position, 1);
    assert_eq!(p.progress_ms, 4_000);
    assert_eq!(p.volume_milli, 900);
    assert!(!p.playing);
    assert_eq!(p.tracks.len(), 2);
    assert_eq!(p.tracks[0].id, Id::Number(100));
    assert_eq!(p.tracks[1].id, Id::String("yt-id".to_string()));
    assert_eq!(p.tracks[1].data, Some("{}".to_string()));
    // no device was touched: this is a passive sync
    assert_eq!(h.player.play_calls, 0);
}

#[test]
fn init_from_api_session_rejects_an_impossible_position() {
    let mut h = PlaybackHandler::new(ScriptedPlayer::new(), CountingSleeper::new());
    let session = ApiSession {
        session_id: 8,
        name: "den".to_string(),
        active: true,
        playing: false,
        position: Some(9),
        seek: None,
        volume: None,
        playback_target: None,
        playlist: ApiSessionPlaylist { session_playlist_id: 1, tracks: Vec::new() },
    };
    let r = h.init_from_api_session("prof".to_string(), session);
    assert!(matches!(r, Err(PlayerError::InvalidSession { session_id: 8, .. })));
}

#[test]
fn resume_path_drives_the_device_resume() {
    let mut h = handler_with_tracks(vec![track(1), track(2)]);
    // pause first
    h.update_playback(
        true, None, None, Some(false), None, None, None, None, None, None, None, None, true, None,
    )
    .unwrap();
    assert_eq!(h.player.pause_calls, 1);
    // then ask for sound again on the same track without a seek
    h.update_playback(
        true, None, None, Some(true), None, None, None, None, None, None, None, None, true, None,
    )
    .unwrap();
    assert_eq!(h.player.resume_calls, 1);
    assert!(h.playback.as_ref().unwrap().playing);
}

#[test]
fn passive_update_fires_no_events_and_no_device_calls() {
    let mut h = handler_with_tracks(vec![track(1)]);
    h.take_events();
    h.update_playback(
        false,
        None,
        None,
        Some(false),
        None,
        None,
        Some(500),
        None,
        None,
        None,
        None,
        None,
        true,
        None,
    )
    .unwrap();
    assert!(h.take_events().is_empty());
    assert_eq!(h.player.pause_calls, 0);
    assert_eq!(h.playback.as_ref().unwrap().volume_milli, 500);
}
