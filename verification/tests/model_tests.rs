use playback_tunnel::events::{
    data_equal, id_str_equal, tracks_equal_for_update, trigger_playback_event,
};
use playback_tunnel::models::{ApiSource, ApiSources, Id, IdType, TrackApiSource};
use playback_tunnel::num::{format_u64, parse, parse_u64, ParseIntError};
use playback_tunnel::paging::Page;
use playback_tunnel::playback::{set_service_port, Playback, PlaybackQuality, Track};
use playback_tunnel::session::{id_to_string, PlaybackTarget, UpdateSession};
use playback_tunnel::playback::AudioFormat;
use playback_tunnel::tidal::{TidalAlbum, TidalArtist};
use playback_tunnel::urls::{build_query_string, track_url_path, track_url_query};

fn track(n: u64) -> Track {
    Track { id: Id::Number(n), source: ApiSource::Library, data: None }
}

fn playback(tracks: Vec<Track>, playing: bool, target: bool) -> Playback {
    let mut p = Playback::new(
        tracks,
        None,
        1000,
        PlaybackQuality::default(),
        5,
        "prof".to_string(),
        if target {
            Some(PlaybackTarget::AudioZone { audio_zone_id: 3 })
        } else {
            None
        },
    );
    p.playing = playing;
    p
}

#[test]
fn no_event_when_nothing_tracked_changed() {
    let a = playback(vec![track(1), track(2)], true, true);
    let b = a.duplicate();
    assert!(trigger_playback_event(&a, &b).is_none());
}

#[test]
fn no_event_without_a_playback_target() {
    let a = playback(vec![track(1)], true, false);
    let mut b = a.duplicate();
    b.playing = false;
    assert!(trigger_playback_event(&a, &b).is_none());
}

#[test]
fn event_carries_exactly_the_changed_fields() {
    let previous = playback(vec![track(1), track(2)], false, true);
    let mut current = previous.duplicate();
    current.playing = true;
    current.position = 1;
    let ev = trigger_playback_event(&current, &previous).unwrap();
    assert_eq!(ev.session_id, 5);
    assert_eq!(ev.profile, "prof");
    assert_eq!(ev.playing, Some(true));
    assert_eq!(ev.position, Some(1));
    assert!(ev.seek.is_none());
    assert!(ev.volume.is_none());
    assert!(ev.quality.is_none());
    assert!(ev.playlist.is_none());
}

#[test]
fn progress_event_fires_only_on_a_new_whole_second() {
    let previous = playback(vec![track(1)], true, true);
    let mut current = previous.duplicate();
    current.progress_ms = 900;
    assert!(trigger_playback_event(&current, &previous).is_none());
    current.progress_ms = 1100;
    let ev = trigger_playback_event(&current, &previous).unwrap();
    assert_eq!(ev.seek, Some(1100));
}

#[test]
fn playlist_event_renders_the_new_queue() {
    let previous = playback(vec![track(1)], true, true);
    let mut current = previous.duplicate();
    current.tracks = vec![track(1), track(9)];
    let ev = trigger_playback_event(&current, &previous).unwrap();
    let pl = ev.playlist.unwrap();
    assert_eq!(pl.session_playlist_id, 0);
    assert_eq!(pl.tracks.len(), 2);
    assert_eq!(pl.tracks[0].id, "1");
    assert_eq!(pl.tracks[1].id, "9");
    assert_eq!(pl.tracks[1].kind, ApiSource::Library);
}

#[test]
fn track_lists_compare_by_rendered_identity() {
    let a = vec![track(1), track(2)];
    let b = vec![track(1), track(2)];
    assert!(tracks_equal_for_update(&a, &b));
    let c = vec![track(1), track(3)];
    assert!(!tracks_equal_for_update(&a, &c));
    let shorter = vec![track(1)];
    assert!(!tracks_equal_for_update(&a, &shorter));

    let numeric = Track { id: Id::Number(5), source: ApiSource::Tidal, data: None };
    let textual = Track { id: Id::String("5".to_string()), source: ApiSource::Tidal, data: None };
    assert!(tracks_equal_for_update(&vec![numeric], &vec![textual]));
}

#[test]
fn id_rendering_and_equality() {
    assert_eq!(id_to_string(&Id::Number(1234)), "1234");
    assert_eq!(id_to_string(&Id::String("abc".to_string())), "abc");
    assert!(id_str_equal(&Id::Number(7), &Id::String("7".to_string())));
    assert!(!id_str_equal(&Id::Number(7), &Id::String("8".to_string())));
    assert!(data_equal(&Some("x".to_string()), &Some("x".to_string())));
    assert!(!data_equal(&Some("x".to_string()), &None));
}

#[test]
fn id_parses_by_service_and_kind() {
    let id = Id::try_from_str("123", ApiSource::Library, IdType::Track).unwrap();
    assert_eq!(id, Id::Number(123));
    let id = Id::try_from_str("abc", ApiSource::Yt, IdType::Track).unwrap();
    assert_eq!(id, Id::String("abc".to_string()));
    let id = Id::try_from_str("qobuz-album", ApiSource::Qobuz, IdType::Album).unwrap();
    assert_eq!(id, Id::String("qobuz-album".to_string()));
    assert!(Id::try_from_str("12a", ApiSource::Tidal, IdType::Track).is_err());
    assert_eq!(Id::from_str("55", ApiSource::Tidal, IdType::Artist), Id::Number(55));
}

#[test]
fn api_sources_record_and_look_up() {
    let mut s = ApiSources::default();
    s.add_source(ApiSource::Tidal, Id::Number(1));
    s.add_source_opt(ApiSource::Qobuz, Some(Id::Number(2)));
    s.add_source_opt(ApiSource::Yt, None);
    assert_eq!(s.get(ApiSource::Tidal), Some(&Id::Number(1)));
    assert_eq!(s.get(ApiSource::Qobuz), Some(&Id::Number(2)));
    assert_eq!(s.get(ApiSource::Yt), None);
    s.remove_source(ApiSource::Tidal);
    assert_eq!(s.get(ApiSource::Tidal), None);
    let s = ApiSources::default()
        .with_source(ApiSource::Library, Id::Number(9))
        .with_source_opt(ApiSource::Tidal, None);
    assert_eq!(s.get(ApiSource::Library), Some(&Id::Number(9)));
    assert_eq!(s.get(ApiSource::Tidal), None);
}

#[test]
fn source_conversions() {
    assert_eq!(ApiSource::from(TrackApiSource::Local), ApiSource::Library);
    assert_eq!(ApiSource::from(TrackApiSource::Tidal), ApiSource::Tidal);
    assert_eq!(TrackApiSource::default(), TrackApiSource::Local);
}

#[test]
fn decimal_parsing_and_formatting() {
    assert_eq!(format_u64(0), "0");
    assert_eq!(format_u64(90210), "90210");
    assert_eq!(format_u64(u64::MAX), "18446744073709551615");
    assert_eq!(parse_u64("0"), Some(0));
    assert_eq!(parse_u64("18446744073709551615"), Some(u64::MAX));
    assert_eq!(parse_u64("18446744073709551616"), None);
    assert_eq!(parse_u64(""), None);
    assert_eq!(parse_u64("12x"), None);

    assert_eq!(parse("64000"), Ok(64000usize));
    assert!(matches!(parse("12a"), Err(ParseIntError::InvalidDigit)));
}

#[test]
fn page_accessors_and_has_more() {
    let p: Page<u8> = Page::WithTotal { items: vec![1, 2, 3], offset: 0, limit: 3, total: 7 };
    assert_eq!(p.offset(), 0);
    assert_eq!(p.limit(), 3);
    assert_eq!(p.total(), Some(7));
    assert!(p.has_more());
    assert_eq!(p.items(), vec![1, 2, 3]);

    let p: Page<u8> = Page::WithTotal { items: vec![1, 2, 3], offset: 4, limit: 3, total: 7 };
    assert!(!p.has_more());

    let p: Page<u8> = Page::WithHasMore { items: vec![], offset: 0, limit: 10, has_more: true };
    assert!(p.has_more());
    assert_eq!(p.total(), None);
}

#[test]
fn tidal_artwork_addresses() {
    let album = TidalAlbum { cover: "ab-cd-ef".to_string(), ..TidalAlbum::default() };
    assert_eq!(
        album.cover_url(640),
        "https://resources.tidal.com/images/ab/cd/ef/640x640.jpg"
    );
    let artist = TidalArtist { picture: Some("x-y".to_string()), ..TidalArtist::default() };
    assert_eq!(
        artist.picture_url(80).unwrap(),
        "https://resources.tidal.com/images/x/y/80x80.jpg"
    );
    let faceless = TidalArtist::default();
    assert!(faceless.picture_url(80).is_none());
}

#[test]
fn service_port_is_recorded() {
    let mut port: Option<u16> = None;
    set_service_port(&mut port, 8001);
    assert_eq!(port, Some(8001));
    set_service_port(&mut port, 8002);
    assert_eq!(port, Some(8002));
}

#[test]
fn playback_updated_reports_any_playback_field() {
    let base = UpdateSession {
        session_id: 1,
        profile: "p".to_string(),
        playback_target: PlaybackTarget::AudioZone { audio_zone_id: 1 },
        play: None,
        stop: None,
        name: None,
        active: None,
        playing: None,
        position: None,
        seek: None,
        volume: None,
        playlist: None,
        quality: None,
    };
    assert!(!base.playback_updated());
    let mut with_name = base.clone();
    with_name.name = Some("renamed".to_string());
    assert!(!with_name.playback_updated());
    let mut with_seek = base.clone();
    with_seek.seek = Some(1);
    assert!(with_seek.playback_updated());
}

#[test]
fn track_query_building() {
    let pairs = track_url_query(
        &vec![("zone".to_string(), "a b".to_string())],
        &Id::Number(42),
        ApiSource::Library,
        &Some("main profile".to_string()),
        AudioFormat::Flac,
    );
    assert_eq!(pairs.len(), 5);
    assert_eq!(pairs[0], ("zone".to_string(), "a b".to_string()));
    assert_eq!(pairs[1], ("trackId".to_string(), "42".to_string()));
    assert_eq!(pairs[2], ("source".to_string(), "LIBRARY".to_string()));
    assert_eq!(pairs[3], ("moosicboxProfile".to_string(), "main profile".to_string()));
    assert_eq!(pairs[4], ("format".to_string(), "FLAC".to_string()));

    let q = build_query_string(&pairs);
    assert_eq!(
        q,
        "zone=a%20b&trackId=42&source=LIBRARY&moosicboxProfile=main%20profile&format=FLAC"
    );
    let url = track_url_path("http://127.0.0.1:8000", ApiSource::Library, &q);
    assert_eq!(
        url,
        "http://127.0.0.1:8000/files/track?zone=a%20b&trackId=42&source=LIBRARY&moosicboxProfile=main%20profile&format=FLAC"
    );

    let tidal = track_url_query(&Vec::new(), &Id::Number(9), ApiSource::Tidal, &None, AudioFormat::Source);
    assert_eq!(tidal.last().unwrap(), &("audioQuality".to_string(), "HIGH".to_string()));
    let url = track_url_path("h", ApiSource::Tidal, "q=1");
    assert_eq!(url, "h/tidal/track/url?q=1");
}
