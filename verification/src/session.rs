//! Session models: the state a listening session persists and the
//! delta messages that announce changes to it.

use vstd::prelude::*;
use crate::models::ApiSource;
use crate::playback::PlaybackQuality;
use crate::num::{dec_str, format_u64};
use crate::models::Id;

verus! {

/// Where a session's audio is routed: an audio zone, or one output of
/// one connection.
#[derive(Debug)]
pub enum PlaybackTarget {
    AudioZone { audio_zone_id: u64 },
    ConnectionOutput { connection_id: String, output_id: String },
}

/// Mathematical equality of two playback targets.
pub open spec fn target_eq(a: &PlaybackTarget, b: &PlaybackTarget) -> bool {
    match (a, b) {
        (
            PlaybackTarget::AudioZone { audio_zone_id: x },
            PlaybackTarget::AudioZone { audio_zone_id: y },
        ) => x == y,
        (
            PlaybackTarget::ConnectionOutput { connection_id: xc, output_id: xo },
            PlaybackTarget::ConnectionOutput { connection_id: yc, output_id: yo },
        ) => xc@ == yc@ && xo@ == yo@,
        _ => false,
    }
}

impl Clone for PlaybackTarget {
    fn clone(&self) -> (r: Self)
        ensures
            r == *self,
    {
        match self {
            PlaybackTarget::AudioZone { audio_zone_id } => PlaybackTarget::AudioZone {
                audio_zone_id: *audio_zone_id,
            },
            PlaybackTarget::ConnectionOutput { connection_id, output_id } =>
                PlaybackTarget::ConnectionOutput {
                connection_id: connection_id.clone(),
                output_id: output_id.clone(),
            },
        }
    }
}

/// One track of a session-update playlist: the identifier as text, the
/// service it plays from, and its metadata kept verbatim.
#[derive(Debug)]
pub struct UpdateSessionPlaylistTrack {
    pub id: String,
    pub kind: ApiSource,
    pub data: Option<String>,
}

impl Clone for UpdateSessionPlaylistTrack {
    fn clone(&self) -> (r: Self)
        ensures
            r == *self,
    {
        UpdateSessionPlaylistTrack {
            id: self.id.clone(),
            kind: self.kind,
            data: match &self.data {
                Some(d) => Some(d.clone()),
                None => None,
            },
        }
    }
}

/// Mathematical equality of two update-playlist tracks.
pub open spec fn update_track_eq(
    a: &UpdateSessionPlaylistTrack,
    b: &UpdateSessionPlaylistTrack,
) -> bool {
    &&& a.id@ == b.id@
    &&& a.kind == b.kind
    &&& match (&a.data, &b.data) {
        (Some(x), Some(y)) => x@ == y@,
        (None, None) => true,
        _ => false,
    }
}

/// The playlist part of a session update.
#[derive(Debug)]
pub struct UpdateSessionPlaylist {
    pub session_playlist_id: u64,
    pub tracks: Vec<UpdateSessionPlaylistTrack>,
}

impl Clone for UpdateSessionPlaylist {
    fn clone(&self) -> (r: Self)
        ensures
            r.session_playlist_id == self.session_playlist_id,
            r.tracks@ == self.tracks@,
    {
        UpdateSessionPlaylist {
            session_playlist_id: self.session_playlist_id,
            tracks: clone_update_tracks(&self.tracks),
        }
    }
}

/// Copies a list of update-playlist tracks.
pub fn clone_update_tracks(tracks: &Vec<UpdateSessionPlaylistTrack>) -> (r: Vec<
    UpdateSessionPlaylistTrack,
>)
    ensures
        r@ == tracks@,
{
    let mut out: Vec<UpdateSessionPlaylistTrack> = Vec::new();
    let mut i: usize = 0;
    proof {
        assert(tracks@.take(0) =~= Seq::<UpdateSessionPlaylistTrack>::empty());
        assert(out@ =~= tracks@.take(0));
    }
    while i < tracks.len()
        invariant
            0 <= i <= tracks.len(),
            out@ == tracks@.take(i as int),
        decreases tracks.len() - i,
    {
        out.push(tracks[i].clone());
        proof {
            assert(tracks@.take(i as int + 1).drop_last() =~= tracks@.take(i as int));
            assert(out@ =~= tracks@.take(i as int + 1));
        }
        i = i + 1;
    }
    proof {
        assert(tracks@.take(tracks@.len() as int) =~= tracks@);
    }
    out
}

/// Whether two update-playlist track lists agree entry by entry.
pub fn update_tracks_equal(
    a: &Vec<UpdateSessionPlaylistTrack>,
    b: &Vec<UpdateSessionPlaylistTrack>,
) -> (r: bool)
    ensures
        r <==> (a@.len() == b@.len() && (forall|i: int|
            0 <= i < a@.len() ==> update_track_eq(&a@[i], &b@[i]))),
{
    if a.len() != b.len() {
        return false;
    }
    let mut i: usize = 0;
    while i < a.len()
        invariant
            0 <= i <= a.len(),
            a@.len() == b@.len(),
            forall|j: int| 0 <= j < i ==> update_track_eq(&a@[j], &b@[j]),
        decreases a.len() - i,
    {
        let ta = &a[i];
        let tb = &b[i];
        if !ta.id.eq(&tb.id) {
            return false;
        }
        if !crate::models::source_eq(ta.kind, tb.kind) {
            return false;
        }
        let data_same = match (&ta.data, &tb.data) {
            (Some(x), Some(y)) => x.eq(y),
            (None, None) => true,
            _ => false,
        };
        if !data_same {
            return false;
        }
        assert(update_track_eq(&a@[i as int], &b@[i as int]));
        i = i + 1;
    }
    true
}

/// A delta describing what changed about one session.  Absent fields
/// did not change.
#[derive(Debug)]
pub struct UpdateSession {
    pub session_id: u64,
    pub profile: String,
    pub playback_target: PlaybackTarget,
    pub play: Option<bool>,
    pub stop: Option<bool>,
    pub name: Option<String>,
    pub active: Option<bool>,
    pub playing: Option<bool>,
    pub position: Option<u16>,
    pub seek: Option<u64>,
    pub volume: Option<u64>,
    pub playlist: Option<UpdateSessionPlaylist>,
    pub quality: Option<PlaybackQuality>,
}

impl Clone for UpdateSession {
    fn clone(&self) -> (r: Self)
        ensures
            r.session_id == self.session_id,
            r.profile@ == self.profile@,
            r.playback_target == self.playback_target,
            r.play == self.play,
            r.stop == self.stop,
            r.active == self.active,
            r.playing == self.playing,
            r.position == self.position,
            r.seek == self.seek,
            r.volume == self.volume,
            r.quality == self.quality,
    {
        UpdateSession {
            session_id: self.session_id,
            profile: self.profile.clone(),
            playback_target: self.playback_target.clone(),
            play: self.play,
            stop: self.stop,
            name: match &self.name {
                Some(n) => Some(n.clone()),
                None => None,
            },
            active: self.active,
            playing: self.playing,
            position: self.position,
            seek: self.seek,
            volume: self.volume,
            playlist: match &self.playlist {
                Some(p) => Some(p.clone()),
                None => None,
            },
            quality: self.quality,
        }
    }
}

impl UpdateSession {
    /// Whether the delta touches playback at all, as opposed to only
    /// renaming the session.
    pub fn playback_updated(&self) -> (r: bool)
        ensures
            r == (self.play is Some || self.stop is Some || self.active is Some
                || self.playing is Some || self.position is Some || self.volume is Some
                || self.seek is Some || self.playlist is Some),
    {
        self.play.is_some() || self.stop.is_some() || self.active.is_some()
            || self.playing.is_some() || self.position.is_some() || self.volume.is_some()
            || self.seek.is_some() || self.playlist.is_some()
    }
}

/// One track of a persisted session playlist.
#[derive(Debug)]
pub struct SessionPlaylistTrack {
    pub id: String,
    pub kind: ApiSource,
    pub data: Option<String>,
}

impl Clone for SessionPlaylistTrack {
    fn clone(&self) -> (r: Self)
        ensures
            r == *self,
    {
        SessionPlaylistTrack {
            id: self.id.clone(),
            kind: self.kind,
            data: match &self.data {
                Some(d) => Some(d.clone()),
                None => None,
            },
        }
    }
}

/// A persisted session playlist.
#[derive(Debug)]
pub struct SessionPlaylist {
    pub id: u64,
    pub tracks: Vec<SessionPlaylistTrack>,
}

/// A persisted listening session.
#[derive(Debug)]
pub struct Session {
    pub id: u64,
    pub name: String,
    pub active: bool,
    pub playing: bool,
    pub position: Option<u16>,
    pub seek: Option<u64>,
    pub volume: Option<u64>,
    pub playback_target: Option<PlaybackTarget>,
    pub playlist: SessionPlaylist,
}

/// The outward-facing snapshot of a session playlist.
#[derive(Debug)]
pub struct ApiSessionPlaylist {
    pub session_playlist_id: u64,
    pub tracks: Vec<SessionPlaylistTrack>,
}

/// The outward-facing snapshot of a session.
#[derive(Debug)]
pub struct ApiSession {
    pub session_id: u64,
    pub name: String,
    pub active: bool,
    pub playing: bool,
    pub position: Option<u16>,
    pub seek: Option<u64>,
    pub volume: Option<u64>,
    pub playback_target: Option<PlaybackTarget>,
    pub playlist: ApiSessionPlaylist,
}

/// Chooses an audio zone for a session.
#[derive(Clone, Debug, Default)]
pub struct SetSessionAudioZone {
    pub session_id: u64,
    pub audio_zone_id: u64,
}

/// Asks for a new session with an initial playlist.
#[derive(Clone, Debug, Default)]
pub struct CreateSession {
    pub name: String,
    pub audio_zone_id: Option<u64>,
    pub playlist: CreateSessionPlaylist,
}

/// The initial playlist of a new session, by track number.
#[derive(Clone, Debug, Default)]
pub struct CreateSessionPlaylist {
    pub tracks: Vec<u64>,
}

/// Asks for a session to be removed.
#[derive(Clone, Copy, Debug, Default)]
pub struct DeleteSession {
    pub session_id: u64,
}

/// Announces a connection and the players it offers.
#[derive(Clone, Debug, Default)]
pub struct RegisterConnection {
    pub connection_id: String,
    pub name: String,
    pub players: Vec<RegisterPlayer>,
}

/// Announces one player behind a connection.
#[derive(Clone, Debug, Default)]
pub struct RegisterPlayer {
    pub audio_output_id: String,
    pub name: String,
}

/// The text an identifier renders as.
pub open spec fn id_str(id: &Id) -> Seq<char> {
    match id {
        Id::String(s) => s@,
        Id::Number(n) => dec_str(*n as nat),
    }
}

/// Renders an identifier as text: numbers in decimal, text verbatim.
pub fn id_to_string(id: &Id) -> (r: String)
    ensures
        r@ == id_str(id),
{
    match id {
        Id::String(s) => s.clone(),
        Id::Number(n) => format_u64(*n),
    }
}

} // verus!
