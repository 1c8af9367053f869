//! The playback entity and its companions: formats, qualities, errors.
//!
//! Time is carried as whole milliseconds and volume as thousandths of the
//! nominal full level, so that every comparison the state machine makes is
//! exact.

use vstd::prelude::*;
use crate::models::Id;

verus! {

/// An audio container format.
#[derive(Clone, Copy, Debug, PartialEq, Eq, Structural, Default)]
pub enum AudioFormat {
    Aac,
    Flac,
    Mp3,
    Opus,
    #[default]
    Source,
}

/// The output quality a playback was asked for.
#[derive(Clone, Copy, Debug, PartialEq, Eq, Structural, Default)]
pub struct PlaybackQuality {
    pub format: AudioFormat,
}

/// How a track's bytes are obtained.
#[derive(Clone, Copy, Debug, PartialEq, Eq, Structural, Default)]
pub enum PlaybackType {
    File,
    Stream,
    #[default]
    Default,
}

/// How often and how fast a failed device action is retried.
#[derive(Clone, Copy, Debug, PartialEq, Eq, Structural)]
pub struct PlaybackRetryOptions {
    pub max_attempts: u32,
    pub retry_delay_ms: u64,
}

/// The retry policy for seek commands.
pub fn default_seek_retry_options() -> (r: PlaybackRetryOptions)
    ensures
        r == (PlaybackRetryOptions { max_attempts: 10, retry_delay_ms: 100 }),
{
    PlaybackRetryOptions { max_attempts: 10, retry_delay_ms: 100 }
}

/// The retry policy for ordinary playback commands.
pub fn default_playback_retry_options() -> (r: PlaybackRetryOptions)
    ensures
        r == (PlaybackRetryOptions { max_attempts: 10, retry_delay_ms: 500 }),
{
    PlaybackRetryOptions { max_attempts: 10, retry_delay_ms: 500 }
}

/// Where a player reaches its service: this machine, or a remote host.
#[derive(Clone, Debug)]
pub enum PlayerSource {
    Local,
    Remote {
        host: String,
        query: Vec<(String, String)>,
        headers: Vec<(String, String)>,
    },
}

/// The verdict a playback command reports outward.
#[derive(Clone, Copy, Debug)]
pub struct PlaybackStatus {
    pub success: bool,
}

/// Everything that can go wrong while driving a playback.
#[derive(Clone, Debug)]
pub enum PlayerError {
    UnsupportedFormat(AudioFormat),
    TrackFetchFailed(String),
    AlbumFetchFailed(Id),
    TrackNotFound(Id),
    TrackNotLocal(Id),
    Seek(String),
    NoPlayersPlaying,
    PositionOutOfBounds(u32),
    NoAudioOutputs,
    PlaybackNotPlaying(u64),
    PlaybackAlreadyPlaying(u64),
    InvalidPlaybackType,
    InvalidState,
    InvalidSource,
    RetryRequested,
    Cancelled,
    InvalidSession { session_id: u64, message: String },
    MissingSessionId,
    MissingProfile,
}

impl PlayerError {
    /// Whether this error is the cancellation signal, which is never retried.
    pub fn is_cancelled(&self) -> (r: bool)
        ensures
            r == (self is Cancelled),
    {
        match self {
            PlayerError::Cancelled => true,
            _ => false,
        }
    }
}

/// A track as a playback queue holds it: the identifier, the service it
/// plays from, and whatever metadata the service attached, kept verbatim.
#[derive(Debug)]
pub struct Track {
    pub id: Id,
    pub source: crate::models::ApiSource,
    pub data: Option<String>,
}

/// Compares two identifiers for equality.
pub fn id_equal(a: &Id, b: &Id) -> (r: bool)
    ensures
        r == crate::models::id_eq_spec(a, b),
{
    match (a, b) {
        (Id::String(x), Id::String(y)) => x.eq(y),
        (Id::Number(x), Id::Number(y)) => *x == *y,
        _ => false,
    }
}

impl Clone for Track {
    fn clone(&self) -> (r: Self)
        ensures
            r == *self,
    {
        Track {
            id: self.id.clone(),
            source: self.source,
            data: match &self.data {
                Some(d) => Some(d.clone()),
                None => None,
            },
        }
    }
}

/// Copies a track list.
pub fn clone_tracks(tracks: &Vec<Track>) -> (r: Vec<Track>)
    ensures
        r@ == tracks@,
{
    let mut out: Vec<Track> = Vec::new();
    let mut i: usize = 0;
    proof {
        assert(out@ =~= tracks@.take(0));
    }
    while i < tracks.len()
        invariant
            0 <= i <= tracks.len(),
            out@ == tracks@.take(i as int),
        decreases tracks.len() - i,
    {
        out.push(tracks[i].clone());
        proof {
            assert(out@ =~= tracks@.take(i as int + 1));
        }
        i = i + 1;
    }
    proof {
        assert(tracks@.take(tracks@.len() as int) =~= tracks@);
    }
    out
}

/// One active playback: the queue of tracks, where in it the session
/// stands, and how loud and in what quality it plays.
#[derive(Debug)]
pub struct Playback {
    /// Opaque random handle, fresh for each new playback.
    pub id: u64,
    /// The persisted session this playback belongs to.
    pub session_id: u64,
    /// The configuration namespace the session lives in.
    pub profile: String,
    /// Play order; replaced wholesale on update, never reordered in place.
    pub tracks: Vec<Track>,
    pub playing: bool,
    /// Index of the active track.
    pub position: u16,
    pub quality: PlaybackQuality,
    /// Milliseconds elapsed in the active track.
    pub progress_ms: u64,
    /// Thousandths of nominal full volume.
    pub volume_milli: u64,
    /// Where events about this playback are routed; without one, no
    /// event fires.
    pub playback_target: Option<crate::session::PlaybackTarget>,
    /// Cancellation handle: replaced when a cancelled playback restarts,
    /// kept across pause and resume.
    pub abort: tokio_util::sync::CancellationToken,
}

/// The position index stays inside the track list: exact when tracks
/// exist, and pinned to zero when the list is empty.
pub open spec fn playback_wf(p: &Playback) -> bool {
    if p.tracks@.len() == 0 {
        p.position == 0
    } else {
        (p.position as int) < p.tracks@.len()
    }
}

impl Playback {
    /// Starts a fresh playback description, not yet playing, with a new
    /// cancellation handle and a new random identity.
    pub fn new(
        tracks: Vec<Track>,
        position: Option<u16>,
        volume_milli: u64,
        quality: PlaybackQuality,
        session_id: u64,
        profile: String,
        playback_target: Option<crate::session::PlaybackTarget>,
    ) -> (r: Playback)
        requires
            position matches Some(p) ==> (p as int) < tracks@.len() || (tracks@.len() == 0 && p
                == 0),
        ensures
            playback_wf(&r),
            r.session_id == session_id,
            r.profile@ == profile@,
            r.tracks@ == tracks@,
            !r.playing,
            r.position == (match position {
                Some(p) => p,
                None => 0u16,
            }),
            r.quality == quality,
            r.progress_ms == 0,
            r.volume_milli == volume_milli,
            r.playback_target == playback_target,
    {
        Playback {
            id: crate::random::random_u64(),
            session_id,
            profile,
            tracks,
            playing: false,
            position: match position {
                Some(p) => p,
                None => 0,
            },
            quality,
            progress_ms: 0,
            volume_milli,
            playback_target,
            abort: crate::cancel::new_token(),
        }
    }

    /// Copies the playback; the copy shares the same cancellation flag.
    pub fn duplicate(&self) -> (r: Playback)
        ensures
            r.id == self.id,
            r.session_id == self.session_id,
            r.profile@ == self.profile@,
            r.tracks@ == self.tracks@,
            r.playing == self.playing,
            r.position == self.position,
            r.quality == self.quality,
            r.progress_ms == self.progress_ms,
            r.volume_milli == self.volume_milli,
            r.playback_target == self.playback_target,
    {
        Playback {
            id: self.id,
            session_id: self.session_id,
            profile: self.profile.clone(),
            tracks: clone_tracks(&self.tracks),
            playing: self.playing,
            position: self.position,
            quality: self.quality,
            progress_ms: self.progress_ms,
            volume_milli: self.volume_milli,
            playback_target: match &self.playback_target {
                Some(t) => Some(t.clone()),
                None => None,
            },
            abort: crate::cancel::clone_token(&self.abort),
        }
    }
}

/// Records the port the local file service listens on; later track
/// address lookups read it from here.
pub fn set_service_port(current: &mut Option<u16>, service_port: u16)
    ensures
        *final(current) == Some(service_port),
{
    *current = Some(service_port);
}

} // verus!
