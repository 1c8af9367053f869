//! Change detection: diffing a playback against its previous state and
//! building the session-update event that announces the change.
//!
//! Two hard rules protect subscribers from event storms: nothing fires
//! when no tracked field changed, and nothing fires for a playback
//! without a routable target.

use vstd::prelude::*;
use crate::playback::{Playback, Track};
use crate::models::Id;
use crate::session::{
    id_str, id_to_string, PlaybackTarget, UpdateSession, UpdateSessionPlaylist,
    UpdateSessionPlaylistTrack,
};
use crate::num::{format_u64, lemma_dec_str_val};

verus! {

/// Two progress readings count as equal when they fall in the same
/// whole second.
pub open spec fn same_progress_second(a: u64, b: u64) -> bool {
    a as int / 1000 == b as int / 1000
}

/// Whether two optional metadata blobs read the same.
pub open spec fn opt_data_eq(a: &Option<String>, b: &Option<String>) -> bool {
    match (a, b) {
        (Some(x), Some(y)) => x@ == y@,
        (None, None) => true,
        _ => false,
    }
}

/// Two queue tracks are the same for event purposes when they render to
/// the same update-track: same identifier text, service and metadata.
pub open spec fn track_update_eq(a: &Track, b: &Track) -> bool {
    &&& id_str(&a.id) == id_str(&b.id)
    &&& a.source == b.source
    &&& opt_data_eq(&a.data, &b.data)
}

/// Entry-by-entry equality of two queues, for event purposes.
pub open spec fn tracks_update_eq(a: Seq<Track>, b: Seq<Track>) -> bool {
    &&& a.len() == b.len()
    &&& forall|i: int| 0 <= i < a.len() ==> track_update_eq(&a[i], &b[i])
}

/// The update-track list `u` renders the queue `t`.
pub open spec fn is_update_tracks_of(u: Seq<UpdateSessionPlaylistTrack>, t: Seq<Track>) -> bool {
    &&& u.len() == t.len()
    &&& forall|i: int|
        0 <= i < t.len() ==> (#[trigger] u[i]).id@ == id_str(&t[i].id) && u[i].kind == t[i].source
            && opt_data_eq(&u[i].data, &t[i].data)
}

/// No tracked field differs between a playback and its previous state.
pub open spec fn no_tracked_change(current: &Playback, previous: &Playback) -> bool {
    &&& current.playing == previous.playing
    &&& current.position == previous.position
    &&& same_progress_second(current.progress_ms, previous.progress_ms)
    &&& current.volume_milli == previous.volume_milli
    &&& current.quality == previous.quality
    &&& tracks_update_eq(current.tracks@, previous.tracks@)
}

/// Whether two identifiers render to the same text.
pub fn id_str_equal(a: &Id, b: &Id) -> (r: bool)
    ensures
        r == (id_str(a) == id_str(b)),
{
    match (a, b) {
        (Id::Number(x), Id::Number(y)) => {
            proof {
                lemma_dec_str_val(*x as nat);
                lemma_dec_str_val(*y as nat);
            }
            *x == *y
        },
        (Id::String(x), Id::String(y)) => x.eq(y),
        (Id::Number(x), Id::String(s)) => format_u64(*x).eq(s),
        (Id::String(s), Id::Number(y)) => s.eq(&format_u64(*y)),
    }
}

/// Whether two optional metadata blobs read the same.
pub fn data_equal(a: &Option<String>, b: &Option<String>) -> (r: bool)
    ensures
        r == opt_data_eq(a, b),
{
    match (a, b) {
        (Some(x), Some(y)) => x.eq(y),
        (None, None) => true,
        _ => false,
    }
}

/// Whether two queues render to the same update-track list.
pub fn tracks_equal_for_update(a: &Vec<Track>, b: &Vec<Track>) -> (r: bool)
    ensures
        r == tracks_update_eq(a@, b@),
{
    if a.len() != b.len() {
        return false;
    }
    let mut i: usize = 0;
    while i < a.len()
        invariant
            0 <= i <= a.len(),
            a@.len() == b@.len(),
            forall|j: int| 0 <= j < i ==> track_update_eq(&a@[j], &b@[j]),
        decreases a.len() - i,
    {
        let ta = &a[i];
        let tb = &b[i];
        if !id_str_equal(&ta.id, &tb.id) {
            return false;
        }
        if !crate::models::source_eq(ta.source, tb.source) {
            return false;
        }
        if !data_equal(&ta.data, &tb.data) {
            return false;
        }
        assert(track_update_eq(&a@[i as int], &b@[i as int]));
        i = i + 1;
    }
    true
}

/// Renders one queue track as an update-track.
pub fn track_to_update(t: &Track) -> (r: UpdateSessionPlaylistTrack)
    ensures
        r.id@ == id_str(&t.id),
        r.kind == t.source,
        opt_data_eq(&r.data, &t.data),
{
    UpdateSessionPlaylistTrack {
        id: id_to_string(&t.id),
        kind: t.source,
        data: match &t.data {
            Some(d) => Some(d.clone()),
            None => None,
        },
    }
}

/// Renders a whole queue as an update-track list.
pub fn tracks_to_update(tracks: &Vec<Track>) -> (r: Vec<UpdateSessionPlaylistTrack>)
    ensures
        is_update_tracks_of(r@, tracks@),
{
    let mut out: Vec<UpdateSessionPlaylistTrack> = Vec::new();
    let mut i: usize = 0;
    while i < tracks.len()
        invariant
            0 <= i <= tracks.len(),
            out@.len() == i,
            forall|j: int|
                0 <= j < i ==> (#[trigger] out@[j]).id@ == id_str(&tracks@[j].id) && out@[j].kind
                    == tracks@[j].source && opt_data_eq(&out@[j].data, &tracks@[j].data),
        decreases tracks.len() - i,
    {
        out.push(track_to_update(&tracks[i]));
        i = i + 1;
    }
    out
}

/// What the event announcing the change from `previous` to `current`
/// holds: the session, profile and target are always named; every other
/// field is present exactly when it changed, carrying the new value.
pub open spec fn is_diff_event(u: &UpdateSession, current: &Playback, previous: &Playback) -> bool {
    &&& u.session_id == current.session_id
    &&& u.profile@ == current.profile@
    &&& current.playback_target matches Some(t) && u.playback_target == t
    &&& u.play is None
    &&& u.stop is None
    &&& u.name is None
    &&& u.active is None
    &&& u.playing == (if current.playing != previous.playing {
        Some(current.playing)
    } else {
        Option::<bool>::None
    })
    &&& u.position == (if current.position != previous.position {
        Some(current.position)
    } else {
        Option::<u16>::None
    })
    &&& u.seek == (if !same_progress_second(current.progress_ms, previous.progress_ms) {
        Some(current.progress_ms)
    } else {
        Option::<u64>::None
    })
    &&& u.volume == (if current.volume_milli != previous.volume_milli {
        Some(current.volume_milli)
    } else {
        Option::<u64>::None
    })
    &&& u.quality == (if current.quality != previous.quality {
        Some(current.quality)
    } else {
        Option::<crate::playback::PlaybackQuality>::None
    })
    &&& match &u.playlist {
        Some(pl) => !tracks_update_eq(current.tracks@, previous.tracks@)
            && pl.session_playlist_id == 0 && is_update_tracks_of(pl.tracks@, current.tracks@),
        None => tracks_update_eq(current.tracks@, previous.tracks@),
    }
}

/// Diffs a playback against its previous state and builds the event the
/// change deserves.
///
/// No event fires when the playback has no target to route it to, nor
/// when no tracked field changed; otherwise the event carries exactly
/// the changed fields, beside the session, profile and target that every
/// event names.
pub fn trigger_playback_event(current: &Playback, previous: &Playback) -> (r: Option<
    UpdateSession,
>)
    ensures
        r is None <==> (current.playback_target is None || no_tracked_change(current, previous)),
        r matches Some(u) ==> is_diff_event(&u, current, previous),
{
    let playback_target = match &current.playback_target {
        Some(t) => t.clone(),
        None => {
            return None;
        },
    };

    let playing = if current.playing != previous.playing {
        Some(current.playing)
    } else {
        None
    };
    let position = if current.position != previous.position {
        Some(current.position)
    } else {
        None
    };
    let seek = if current.progress_ms / 1000 != previous.progress_ms / 1000 {
        Some(current.progress_ms)
    } else {
        None
    };
    let volume = if current.volume_milli != previous.volume_milli {
        Some(current.volume_milli)
    } else {
        None
    };
    let quality = if current.quality != previous.quality {
        Some(current.quality)
    } else {
        None
    };
    let playlist = if !tracks_equal_for_update(&current.tracks, &previous.tracks) {
        Some(
            UpdateSessionPlaylist {
                session_playlist_id: 0,
                tracks: tracks_to_update(&current.tracks),
            },
        )
    } else {
        None
    };

    let has_change = playing.is_some() || position.is_some() || seek.is_some() || volume.is_some()
        || quality.is_some() || playlist.is_some();
    if !has_change {
        return None;
    }

    Some(
        UpdateSession {
            session_id: current.session_id,
            profile: current.profile.clone(),
            playback_target,
            play: None,
            stop: None,
            name: None,
            active: None,
            playing,
            position,
            seek,
            volume,
            playlist,
            quality,
        },
    )
}

} // verus!
