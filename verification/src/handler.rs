//! The playback handler: one authoritative state machine per session.
//!
//! Commands mutate the logical [`Playback`] first, so concurrent readers
//! immediately see the intended state; only then is the physical device
//! driven to match, through the [`Player`] capability, with a bounded
//! retry policy.  Every observable change appends one session-update
//! event, which the caller drains and delivers.

use vstd::prelude::*;
use crate::playback::{
    Playback, PlaybackQuality, PlaybackRetryOptions, PlayerError, PlayerSource, Track,
};
use crate::session::{PlaybackTarget, SessionPlaylistTrack, UpdateSession};
use crate::models::{id_eq_spec, Id};

verus! {

/// What one playback reports outward.
#[derive(Debug)]
pub struct ApiPlayback {
    pub track_ids: Vec<String>,
    pub playing: bool,
    pub position: u16,
    pub seek: u64,
}

/// The playbacks a player is currently driving.
#[derive(Debug)]
pub struct ApiPlaybackStatus {
    pub active_playbacks: Option<ApiPlayback>,
}

/// The capability a playback handler drives.  Implementations wrap a
/// concrete device: the local audio output, a remote zone, or a relay.
/// Each call blocks until the device has carried the action out —
/// `trigger_play` until the track finished — and surfaces failures as
/// [`PlayerError`] values rather than panicking.  Calls must stay safe
/// under retry: triggering a stop twice must not corrupt anything.
pub trait Player {
    /// Hook run before a playback starts.
    fn before_play_playback(&mut self, seek: Option<u64>) -> Result<(), PlayerError>;

    /// Plays the active track, from `seek` milliseconds in when given.
    fn trigger_play(&mut self, seek: Option<u64>) -> Result<(), PlayerError>;

    fn trigger_stop(&mut self) -> Result<(), PlayerError>;

    fn trigger_seek(&mut self, seek_ms: u64) -> Result<(), PlayerError>;

    fn trigger_pause(&mut self) -> Result<(), PlayerError>;

    fn trigger_resume(&mut self) -> Result<(), PlayerError>;

    fn player_status(&self) -> Result<ApiPlaybackStatus, PlayerError>;

    fn get_source(&self) -> &PlayerSource;
}

/// Waits out retry delays.  Implementations sleep; tests count.
pub trait Sleeper {
    fn sleep_millis(&mut self, millis: u64);
}

/// One device action a handler can ask for.
#[derive(Clone, Copy, Debug)]
pub enum PlayerAction {
    Play { seek: Option<u64> },
    Stop,
    Seek { seek_ms: u64 },
    Pause,
    Resume,
}

/// What the retry policy says after a failed attempt.
#[derive(Clone, Copy, Debug, PartialEq, Eq, Structural)]
pub enum RetryDecision {
    ReturnError,
    SleepAndRetry { delay_ms: u64 },
}

/// The whole retry policy in one place: a cancellation is never retried;
/// without retry options one attempt is all there is; otherwise failed
/// attempts are retried after the configured delay until the attempt
/// budget is spent.
pub fn retry_decision(
    cancelled: bool,
    retry_options: Option<PlaybackRetryOptions>,
    attempts_made: u32,
) -> (r: RetryDecision)
    ensures
        cancelled ==> r is ReturnError,
        !cancelled ==> r == (match retry_options {
            Some(o) => if attempts_made < o.max_attempts {
                RetryDecision::SleepAndRetry { delay_ms: o.retry_delay_ms }
            } else {
                RetryDecision::ReturnError
            },
            None => RetryDecision::ReturnError,
        }),
{
    if cancelled {
        return RetryDecision::ReturnError;
    }
    match retry_options {
        Some(o) => {
            if attempts_made < o.max_attempts {
                RetryDecision::SleepAndRetry { delay_ms: o.retry_delay_ms }
            } else {
                RetryDecision::ReturnError
            }
        },
        None => RetryDecision::ReturnError,
    }
}

/// Performs one attempt of an action on the device.
pub fn run_action<P: Player>(player: &mut P, action: &PlayerAction) -> Result<(), PlayerError> {
    match action {
        PlayerAction::Play { seek } => player.trigger_play(*seek),
        PlayerAction::Stop => player.trigger_stop(),
        PlayerAction::Seek { seek_ms } => player.trigger_seek(*seek_ms),
        PlayerAction::Pause => player.trigger_pause(),
        PlayerAction::Resume => player.trigger_resume(),
    }
}

/// Drives one device action under the retry policy of
/// [`retry_decision`]: attempts until one succeeds, the policy says
/// stop, or the error is a cancellation.
pub fn handle_retry<P: Player, S: Sleeper>(
    player: &mut P,
    sleeper: &mut S,
    action: &PlayerAction,
    retry_options: Option<PlaybackRetryOptions>,
) -> Result<(), PlayerError> {
    let mut attempts_made: u32 = 0;
    loop
        invariant
            retry_options matches Some(o) ==> attempts_made < o.max_attempts || attempts_made == 0,
        decreases (match retry_options {
            Some(o) => o.max_attempts as int - attempts_made as int,
            None => 0,
        }),
    {
        match run_action(player, action) {
            Ok(()) => {
                return Ok(());
            },
            Err(e) => {
                if attempts_made < u32::MAX {
                    attempts_made = attempts_made + 1;
                }
                match retry_decision(e.is_cancelled(), retry_options, attempts_made) {
                    RetryDecision::ReturnError => {
                        return Err(e);
                    },
                    RetryDecision::SleepAndRetry { delay_ms } => {
                        sleeper.sleep_millis(delay_ms);
                    },
                }
            },
        }
    }
}

/// Whether the requested position and tracks leave the active track
/// unchanged, judged by identifier equality at the active index.
pub open spec fn spec_same_track(
    position: Option<u16>,
    tracks: Option<Seq<Track>>,
    playback: &Playback,
) -> bool {
    match (position, tracks) {
        (None, None) => true,
        (Some(p), None) => playback.position == p,
        (None, Some(ts)) => opt_id_eq(
            seq_track_id(ts, playback.position as int),
            seq_track_id(playback.tracks@, playback.position as int),
        ),
        (Some(p), Some(ts)) => opt_id_eq(
            seq_track_id(ts, p as int),
            seq_track_id(playback.tracks@, playback.position as int),
        ),
    }
}

/// The identifier at an index of a queue, when the index is in range.
pub open spec fn seq_track_id(ts: Seq<Track>, i: int) -> Option<Id> {
    if 0 <= i < ts.len() {
        Some(ts[i].id)
    } else {
        None
    }
}

/// Equality of two optional identifiers: two absences agree.
pub open spec fn opt_id_eq(a: Option<Id>, b: Option<Id>) -> bool {
    match (a, b) {
        (Some(x), Some(y)) => id_eq_spec(&x, &y),
        (None, None) => true,
        _ => false,
    }
}

/// Looks up the identifier at an index of a queue.
fn track_id_at(ts: &Vec<Track>, i: usize) -> (r: Option<&Id>)
    ensures
        match r {
            Some(id) => seq_track_id(ts@, i as int) matches Some(s) && *id == s,
            None => seq_track_id(ts@, i as int) is None,
        },
{
    if i < ts.len() {
        Some(&ts[i].id)
    } else {
        None
    }
}

/// Whether the requested position and tracks leave the active track
/// unchanged.  Absent requests change nothing; a requested position is
/// compared directly; a requested track list is compared by the
/// identifier at the active index.
pub fn same_active_track(
    position: Option<u16>,
    tracks: Option<&Vec<Track>>,
    playback: &Playback,
) -> (r: bool)
    ensures
        r == spec_same_track(
            position,
            match tracks {
                Some(ts) => Some(ts@),
                None => None,
            },
            playback,
        ),
{
    match (position, tracks) {
        (None, None) => true,
        (Some(p), None) => playback.position == p,
        (None, Some(ts)) => {
            let a = track_id_at(ts, playback.position as usize);
            let b = track_id_at(&playback.tracks, playback.position as usize);
            opt_id_equal(a, b)
        },
        (Some(p), Some(ts)) => {
            let a = track_id_at(ts, p as usize);
            let b = track_id_at(&playback.tracks, playback.position as usize);
            opt_id_equal(a, b)
        },
    }
}

/// Compares two optional identifiers.
fn opt_id_equal(a: Option<&Id>, b: Option<&Id>) -> (r: bool)
    ensures
        r == (match (a, b) {
            (Some(x), Some(y)) => id_eq_spec(x, y),
            (None, None) => true,
            _ => false,
        }),
{
    match (a, b) {
        (Some(x), Some(y)) => crate::playback::id_equal(x, y),
        (None, None) => true,
        _ => false,
    }
}

/// Orchestrates one session's playback: holds the authoritative state,
/// drives the device through the [`Player`] capability, and collects the
/// session-update events that every observable change deserves.
pub struct PlaybackHandler<P: Player, S: Sleeper> {
    /// Opaque random handle for this handler.
    pub id: u64,
    /// The authoritative playback state, if one was ever set.
    pub playback: Option<Playback>,
    /// The device capability.
    pub player: P,
    /// Waits out retry delays.
    pub sleeper: S,
    /// Events not yet delivered; the owner drains and routes them.
    pub events: Vec<UpdateSession>,
}

/// The handler's state invariant: whatever playback it holds is
/// well-formed.
pub open spec fn handler_wf<P: Player, S: Sleeper>(h: &PlaybackHandler<P, S>) -> bool {
    match &h.playback {
        Some(p) => crate::playback::playback_wf(p),
        None => true,
    }
}

impl<P: Player, S: Sleeper> PlaybackHandler<P, S> {
    /// A handler with no playback yet.
    pub fn new(player: P, sleeper: S) -> (r: Self)
        ensures
            r.playback is None,
            r.events@.len() == 0,
            handler_wf(&r),
    {
        PlaybackHandler {
            id: crate::random::random_u64(),
            playback: None,
            player,
            sleeper,
            events: Vec::new(),
        }
    }

    /// The handler with its playback slot replaced.
    pub fn with_playback(self, playback: Option<Playback>) -> (r: Self)
        requires
            playback matches Some(p) ==> crate::playback::playback_wf(&p),
        ensures
            r.playback == playback,
            r.events@ == self.events@,
            handler_wf(&r),
    {
        PlaybackHandler { playback, ..self }
    }

    /// Hands over every event collected so far, oldest first.
    pub fn take_events(&mut self) -> (r: Vec<UpdateSession>)
        ensures
            r@ == old(self).events@,
            final(self).events@.len() == 0,
            final(self).playback == old(self).playback,
            handler_wf(old(self)) ==> handler_wf(final(self)),
    {
        let mut out: Vec<UpdateSession> = Vec::new();
        core::mem::swap(&mut out, &mut self.events);
        out
    }

    /// Triggers a play on the device, under the retry policy.
    pub fn play(&mut self, seek: Option<u64>, retry_options: Option<PlaybackRetryOptions>) -> (r:
        Result<(), PlayerError>)
        ensures
            final(self).playback == old(self).playback,
            final(self).events@ == old(self).events@,
    {
        handle_retry(&mut self.player, &mut self.sleeper, &PlayerAction::Play { seek }, retry_options)
    }

    /// Triggers a stop on the device, under the retry policy.  The
    /// logical state is untouched: stopping twice in a row leaves a
    /// stopped playback stopped.
    pub fn stop(&mut self, retry_options: Option<PlaybackRetryOptions>) -> (r: Result<
        (),
        PlayerError,
    >)
        ensures
            final(self).playback == old(self).playback,
            final(self).events@ == old(self).events@,
    {
        handle_retry(&mut self.player, &mut self.sleeper, &PlayerAction::Stop, retry_options)
    }

    /// Triggers a seek on the device, under the retry policy.
    pub fn seek(&mut self, seek_ms: u64, retry_options: Option<PlaybackRetryOptions>) -> (r: Result<
        (),
        PlayerError,
    >)
        ensures
            final(self).playback == old(self).playback,
            final(self).events@ == old(self).events@,
    {
        handle_retry(
            &mut self.player,
            &mut self.sleeper,
            &PlayerAction::Seek { seek_ms },
            retry_options,
        )
    }

    /// Triggers a pause on the device, under the retry policy.
    pub fn pause(&mut self, retry_options: Option<PlaybackRetryOptions>) -> (r: Result<
        (),
        PlayerError,
    >)
        ensures
            final(self).playback == old(self).playback,
            final(self).events@ == old(self).events@,
    {
        handle_retry(&mut self.player, &mut self.sleeper, &PlayerAction::Pause, retry_options)
    }

    /// Triggers a resume on the device, under the retry policy.
    pub fn resume(&mut self, retry_options: Option<PlaybackRetryOptions>) -> (r: Result<
        (),
        PlayerError,
    >)
        ensures
            final(self).playback == old(self).playback,
            final(self).events@ == old(self).events@,
    {
        handle_retry(&mut self.player, &mut self.sleeper, &PlayerAction::Resume, retry_options)
    }

    /// Hook run before the logical state is reconciled.
    pub fn before_update_playback(&mut self) -> (r: Result<(), PlayerError>)
        ensures
            r is Ok,
            *final(self) == *old(self),
    {
        Ok(())
    }
}

/// An absent boolean falls back to its default.
pub open spec fn opt_or(o: Option<bool>, d: bool) -> bool {
    match o {
        Some(v) => v,
        None => d,
    }
}

/// The playing flag the caller asked for, or the one already in force.
pub open spec fn spec_resolved_playing(playing: Option<bool>, original: &Playback) -> bool {
    opt_or(playing, original.playing)
}

/// Whether the caller wants sound: an explicit play, or a playing flag.
pub open spec fn spec_wants_to_play(
    play: Option<bool>,
    playing: Option<bool>,
    original: &Playback,
) -> bool {
    opt_or(play, false) || spec_resolved_playing(playing, original)
}

/// A playback must start when sound is wanted and either nothing was
/// playing or the active track changed.
pub open spec fn spec_should_start(
    play: Option<bool>,
    playing: Option<bool>,
    position: Option<u16>,
    tracks: Option<Seq<Track>>,
    original: &Playback,
) -> bool {
    spec_wants_to_play(play, playing, original) && (!original.playing || !spec_same_track(
        position,
        tracks,
        original,
    ))
}

/// The playing flag the reconciled state ends up with.
pub open spec fn spec_is_playing(
    play: Option<bool>,
    stop: Option<bool>,
    playing: Option<bool>,
    position: Option<u16>,
    tracks: Option<Seq<Track>>,
    original: &Playback,
) -> bool {
    (spec_resolved_playing(playing, original) || spec_should_start(
        play,
        playing,
        position,
        tracks,
        original,
    )) && !opt_or(stop, false)
}

/// A paused playback resumes in place: same track, not playing before,
/// wants to play now, and no explicit seek.
pub open spec fn spec_should_resume(
    playing: Option<bool>,
    position: Option<u16>,
    tracks: Option<Seq<Track>>,
    seek: Option<u64>,
    original: &Playback,
) -> bool {
    spec_same_track(position, tracks, original) && !original.playing && spec_resolved_playing(
        playing,
        original,
    ) && seek is None
}

/// A playing playback pauses in place: same track, playing before, not
/// wanted playing now.
pub open spec fn spec_should_pause(
    playing: Option<bool>,
    position: Option<u16>,
    tracks: Option<Seq<Track>>,
    original: &Playback,
) -> bool {
    spec_same_track(position, tracks, original) && original.playing && !spec_resolved_playing(
        playing,
        original,
    )
}

/// The track count the reconciled state will hold.
pub open spec fn requested_len(pb: &Option<Playback>, tracks: &Option<Seq<Track>>) -> int {
    match tracks {
        Some(t) => t.len() as int,
        None => match pb {
            Some(o) => o.tracks@.len() as int,
            None => 0,
        },
    }
}

/// The position the reconciled state will hold.
pub open spec fn requested_pos(pb: &Option<Playback>, position: Option<u16>) -> u16 {
    match position {
        Some(p) => p,
        None => match pb {
            Some(o) => o.position,
            None => 0u16,
        },
    }
}

/// The requested position stays inside the requested track list.
pub open spec fn position_valid(
    pb: &Option<Playback>,
    tracks: &Option<Seq<Track>>,
    position: Option<u16>,
) -> bool {
    let len = requested_len(pb, tracks);
    let p = requested_pos(pb, position);
    if len == 0 {
        p == 0
    } else {
        (p as int) < len
    }
}

/// How the reconciled playback relates to the prior one and the
/// requested deltas: identity and untouched fields carry over, requested
/// fields take the requested values, and the playing flag follows the
/// start/stop rules.
pub open spec fn reconciled(
    new: &Playback,
    original: &Playback,
    play: Option<bool>,
    stop: Option<bool>,
    playing: Option<bool>,
    position: Option<u16>,
    seek: Option<u64>,
    volume: Option<u64>,
    tracks: Option<Seq<Track>>,
    quality: Option<PlaybackQuality>,
    session_id: Option<u64>,
    profile: Option<Seq<char>>,
    playback_target: Option<PlaybackTarget>,
) -> bool {
    &&& new.id == original.id
    &&& new.session_id == (match session_id {
        Some(s) => s,
        None => original.session_id,
    })
    &&& new.profile@ == (match profile {
        Some(p) => p,
        None => original.profile@,
    })
    &&& new.playback_target == (match playback_target {
        Some(t) => Some(t),
        None => original.playback_target,
    })
    &&& new.tracks@ == (match tracks {
        Some(t) => t,
        None => original.tracks@,
    })
    &&& new.playing == spec_is_playing(play, stop, playing, position, tracks, original)
    &&& new.quality == (match quality {
        Some(q) => q,
        None => original.quality,
    })
    &&& new.position == (match position {
        Some(p) => p,
        None => original.position,
    })
    &&& new.progress_ms == (if opt_or(play, false) {
        match seek {
            Some(s) => s,
            None => 0u64,
        }
    } else {
        match seek {
            Some(s) => s,
            None => original.progress_ms,
        }
    })
    &&& new.volume_milli == (match volume {
        Some(v) => v,
        None => original.volume_milli,
    })
}

/// How the event queue may have grown: by exactly the diff event when
/// one was asked for and the change is observable, else not at all.
pub open spec fn events_after(
    before: Seq<UpdateSession>,
    after: Seq<UpdateSession>,
    trigger_event: bool,
    current: &Playback,
    previous: &Playback,
) -> bool {
    if trigger_event && !(current.playback_target is None || crate::events::no_tracked_change(
        current,
        previous,
    )) {
        &&& after.len() == before.len() + 1
        &&& after.take(before.len() as int) == before
        &&& crate::events::is_diff_event(&after.last(), current, previous)
    } else {
        after == before
    }
}

/// Every field of `q` agrees with `p` except the playing flag, which is
/// as given.
pub open spec fn same_but_playing(q: &Playback, p: &Playback, playing: bool) -> bool {
    &&& q.id == p.id
    &&& q.session_id == p.session_id
    &&& q.profile@ == p.profile@
    &&& q.tracks@ == p.tracks@
    &&& q.playing == playing
    &&& q.position == p.position
    &&& q.quality == p.quality
    &&& q.progress_ms == p.progress_ms
    &&& q.volume_milli == p.volume_milli
    &&& q.playback_target == p.playback_target
}

/// Which device actions a reconciliation owes, and the progress a
/// fresh start should begin from.
#[derive(Clone, Copy, Debug)]
pub struct UpdateFlags {
    pub should_seek: bool,
    pub should_stop: bool,
    pub should_resume: bool,
    pub should_start: bool,
    pub should_pause: bool,
    pub progress: Option<u64>,
}

/// Copies an optional playback target.
fn clone_opt_target(t: &Option<PlaybackTarget>) -> (r: Option<PlaybackTarget>)
    ensures
        r == *t,
{
    match t {
        Some(x) => Some(x.clone()),
        None => None,
    }
}

impl<P: Player, S: Sleeper> PlaybackHandler<P, S> {
    /// Marks the playback as playing and announces it; the caller then
    /// drives the queue with [`PlaybackHandler::run_play_loop`].  Fails
    /// with `NoPlayersPlaying` when no playback is set; an empty queue
    /// is a no-op.
    pub fn play_playback(
        &mut self,
        seek: Option<u64>,
        retry_options: Option<PlaybackRetryOptions>,
    ) -> (r: Result<(), PlayerError>)
        requires
            handler_wf(old(self)),
        ensures
            handler_wf(final(self)),
            old(self).playback is None ==> (r is Err && final(self).playback == old(
                self,
            ).playback && final(self).events@ == old(self).events@),
            r is Err ==> (final(self).playback == old(self).playback && final(self).events@ == old(
                self,
            ).events@),
            old(self).playback matches Some(p) ==> (r is Ok ==> (if p.tracks@.len() == 0 {
                final(self).playback == old(self).playback && final(self).events@ == old(self).events@
            } else {
                final(self).playback matches Some(q) && same_but_playing(&q, &p, true)
                    && events_after(old(self).events@, final(self).events@, true, &q, &p)
            })),
    {
        let seek_hint = seek;
        if let Err(e) = self.player.before_play_playback(seek_hint) {
            return Err(e);
        }
        let original = match &self.playback {
            Some(p) => p.duplicate(),
            None => {
                return Err(PlayerError::NoPlayersPlaying);
            },
        };
        if original.tracks.len() == 0 {
            return Ok(());
        }
        let mut current = original.duplicate();
        current.playing = true;
        self.playback = Some(current.duplicate());
        if let Some(ev) = crate::events::trigger_playback_event(&current, &original) {
            self.events.push(ev);
        }
        proof {
            assert(self.events@.take(old(self).events@.len() as int) =~= old(self).events@);
        }
        Ok(())
    }

}

/// The requested track list, viewed mathematically.
pub open spec fn tracks_view(tracks: &Option<Vec<Track>>) -> Option<Seq<Track>> {
    match tracks {
        Some(t) => Some(t@),
        None => None,
    }
}

/// The requested profile, viewed mathematically.
pub open spec fn profile_view(profile: &Option<String>) -> Option<Seq<char>> {
    match profile {
        Some(p) => Some(p@),
        None => None,
    }
}

/// A reconciliation request is accepted when the session and profile
/// are known and the requested position stays inside the requested
/// track list.
pub open spec fn update_args_valid<P: Player, S: Sleeper>(
    prev: &PlaybackHandler<P, S>,
    position: Option<u16>,
    tracks: Option<Seq<Track>>,
    session_id: Option<u64>,
    profile_given: bool,
) -> bool {
    &&& !(prev.playback is None && (session_id is None || !profile_given))
    &&& position_valid(&prev.playback, &tracks, position)
}

/// Exactly how a reconciliation request is rejected: a missing session,
/// a missing profile, or a position outside the track list, each
/// leaving the handler untouched.
pub open spec fn update_rejects<P: Player, S: Sleeper, T>(
    prev: &PlaybackHandler<P, S>,
    next: &PlaybackHandler<P, S>,
    r: Result<T, PlayerError>,
    position: Option<u16>,
    tracks: Option<Seq<Track>>,
    session_id: Option<u64>,
    profile_given: bool,
) -> bool {
    &&& ((prev.playback is None && session_id is None) ==> (r matches Err(e)
        && e is MissingSessionId && *next == *prev))
    &&& ((prev.playback is None && session_id is Some && !profile_given) ==> (r matches Err(e)
        && e is MissingProfile && *next == *prev))
    &&& ((!(prev.playback is None && (session_id is None || !profile_given)) && !position_valid(
        &prev.playback,
        &tracks,
        position,
    )) ==> (r matches Err(e) && e is PositionOutOfBounds && *next == *prev))
}

/// The fields a playback created from scratch by a reconciliation
/// holds: requested values where given, the documented defaults where
/// not, and a playing flag that follows the play/stop request alone.
pub open spec fn fresh_playback_fields(
    p: &Playback,
    play: Option<bool>,
    stop: Option<bool>,
    playing: Option<bool>,
    position: Option<u16>,
    seek: Option<u64>,
    volume: Option<u64>,
    tracks: Option<Seq<Track>>,
    quality: Option<PlaybackQuality>,
    sid: u64,
    prof: Seq<char>,
    playback_target: Option<PlaybackTarget>,
) -> bool {
    &&& p.session_id == sid
    &&& p.profile@ == prof
    &&& p.tracks@ == (match tracks {
        Some(t) => t,
        None => Seq::<Track>::empty(),
    })
    &&& p.position == (match position {
        Some(pos) => pos,
        None => 0u16,
    })
    &&& p.playing == ((opt_or(play, false) || opt_or(playing, false)) && !opt_or(stop, false))
    &&& p.quality == (match quality {
        Some(q) => q,
        None => (PlaybackQuality { format: crate::playback::AudioFormat::Source }),
    })
    &&& p.progress_ms == (match seek {
        Some(s) => s,
        None => 0u64,
    })
    &&& p.volume_milli == (match volume {
        Some(v) => v,
        None => 1000u64,
    })
    &&& p.playback_target == playback_target
}

/// What an accepted reconciliation does to the handler: against a prior
/// playback the new state is [`reconciled`] with it and the event queue
/// grows by exactly the observable diff; without one a fresh playback
/// with the requested fields is installed.
pub open spec fn update_writes_state<P: Player, S: Sleeper>(
    prev: &PlaybackHandler<P, S>,
    next: &PlaybackHandler<P, S>,
    play: Option<bool>,
    stop: Option<bool>,
    playing: Option<bool>,
    position: Option<u16>,
    seek: Option<u64>,
    volume: Option<u64>,
    tracks: Option<Seq<Track>>,
    quality: Option<PlaybackQuality>,
    session_id: Option<u64>,
    profile: Option<Seq<char>>,
    playback_target: Option<PlaybackTarget>,
    modify_playback: bool,
    trigger_event: bool,
) -> bool {
    &&& (prev.playback matches Some(orig) ==> {
        &&& next.playback matches Some(p) && reconciled(
            &p,
            &orig,
            play,
            stop,
            playing,
            position,
            seek,
            volume,
            tracks,
            quality,
            session_id,
            profile,
            playback_target,
        )
        &&& (!modify_playback ==> next.events@ == prev.events@)
        &&& (modify_playback ==> (next.playback matches Some(p) && events_after(
            prev.events@,
            next.events@,
            trigger_event,
            &p,
            &orig,
        )))
    })
    &&& (prev.playback is None ==> (session_id matches Some(sid) ==> (profile matches Some(prof)
        ==> (next.playback matches Some(p) && fresh_playback_fields(
        &p,
        play,
        stop,
        playing,
        position,
        seek,
        volume,
        tracks,
        quality,
        sid,
        prof,
        playback_target,
    )))))
}

/// How the returned flags relate to the request: exact against a prior
/// playback, and sound (start and resume only when sound was wanted)
/// against a fresh one.
pub open spec fn flags_correct(
    f: &UpdateFlags,
    prev: &Option<Playback>,
    play: Option<bool>,
    playing: Option<bool>,
    position: Option<u16>,
    tracks: Option<Seq<Track>>,
    seek: Option<u64>,
    stop: Option<bool>,
) -> bool {
    &&& f.should_stop == opt_or(stop, false)
    &&& f.should_seek == (tracks is None && seek is Some)
    &&& (match prev {
        Some(orig) => {
            &&& f.should_resume == spec_should_resume(playing, position, tracks, seek, orig)
            &&& f.should_start == spec_should_start(play, playing, position, tracks, orig)
            &&& f.should_pause == spec_should_pause(playing, position, tracks, orig)
        },
        None => {
            &&& (f.should_start ==> (opt_or(play, false) || opt_or(playing, false)))
            &&& (f.should_resume ==> opt_or(playing, false))
        },
    })
}

impl<P: Player, S: Sleeper> PlaybackHandler<P, S> {
    /// Writes the reconciled state and collects the event, leaving the
    /// device untouched; returns which device actions the caller owes.
    #[verifier::rlimit(100)]
    #[verifier::spinoff_prover]
    fn apply_update(
        &mut self,
        modify_playback: bool,
        play: Option<bool>,
        stop: Option<bool>,
        playing: Option<bool>,
        position: Option<u16>,
        seek: Option<u64>,
        volume: Option<u64>,
        tracks: Option<Vec<Track>>,
        quality: Option<PlaybackQuality>,
        session_id: Option<u64>,
        profile: Option<String>,
        playback_target: Option<PlaybackTarget>,
        trigger_event: bool,
    ) -> (r: Result<UpdateFlags, PlayerError>)
        requires
            handler_wf(old(self)),
        ensures
            handler_wf(final(self)),
            update_rejects(
                old(self),
                final(self),
                r,
                position,
                tracks_view(&tracks),
                session_id,
                profile is Some,
            ),
            update_args_valid(
                old(self),
                position,
                tracks_view(&tracks),
                session_id,
                profile is Some,
            ) ==> (r matches Ok(f) && flags_correct(
                &f,
                &old(self).playback,
                play,
                playing,
                position,
                tracks_view(&tracks),
                seek,
                stop,
            )),
            update_args_valid(
                old(self),
                position,
                tracks_view(&tracks),
                session_id,
                profile is Some,
            ) ==> update_writes_state(
                old(self),
                final(self),
                play,
                stop,
                playing,
                position,
                seek,
                volume,
                tracks_view(&tracks),
                quality,
                session_id,
                profile_view(&profile),
                playback_target,
                modify_playback,
                trigger_event,
            ),
    {
        self.before_update_playback()?;

        let sid: u64;
        let prof: String;
        match &self.playback {
            Some(orig) => {
                sid = match session_id {
                    Some(s) => s,
                    None => orig.session_id,
                };
                prof = match profile {
                    Some(p) => p,
                    None => orig.profile.clone(),
                };
            },
            None => {
                sid = match session_id {
                    Some(s) => s,
                    None => {
                        return Err(PlayerError::MissingSessionId);
                    },
                };
                prof = match profile {
                    Some(p) => p,
                    None => {
                        return Err(PlayerError::MissingProfile);
                    },
                };
            },
        }

        let new_len: usize = if let Some(t) = &tracks {
            t.len()
        } else if let Some(o) = &self.playback {
            o.tracks.len()
        } else {
            0
        };
        let new_pos: u16 = if let Some(p) = position {
            p
        } else if let Some(o) = &self.playback {
            o.position
        } else {
            0
        };
        let pos_invalid = if new_len == 0 {
            new_pos != 0
        } else {
            (new_pos as usize) >= new_len
        };
        if pos_invalid {
            return Err(PlayerError::PositionOutOfBounds(new_pos as u32));
        }

        let original: Playback = match &self.playback {
            Some(o) => o.duplicate(),
            None => Playback::new(
                match &tracks {
                    Some(t) => crate::playback::clone_tracks(t),
                    None => Vec::new(),
                },
                position,
                match volume {
                    Some(v) => v,
                    None => 1000,
                },
                match quality {
                    Some(q) => q,
                    None => PlaybackQuality { format: crate::playback::AudioFormat::Source },
                },
                sid,
                prof.clone(),
                clone_opt_target(&playback_target),
            ),
        };

        let resolved_playing = match playing {
            Some(p) => p,
            None => original.playing,
        };
        let same_track = same_active_track(position, tracks.as_ref(), &original);
        let wants_to_play = (match play {
            Some(p) => p,
            None => false,
        }) || resolved_playing;
        let should_start = wants_to_play && (!original.playing || !same_track);
        let should_seek = tracks.is_none() && seek.is_some();
        let should_stop = match stop {
            Some(s) => s,
            None => false,
        };
        let is_playing = (resolved_playing || should_start) && !should_stop;
        let should_resume = same_track && !original.playing && resolved_playing && seek.is_none();
        let should_pause = same_track && original.playing && !resolved_playing;

        let current = Playback {
            id: original.id,
            session_id: sid,
            profile: prof,
            playback_target: match playback_target {
                Some(t) => Some(t),
                None => clone_opt_target(&original.playback_target),
            },
            tracks: match tracks {
                Some(t) => t,
                None => crate::playback::clone_tracks(&original.tracks),
            },
            playing: is_playing,
            quality: match quality {
                Some(q) => q,
                None => original.quality,
            },
            position: match position {
                Some(p) => p,
                None => original.position,
            },
            progress_ms: if (match play {
                Some(p) => p,
                None => false,
            }) {
                match seek {
                    Some(s) => s,
                    None => 0,
                }
            } else {
                match seek {
                    Some(s) => s,
                    None => original.progress_ms,
                }
            },
            volume_milli: match volume {
                Some(v) => v,
                None => original.volume_milli,
            },
            abort: if crate::cancel::token_is_cancelled(&original.abort) {
                crate::cancel::new_token()
            } else {
                crate::cancel::clone_token(&original.abort)
            },
        };

        let progress = if seek.is_some() {
            seek
        } else if current.progress_ms != 0 {
            Some(current.progress_ms)
        } else {
            None
        };

        self.playback = Some(current.duplicate());

        if modify_playback && trigger_event {
            if let Some(ev) = crate::events::trigger_playback_event(&current, &original) {
                self.events.push(ev);
            }
        }
        proof {
            if modify_playback && trigger_event && !(current.playback_target is None
                || crate::events::no_tracked_change(&current, &original)) {
                assert(self.events@.take(old(self).events@.len() as int) =~= old(self).events@);
            }
        }

        Ok(
            UpdateFlags {
                should_seek,
                should_stop,
                should_resume,
                should_start,
                should_pause,
                progress,
            },
        )
    }

    /// Reconciles the playback against the requested deltas.
    ///
    /// The logical state is written first, so readers immediately see
    /// the intended state; the physical device is then driven to match,
    /// one action per call: seek fires independently, then exactly one
    /// of stop, resume (falling back to a fresh start), start or pause.
    /// With `modify_playback` false only the state is written and the
    /// call cannot fail.
    #[verifier::rlimit(100)]
    #[verifier::spinoff_prover]
    pub fn update_playback(
        &mut self,
        modify_playback: bool,
        play: Option<bool>,
        stop: Option<bool>,
        playing: Option<bool>,
        position: Option<u16>,
        seek: Option<u64>,
        volume: Option<u64>,
        tracks: Option<Vec<Track>>,
        quality: Option<PlaybackQuality>,
        session_id: Option<u64>,
        profile: Option<String>,
        playback_target: Option<PlaybackTarget>,
        trigger_event: bool,
        retry_options: Option<PlaybackRetryOptions>,
    ) -> (r: Result<(), PlayerError>)
        requires
            handler_wf(old(self)),
        ensures
            handler_wf(final(self)),
            update_rejects(
                old(self),
                final(self),
                r,
                position,
                tracks_view(&tracks),
                session_id,
                profile is Some,
            ),
            update_args_valid(
                old(self),
                position,
                tracks_view(&tracks),
                session_id,
                profile is Some,
            ) ==> update_writes_state(
                old(self),
                final(self),
                play,
                stop,
                playing,
                position,
                seek,
                volume,
                tracks_view(&tracks),
                quality,
                session_id,
                profile_view(&profile),
                playback_target,
                modify_playback,
                trigger_event,
            ),
            (update_args_valid(
                old(self),
                position,
                tracks_view(&tracks),
                session_id,
                profile is Some,
            ) && !modify_playback) ==> r is Ok,
    {
        let flags = match self.apply_update(
            modify_playback,
            play,
            stop,
            playing,
            position,
            seek,
            volume,
            tracks,
            quality,
            session_id,
            profile,
            playback_target,
            trigger_event,
        ) {
            Ok(f) => f,
            Err(e) => {
                return Err(e);
            },
        };

        if !modify_playback {
            return Ok(());
        }

        if flags.should_seek {
            if let Some(s) = seek {
                self.seek(s, Some(crate::playback::default_seek_retry_options()))?;
            }
        }
        if flags.should_stop {
            self.stop(retry_options)?;
        } else if flags.should_resume {
            if self.resume(retry_options).is_err() {
                self.play_playback(flags.progress, retry_options)?;
            }
        } else if flags.should_start {
            self.play_playback(flags.progress, retry_options)?;
        } else if flags.should_pause {
            self.pause(retry_options)?;
        }

        Ok(())
    }

    /// Drives the queue on the device: plays the active track, then
    /// each following one, advancing the position and resetting the
    /// progress after every natural completion, until the queue ends,
    /// the playback stops, or the cancellation handle fires.  On a
    /// device error the playback is marked stopped, the change is
    /// announced, and the error surfaces.  Every natural advance
    /// announces exactly one event when the playback has a target.
    #[verifier::rlimit(60)]
    #[verifier::spinoff_prover]
    pub fn run_play_loop(
        &mut self,
        seek: Option<u64>,
        retry_options: Option<PlaybackRetryOptions>,
    ) -> (r: Result<(), PlayerError>)
        requires
            handler_wf(old(self)),
        ensures
            handler_wf(final(self)),
            old(self).playback is None ==> (r matches Err(e) && e is NoPlayersPlaying && *final(self) == *old(self)),
            old(self).playback matches Some(p) ==> (r is Ok ==> (final(self).playback matches Some(
                q,
            ) && {
                &&& !q.playing
                &&& q.tracks@ == p.tracks@
                &&& q.position >= p.position
                &&& (q.position > p.position ==> q.progress_ms == 0)
                &&& q.session_id == p.session_id
                &&& q.profile@ == p.profile@
                &&& q.quality == p.quality
                &&& q.volume_milli == p.volume_milli
                &&& q.playback_target == p.playback_target
                &&& (q.playback_target is Some ==> final(self).events@.len() == old(self).events@.len() + (q.position - p.position) + (if p.playing {
                    1int
                } else {
                    0int
                }))
                &&& (q.playback_target is None ==> final(self).events@ == old(self).events@)
            })),
            old(self).playback matches Some(p) ==> (r matches Err(e) ==> (final(self).playback matches Some(q) && {
                &&& q.tracks@ == p.tracks@
                &&& q.position >= p.position
                &&& q.session_id == p.session_id
                &&& q.profile@ == p.profile@
                &&& q.playback_target == p.playback_target
                &&& final(self).events@.len() >= old(self).events@.len()
                &&& (!(e is Cancelled) ==> {
                    &&& !q.playing
                    &&& (q.playback_target is Some ==> (final(self).events@.len() > old(self).events@.len() && crate::events::is_diff_event(
                        &final(self).events@.last(),
                        &q,
                        &(Playback { playing: true, ..q }),
                    )))
                })
            })),
    {
        let mut pb = match &self.playback {
            Some(p) => p.duplicate(),
            None => {
                return Err(PlayerError::NoPlayersPlaying);
            },
        };
        let mut pending_seek = seek;
        while pb.playing && (pb.position as usize) < pb.tracks.len()
            invariant
                handler_wf(old(self)),
                handler_wf(self),
                crate::playback::playback_wf(&pb),
                old(self).playback matches Some(p) && {
                    &&& pb.tracks@ == p.tracks@
                    &&& pb.position >= p.position
                    &&& pb.playing == p.playing
                    &&& pb.session_id == p.session_id
                    &&& pb.profile@ == p.profile@
                    &&& pb.quality == p.quality
                    &&& pb.volume_milli == p.volume_milli
                    &&& pb.playback_target == p.playback_target
                    &&& (pb.position > p.position ==> pb.progress_ms == 0)
                    &&& (p.playback_target is Some ==> self.events@.len() == old(self).events@.len() + (pb.position - p.position))
                    &&& (p.playback_target is None ==> self.events@ == old(self).events@)
                    &&& (self.playback matches Some(cur) && cur.tracks@ == p.tracks@
                        && cur.position >= p.position && cur.session_id == p.session_id
                        && cur.profile@ == p.profile@ && cur.playback_target == p.playback_target)
                },
            decreases pb.tracks@.len() - pb.position as int,
        {
            let this_seek = pending_seek;
            pending_seek = None;
            if crate::cancel::token_is_cancelled(&pb.abort) {
                return Err(PlayerError::Cancelled);
            }
            let res = handle_retry(
                &mut self.player,
                &mut self.sleeper,
                &PlayerAction::Play { seek: this_seek },
                retry_options,
            );
            if let Err(e) = res {
                let before = pb.duplicate();
                pb.playing = false;
                self.playback = Some(pb.duplicate());
                if let Some(ev) = crate::events::trigger_playback_event(&pb, &before) {
                    self.events.push(ev);
                }
                return Err(e);
            }
            if crate::cancel::token_is_cancelled(&pb.abort) {
                break;
            }
            if (pb.position as usize) + 1 >= pb.tracks.len() || pb.position == u16::MAX {
                break;
            }
            let before = pb.duplicate();
            pb.position = pb.position + 1;
            pb.progress_ms = 0;
            self.playback = Some(pb.duplicate());
            if let Some(ev) = crate::events::trigger_playback_event(&pb, &before) {
                self.events.push(ev);
            }
        }
        let before = pb.duplicate();
        pb.playing = false;
        self.playback = Some(pb.duplicate());
        if let Some(ev) = crate::events::trigger_playback_event(&pb, &before) {
            self.events.push(ev);
        }
        Ok(())
    }

    /// Moves to the following track, which must exist: no wraparound.
    /// Delegates to [`PlaybackHandler::update_playback`] with an
    /// explicit play, so the new track starts from the given seek.
    pub fn next_track(
        &mut self,
        seek: Option<u64>,
        retry_options: Option<PlaybackRetryOptions>,
    ) -> (r: Result<(), PlayerError>)
        requires
            handler_wf(old(self)),
        ensures
            handler_wf(final(self)),
            old(self).playback is None ==> (r matches Err(e) && e is NoPlayersPlaying && *final(self) == *old(self)),
            old(self).playback matches Some(p) ==> (((p.position as int) + 1 >= p.tracks@.len()
                || p.position == u16::MAX) ==> (r matches Err(e) && e
                == PlayerError::PositionOutOfBounds(((p.position + 1) as u32)) && *final(self)
                == *old(self))),
            old(self).playback matches Some(p) ==> (((p.position as int) + 1 < p.tracks@.len()
                && p.position < u16::MAX) ==> (final(self).playback matches Some(q) && {
                &&& q.position == p.position + 1
                &&& q.tracks@ == p.tracks@
                &&& q.playing == true
                &&& q.progress_ms == (match seek {
                    Some(s) => s,
                    None => 0u64,
                })
                &&& q.session_id == p.session_id
                &&& q.profile@ == p.profile@
                &&& q.quality == p.quality
                &&& q.volume_milli == p.volume_milli
                &&& q.playback_target == p.playback_target
                &&& events_after(old(self).events@, final(self).events@, true, &q, &p)
            })),
    {
        let (pos, len) = match &self.playback {
            Some(p) => (p.position, p.tracks.len()),
            None => {
                return Err(PlayerError::NoPlayersPlaying);
            },
        };
        if (pos as usize) + 1 >= len || pos == u16::MAX {
            return Err(PlayerError::PositionOutOfBounds((pos as u32) + 1));
        }
        self.update_playback(
            true,
            Some(true),
            None,
            None,
            Some(pos + 1),
            seek,
            None,
            None,
            None,
            None,
            None,
            None,
            true,
            retry_options,
        )
    }

    /// Moves to the preceding track, which must exist: no wraparound.
    pub fn previous_track(
        &mut self,
        seek: Option<u64>,
        retry_options: Option<PlaybackRetryOptions>,
    ) -> (r: Result<(), PlayerError>)
        requires
            handler_wf(old(self)),
        ensures
            handler_wf(final(self)),
            old(self).playback is None ==> (r matches Err(e) && e is NoPlayersPlaying && *final(self) == *old(self)),
            old(self).playback matches Some(p) ==> (p.position == 0 ==> (r matches Err(e) && e
                == PlayerError::PositionOutOfBounds(0) && *final(self) == *old(self))),
            old(self).playback matches Some(p) ==> ((p.position > 0 && crate::playback::playback_wf(
                &p,
            )) ==> (final(self).playback matches Some(q) && {
                &&& q.position == p.position - 1
                &&& q.tracks@ == p.tracks@
                &&& q.playing == true
                &&& q.progress_ms == (match seek {
                    Some(s) => s,
                    None => 0u64,
                })
                &&& q.session_id == p.session_id
                &&& q.profile@ == p.profile@
                &&& q.quality == p.quality
                &&& q.volume_milli == p.volume_milli
                &&& q.playback_target == p.playback_target
                &&& events_after(old(self).events@, final(self).events@, true, &q, &p)
            })),
    {
        let pos = match &self.playback {
            Some(p) => p.position,
            None => {
                return Err(PlayerError::NoPlayersPlaying);
            },
        };
        if pos == 0 {
            return Err(PlayerError::PositionOutOfBounds(0));
        }
        self.update_playback(
            true,
            Some(true),
            None,
            None,
            Some(pos - 1),
            seek,
            None,
            None,
            None,
            None,
            None,
            None,
            true,
            retry_options,
        )
    }

    /// Replaces whatever was playing with a fresh queue and starts it:
    /// any prior playback is stopped first, best effort, and a stop
    /// failure surfaces rather than being swallowed.
    pub fn play_tracks(
        &mut self,
        session_id: u64,
        profile: String,
        tracks: Vec<Track>,
        position: Option<u16>,
        seek: Option<u64>,
        volume: Option<u64>,
        quality: PlaybackQuality,
        playback_target: Option<PlaybackTarget>,
        retry_options: Option<PlaybackRetryOptions>,
    ) -> (r: Result<(), PlayerError>)
        requires
            handler_wf(old(self)),
        ensures
            handler_wf(final(self)),
            position matches Some(p0) ==> ((if tracks@.len() == 0 {
                p0 != 0
            } else {
                (p0 as int) >= tracks@.len()
            }) ==> (r matches Err(e) && e is PositionOutOfBounds && *final(self) == *old(self))),
            r is Ok ==> (final(self).playback matches Some(q) && {
                &&& q.session_id == session_id
                &&& q.profile@ == profile@
                &&& q.tracks@ == tracks@
                &&& q.position == (match position {
                    Some(p0) => p0,
                    None => 0u16,
                })
                &&& q.quality == quality
                &&& q.volume_milli == (match volume {
                    Some(v) => v,
                    None => 1000u64,
                })
                &&& q.playback_target == playback_target
                &&& q.playing == (q.tracks@.len() > 0)
            }),
            r is Err ==> (final(self).playback == old(self).playback || (final(self).playback matches Some(q) && {
                &&& q.session_id == session_id
                &&& q.profile@ == profile@
                &&& q.tracks@ == tracks@
                &&& !q.playing
                &&& q.position == (match position {
                    Some(p0) => p0,
                    None => 0u16,
                })
            })),
    {
        let pos_invalid = match position {
            Some(p0) => if tracks.len() == 0 {
                p0 != 0
            } else {
                (p0 as usize) >= tracks.len()
            },
            None => false,
        };
        if pos_invalid {
            let p0 = match position {
                Some(p0) => p0,
                None => 0,
            };
            return Err(PlayerError::PositionOutOfBounds(p0 as u32));
        }
        if self.playback.is_some() {
            self.stop(retry_options)?;
        }
        let fresh = Playback::new(
            tracks,
            position,
            match volume {
                Some(v) => v,
                None => 1000,
            },
            quality,
            session_id,
            profile,
            playback_target,
        );
        self.playback = Some(fresh);
        self.play_playback(seek, retry_options)
    }

    /// Plays a single track.
    pub fn play_track(
        &mut self,
        session_id: u64,
        profile: String,
        track: Track,
        seek: Option<u64>,
        volume: Option<u64>,
        quality: PlaybackQuality,
        playback_target: Option<PlaybackTarget>,
        retry_options: Option<PlaybackRetryOptions>,
    ) -> (r: Result<(), PlayerError>)
        requires
            handler_wf(old(self)),
        ensures
            handler_wf(final(self)),
            r is Ok ==> (final(self).playback matches Some(q) && q.tracks@.len() == 1
                && q.tracks@[0] == track && q.session_id == session_id && q.profile@ == profile@
                && q.playing),
    {
        let mut queue: Vec<Track> = Vec::new();
        queue.push(track);
        self.play_tracks(
            session_id,
            profile,
            queue,
            None,
            seek,
            volume,
            quality,
            playback_target,
            retry_options,
        )
    }

    /// Adopts a persisted session as this handler's logical state,
    /// without touching the device: a passive sync used when a player
    /// is created for an already-running session.
    pub fn init_from_session(
        &mut self,
        profile: String,
        session: crate::session::Session,
        init: &UpdateSession,
    ) -> (r: Result<(), PlayerError>)
        requires
            handler_wf(old(self)),
        ensures
            handler_wf(final(self)),
            r matches Err(e) ==> (e matches PlayerError::InvalidSession { session_id, .. }
                && session_id == init.session_id),
            r is Ok ==> (final(self).playback matches Some(q) && {
                &&& q.session_id == session.id
                &&& q.profile@ == profile@
                &&& is_tracks_of(q.tracks@, session.playlist.tracks@)
                &&& (init.position is Some || session.position is Some) ==> q.position == (
                match init.position {
                    Some(p0) => p0,
                    None => match session.position {
                        Some(p0) => p0,
                        None => 0u16,
                    },
                })
            }),
    {
        let tracks = session_tracks_to_tracks(&session.playlist.tracks);
        let playing = match init.playing {
            Some(p) => Some(p),
            None => Some(session.playing),
        };
        let position = match init.position {
            Some(p) => Some(p),
            None => session.position,
        };
        let volume = match init.volume {
            Some(v) => Some(v),
            None => session.volume,
        };
        let res = self.update_playback(
            false,
            None,
            None,
            playing,
            position,
            init.seek,
            volume,
            Some(tracks),
            None,
            Some(session.id),
            Some(profile),
            session.playback_target,
            true,
            None,
        );
        match res {
            Ok(()) => Ok(()),
            Err(_) => Err(
                PlayerError::InvalidSession {
                    session_id: init.session_id,
                    message: "Failed to update playback".to_owned(),
                },
            ),
        }
    }

    /// Adopts an outward-facing session snapshot as this handler's
    /// logical state, without touching the device.
    pub fn init_from_api_session(
        &mut self,
        profile: String,
        session: crate::session::ApiSession,
    ) -> (r: Result<(), PlayerError>)
        requires
            handler_wf(old(self)),
        ensures
            handler_wf(final(self)),
            r matches Err(e) ==> (e matches PlayerError::InvalidSession { session_id, .. }
                && session_id == session.session_id),
            r is Ok ==> (final(self).playback matches Some(q) && {
                &&& q.session_id == session.session_id
                &&& q.profile@ == profile@
                &&& is_tracks_of(q.tracks@, session.playlist.tracks@)
                &&& session.position matches Some(p0) ==> q.position == p0
            }),
    {
        let sid = session.session_id;
        let tracks = session_tracks_to_tracks(&session.playlist.tracks);
        let res = self.update_playback(
            false,
            None,
            None,
            Some(session.playing),
            session.position,
            session.seek,
            session.volume,
            Some(tracks),
            None,
            Some(sid),
            Some(profile),
            session.playback_target,
            true,
            None,
        );
        match res {
            Ok(()) => Ok(()),
            Err(_) => Err(
                PlayerError::InvalidSession {
                    session_id: sid,
                    message: "Failed to update playback".to_owned(),
                },
            ),
        }
    }
}

/// How a queue track renders a persisted playlist track: the service
/// and metadata carry over; the identifier is numeric when the service
/// uses numbers and the text reads as one, else the text itself.
pub open spec fn is_track_of(t: &Track, s: &SessionPlaylistTrack) -> bool {
    &&& t.source == s.kind
    &&& crate::events::opt_data_eq(&t.data, &s.data)
    &&& match &t.id {
        Id::Number(n) => *n as nat == crate::num::dec_val(s.id@) && crate::num::all_digits(s.id@)
            && s.id@.len() > 0,
        Id::String(x) => x@ == s.id@,
    }
}

/// Entry-by-entry [`is_track_of`] over two whole lists.
pub open spec fn is_tracks_of(ts: Seq<Track>, ss: Seq<SessionPlaylistTrack>) -> bool {
    &&& ts.len() == ss.len()
    &&& forall|i: int| 0 <= i < ss.len() ==> is_track_of(&ts[i], &ss[i])
}

/// Rebuilds one queue track from a persisted playlist track.
pub fn session_track_to_track(s: &SessionPlaylistTrack) -> (r: Track)
    ensures
        is_track_of(&r, s),
{
    let id = match Id::try_from_str(self_id_str(s), s.kind, crate::models::IdType::Track) {
        Ok(id) => id,
        Err(_) => Id::String(s.id.clone()),
    };
    Track {
        id,
        source: s.kind,
        data: match &s.data {
            Some(d) => Some(d.clone()),
            None => None,
        },
    }
}

/// The identifier text of a persisted playlist track.
fn self_id_str(s: &SessionPlaylistTrack) -> (r: &str)
    ensures
        r@ == s.id@,
{
    s.id.as_str()
}

/// Rebuilds a whole queue from a persisted playlist.
pub fn session_tracks_to_tracks(ss: &Vec<SessionPlaylistTrack>) -> (r: Vec<Track>)
    ensures
        is_tracks_of(r@, ss@),
{
    let mut out: Vec<Track> = Vec::new();
    let mut i: usize = 0;
    while i < ss.len()
        invariant
            0 <= i <= ss.len(),
            out@.len() == i,
            forall|j: int| 0 <= j < i ==> is_track_of(&out@[j], &ss@[j]),
        decreases ss.len() - i,
    {
        out.push(session_track_to_track(&ss[i]));
        i = i + 1;
    }
    out
}

} // verus!
