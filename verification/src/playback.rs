//! The playback state machine: the single authoritative owner of playback
//! state for a one-track audio engine.
//!
//! One dedicated execution context owns the output device and the active
//! decode source; it drives this state machine with commands and idle ticks.
//! All timing here is in integer milliseconds, and volume is in thousandths
//! of full scale. Wall-clock readings, sink emptiness and load/seek outcomes
//! are handed in by the caller as plain values, so every state transition is
//! a total, verified function.

use vstd::prelude::*;
use crate::source::spec_resolve_duration;

verus! {

/// Full volume, in thousandths of full scale.
pub const VOLUME_FULL_MILLI: u16 = 1000;

/// The volume a freshly created engine starts with, in thousandths.
pub const DEFAULT_VOLUME_MILLI: u16 = 800;

/// Minimum spacing of periodic position notifications, in milliseconds.
pub const POSITION_EMIT_INTERVAL_MS: u64 = 100;

/// A track descriptor supplied verbatim by the caller; the engine never
/// reads tags itself. Immutable once playback starts: a new play command
/// replaces it wholesale.
#[derive(Debug, Clone)]
pub struct CurrentTrack {
    pub id: String,
    pub title: String,
    pub artist: String,
    pub album: String,
    pub source_path: String,
}

impl CurrentTrack {
    /// An equal copy of this descriptor. (The derived `Clone` carries no
    /// specification, so verified callers copy through this instead.)
    pub fn duplicate(&self) -> (t: CurrentTrack)
        ensures
            t == *self,
    {
        CurrentTrack {
            id: self.id.clone(),
            title: self.title.clone(),
            artist: self.artist.clone(),
            album: self.album.clone(),
            source_path: self.source_path.clone(),
        }
    }
}

/// A value snapshot of playback state, copied out to callers.
///
/// Positions and durations are in milliseconds; `volume_milli` is in
/// thousandths of full scale, always at most [`VOLUME_FULL_MILLI`].
#[derive(Debug, Clone)]
pub struct PlaybackState {
    pub is_playing: bool,
    pub current_position_ms: u64,
    pub duration_ms: u64,
    pub volume_milli: u16,
    pub current_track: Option<CurrentTrack>,
}

impl PlaybackState {
    /// The snapshot invariant: volume in range, position within the
    /// duration, and an unloaded engine reports zero position and duration.
    pub open spec fn wf(&self) -> bool {
        &&& self.volume_milli <= VOLUME_FULL_MILLI
        &&& self.current_position_ms <= self.duration_ms
        &&& self.current_track is None ==> {
            &&& !self.is_playing
            &&& self.duration_ms == 0
            &&& self.current_position_ms == 0
        }
    }
}

impl Default for PlaybackState {
    /// A stopped snapshot: nothing loaded, default volume.
    fn default() -> (s: Self)
        ensures
            !s.is_playing,
            s.current_position_ms == 0,
            s.duration_ms == 0,
            s.volume_milli == DEFAULT_VOLUME_MILLI,
            s.current_track is None,
            s.wf(),
    {
        PlaybackState {
            is_playing: false,
            current_position_ms: 0,
            duration_ms: 0,
            volume_milli: DEFAULT_VOLUME_MILLI,
            current_track: None,
        }
    }
}

/// The seek precision preference: coarse jumps to the nearest addressable
/// point, accurate decodes forward to the exact requested time.
#[derive(Debug, Clone, Copy, PartialEq, Eq, Structural)]
pub enum SeekModePreference {
    Fast,
    Accurate,
}

/// What [`SeekModePreference::from_str`] yields: only the exact word
/// `"accurate"` selects accurate seeking, anything else is fast.
pub open spec fn spec_seek_mode_from_str(mode: Seq<char>) -> SeekModePreference {
    if mode == "accurate"@ {
        SeekModePreference::Accurate
    } else {
        SeekModePreference::Fast
    }
}

impl SeekModePreference {
    /// Parses a seek mode name; unknown names fall back to fast seeking.
    pub fn from_str(mode: &str) -> (r: Self)
        ensures
            r == spec_seek_mode_from_str(mode@),
    {
        proof {
            reveal_strlit("accurate");
        }
        if str_eq(mode, "accurate") {
            SeekModePreference::Accurate
        } else {
            SeekModePreference::Fast
        }
    }

    /// Encodes the preference as the byte held in the shared seek-mode
    /// cell that the decode path reads without blocking.
    pub fn to_flag(self) -> (r: u8)
        ensures
            r == spec_seek_mode_flag(self),
    {
        match self {
            SeekModePreference::Fast => 0,
            SeekModePreference::Accurate => 1,
        }
    }

    /// Decodes the shared seek-mode byte; any unexpected value reads as
    /// fast seeking.
    pub fn from_flag(flag: u8) -> (r: Self)
        ensures
            r == spec_seek_mode_from_flag(flag),
    {
        if flag == 1 {
            SeekModePreference::Accurate
        } else {
            SeekModePreference::Fast
        }
    }
}

/// The byte encoding of a seek mode preference.
pub open spec fn spec_seek_mode_flag(m: SeekModePreference) -> u8 {
    match m {
        SeekModePreference::Fast => 0,
        SeekModePreference::Accurate => 1,
    }
}

/// The seek mode read back from a shared byte; unknown bytes read as fast.
pub open spec fn spec_seek_mode_from_flag(flag: u8) -> SeekModePreference {
    if flag == 1 {
        SeekModePreference::Accurate
    } else {
        SeekModePreference::Fast
    }
}

/// Character-by-character string equality; the result holds exactly when
/// the two views agree.
pub fn str_eq(a: &str, b: &str) -> (r: bool)
    ensures
        r == (a@ == b@),
{
    let len_a = a.unicode_len();
    let len_b = b.unicode_len();
    if len_a != len_b {
        proof {
            assert(a@ != b@) by {
                assert(a@.len() != b@.len());
            }
        }
        return false;
    }
    let mut i: usize = 0;
    while i < len_a
        invariant
            i <= len_a,
            len_a == a@.len(),
            len_b == b@.len(),
            len_a == len_b,
            forall|j: int| 0 <= j < i ==> a@[j] == b@[j],
        decreases len_a - i,
    {
        if a.get_char(i) != b.get_char(i) {
            return false;
        }
        i += 1;
    }
    proof {
        assert(a@ =~= b@);
    }
    true
}

/// The command vocabulary of the engine, independent of transport. The
/// surrounding application wraps these in its message envelope together
/// with its reply channels for state queries.
#[derive(Debug)]
pub enum PlaybackCommand {
    PlayFile { track: CurrentTrack, duration_hint_ms: u64 },
    Toggle,
    Play,
    Pause,
    Stop,
    Seek(u64),
    SetSeekMode(SeekModePreference),
    SetVolume(i64),
}

/// A requested volume clamped into `[0, VOLUME_FULL_MILLI]`.
pub open spec fn spec_clamp_volume(v: i64) -> u16 {
    if v < 0 {
        0u16
    } else if v > VOLUME_FULL_MILLI as i64 {
        VOLUME_FULL_MILLI
    } else {
        v as u16
    }
}

/// Milliseconds elapsed from `anchor` to `now`, zero if the clock reads
/// earlier than the anchor.
pub open spec fn spec_elapsed(anchor: u64, now: u64) -> int {
    if now >= anchor {
        now - anchor
    } else {
        0
    }
}

/// The state the one playback execution context owns: the published
/// snapshot plus the timing bookkeeping that derives the live position
/// without polling the decode path.
///
/// `position_base_ms` is the position at the moment wall-clock tracking was
/// last anchored; `playback_started_at_ms` is the wall-clock anchor, present
/// exactly while the position is advancing.
#[derive(Debug, Clone)]
pub struct AudioThreadState {
    pub state: PlaybackState,
    pub position_base_ms: u64,
    pub playback_started_at_ms: Option<u64>,
    pub seek_mode: SeekModePreference,
}

impl Default for AudioThreadState {
    /// A fresh engine: idle, nothing loaded, default volume, fast seeking.
    fn default() -> (s: Self)
        ensures
            s == AudioThreadState::spec_initial(),
            s.wf(),
    {
        AudioThreadState {
            state: PlaybackState::default(),
            position_base_ms: 0,
            playback_started_at_ms: None,
            seek_mode: SeekModePreference::Fast,
        }
    }
}

impl AudioThreadState {
    /// The engine state at process start.
    pub open spec fn spec_initial() -> AudioThreadState {
        AudioThreadState {
            state: PlaybackState {
                is_playing: false,
                current_position_ms: 0,
                duration_ms: 0,
                volume_milli: DEFAULT_VOLUME_MILLI,
                current_track: None,
            },
            position_base_ms: 0,
            playback_started_at_ms: None,
            seek_mode: SeekModePreference::Fast,
        }
    }

    /// The engine invariant, established at creation and preserved by
    /// every command: the snapshot invariant, the anchor present exactly
    /// while playing, the base within the duration, and a frozen engine
    /// reporting exactly its base position.
    pub open spec fn wf(&self) -> bool {
        &&& self.state.wf()
        &&& self.position_base_ms <= self.state.duration_ms
        &&& (self.playback_started_at_ms is Some) == self.state.is_playing
        &&& self.state.is_playing ==> self.state.current_track is Some
        &&& self.state.current_track is None ==> self.position_base_ms == 0
        &&& !self.state.is_playing ==> self.state.current_position_ms == self.position_base_ms
    }

    /// Runtime check of [`Self::wf`], for unverified callers that need to
    /// validate an engine value before handing it to the engine's methods.
    pub fn is_well_formed(&self) -> (b: bool)
        ensures
            b == self.wf(),
    {
        let anchor_matches = match self.playback_started_at_ms {
            Some(_) => self.state.is_playing,
            None => !self.state.is_playing,
        };
        let track_zeroes = match self.state.current_track {
            Some(_) => true,
            None => !self.state.is_playing && self.state.duration_ms == 0
                && self.state.current_position_ms == 0 && self.position_base_ms == 0,
        };
        let playing_loaded = !self.state.is_playing || match self.state.current_track {
            Some(_) => true,
            None => false,
        };
        let frozen_matches = self.state.is_playing
            || self.state.current_position_ms == self.position_base_ms;
        self.state.volume_milli <= VOLUME_FULL_MILLI
            && self.state.current_position_ms <= self.state.duration_ms
            && self.position_base_ms <= self.state.duration_ms
            && anchor_matches && track_zeroes && playing_loaded && frozen_matches
    }

    /// The live position at wall-clock time `now_ms`: the anchored base
    /// plus elapsed time, capped at the duration, while advancing; the
    /// frozen base otherwise.
    pub open spec fn spec_position(&self, now_ms: u64) -> int {
        if self.state.is_playing && self.playback_started_at_ms is Some {
            let advanced = self.position_base_ms + spec_elapsed(
                self.playback_started_at_ms->0,
                now_ms,
            );
            if advanced <= self.state.duration_ms {
                advanced
            } else {
                self.state.duration_ms as int
            }
        } else {
            self.position_base_ms as int
        }
    }

    /// The state after a successful load: the new track active from the
    /// start, advancing, at the volume already in force.
    pub open spec fn spec_play_file(
        pre: AudioThreadState,
        track: CurrentTrack,
        duration_ms: u64,
        now_ms: u64,
    ) -> AudioThreadState {
        AudioThreadState {
            state: PlaybackState {
                is_playing: true,
                current_position_ms: 0,
                duration_ms: duration_ms,
                volume_milli: pre.state.volume_milli,
                current_track: Some(track),
            },
            position_base_ms: 0,
            playback_started_at_ms: Some(now_ms),
            seek_mode: pre.seek_mode,
        }
    }

    /// The state after resuming: the base re-anchored to the live
    /// position, the clock anchored at `now_ms`. No change when nothing is
    /// loaded.
    pub open spec fn spec_play(pre: AudioThreadState, now_ms: u64) -> AudioThreadState {
        if pre.state.current_track is None {
            pre
        } else {
            let p = pre.spec_position(now_ms) as u64;
            AudioThreadState {
                state: PlaybackState {
                    is_playing: true,
                    current_position_ms: p,
                    ..pre.state
                },
                position_base_ms: p,
                playback_started_at_ms: Some(now_ms),
                seek_mode: pre.seek_mode,
            }
        }
    }

    /// The state after pausing: the live position computed and frozen, the
    /// clock anchor cleared. No change when nothing is loaded.
    pub open spec fn spec_pause(pre: AudioThreadState, now_ms: u64) -> AudioThreadState {
        if pre.state.current_track is None {
            pre
        } else {
            let p = pre.spec_position(now_ms) as u64;
            AudioThreadState {
                state: PlaybackState {
                    is_playing: false,
                    current_position_ms: p,
                    ..pre.state
                },
                position_base_ms: p,
                playback_started_at_ms: None,
                seek_mode: pre.seek_mode,
            }
        }
    }

    /// The state after a toggle: pause while playing, resume while paused
    /// (a naturally finished track counts as paused at its end). No change
    /// when nothing is loaded.
    pub open spec fn spec_toggle(pre: AudioThreadState, now_ms: u64) -> AudioThreadState {
        if pre.state.is_playing {
            Self::spec_pause(pre, now_ms)
        } else {
            Self::spec_play(pre, now_ms)
        }
    }

    /// The state after stopping: the track, position and duration cleared;
    /// only the volume and the seek preference survive.
    pub open spec fn spec_stop(pre: AudioThreadState) -> AudioThreadState {
        AudioThreadState {
            state: PlaybackState {
                is_playing: false,
                current_position_ms: 0,
                duration_ms: 0,
                volume_milli: pre.state.volume_milli,
                current_track: None,
            },
            position_base_ms: 0,
            playback_started_at_ms: None,
            seek_mode: pre.seek_mode,
        }
    }

    /// A seek request clamped into `[0, duration]`. With an unknown
    /// duration (zero) every target pins to the start.
    pub open spec fn spec_seek_target(pre: AudioThreadState, requested_ms: u64) -> u64 {
        if requested_ms <= pre.state.duration_ms {
            requested_ms
        } else {
            pre.state.duration_ms
        }
    }

    /// The state after a completed seek: position re-anchored at the
    /// target, play/pause status untouched. No change when nothing is
    /// loaded.
    pub open spec fn spec_apply_seek(
        pre: AudioThreadState,
        target_ms: u64,
        now_ms: u64,
    ) -> AudioThreadState {
        if pre.state.current_track is None {
            pre
        } else {
            AudioThreadState {
                state: PlaybackState {
                    current_position_ms: target_ms,
                    ..pre.state
                },
                position_base_ms: target_ms,
                playback_started_at_ms: if pre.state.is_playing {
                    Some(now_ms)
                } else {
                    None
                },
                seek_mode: pre.seek_mode,
            }
        }
    }

    /// The state after a seek that could not be completed even by
    /// rebuilding the source: playback left paused at its last known
    /// position.
    pub open spec fn spec_seek_failed(pre: AudioThreadState, now_ms: u64) -> AudioThreadState {
        Self::spec_pause(pre, now_ms)
    }

    /// The state after a volume command: the requested value clamped into
    /// range, everything else untouched, whether or not a track is loaded.
    pub open spec fn spec_set_volume(pre: AudioThreadState, volume_milli: i64) -> AudioThreadState {
        AudioThreadState {
            state: PlaybackState {
                volume_milli: spec_clamp_volume(volume_milli),
                ..pre.state
            },
            ..pre
        }
    }

    /// Whether an idle tick detects natural completion: the sink ran dry
    /// while the engine still believed it was playing. True at most once
    /// per track, since the transition itself clears `is_playing`.
    pub open spec fn spec_tick_ended(pre: AudioThreadState, sink_empty: bool) -> bool {
        pre.state.current_track is Some && sink_empty && pre.state.is_playing
    }

    /// The state after an idle tick: on natural completion the position is
    /// pinned to the duration and the engine becomes paused-at-end;
    /// otherwise nothing changes.
    pub open spec fn spec_tick(
        pre: AudioThreadState,
        sink_empty: bool,
    ) -> AudioThreadState {
        if Self::spec_tick_ended(pre, sink_empty) {
            AudioThreadState {
                state: PlaybackState {
                    is_playing: false,
                    current_position_ms: pre.state.duration_ms,
                    ..pre.state
                },
                position_base_ms: pre.state.duration_ms,
                playback_started_at_ms: None,
                seek_mode: pre.seek_mode,
            }
        } else {
            pre
        }
    }

    /// The snapshot a state query returns: the published state with the
    /// position recomputed live.
    pub open spec fn spec_snapshot(pre: AudioThreadState, now_ms: u64) -> PlaybackState {
        PlaybackState {
            current_position_ms: pre.spec_position(now_ms) as u64,
            ..pre.state
        }
    }

    /// Computes the live playback position without touching the decode
    /// path.
    pub fn current_position(&self, now_ms: u64) -> (r: u64)
        requires
            self.wf(),
        ensures
            r == self.spec_position(now_ms),
            r <= self.state.duration_ms,
    {
        if self.state.is_playing {
            match self.playback_started_at_ms {
                Some(anchor) => {
                    let elapsed: u64 = if now_ms >= anchor {
                        now_ms - anchor
                    } else {
                        0
                    };
                    let remaining: u64 = self.state.duration_ms - self.position_base_ms;
                    if elapsed >= remaining {
                        self.state.duration_ms
                    } else {
                        self.position_base_ms + elapsed
                    }
                },
                None => self.position_base_ms,
            }
        } else {
            self.position_base_ms
        }
    }

    /// Activates a freshly loaded track. The caller invokes this only
    /// after source construction and sink creation both succeeded; on any
    /// load failure it leaves the engine untouched instead, so a failed
    /// load is never partially applied.
    pub fn play_file(&mut self, track: CurrentTrack, duration_ms: u64, now_ms: u64)
        requires
            old(self).wf(),
        ensures
            *final(self) == Self::spec_play_file(*old(self), track, duration_ms, now_ms),
            final(self).wf(),
    {
        self.state.is_playing = true;
        self.state.current_position_ms = 0;
        self.state.duration_ms = duration_ms;
        self.state.current_track = Some(track);
        self.position_base_ms = 0;
        self.playback_started_at_ms = Some(now_ms);
    }

    /// Resumes playback from the frozen position; without a loaded track
    /// this does nothing. Returns whether the engine is now advancing, so
    /// the caller can start the output sink.
    pub fn play(&mut self, now_ms: u64) -> (playing: bool)
        requires
            old(self).wf(),
        ensures
            *final(self) == Self::spec_play(*old(self), now_ms),
            final(self).wf(),
            playing == final(self).state.is_playing,
    {
        if self.state.current_track.is_some() {
            let p = self.current_position(now_ms);
            self.state.is_playing = true;
            self.state.current_position_ms = p;
            self.position_base_ms = p;
            self.playback_started_at_ms = Some(now_ms);
            true
        } else {
            self.state.is_playing
        }
    }

    /// Freezes playback at the live position; without a loaded track this
    /// does nothing. Pausing an already paused engine changes nothing.
    pub fn pause(&mut self, now_ms: u64)
        requires
            old(self).wf(),
        ensures
            *final(self) == Self::spec_pause(*old(self), now_ms),
            final(self).wf(),
            !old(self).state.is_playing ==> *final(self) == *old(self),
    {
        if self.state.current_track.is_some() {
            let p = self.current_position(now_ms);
            self.state.is_playing = false;
            self.state.current_position_ms = p;
            self.position_base_ms = p;
            self.playback_started_at_ms = None;
        }
    }

    /// Pauses while playing, resumes while paused; a naturally finished
    /// track counts as paused at its end and resumes from there. Returns
    /// whether the engine is now advancing, so the caller can start or
    /// stop the output sink.
    pub fn toggle(&mut self, now_ms: u64) -> (playing: bool)
        requires
            old(self).wf(),
        ensures
            *final(self) == Self::spec_toggle(*old(self), now_ms),
            final(self).wf(),
            playing == final(self).state.is_playing,
    {
        if self.state.is_playing {
            self.pause(now_ms);
            false
        } else {
            self.play(now_ms)
        }
    }

    /// Discards the current track: position and duration are cleared and
    /// the engine returns to idle. The volume and the seek preference
    /// survive.
    pub fn stop(&mut self)
        requires
            old(self).wf(),
        ensures
            *final(self) == Self::spec_stop(*old(self)),
            final(self).wf(),
            final(self).state.volume_milli == old(self).state.volume_milli,
    {
        self.state.is_playing = false;
        self.state.current_position_ms = 0;
        self.state.duration_ms = 0;
        self.state.current_track = None;
        self.position_base_ms = 0;
        self.playback_started_at_ms = None;
    }

    /// Clamps a seek request into `[0, duration]`.
    pub fn seek_target(&self, requested_ms: u64) -> (target: u64)
        ensures
            target == Self::spec_seek_target(*self, requested_ms),
            target <= self.state.duration_ms,
    {
        if requested_ms <= self.state.duration_ms {
            requested_ms
        } else {
            self.state.duration_ms
        }
    }

    /// Re-anchors the position bookkeeping after the underlying source
    /// completed a seek to `target_ms`, preserving play/pause status.
    /// Without a loaded track this does nothing.
    pub fn apply_seek(&mut self, target_ms: u64, now_ms: u64)
        requires
            old(self).wf(),
            target_ms <= old(self).state.duration_ms,
        ensures
            *final(self) == Self::spec_apply_seek(*old(self), target_ms, now_ms),
            final(self).wf(),
    {
        if self.state.current_track.is_some() {
            self.state.current_position_ms = target_ms;
            self.position_base_ms = target_ms;
            self.playback_started_at_ms = if self.state.is_playing {
                Some(now_ms)
            } else {
                None
            };
        }
    }

    /// Records that a seek could not be completed even after rebuilding
    /// the source: playback is left paused at its last known position.
    pub fn seek_failed(&mut self, now_ms: u64)
        requires
            old(self).wf(),
        ensures
            *final(self) == Self::spec_seek_failed(*old(self), now_ms),
            final(self).wf(),
    {
        self.pause(now_ms);
    }

    /// Sets the volume, clamped into `[0, VOLUME_FULL_MILLI]`, whether or
    /// not a track is loaded. Returns the clamped value for the caller to
    /// apply to a live sink.
    pub fn set_volume(&mut self, volume_milli: i64) -> (applied: u16)
        requires
            old(self).wf(),
        ensures
            *final(self) == Self::spec_set_volume(*old(self), volume_milli),
            final(self).wf(),
            applied == spec_clamp_volume(volume_milli),
    {
        let clamped: u16 = if volume_milli < 0 {
            0
        } else if volume_milli > VOLUME_FULL_MILLI as i64 {
            VOLUME_FULL_MILLI
        } else {
            volume_milli as u16
        };
        self.state.volume_milli = clamped;
        clamped
    }

    /// Updates the seek precision preference; it affects only future
    /// seeks.
    pub fn set_seek_mode(&mut self, mode: SeekModePreference)
        requires
            old(self).wf(),
        ensures
            *final(self) == (AudioThreadState { seek_mode: mode, ..*old(self) }),
            final(self).wf(),
    {
        self.seek_mode = mode;
    }

    /// Processes an idle tick: when the sink has run dry while the engine
    /// still believed it was playing, the track completed naturally; the
    /// position is pinned to the duration and the engine becomes
    /// paused-at-end. Returns whether completion was detected this tick,
    /// which is the cue to emit the track-ended notification; the
    /// transition clears `is_playing`, so the cue fires at most once per
    /// track.
    pub fn on_tick(&mut self, sink_empty: bool) -> (ended: bool)
        requires
            old(self).wf(),
        ensures
            *final(self) == Self::spec_tick(*old(self), sink_empty),
            final(self).wf(),
            ended == Self::spec_tick_ended(*old(self), sink_empty),
    {
        if self.state.current_track.is_some() && sink_empty && self.state.is_playing {
            self.state.is_playing = false;
            self.state.current_position_ms = self.state.duration_ms;
            self.position_base_ms = self.state.duration_ms;
            self.playback_started_at_ms = None;
            true
        } else {
            false
        }
    }

    /// Refreshes the published position from the wall clock, for the
    /// throttled periodic position notification.
    pub fn refresh_position(&mut self, now_ms: u64) -> (pos: u64)
        requires
            old(self).wf(),
        ensures
            *final(self) == (AudioThreadState {
                state: Self::spec_snapshot(*old(self), now_ms),
                ..*old(self)
            }),
            final(self).wf(),
            pos == old(self).spec_position(now_ms),
    {
        let p = self.current_position(now_ms);
        self.state.current_position_ms = p;
        p
    }

    /// Answers a state query: the published state with the position
    /// recomputed live. Mutates nothing.
    pub fn get_state(&self, now_ms: u64) -> (snapshot: PlaybackState)
        requires
            self.wf(),
        ensures
            snapshot == Self::spec_snapshot(*self, now_ms),
            snapshot.wf(),
    {
        let p = self.current_position(now_ms);
        PlaybackState {
            is_playing: self.state.is_playing,
            current_position_ms: p,
            duration_ms: self.state.duration_ms,
            volume_milli: self.state.volume_milli,
            current_track: match &self.state.current_track {
                Some(t) => Some(t.duplicate()),
                None => None,
            },
        }
    }

    /// Answers a finished query from the sink's emptiness: an engine with
    /// no track loaded is finished by definition.
    pub fn is_finished(&self, sink_empty: bool) -> (r: bool)
        ensures
            r == (self.state.current_track is None || sink_empty),
    {
        match self.state.current_track {
            Some(_) => sink_empty,
            None => true,
        }
    }
}

/// Whether enough wall-clock time has passed since the last periodic
/// position notification to emit another, at roughly ten per second.
pub fn should_emit_position(last_emit_ms: u64, now_ms: u64) -> (r: bool)
    ensures
        r == (now_ms >= last_emit_ms + POSITION_EMIT_INTERVAL_MS),
{
    now_ms >= last_emit_ms && now_ms - last_emit_ms >= POSITION_EMIT_INTERVAL_MS
}

/// An operating-system media-key event, reduced to the vocabulary the
/// engine cares about.
#[derive(Debug, Clone, Copy, PartialEq, Eq, Structural)]
pub enum MediaKeyEvent {
    Play,
    Pause,
    Toggle,
    Next,
    Previous,
    Stop,
    Other,
}

/// What a media-key event turns into: a command for the engine's queue,
/// if the engine handles the key at all, and an outward notification label
/// for the surrounding application's feedback.
#[derive(Debug)]
pub struct MediaKeyDispatch {
    pub command: Option<PlaybackCommand>,
    pub notice: Option<String>,
}

/// Translates a media-key event into the engine's command vocabulary.
/// Play, pause, toggle and stop become ordinary commands; next and
/// previous are not handled here and are only republished outward for the
/// surrounding application to interpret; anything else is dropped.
pub fn handle_media_event(event: MediaKeyEvent) -> (d: MediaKeyDispatch)
    ensures
        event == MediaKeyEvent::Play ==> d.command == Some(PlaybackCommand::Play)
            && (d.notice matches Some(n) && n@ == "play"@),
        event == MediaKeyEvent::Pause ==> d.command == Some(PlaybackCommand::Pause)
            && (d.notice matches Some(n) && n@ == "pause"@),
        event == MediaKeyEvent::Toggle ==> d.command == Some(PlaybackCommand::Toggle)
            && (d.notice matches Some(n) && n@ == "toggle"@),
        event == MediaKeyEvent::Stop ==> d.command == Some(PlaybackCommand::Stop)
            && (d.notice matches Some(n) && n@ == "stop"@),
        event == MediaKeyEvent::Next ==> d.command is None
            && (d.notice matches Some(n) && n@ == "next"@),
        event == MediaKeyEvent::Previous ==> d.command is None
            && (d.notice matches Some(n) && n@ == "previous"@),
        event == MediaKeyEvent::Other ==> d.command is None && d.notice is None,
{
    match event {
        MediaKeyEvent::Play => MediaKeyDispatch {
            command: Some(PlaybackCommand::Play),
            notice: Some("play".to_owned()),
        },
        MediaKeyEvent::Pause => MediaKeyDispatch {
            command: Some(PlaybackCommand::Pause),
            notice: Some("pause".to_owned()),
        },
        MediaKeyEvent::Toggle => MediaKeyDispatch {
            command: Some(PlaybackCommand::Toggle),
            notice: Some("toggle".to_owned()),
        },
        MediaKeyEvent::Stop => MediaKeyDispatch {
            command: Some(PlaybackCommand::Stop),
            notice: Some("stop".to_owned()),
        },
        MediaKeyEvent::Next => MediaKeyDispatch {
            command: None,
            notice: Some("next".to_owned()),
        },
        MediaKeyEvent::Previous => MediaKeyDispatch {
            command: None,
            notice: Some("previous".to_owned()),
        },
        MediaKeyEvent::Other => MediaKeyDispatch {
            command: None,
            notice: None,
        },
    }
}

/// Refreshes the metadata shown on the operating-system media surface.
/// The media-remote registration is a process-wide init-once, no-teardown
/// singleton whose metadata is set when it is attached, so there is
/// nothing to update afterwards; the arguments are accepted and ignored.
pub fn update_media_metadata(title: &str, artist: &str, album: &str) {
    let _ = (title, artist, album);
}

/// Law: for any valid seek target, once the seek completes a state query
/// reports a position within wall-clock drift of the (clamped) target —
/// exactly the target while paused or when queried at the moment of the
/// seek — and the play/pause status is unchanged by the seek.
pub proof fn lemma_seek_reported(
    pre: AudioThreadState,
    requested_ms: u64,
    now_ms: u64,
    query_ms: u64,
)
    requires
        pre.wf(),
        pre.state.current_track is Some,
        query_ms >= now_ms,
    ensures
        ({
            let target = AudioThreadState::spec_seek_target(pre, requested_ms);
            let post = AudioThreadState::spec_apply_seek(pre, target, now_ms);
            let snap = AudioThreadState::spec_snapshot(post, query_ms);
            &&& snap.is_playing == pre.state.is_playing
            &&& target <= snap.current_position_ms
            &&& snap.current_position_ms <= target + (query_ms - now_ms)
            &&& !pre.state.is_playing ==> snap.current_position_ms == target
            &&& query_ms == now_ms ==> snap.current_position_ms == target
        }),
{
}

/// Law: pausing an engine that is already paused changes nothing — in
/// particular the anchored base position and the reported position stay
/// exactly as they were.
pub proof fn lemma_pause_idempotent(pre: AudioThreadState, now_ms: u64)
    requires
        pre.wf(),
        !pre.state.is_playing,
    ensures
        AudioThreadState::spec_pause(pre, now_ms) == pre,
{
}

/// Law: after a volume command, a state query reports exactly the
/// requested volume clamped into `[0, VOLUME_FULL_MILLI]`, whether or not
/// a track is loaded, and nothing else about the snapshot changes.
pub proof fn lemma_volume_reported(pre: AudioThreadState, volume_milli: i64, query_ms: u64)
    requires
        pre.wf(),
    ensures
        ({
            let post = AudioThreadState::spec_set_volume(pre, volume_milli);
            let snap = AudioThreadState::spec_snapshot(post, query_ms);
            &&& snap.volume_milli == spec_clamp_volume(volume_milli)
            &&& post.wf()
            &&& snap.is_playing == pre.state.is_playing
            &&& snap.current_position_ms == pre.spec_position(query_ms)
            &&& snap.duration_ms == pre.state.duration_ms
            &&& snap.current_track == pre.state.current_track
        }),
{
}

/// Law: loading a track into an idle engine moves it to playing, from
/// position zero, with the duration taken from the container when the
/// container knows it and from the caller's hint otherwise.
pub proof fn lemma_load_from_idle(
    pre: AudioThreadState,
    track: CurrentTrack,
    container_ms: Option<u64>,
    hint_ms: u64,
    now_ms: u64,
)
    requires
        pre.wf(),
        pre.state.current_track is None,
    ensures
        ({
            let d = spec_resolve_duration(container_ms, hint_ms);
            let post = AudioThreadState::spec_play_file(pre, track, d, now_ms);
            &&& post.wf()
            &&& post.state.is_playing
            &&& post.state.duration_ms == d
            &&& post.state.current_track == Some(track)
            &&& post.state.volume_milli == pre.state.volume_milli
            &&& AudioThreadState::spec_snapshot(post, now_ms).current_position_ms == 0
        }),
{
}

/// Law: when the sink runs dry while the engine believes it is playing,
/// the idle tick moves it to paused-at-end — position pinned to the
/// duration — and signals completion; the very next tick, and every tick
/// after it, signals nothing, so the track-ended notification fires
/// exactly once per track.
pub proof fn lemma_completion_once(pre: AudioThreadState)
    requires
        pre.wf(),
        pre.state.is_playing,
        pre.state.current_track is Some,
    ensures
        ({
            let post = AudioThreadState::spec_tick(pre, true);
            &&& AudioThreadState::spec_tick_ended(pre, true)
            &&& post.wf()
            &&& !post.state.is_playing
            &&& post.state.current_position_ms == post.state.duration_ms
            &&& !AudioThreadState::spec_tick_ended(post, true)
            &&& AudioThreadState::spec_tick(post, true) == post
        }),
{
}

} // verus!
