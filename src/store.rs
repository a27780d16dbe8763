//! The playback session store: at most one session per session key, with
//! its volume, play state, metadata and temporary files.

use vstd::prelude::*;
use vstd::hash_map::HashMapWithView;
use crate::metadata::{TrackMeta, MetaView};
use crate::reaper::{Reaper, ReaperView, TerminalSignal, fresh_reaper, after_reap, reaped_by, string_views};

verus! {

/// Largest volume, in hundredths (`5.00`).
pub const MAX_VOLUME: u32 = 500;

/// Volume a new track starts at, in hundredths (`0.20`).
pub const DEFAULT_VOLUME: u32 = 20;

/// One press of a volume button, in hundredths (`0.10`).
pub const VOLUME_STEP: i32 = 10;

/// Play state of a session's track.
#[derive(Debug, Clone, Copy, PartialEq, Eq, Structural)]
pub enum PlayState {
    Play,
    Pause,
    /// The track played to its end.
    End,
    /// The track failed while playing.
    Errored,
}

impl PlayState {
    pub open spec fn spec_is_terminal(self) -> bool {
        self is End || self is Errored
    }

    /// Whether the track has finished for good.
    #[verifier::when_used_as_spec(spec_is_terminal)]
    pub fn is_terminal(self) -> (r: bool)
        ensures
            r == self.spec_is_terminal(),
    {
        match self {
            PlayState::Play | PlayState::Pause => false,
            _ => true,
        }
    }

    /// The state's name as the status view shows it.
    pub fn name(self) -> (r: &'static str)
        ensures
            r@ == state_name(self),
    {
        match self {
            PlayState::Play => "Play",
            PlayState::Pause => "Pause",
            PlayState::End => "End",
            PlayState::Errored => "Errored",
        }
    }
}

/// Name of a play state in the status view.
pub open spec fn state_name(s: PlayState) -> Seq<char> {
    match s {
        PlayState::Play => "Play"@,
        PlayState::Pause => "Pause"@,
        PlayState::End => "End"@,
        PlayState::Errored => "Errored"@,
    }
}

/// A change of volume: relative, or to a given level (in hundredths).
#[derive(Debug, Clone, Copy, PartialEq, Eq, Structural)]
pub enum VolumeChange {
    By(i32),
    To(u32),
}

/// `v` clamped to `[0, MAX_VOLUME]`.
pub open spec fn clamp_volume(v: int) -> nat {
    if v < 0 { 0 } else if v > MAX_VOLUME { MAX_VOLUME as nat } else { v as nat }
}

/// The volume after `change` from `current`.
pub open spec fn volume_after(current: nat, change: VolumeChange) -> nat {
    match change {
        VolumeChange::By(d) => clamp_volume(current + d),
        VolumeChange::To(v) => clamp_volume(v as int),
    }
}

/// The volume after a sequence of changes, applied in order.
pub open spec fn volume_after_all(current: nat, changes: Seq<VolumeChange>) -> nat
    decreases changes.len(),
{
    if changes.len() == 0 {
        current
    } else {
        volume_after_all(volume_after(current, changes[0]), changes.drop_first())
    }
}

/// Whatever sequence of changes is applied to a volume in range, the
/// volume stays within `[0, MAX_VOLUME]`.
pub proof fn lemma_volume_stays_in_range(current: nat, changes: Seq<VolumeChange>)
    requires
        current <= MAX_VOLUME,
    ensures
        volume_after_all(current, changes) <= MAX_VOLUME,
    decreases changes.len(),
{
    if changes.len() > 0 {
        lemma_volume_stays_in_range(volume_after(current, changes[0]), changes.drop_first());
    }
}

/// Applies a volume change with clamping.
pub fn apply_volume(current: u32, change: VolumeChange) -> (r: u32)
    ensures
        r == volume_after(current as nat, change),
        r <= MAX_VOLUME,
{
    let v: i64 = match change {
        VolumeChange::By(d) => current as i64 + d as i64,
        VolumeChange::To(t) => t as i64,
    };
    if v < 0 {
        0
    } else if v > MAX_VOLUME as i64 {
        MAX_VOLUME
    } else {
        v as u32
    }
}

/// The active track of one session.
#[derive(Debug)]
pub struct Session {
    /// Identifies the audio engine's handle of the track.
    pub handle: u64,
    /// Volume in hundredths.
    pub volume: u32,
    pub state: PlayState,
    pub meta: TrackMeta,
    pub reaper: Reaper,
}

pub struct SessionView {
    pub handle: u64,
    pub volume: nat,
    pub state: PlayState,
    pub meta: MetaView,
    pub reaper: ReaperView,
}

impl View for Session {
    type V = SessionView;

    open spec fn view(&self) -> SessionView {
        SessionView {
            handle: self.handle,
            volume: self.volume as nat,
            state: self.state,
            meta: self.meta@,
            reaper: self.reaper@,
        }
    }
}

/// A session just opened on `handle`.
pub open spec fn opened_session(handle: u64, meta: MetaView, paths: Seq<Seq<char>>) -> SessionView {
    SessionView {
        handle,
        volume: DEFAULT_VOLUME as nat,
        state: PlayState::Play,
        meta,
        reaper: fresh_reaper(paths),
    }
}

/// What closing a session hands back: the handle to stop and the temporary
/// paths to delete.
#[derive(Debug)]
pub struct Closed {
    pub handle: u64,
    pub reap: Vec<String>,
}

/// Why a control action was not carried out.
#[derive(Debug, Clone, Copy, PartialEq, Eq, Structural)]
pub enum ControlError {
    /// No session exists for the key.
    NoSession,
    /// The session's track has finished.
    Finished,
}

/// The playback sessions by session key.
pub struct SessionStore {
    sessions: HashMapWithView<u64, Session>,
}

impl View for SessionStore {
    type V = Map<u64, SessionView>;

    closed spec fn view(&self) -> Map<u64, SessionView> {
        self.sessions@.map_values(|s: Session| s@)
    }
}

/// The closed result for a removed session.
pub open spec fn closed_matches(c: Closed, s: SessionView) -> bool {
    c.handle == s.handle && string_views(c.reap@) == reaped_by(s.reaper)
}

impl SessionStore {
    /// Every session's volume is in range.
    pub closed spec fn wf(&self) -> bool {
        forall|k: u64| #[trigger] self.sessions@.contains_key(k) ==> self.sessions@[k].volume <= MAX_VOLUME
    }

    proof fn lemma_view_lookup(&self, k: u64)
        ensures
            self@.contains_key(k) == self.sessions@.contains_key(k),
            self.sessions@.contains_key(k) ==> self@[k] == self.sessions@[k]@,
    {
    }

    pub fn new() -> (r: SessionStore)
        ensures
            r.wf(),
            r@ == Map::<u64, SessionView>::empty(),
    {
        let r = SessionStore { sessions: HashMapWithView::new() };
        assert(r@ =~= Map::<u64, SessionView>::empty());
        r
    }

    /// Every session the store holds has its volume in range.
    pub proof fn lemma_volume_in_range(&self, k: u64)
        requires
            self.wf(),
            self@.contains_key(k),
        ensures
            self@[k].volume <= MAX_VOLUME,
    {
    }

    /// The session for `key`, if any.
    pub fn get(&self, key: u64) -> (r: Option<&Session>)
        ensures
            match r {
                Some(s) => self@.contains_key(key) && s@ == self@[key],
                None => !self@.contains_key(key),
            },
    {
        self.sessions.get(&key)
    }

    /// Removes the session for `key`, stopping its track and reaping its
    /// temporary files.
    pub fn close(&mut self, key: u64) -> (r: Option<Closed>)
        requires
            old(self).wf(),
        ensures
            final(self).wf(),
            final(self)@ == old(self)@.remove(key),
            match r {
                Some(c) => old(self)@.contains_key(key) && closed_matches(c, old(self)@[key]),
                None => !old(self)@.contains_key(key),
            },
    {
        let removed = self.sessions.remove(&key);
        assert(self@ =~= old(self)@.remove(key));
        match removed {
            Some(mut s) => {
                let reap = s.reaper.reap();
                Some(Closed { handle: s.handle, reap })
            },
            None => None,
        }
    }

    /// Opens a session for `key` on `handle`, first closing the one it
    /// supersedes, whose closing is returned.
    pub fn open(&mut self, key: u64, handle: u64, meta: TrackMeta, paths: Vec<String>) -> (r: Option<Closed>)
        requires
            old(self).wf(),
        ensures
            final(self).wf(),
            final(self)@ == old(self)@.insert(key, opened_session(handle, meta@, string_views(paths@))),
            match r {
                Some(c) => old(self)@.contains_key(key) && closed_matches(c, old(self)@[key]),
                None => !old(self)@.contains_key(key),
            },
    {
        let superseded = self.close(key);
        let ghost mid = self@;
        let s = Session {
            handle,
            volume: DEFAULT_VOLUME,
            state: PlayState::Play,
            meta,
            reaper: Reaper::new(paths),
        };
        self.sessions.insert(key, s);
        assert(self@ =~= mid.insert(key, opened_session(handle, meta@, string_views(paths@))));
        superseded
    }

    /// Replaces the session for `key` by `s`.
    fn put(&mut self, key: u64, s: Session)
        requires
            old(self).wf(),
            s.volume <= MAX_VOLUME,
        ensures
            final(self).wf(),
            final(self)@ == old(self)@.insert(key, s@),
    {
        self.sessions.insert(key, s);
        assert(self@ =~= old(self)@.insert(key, s@));
    }

    /// Sets the play state of a live session.
    fn set_state(&mut self, key: u64, state: PlayState) -> (r: Result<(), ControlError>)
        requires
            old(self).wf(),
            !state.spec_is_terminal(),
        ensures
            final(self).wf(),
            !old(self)@.contains_key(key) ==> r == Err::<(), ControlError>(ControlError::NoSession) && final(self)@ == old(self)@,
            old(self)@.contains_key(key) && old(self)@[key].state.spec_is_terminal() ==> r == Err::<(), ControlError>(ControlError::Finished) && final(self)@ == old(self)@,
            old(self)@.contains_key(key) && !old(self)@[key].state.spec_is_terminal() ==> r is Ok
                && final(self)@ == old(self)@.insert(key, SessionView { state, ..old(self)@[key] }),
    {
        proof { self.lemma_view_lookup(key); }
        match self.sessions.remove(&key) {
            None => {
                Err(ControlError::NoSession)
            },
            Some(s) => {
                if s.state.is_terminal() {
                    self.put(key, s);
                    assert(self@ =~= old(self)@);
                    Err(ControlError::Finished)
                } else {
                    let Session { handle, volume, state: _, meta, reaper } = s;
                    self.put(key, Session { handle, volume, state, meta, reaper });
                    assert(self@ =~= old(self)@.insert(key, SessionView { state, ..old(self)@[key] }));
                    Ok(())
                }
            },
        }
    }

    /// Pauses the track of `key`.
    pub fn pause(&mut self, key: u64) -> (r: Result<(), ControlError>)
        requires
            old(self).wf(),
        ensures
            final(self).wf(),
            !old(self)@.contains_key(key) ==> r == Err::<(), ControlError>(ControlError::NoSession) && final(self)@ == old(self)@,
            old(self)@.contains_key(key) && old(self)@[key].state.spec_is_terminal() ==> r == Err::<(), ControlError>(ControlError::Finished) && final(self)@ == old(self)@,
            old(self)@.contains_key(key) && !old(self)@[key].state.spec_is_terminal() ==> r is Ok
                && final(self)@ == old(self)@.insert(key, SessionView { state: PlayState::Pause, ..old(self)@[key] }),
    {
        self.set_state(key, PlayState::Pause)
    }

    /// Resumes the track of `key`.
    pub fn resume(&mut self, key: u64) -> (r: Result<(), ControlError>)
        requires
            old(self).wf(),
        ensures
            final(self).wf(),
            !old(self)@.contains_key(key) ==> r == Err::<(), ControlError>(ControlError::NoSession) && final(self)@ == old(self)@,
            old(self)@.contains_key(key) && old(self)@[key].state.spec_is_terminal() ==> r == Err::<(), ControlError>(ControlError::Finished) && final(self)@ == old(self)@,
            old(self)@.contains_key(key) && !old(self)@[key].state.spec_is_terminal() ==> r is Ok
                && final(self)@ == old(self)@.insert(key, SessionView { state: PlayState::Play, ..old(self)@[key] }),
    {
        self.set_state(key, PlayState::Play)
    }

    /// Changes the volume of `key`'s track, clamped to `[0, MAX_VOLUME]`;
    /// returns the resulting volume.
    pub fn set_volume(&mut self, key: u64, change: VolumeChange) -> (r: Result<u32, ControlError>)
        requires
            old(self).wf(),
        ensures
            final(self).wf(),
            !old(self)@.contains_key(key) ==> r == Err::<u32, ControlError>(ControlError::NoSession) && final(self)@ == old(self)@,
            old(self)@.contains_key(key) ==> {
                let v = volume_after(old(self)@[key].volume, change);
                &&& r == Ok::<u32, ControlError>(v as u32)
                &&& final(self)@ == old(self)@.insert(key, SessionView { volume: v, ..old(self)@[key] })
            },
            r matches Ok(v) ==> v <= MAX_VOLUME,
    {
        proof { self.lemma_view_lookup(key); }
        match self.sessions.remove(&key) {
            None => Err(ControlError::NoSession),
            Some(s) => {
                let Session { handle, volume, state, meta, reaper } = s;
                let v = apply_volume(volume, change);
                self.put(key, Session { handle, volume: v, state, meta, reaper });
                assert(self@ =~= old(self)@.insert(key, SessionView { volume: v as nat, ..old(self)@[key] }));
                Ok(v)
            },
        }
    }

    /// Handles the end or error signal of the track on `handle`: when that
    /// track is still `key`'s session, marks it finished and returns the
    /// temporary paths to delete, which only the first terminal event of the
    /// track yields. A signal from a track that no longer is the session's
    /// (one a newer track superseded) changes nothing.
    pub fn track_terminal(&mut self, key: u64, handle: u64, signal: TerminalSignal) -> (r: Vec<String>)
        requires
            old(self).wf(),
        ensures
            final(self).wf(),
            !old(self)@.contains_key(key) ==> r@.len() == 0 && final(self)@ == old(self)@,
            old(self)@.contains_key(key) && old(self)@[key].handle != handle
                ==> r@.len() == 0 && final(self)@ == old(self)@,
            old(self)@.contains_key(key) && old(self)@[key].handle == handle ==> {
                let s = old(self)@[key];
                let state = if s.state.spec_is_terminal() {
                    s.state
                } else if signal is End {
                    PlayState::End
                } else {
                    PlayState::Errored
                };
                &&& string_views(r@) == reaped_by(s.reaper)
                &&& final(self)@ == old(self)@.insert(key, SessionView { state, reaper: after_reap(s.reaper), ..s })
            },
    {
        proof { self.lemma_view_lookup(key); }
        match self.sessions.remove(&key) {
            None => {
                assert(self@ =~= old(self)@);
                Vec::new()
            },
            Some(s) => {
                if s.handle != handle {
                    self.put(key, s);
                    assert(self@ =~= old(self)@);
                    return Vec::new();
                }
                let Session { handle, volume, state, meta, mut reaper } = s;
                let out = reaper.on_signal(signal);
                let new_state = if state.is_terminal() {
                    state
                } else {
                    match signal {
                        TerminalSignal::End => PlayState::End,
                        TerminalSignal::Error => PlayState::Errored,
                    }
                };
                self.put(key, Session { handle, volume, state: new_state, meta, reaper });
                out
            },
        }
    }
}

/// Opening a session supersedes whatever the key held: after two opens on
/// one key the store holds only the second session there, the first one is
/// what the second open closes, and other keys are untouched.
pub proof fn lemma_last_open_wins(
    m: Map<u64, SessionView>,
    key: u64,
    first: SessionView,
    second: SessionView,
)
    ensures
        m.insert(key, first).insert(key, second) == m.insert(key, second),
        m.insert(key, first).contains_key(key) && m.insert(key, first)[key] == first,
        forall|k: u64| k != key ==> #[trigger] m.insert(key, second).contains_key(k) == m.contains_key(k),
{
    assert(m.insert(key, first).insert(key, second) =~= m.insert(key, second));
}

} // verus!
