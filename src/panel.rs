//! The control panel: a status view refreshed on a fixed interval until
//! its session is gone or its track has finished, and the owner-only
//! control actions of its buttons.

use vstd::prelude::*;
use crate::metadata::{heading_spec, remaining_spec, volume_spec, heading, remaining_text, volume_text};
use crate::button::{ButtonId, ControlAction, action_named};
use crate::store::{SessionStore, SessionView, PlayState, state_name, VolumeChange, Closed, VOLUME_STEP, volume_after, closed_matches};

verus! {

/// Seconds between two refreshes of a panel.
pub const REFRESH_SECS: u64 = 5;

/// Phase of a panel's refresh loop.
#[derive(Debug, Clone, Copy, PartialEq, Eq, Structural)]
pub enum PanelPhase {
    /// Waiting for the next refresh.
    Active,
    /// Reading the store for a refresh.
    Updating,
    /// The loop has ended; nothing more is rendered.
    Terminated,
}

/// One rendering of the panel.
#[derive(Debug)]
pub struct Render {
    pub heading: String,
    pub description: String,
}

pub struct RenderView {
    pub heading: Seq<char>,
    pub description: Seq<char>,
}

impl View for Render {
    type V = RenderView;

    open spec fn view(&self) -> RenderView {
        RenderView { heading: self.heading@, description: self.description@ }
    }
}

/// The description of a live session.
pub open spec fn status_spec(state: PlayState, volume: nat, remaining: Seq<char>) -> Seq<char> {
    "Status: "@ + state_name(state) + "\nVolume: "@ + volume_spec(volume) + "\nRemaining: "@ + remaining
}

/// The view a panel renders when its session is gone.
pub open spec fn no_track_view() -> RenderView {
    RenderView { heading: "Music Controls"@, description: "No active track"@ }
}

/// The view a panel renders when the track's state cannot be read.
pub open spec fn unknown_view() -> RenderView {
    RenderView { heading: "Music Controls"@, description: "Status: Unknown"@ }
}

/// The rendering and the next phase of a refresh of the panel watching
/// `key`, given the store and the track position read from the audio
/// engine (`None` where reading it failed).
pub open spec fn refresh_spec(key: u64, m: Map<u64, SessionView>, position: Option<u64>) -> (RenderView, PanelPhase) {
    if !m.contains_key(key) {
        (no_track_view(), PanelPhase::Terminated)
    } else {
        match position {
            None => (unknown_view(), PanelPhase::Terminated),
            Some(p) => {
                let s = m[key];
                (
                    RenderView {
                        heading: heading_spec(Some(s.meta)),
                        description: status_spec(s.state, s.volume, remaining_spec(s.meta.duration_ms, p)),
                    },
                    if s.state.spec_is_terminal() { PanelPhase::Terminated } else { PanelPhase::Active },
                )
            },
        }
    }
}

/// The live status panel of one session, opened by `owner`.
#[derive(Debug)]
pub struct ControlPanel {
    owner: u64,
    key: u64,
    phase: PanelPhase,
    last_rendered: String,
}

pub struct PanelView {
    pub owner: u64,
    pub key: u64,
    pub phase: PanelPhase,
    pub last_rendered: Seq<char>,
}

impl View for ControlPanel {
    type V = PanelView;

    closed spec fn view(&self) -> PanelView {
        PanelView { owner: self.owner, key: self.key, phase: self.phase, last_rendered: self.last_rendered@ }
    }
}

fn status_text(state: PlayState, volume: u32, remaining: &String) -> (r: String)
    ensures
        r@ == status_spec(state, volume as nat, remaining@),
{
    let mut out = String::from_str("Status: ");
    out.append(state.name());
    out.append("\nVolume: ");
    let v = volume_text(volume);
    out.append(v.as_str());
    out.append("\nRemaining: ");
    out.append(remaining.as_str());
    out
}

impl ControlPanel {
    /// A panel for the session `key`, owned by `owner`.
    pub fn new(owner: u64, key: u64) -> (r: ControlPanel)
        ensures
            r@ == (PanelView { owner, key, phase: PanelPhase::Active, last_rendered: Seq::empty() }),
    {
        ControlPanel { owner, key, phase: PanelPhase::Active, last_rendered: String::new() }
    }

    pub fn owner(&self) -> (r: u64)
        ensures
            r == self@.owner,
    {
        self.owner
    }

    pub fn key(&self) -> (r: u64)
        ensures
            r == self@.key,
    {
        self.key
    }

    pub fn phase(&self) -> (r: PanelPhase)
        ensures
            r == self@.phase,
    {
        self.phase
    }

    /// The description last rendered.
    pub fn last_rendered(&self) -> (r: &String)
        ensures
            r@ == self@.last_rendered,
    {
        &self.last_rendered
    }

    /// Called when the refresh interval elapses: an active panel starts an
    /// update and the caller reads the track's position; a terminated panel
    /// stays so and nothing is read.
    pub fn begin_update(&mut self) -> (r: bool)
        ensures
            r == refresh_starts(old(self)@.phase),
            final(self)@ == (PanelView {
                phase: if r { PanelPhase::Updating } else { old(self)@.phase },
                ..old(self)@
            }),
    {
        if self.phase == PanelPhase::Active {
            self.phase = PanelPhase::Updating;
            true
        } else {
            false
        }
    }

    /// Completes an update: renders what the store holds for the panel's
    /// session, given the position read from the audio engine, and moves to
    /// the next phase.
    pub fn complete_update(&mut self, store: &SessionStore, position: Option<u64>) -> (r: Render)
        requires
            old(self)@.phase == PanelPhase::Updating,
        ensures
            r@ == refresh_spec(old(self)@.key, store@, position).0,
            final(self)@ == (PanelView {
                phase: refresh_spec(old(self)@.key, store@, position).1,
                last_rendered: r@.description,
                ..old(self)@
            }),
    {
        let (render, phase) = match store.get(self.key) {
            None => (
                Render { heading: String::from_str("Music Controls"), description: String::from_str("No active track") },
                PanelPhase::Terminated,
            ),
            Some(s) => match position {
                None => (
                    Render { heading: String::from_str("Music Controls"), description: String::from_str("Status: Unknown") },
                    PanelPhase::Terminated,
                ),
                Some(p) => {
                    let rem = remaining_text(s.meta.duration_ms, p);
                    let description = status_text(s.state, s.volume, &rem);
                    let h = heading(Some(&s.meta));
                    (
                        Render { heading: h, description },
                        if s.state.is_terminal() { PanelPhase::Terminated } else { PanelPhase::Active },
                    )
                },
            },
        };
        self.phase = phase;
        self.last_rendered = render.description.clone();
        render
    }
}

/// Whether a refresh starts when the interval elapses in this phase.
pub open spec fn refresh_starts(phase: PanelPhase) -> bool {
    phase == PanelPhase::Active
}

/// Once its session is closed, the panel's next refresh renders the
/// "No active track" view and ends the loop, and from then on no refresh
/// starts, so nothing more is rendered.
pub proof fn lemma_closed_session_ends_panel(key: u64, m: Map<u64, SessionView>, position: Option<u64>)
    requires
        !m.contains_key(key),
    ensures
        refresh_spec(key, m, position) == (no_track_view(), PanelPhase::Terminated),
        !refresh_starts(refresh_spec(key, m, position).1),
{
}

/// The answer to a button press.
#[derive(Debug)]
pub enum ControlReply {
    /// The issuer does not own the panel; nothing was changed.
    NotOwner,
    /// The button names no session.
    NoTarget,
    /// No session exists for the button's key.
    NoActiveTrack,
    /// The action was carried out (`applied`) or refused, with the message
    /// to show and, for a stop, the closed session.
    Done { message: String, applied: bool, closed: Option<Closed> },
}

/// The message and the new store contents of an action on the live
/// session `key`.
pub open spec fn control_spec(m: Map<u64, SessionView>, key: u64, a: Option<ControlAction>) -> (Seq<char>, Map<u64, SessionView>) {
    let s = m[key];
    match a {
        None => ("Unknown action"@, m),
        Some(ControlAction::Pause) => if s.state.spec_is_terminal() {
            ("Pause failed: track finished"@, m)
        } else {
            ("Paused"@, m.insert(key, SessionView { state: PlayState::Pause, ..s }))
        },
        Some(ControlAction::Resume) => if s.state.spec_is_terminal() {
            ("Resume failed: track finished"@, m)
        } else {
            ("Resumed"@, m.insert(key, SessionView { state: PlayState::Play, ..s }))
        },
        Some(ControlAction::Stop) => ("Stopped"@, m.remove(key)),
        Some(ControlAction::VolUp) => {
            let v = volume_after(s.volume, VolumeChange::By(VOLUME_STEP));
            ("Volume: "@ + volume_spec(v), m.insert(key, SessionView { volume: v, ..s }))
        },
        Some(ControlAction::VolDown) => {
            let v = volume_after(s.volume, VolumeChange::By((-VOLUME_STEP) as i32));
            ("Volume: "@ + volume_spec(v), m.insert(key, SessionView { volume: v, ..s }))
        },
    }
}

/// Whether the store carries out an action on a live session: an unknown
/// action never, pause and resume only on a track that has not finished.
pub open spec fn control_applies(s: SessionView, a: Option<ControlAction>) -> bool {
    match a {
        None => false,
        Some(ControlAction::Pause) | Some(ControlAction::Resume) => !s.state.spec_is_terminal(),
        _ => true,
    }
}

fn volume_message(v: u32) -> (r: String)
    ensures
        r@ == "Volume: "@ + volume_spec(v as nat),
{
    let mut out = String::from_str("Volume: ");
    let t = volume_text(v);
    out.append(t.as_str());
    out
}

/// Carries out a panel button press by `issuer`. Only the panel's owner
/// may act: anyone else is refused before the store is touched.
pub fn handle_control(store: &mut SessionStore, button: &ButtonId, issuer: u64) -> (r: ControlReply)
    requires
        old(store).wf(),
    ensures
        final(store).wf(),
        button.owner != Some(issuer) ==> r is NotOwner && final(store)@ == old(store)@,
        button.owner == Some(issuer) ==> match button.key {
            None => r is NoTarget && final(store)@ == old(store)@,
            Some(k) => if !old(store)@.contains_key(k) {
                r is NoActiveTrack && final(store)@ == old(store)@
            } else {
                let (msg, m) = control_spec(old(store)@, k, action_named(button.action@));
                &&& final(store)@ == m
                &&& match r {
                    ControlReply::Done { message, applied, closed } => message@ == msg
                        && applied == control_applies(old(store)@[k], action_named(button.action@))
                        && match closed {
                        Some(c) => action_named(button.action@) == Some(ControlAction::Stop)
                            && closed_matches(c, old(store)@[k]),
                        None => action_named(button.action@) != Some(ControlAction::Stop),
                    },
                    _ => false,
                }
            },
        },
{
    if button.owner != Some(issuer) {
        return ControlReply::NotOwner;
    }
    let key = match button.key {
        Some(k) => k,
        None => return ControlReply::NoTarget,
    };
    if store.get(key).is_none() {
        return ControlReply::NoActiveTrack;
    }
    match ControlAction::from_name(button.action.as_str()) {
        None => ControlReply::Done { message: String::from_str("Unknown action"), applied: false, closed: None },
        Some(ControlAction::Pause) => {
            let (message, applied) = match store.pause(key) {
                Ok(()) => (String::from_str("Paused"), true),
                Err(_) => (String::from_str("Pause failed: track finished"), false),
            };
            ControlReply::Done { message, applied, closed: None }
        },
        Some(ControlAction::Resume) => {
            let (message, applied) = match store.resume(key) {
                Ok(()) => (String::from_str("Resumed"), true),
                Err(_) => (String::from_str("Resume failed: track finished"), false),
            };
            ControlReply::Done { message, applied, closed: None }
        },
        Some(ControlAction::Stop) => {
            let closed = store.close(key);
            ControlReply::Done { message: String::from_str("Stopped"), applied: true, closed }
        },
        Some(ControlAction::VolUp) => {
            let message = match store.set_volume(key, VolumeChange::By(VOLUME_STEP)) {
                Ok(v) => volume_message(v),
                Err(_) => String::new(),
            };
            ControlReply::Done { message, applied: true, closed: None }
        },
        Some(ControlAction::VolDown) => {
            let message = match store.set_volume(key, VolumeChange::By(-VOLUME_STEP)) {
                Ok(v) => volume_message(v),
                Err(_) => String::new(),
            };
            ControlReply::Done { message, applied: true, closed: None }
        },
    }
}

} // verus!
