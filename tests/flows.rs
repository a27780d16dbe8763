use music_core::button::{parse_button_id, button_id, ControlAction};
use music_core::metadata::{remaining_text, TrackMeta};
use music_core::panel::{handle_control, ControlPanel, ControlReply, PanelPhase};
use music_core::pipeline::{Acquirer, Outcome, Progress, Step, NO_HELPER};
use music_core::reaper::TerminalSignal;
use music_core::source::{needs_search, plan_lookup, resolve, Lookup, SourceKind, TrackFound};
use music_core::store::{PlayState, SessionStore, VolumeChange, MAX_VOLUME};

fn next(p: Progress) -> Acquirer {
    match p {
        Progress::Next(a) => a,
        other => panic!("expected another step, got {:?}", other),
    }
}

#[test]
fn plain_query_without_credentials_plays_on_first_tier() {
    let raw = "despacito";
    assert!(matches!(plan_lookup(raw, false), Lookup::Skip));
    let res = resolve(raw, false, None, None);
    assert_eq!(res.descriptor.query, "despacito");
    assert_eq!(res.descriptor.kind, SourceKind::SearchQuery);
    let acq = Acquirer::start(&res.descriptor, res.meta, false);
    assert_eq!(acq.step(), Step::Stream);
    assert_eq!(acq.input(), "despacito");
    let done = match acq.advance(Outcome::Playable(TrackMeta::empty())) {
        Progress::Acquired(x) => x,
        other => panic!("not acquired: {:?}", other),
    };
    assert!(done.attempts.is_empty());
    assert!(done.temp_paths.is_empty());
    let mut store = SessionStore::new();
    assert!(store.open(7, 1, done.meta, done.temp_paths).is_none());
    let s = store.get(7).unwrap();
    assert!(s.meta.title.is_none() && s.meta.artist.is_none() && s.meta.duration_ms.is_none());
    assert_eq!(remaining_text(s.meta.duration_ms, 0), "Unknown");
    assert_eq!(s.state, PlayState::Play);
}

#[test]
fn streaming_link_with_credentials_uses_looked_up_track() {
    let raw = "https://open.spotify.com/track/abc123";
    match plan_lookup(raw, true) {
        Lookup::Track { id } => assert_eq!(id, "abc123"),
        other => panic!("expected a track lookup, got {:?}", other),
    }
    let found = TrackFound {
        title: "Song".to_string(),
        artist: "Artist".to_string(),
        duration_ms: Some(210_000),
        thumbnail: None,
    };
    assert!(!needs_search(raw, true, true));
    let res = resolve(raw, true, Some(&found), None);
    assert_eq!(res.descriptor.query, "Song Artist");
    assert_eq!(res.descriptor.kind, SourceKind::StreamingLink);
    assert_eq!(res.meta.title.as_deref(), Some("Song"));
    assert_eq!(res.meta.artist.as_deref(), Some("Artist"));
    assert_eq!(res.meta.duration_ms, Some(210_000));
    let mut store = SessionStore::new();
    store.open(1, 10, res.meta, Vec::new());
    let s = store.get(1).unwrap();
    assert_eq!(s.meta.title.as_deref(), Some("Song"));
    assert_eq!(s.meta.duration_ms, Some(210_000));
}

#[test]
fn rare_track_falls_through_to_second_url_format() {
    let res = resolve("rare track", false, None, None);
    let a = Acquirer::start(&res.descriptor, res.meta, false);
    let a = next(a.advance(Outcome::Failed("stream failed".to_string())));
    assert_eq!(a.step(), Step::ExtractUrl { format: 0 });
    let a = next(a.advance(Outcome::Failed("format A failed".to_string())));
    assert_eq!(a.step(), Step::ExtractUrl { format: 1 });
    let a = next(a.advance(Outcome::Produced("X".to_string(), TrackMeta::empty())));
    assert_eq!(a.step(), Step::PlayUrl { format: 1 });
    assert_eq!(a.input(), "X");
    let done = match a.advance(Outcome::Playable(TrackMeta::empty())) {
        Progress::Acquired(x) => x,
        other => panic!("not acquired: {:?}", other),
    };
    assert_eq!(done.step, Step::PlayUrl { format: 1 });
    assert_eq!(done.attempts.len(), 3);
    assert_eq!((done.attempts[0].tier, done.attempts[0].candidate), (1, 0));
    assert_eq!(done.attempts[1].tier, 2);
    assert_eq!(done.attempts[1].diagnostic, NO_HELPER);
    assert_eq!((done.attempts[2].tier, done.attempts[2].candidate), (3, 0));
    assert_eq!(done.attempts[2].diagnostic, "format A failed");
}

#[test]
fn stop_during_panel_sleep_ends_panel() {
    let mut store = SessionStore::new();
    store.open(5, 1, TrackMeta::empty(), Vec::new());
    let mut panel = ControlPanel::new(42, 5);
    assert!(panel.begin_update());
    let r = panel.complete_update(&store, Some(1000));
    assert_eq!(r.description, "Status: Play\nVolume: 0.20\nRemaining: Unknown");
    assert_eq!(panel.phase(), PanelPhase::Active);
    let id = button_id(ControlAction::Stop, 42, 5);
    let button = parse_button_id(&id).unwrap();
    match handle_control(&mut store, &button, 42) {
        ControlReply::Done { message, closed, .. } => {
            assert_eq!(message, "Stopped");
            assert_eq!(closed.unwrap().handle, 1);
        }
        other => panic!("unexpected reply {:?}", other),
    }
    assert!(panel.begin_update());
    let r = panel.complete_update(&store, None);
    assert_eq!(r.heading, "Music Controls");
    assert_eq!(r.description, "No active track");
    assert_eq!(panel.phase(), PanelPhase::Terminated);
    assert!(!panel.begin_update());
    assert!(!panel.begin_update());
    assert_eq!(panel.last_rendered(), "No active track");
}

#[test]
fn volume_up_twice_from_near_maximum_stays_clamped() {
    let mut store = SessionStore::new();
    store.open(3, 1, TrackMeta::empty(), Vec::new());
    assert_eq!(store.set_volume(3, VolumeChange::To(495)), Ok(495));
    let id = button_id(ControlAction::VolUp, 9, 3);
    let button = parse_button_id(&id).unwrap();
    for _ in 0..2 {
        match handle_control(&mut store, &button, 9) {
            ControlReply::Done { message, closed, .. } => {
                assert_eq!(message, "Volume: 5.00");
                assert!(closed.is_none());
            }
            other => panic!("unexpected reply {:?}", other),
        }
        assert_eq!(store.get(3).unwrap().volume, MAX_VOLUME);
    }
}

#[test]
fn second_open_supersedes_first_and_reaps_it() {
    let mut store = SessionStore::new();
    assert!(store.open(1, 100, TrackMeta::empty(), vec!["a.webm".to_string()]).is_none());
    let closed = store.open(1, 200, TrackMeta::empty(), vec!["b.webm".to_string()]).unwrap();
    assert_eq!(closed.handle, 100);
    assert_eq!(closed.reap, vec!["a.webm".to_string()]);
    assert_eq!(store.get(1).unwrap().handle, 200);
    let closed = store.close(1).unwrap();
    assert_eq!(closed.reap, vec!["b.webm".to_string()]);
    assert!(store.get(1).is_none());
    assert!(store.close(1).is_none());
}

#[test]
fn volume_changes_stay_in_range() {
    let mut store = SessionStore::new();
    store.open(2, 1, TrackMeta::empty(), Vec::new());
    let changes = [
        VolumeChange::By(-10),
        VolumeChange::By(-100),
        VolumeChange::By(1000),
        VolumeChange::To(9999),
        VolumeChange::By(-1),
        VolumeChange::To(0),
        VolumeChange::By(i32::MIN),
        VolumeChange::By(i32::MAX),
    ];
    let expected = [10, 0, 500, 500, 499, 0, 0, 500];
    for (c, e) in changes.iter().zip(expected.iter()) {
        let v = store.set_volume(2, *c).unwrap();
        assert_eq!(v, *e);
        assert!(v <= MAX_VOLUME);
    }
}

#[test]
fn end_and_error_signals_reap_once() {
    let mut store = SessionStore::new();
    let paths = vec!["yt-1.webm".to_string(), "yt-1.wav".to_string()];
    store.open(4, 1, TrackMeta::empty(), paths.clone());
    assert_eq!(store.track_terminal(4, 1, TerminalSignal::End), paths);
    assert_eq!(store.get(4).unwrap().state, PlayState::End);
    assert!(store.track_terminal(4, 1, TerminalSignal::Error).is_empty());
    assert_eq!(store.get(4).unwrap().state, PlayState::End);
    assert!(store.close(4).unwrap().reap.is_empty());
    assert!(store.track_terminal(4, 1, TerminalSignal::End).is_empty());
}

#[test]
fn direct_media_url_is_never_looked_up() {
    for raw in ["https://www.youtube.com/watch?v=abc", "https://youtu.be/abc"] {
        assert!(matches!(plan_lookup(raw, true), Lookup::Skip));
        assert!(!needs_search(raw, true, false));
        let res = resolve(raw, true, None, None);
        assert_eq!(res.descriptor.kind, SourceKind::DirectMediaUrl);
        assert_eq!(res.descriptor.query, raw);
    }
}

#[test]
fn no_credentials_passes_text_through() {
    for raw in ["despacito", "https://open.spotify.com/track/abc123", "spotify:track:xyz"] {
        assert!(matches!(plan_lookup(raw, false), Lookup::Skip));
        assert!(!needs_search(raw, false, false));
        let res = resolve(raw, false, None, None);
        assert_eq!(res.descriptor.query, raw);
        assert_eq!(res.descriptor.raw, raw);
        assert!(res.meta.title.is_none());
    }
}

#[test]
fn first_two_tiers_fail_third_succeeds_on_second_candidate() {
    let raw = "https://open.spotify.com/track/abc123";
    let found = TrackFound { title: "Song".to_string(), artist: "Artist".to_string(), duration_ms: None, thumbnail: None };
    let res = resolve(raw, true, Some(&found), None);
    let mut a = Acquirer::start(&res.descriptor, res.meta, true);
    a = next(a.advance(Outcome::Failed("t1".to_string())));
    assert_eq!(a.step(), Step::HelperRaw);
    assert_eq!(a.input(), raw);
    a = next(a.advance(Outcome::Failed("raw".to_string())));
    for hint in 0..6 {
        assert_eq!(a.step(), Step::HelperTranscode { hint });
        a = next(a.advance(Outcome::Failed("hint".to_string())));
    }
    assert_eq!(a.step(), Step::ExtractUrl { format: 0 });
    assert_eq!(a.input(), "Song Artist");
    a = next(a.advance(Outcome::Failed("t3a".to_string())));
    let extracted = TrackMeta {
        title: Some("Other".to_string()),
        artist: None,
        duration_ms: Some(200_000),
        thumbnail: Some("thumb.jpg".to_string()),
    };
    a = next(a.advance(Outcome::Produced("https://cdn/x".to_string(), extracted)));
    let done = match a.advance(Outcome::Playable(TrackMeta::empty())) {
        Progress::Acquired(x) => x,
        other => panic!("not acquired: {:?}", other),
    };
    let tiers: Vec<u8> = done.attempts.iter().map(|x| x.tier).collect();
    assert_eq!(tiers, vec![1, 2, 3]);
    assert_eq!(done.meta.title.as_deref(), Some("Song"));
    assert_eq!(done.meta.artist.as_deref(), Some("Artist"));
    assert_eq!(done.meta.duration_ms, Some(200_000));
    assert_eq!(done.meta.thumbnail.as_deref(), Some("thumb.jpg"));
}

#[test]
fn every_tier_failing_exhausts_with_ordered_attempts() {
    let res = resolve("nothing", false, None, None);
    let mut a = Acquirer::start(&res.descriptor, res.meta, false);
    for _ in 0..4 {
        a = next(a.advance(Outcome::Failed("x".to_string())));
    }
    assert_eq!(a.step(), Step::Download);
    a = next(a.advance(Outcome::Produced("yt-1.webm".to_string(), TrackMeta::empty())));
    assert_eq!(a.step(), Step::PlayFile);
    a = next(a.advance(Outcome::Failed("undecodable".to_string())));
    assert_eq!(a.step(), Step::TranscodeFile);
    a = next(a.advance(Outcome::Produced("yt-1.wav".to_string(), TrackMeta::empty())));
    assert_eq!(a.input(), "yt-1.wav");
    match a.advance(Outcome::Failed("still undecodable".to_string())) {
        Progress::Exhausted { attempts, leftover } => {
            let tiers: Vec<(u8, usize)> = attempts.iter().map(|x| (x.tier, x.candidate)).collect();
            assert_eq!(tiers, vec![(1, 0), (2, 0), (3, 0), (3, 1), (3, 2), (4, 0)]);
            assert_eq!(leftover, vec!["yt-1.webm".to_string(), "yt-1.wav".to_string()]);
        }
        other => panic!("expected exhaustion, got {:?}", other),
    }
}

#[test]
fn downloaded_file_paths_are_registered_for_reaping() {
    let res = resolve("q", false, None, None);
    let mut a = Acquirer::start(&res.descriptor, res.meta, false);
    for _ in 0..4 {
        a = next(a.advance(Outcome::Failed("x".to_string())));
    }
    a = next(a.advance(Outcome::Produced("yt-2.webm".to_string(), TrackMeta::empty())));
    match a.advance(Outcome::Playable(TrackMeta::empty())) {
        Progress::Acquired(x) => {
            assert_eq!(x.step, Step::PlayFile);
            assert_eq!(x.temp_paths, vec!["yt-2.webm".to_string()]);
        }
        other => panic!("not acquired: {:?}", other),
    }
}

#[test]
fn superseded_track_signal_leaves_new_session_alone() {
    let mut store = SessionStore::new();
    store.open(6, 100, TrackMeta::empty(), vec!["old.webm".to_string()]);
    let closed = store.open(6, 200, TrackMeta::empty(), vec!["new.webm".to_string()]).unwrap();
    assert_eq!(closed.reap, vec!["old.webm".to_string()]);
    assert!(store.track_terminal(6, 100, TerminalSignal::End).is_empty());
    assert_eq!(store.get(6).unwrap().state, PlayState::Play);
    assert_eq!(store.track_terminal(6, 200, TerminalSignal::Error), vec!["new.webm".to_string()]);
    assert_eq!(store.get(6).unwrap().state, PlayState::Errored);
}
