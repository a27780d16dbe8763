use music_core::button::{button_id, parse_button_id, parse_u64, ControlAction};
use music_core::command::{parse_channel_arg, parse_music_command, split_words, MusicCommand};
use music_core::metadata::{heading, remaining_text, volume_text, TrackMeta};
use music_core::modalert::{timeout_newly_applied, ModAlertStore};
use music_core::panel::{handle_control, ControlReply};
use music_core::source::{classify, parse_spotify_track_id, SourceKind};
use music_core::spotify::{
    access_token_from_json, basic_auth_header, device_id_by_name, devices_from_json,
    extracted_from_json, search_hit_from_json, shell_quote, stream_command, track_from_json,
};
use music_core::store::{apply_volume, SessionStore, VolumeChange};
use music_core::text::{contains, find, starts_with};

#[test]
fn track_ids_from_uris_and_links() {
    assert_eq!(parse_spotify_track_id("spotify:track:abc?x=1").as_deref(), Some("abc"));
    assert_eq!(parse_spotify_track_id("https://open.spotify.com/track/abc123?si=zz").as_deref(), Some("abc123"));
    assert_eq!(parse_spotify_track_id("https://open.spotify.com/track/abc/extra").as_deref(), Some("abc"));
    assert_eq!(parse_spotify_track_id("https://open.spotify.com/album/abc"), None);
    assert_eq!(parse_spotify_track_id("spotify:track:").as_deref(), Some(""));
}

#[test]
fn classification_order() {
    assert_eq!(classify("https://youtu.be/x"), SourceKind::DirectMediaUrl);
    assert_eq!(classify("https://open.spotify.com/track/x"), SourceKind::StreamingLink);
    assert_eq!(classify("spotify:track:x"), SourceKind::StreamingLink);
    assert_eq!(classify("youtube.com spotify"), SourceKind::SearchQuery);
    assert_eq!(classify("https://youtube.com/spotify"), SourceKind::DirectMediaUrl);
}

#[test]
fn text_search_helpers() {
    assert_eq!(find("abcabc", "ca"), Some(2));
    assert_eq!(find("abc", "x"), None);
    assert_eq!(find("abc", ""), Some(0));
    assert!(contains("hello world", "o w"));
    assert!(starts_with("http://x", "http"));
    assert!(!starts_with("htt", "http"));
}

#[test]
fn auth_header_is_base64_of_id_and_secret() {
    assert_eq!(basic_auth_header("id", "secret"), "Basic aWQ6c2VjcmV0");
    assert_eq!(basic_auth_header("", ""), "Basic Og==");
}

#[test]
fn token_and_track_answers() {
    assert_eq!(access_token_from_json(r#"{"access_token":"tok","token_type":"Bearer"}"#).as_deref(), Some("tok"));
    assert_eq!(access_token_from_json("not json"), None);
    let body = r#"{"name":"Song","artists":[{"name":"Artist"},{"name":"B"}],"duration_ms":210000,"album":{"images":[{"url":"http://img"}]}}"#;
    let t = track_from_json(body).unwrap();
    assert_eq!(t.title, "Song");
    assert_eq!(t.artist, "Artist");
    assert_eq!(t.duration_ms, Some(210_000));
    assert_eq!(t.thumbnail.as_deref(), Some("http://img"));
    assert!(track_from_json(r#"{"name":"Song","artists":[]}"#).is_none());
    assert!(track_from_json("{").is_none());
    let t = track_from_json(r#"{"name":"S","artists":[{"name":"A"}],"duration_ms":"long"}"#).unwrap();
    assert_eq!(t.duration_ms, None);
    assert_eq!(t.thumbnail, None);
}

#[test]
fn search_answers() {
    let h = search_hit_from_json(r#"{"tracks":{"items":[{"name":"Hit","artists":[{"name":"Band"}]}]}}"#).unwrap();
    assert_eq!((h.title.as_str(), h.artist.as_str()), ("Hit", "Band"));
    let h = search_hit_from_json(r#"{"tracks":{"items":[{"name":"Hit","artists":[]}]}}"#).unwrap();
    assert_eq!(h.artist, "Unknown");
    assert!(search_hit_from_json(r#"{"tracks":{"items":[]}}"#).is_none());
}

#[test]
fn extractor_output_line() {
    let e = extracted_from_json(r#"{"url":"https://cdn/a","title":"T","uploader":"U","duration":200,"filesize":1234}"#).unwrap();
    assert_eq!(e.url, "https://cdn/a");
    assert_eq!(e.meta.title.as_deref(), Some("T"));
    assert_eq!(e.meta.artist.as_deref(), Some("U"));
    assert_eq!(e.meta.duration_ms, Some(200_000));
    assert_eq!(e.filesize, Some(1234));
    let e = extracted_from_json(r#"{"url":"u","artist":"A","uploader":"U"}"#).unwrap();
    assert_eq!(e.meta.artist.as_deref(), Some("A"));
    assert!(extracted_from_json(r#"{"title":"no url"}"#).is_none());
}

#[test]
fn devices_by_name() {
    let ds = devices_from_json(r#"{"devices":[{"id":"1","name":"Kitchen"},{"id":"2","name":"Librespot-Wrapper"}]}"#).unwrap();
    assert_eq!(ds.len(), 2);
    assert_eq!(device_id_by_name(&ds, "Librespot-Wrapper").as_deref(), Some("2"));
    assert_eq!(device_id_by_name(&ds, "Nope"), None);
    assert!(devices_from_json(r#"{"devices":[{"id":"1"}]}"#).is_none());
    assert!(devices_from_json(r#"{"other":[]}"#).is_none());
    assert!(devices_from_json("not json").is_none());
    assert_eq!(devices_from_json(r#"{"devices":[]}"#).unwrap().len(), 0);
}

#[test]
fn shell_quoting_and_commands() {
    assert_eq!(shell_quote("abc"), "\"abc\"");
    assert_eq!(shell_quote("a\"b"), "\"a\\\"b\"");
    let uri = "https://open.spotify.com/track/abc?si=1";
    assert_eq!(
        stream_command(Some("helper {uri} | cat {uri}"), Some(".bin/w"), uri).as_deref(),
        Some("helper \"https://open.spotify.com/track/abc?si=1\" | cat \"https://open.spotify.com/track/abc?si=1\"")
    );
    assert_eq!(
        stream_command(None, Some(".bin/w"), uri).as_deref(),
        Some(".bin/w --uri \"spotify:track:abc\" --stdout")
    );
    assert_eq!(stream_command(None, Some("w"), "plain").as_deref(), Some("w --uri \"plain\" --stdout"));
    assert_eq!(stream_command(None, None, uri), None);
}

#[test]
fn decimal_parsing() {
    assert_eq!(parse_u64("42"), Some(42));
    assert_eq!(parse_u64("+7"), Some(7));
    assert_eq!(parse_u64(""), None);
    assert_eq!(parse_u64("+"), None);
    assert_eq!(parse_u64("4a"), None);
    assert_eq!(parse_u64("18446744073709551615"), Some(u64::MAX));
    assert_eq!(parse_u64("18446744073709551616"), None);
}

#[test]
fn button_ids_round_trip() {
    let id = button_id(ControlAction::VolDown, 123, 456);
    assert_eq!(id, "music:vol_down:123:456");
    let b = parse_button_id(&id).unwrap();
    assert_eq!(b.action, "vol_down");
    assert_eq!((b.owner, b.key), (Some(123), Some(456)));
    assert!(parse_button_id("other:pause:1:2").is_none());
    let b = parse_button_id("music:pause").unwrap();
    assert_eq!((b.action.as_str(), b.owner, b.key), ("pause", None, None));
    let b = parse_button_id("music").unwrap();
    assert_eq!(b.action, "");
}

#[test]
fn non_owner_is_refused_without_change() {
    let mut store = SessionStore::new();
    store.open(8, 1, TrackMeta::empty(), Vec::new());
    let b = parse_button_id("music:pause:10:8").unwrap();
    assert!(matches!(handle_control(&mut store, &b, 11), ControlReply::NotOwner));
    assert_eq!(store.get(8).unwrap().state, music_core::store::PlayState::Play);
    let b = parse_button_id("music:pause::8").unwrap();
    assert!(matches!(handle_control(&mut store, &b, 10), ControlReply::NotOwner));
    let b = parse_button_id("music:pause:10:9").unwrap();
    assert!(matches!(handle_control(&mut store, &b, 10), ControlReply::NoActiveTrack));
    let b = parse_button_id("music:pause:10").unwrap();
    assert!(matches!(handle_control(&mut store, &b, 10), ControlReply::NoTarget));
}

#[test]
fn owner_actions_change_the_session() {
    let mut store = SessionStore::new();
    store.open(8, 1, TrackMeta::empty(), Vec::new());
    let reply = |store: &mut SessionStore, id: &str| match handle_control(store, &parse_button_id(id).unwrap(), 10) {
        ControlReply::Done { message, .. } => message,
        other => panic!("unexpected {:?}", other),
    };
    assert_eq!(reply(&mut store, "music:pause:10:8"), "Paused");
    assert_eq!(store.get(8).unwrap().state, music_core::store::PlayState::Pause);
    assert_eq!(reply(&mut store, "music:resume:10:8"), "Resumed");
    assert_eq!(reply(&mut store, "music:vol_down:10:8"), "Volume: 0.10");
    assert_eq!(reply(&mut store, "music:vol_down:10:8"), "Volume: 0.00");
    assert_eq!(reply(&mut store, "music:vol_down:10:8"), "Volume: 0.00");
    assert_eq!(reply(&mut store, "music:shuffle:10:8"), "Unknown action");
    store.track_terminal(8, 1, music_core::reaper::TerminalSignal::End);
    assert_eq!(reply(&mut store, "music:pause:10:8"), "Pause failed: track finished");
    assert_eq!(reply(&mut store, "music:stop:10:8"), "Stopped");
    assert!(store.get(8).is_none());
}

#[test]
fn status_texts() {
    assert_eq!(remaining_text(Some(210_000), 5_000), "3:25");
    assert_eq!(remaining_text(Some(65_999), 0), "1:05");
    assert_eq!(remaining_text(Some(1_000), 5_000), "0:00");
    assert_eq!(remaining_text(None, 0), "Unknown");
    assert_eq!(volume_text(20), "0.20");
    assert_eq!(volume_text(500), "5.00");
    assert_eq!(volume_text(105), "1.05");
    let m = TrackMeta { title: Some("T".to_string()), artist: Some("A".to_string()), duration_ms: None, thumbnail: None };
    assert_eq!(heading(Some(&m)), "T \u{2014} A");
    let m = TrackMeta { title: None, artist: Some("A".to_string()), duration_ms: None, thumbnail: None };
    assert_eq!(heading(Some(&m)), "A");
    assert_eq!(heading(None), "Music Controls");
}

#[test]
fn metadata_merge_keeps_resolver_fields() {
    let resolved = TrackMeta { title: Some("R".to_string()), artist: Some(String::new()), duration_ms: None, thumbnail: None };
    let found = TrackMeta { title: Some("F".to_string()), artist: Some("FA".to_string()), duration_ms: Some(5), thumbnail: Some("t".to_string()) };
    let m = resolved.merge(&found);
    assert_eq!(m.title.as_deref(), Some("R"));
    assert_eq!(m.artist.as_deref(), Some("FA"));
    assert_eq!(m.duration_ms, Some(5));
    assert_eq!(m.thumbnail.as_deref(), Some("t"));
}

#[test]
fn volume_arithmetic() {
    assert_eq!(apply_volume(495, VolumeChange::By(10)), 500);
    assert_eq!(apply_volume(5, VolumeChange::By(-10)), 0);
    assert_eq!(apply_volume(20, VolumeChange::To(130)), 130);
}

#[test]
fn music_command_parsing() {
    match parse_music_command("  play   never  gonna\tgive ") {
        MusicCommand::Play { query } => assert_eq!(query, "never gonna give"),
        other => panic!("{:?}", other),
    }
    assert!(matches!(parse_music_command("leave"), MusicCommand::Leave));
    assert!(matches!(parse_music_command("control now"), MusicCommand::Control));
    assert!(matches!(parse_music_command(""), MusicCommand::Usage));
    assert!(matches!(parse_music_command("dance"), MusicCommand::Usage));
    match parse_music_command("join <#55>") {
        MusicCommand::Join { args } => assert_eq!(args, "<#55>"),
        other => panic!("{:?}", other),
    }
    assert_eq!(split_words(" a  b "), vec!["a".to_string(), "b".to_string()]);
}

#[test]
fn channel_arguments() {
    assert_eq!(parse_channel_arg("<#123>"), Some(123));
    assert_eq!(parse_channel_arg(" 456 extra"), Some(456));
    assert_eq!(parse_channel_arg("<#<#7>>"), Some(7));
    assert_eq!(parse_channel_arg("general"), None);
    assert_eq!(parse_channel_arg(""), None);
}

#[test]
fn mod_alert_toggling() {
    let sorted = |s: &ModAlertStore| {
        let mut v = s.to_list();
        v.sort();
        v
    };
    let mut s = ModAlertStore::from_list(&vec![3, 1, 3]);
    assert_eq!(sorted(&s), vec![1, 3]);
    assert!(s.is_enabled(1));
    assert!(!s.toggle(1));
    assert!(!s.is_enabled(1));
    assert!(s.toggle(9));
    assert_eq!(sorted(&s), vec![3, 9]);
}

#[test]
fn timeout_detection() {
    assert!(timeout_newly_applied(None, Some(10)));
    assert!(timeout_newly_applied(Some(10), Some(20)));
    assert!(!timeout_newly_applied(Some(20), Some(10)));
    assert!(!timeout_newly_applied(Some(10), None));
    assert!(!timeout_newly_applied(None, None));
}
