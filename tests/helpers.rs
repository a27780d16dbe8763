use music_core::command::choose_voice_channel;
use music_core::pipeline::{helper_hint, helper_pipeline, now_playing, search_target, url_format, Step};
use music_core::setup::path_with_bin_first;
use music_core::spotify::{probe_report_excerpt, record_command, shell_quote};
use music_core::start::{args_entry, ascii_upper, plan_start, response_excerpt, ServiceConfig, StartConfig, StartPlan};
use music_core::text::{cut_to_bytes, same_text};

fn service(method: Option<&str>) -> ServiceConfig {
    ServiceConfig {
        url: "http://localhost:8080/start".to_string(),
        method: method.map(|m| m.to_string()),
        headers: None,
        body: None,
        args_field: Some("args".to_string()),
        timeout_secs: Some(10),
    }
}

fn config() -> StartConfig {
    StartConfig {
        services: vec![
            ("mc".to_string(), service(Some("post"))),
            ("web".to_string(), service(Some("GET"))),
        ],
    }
}

#[test]
fn start_requests_are_planned() {
    let cfg = config();
    assert!(matches!(plan_start("   ", &cfg), StartPlan::Usage));
    match plan_start("mc  hard   mode", &cfg) {
        StartPlan::Send { key, index, extra } => {
            assert_eq!(key, "mc");
            assert_eq!(index, 0);
            assert_eq!(extra, "hard mode");
        }
        _ => panic!("expected a request"),
    }
    match plan_start("web", &cfg) {
        StartPlan::UnsupportedMethod { key, method } => assert_eq!((key.as_str(), method.as_str()), ("web", "GET")),
        _ => panic!("expected a refusal"),
    }
    match plan_start("ark", &cfg) {
        StartPlan::UnknownService { key, available } => {
            assert_eq!(key, "ark");
            assert_eq!(available, "mc, web");
        }
        _ => panic!("expected an unknown service"),
    }
    let empty = StartConfig { services: Vec::new() };
    match plan_start("ark", &empty) {
        StartPlan::UnknownService { available, .. } => assert_eq!(available, "<none>"),
        _ => panic!("expected an unknown service"),
    }
    let default_method = StartConfig { services: vec![("x".to_string(), service(None))] };
    assert!(matches!(plan_start("x", &default_method), StartPlan::Send { .. }));
}

#[test]
fn start_body_and_excerpt() {
    assert_eq!(args_entry(&None, "a b"), Some(("args".to_string(), "a b".to_string())));
    assert_eq!(args_entry(&Some("extra".to_string()), "z"), Some(("extra".to_string(), "z".to_string())));
    assert_eq!(args_entry(&Some("extra".to_string()), ""), None);
    assert_eq!(response_excerpt("  ok \n"), "ok");
    assert_eq!(response_excerpt(" \t\n"), "<empty>");
    let long = "x".repeat(1801);
    assert_eq!(response_excerpt(&long), format!("{}... (truncated)", "x".repeat(1800)));
    assert_eq!(response_excerpt(&"y".repeat(1800)), "y".repeat(1800));
    let wide = "\u{e9}".repeat(901);
    assert_eq!(response_excerpt(&wide), format!("{}... (truncated)", "\u{e9}".repeat(900)));
    assert_eq!(ascii_upper("post\u{e9}"), "POST\u{e9}");
}

#[test]
fn pipeline_step_parameters() {
    assert_eq!(helper_hint(0), "");
    assert_eq!(helper_hint(3), "-f s16le -ar 48000 -ac 2");
    assert_eq!(url_format(1), "bestaudio[ext=m4a]/bestaudio/best");
    assert_eq!(
        helper_pipeline("h", 1),
        "h | ffmpeg -hide_banner -loglevel error -f wav -i - -vn -c:a pcm_s16le -ar 48000 -ac 2 -f wav -"
    );
    assert_eq!(
        helper_pipeline("h", 0),
        "h | ffmpeg -hide_banner -loglevel error -i - -vn -c:a pcm_s16le -ar 48000 -ac 2 -f wav -"
    );
    assert_eq!(search_target("rare track"), "ytsearch1:rare track");
    assert_eq!(now_playing(Step::Stream, "q", "l"), "Now playing: q");
    assert_eq!(now_playing(Step::HelperRaw, "q", "l"), "Now streaming from Spotify: l");
    assert_eq!(now_playing(Step::PlayUrl { format: 2 }, "q", "l"), "Now playing (format bestaudio/best): q");
    assert_eq!(now_playing(Step::PlayTranscoded, "q", "l"), "Now playing (transcoded): q");
}

#[test]
fn stream_test_recording_command() {
    assert_eq!(
        record_command("helper", "/tmp/h.log", "/tmp/s.wav"),
        "( helper ) 2> /tmp/h.log | ffmpeg -hide_banner -loglevel error -i - -t 10 -vn -c:a pcm_s16le -ar 48000 -ac 2 -f wav /tmp/s.wav"
    );
}

#[test]
fn voice_channel_choice() {
    assert_eq!(choose_voice_channel(Some(1), Some(2), Some(3)), Some(1));
    assert_eq!(choose_voice_channel(None, Some(2), Some(3)), Some(2));
    assert_eq!(choose_voice_channel(None, None, Some(3)), Some(3));
    assert_eq!(choose_voice_channel(None, None, None), None);
}

#[test]
fn bin_directory_goes_first_once() {
    let paths = vec!["/usr/bin".to_string(), "/bin".to_string()];
    assert_eq!(
        path_with_bin_first(&paths, ".bin"),
        Some(vec![".bin".to_string(), "/usr/bin".to_string(), "/bin".to_string()])
    );
    let with = vec!["/usr/bin".to_string(), ".bin".to_string()];
    assert_eq!(path_with_bin_first(&with, ".bin"), None);
    assert!(same_text("abc", "abc"));
    assert!(!same_text("abc", "abd"));
    assert!(!same_text("abc", "ab"));
}

#[test]
fn shell_quoting_keeps_expansions_literal() {
    assert_eq!(shell_quote("a$(rm -rf x)`id`\\\"z"), "\"a\\$(rm -rf x)\\`id\\`\\\\\\\"z\"");
    assert_eq!(shell_quote("plain"), "\"plain\"");
}

#[test]
fn probe_report_is_cut_at_a_character_boundary() {
    let short = "x".repeat(1900);
    assert_eq!(probe_report_excerpt(&short), short);
    let long = "x".repeat(1901);
    assert_eq!(probe_report_excerpt(&long), format!("{}\n...[truncated]", "x".repeat(1900)));
    let straddling = format!("{}\u{e9}tail", "x".repeat(1899));
    assert_eq!(probe_report_excerpt(&straddling), format!("{}\n...[truncated]", "x".repeat(1899)));
    assert_eq!(cut_to_bytes("abcdef", 3, "~"), "abc~");
    assert_eq!(cut_to_bytes("abc", 3, "~"), "abc");
}
