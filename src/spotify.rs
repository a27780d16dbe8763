//! The streaming service: the client-credentials authorization header,
//! what the web API's answers hold, and the stream helper's command line.

use vstd::prelude::*;
use base64::Engine;
use vstd::string::StringSliceAdditionalSpecFns;
use crate::text::{first_occurrence, find, push_char, same_text, decimal, push_decimal, cut_spec, cut_to_bytes};
use crate::metadata::{TrackMeta, MetaView, opt_view};
use crate::source::{TrackFound, SearchHit, parse_spotify_track_id, track_id_of};

verus! {

/// The standard, padded base64 encoding of `bytes`.
pub uninterp spec fn base64_of(bytes: Seq<u8>) -> Seq<char>;

/// Relies on base64's `STANDARD.encode`: the padded base64 text of the
/// bytes, four characters for each started group of three bytes (its
/// `encoded_len`), so empty for no bytes. That length computation panics
/// only past `usize::MAX / 4 * 3` bytes.
#[verifier::external_body]
fn encode_base64(bytes: &Vec<u8>) -> (r: String)
    requires
        bytes@.len() <= usize::MAX / 2,
    ensures
        r@ == base64_of(bytes@),
        r@.len() == 4 * ((bytes@.len() + 2) / 3),
{
    base64::engine::general_purpose::STANDARD.encode(bytes)
}

/// The bytes `<id>:<secret>` that client-credentials authorization
/// encodes.
pub open spec fn credential_bytes(id: Seq<u8>, secret: Seq<u8>) -> Seq<u8> {
    id + seq![58u8] + secret
}

/// `Basic <base64 of id:secret>`.
pub open spec fn basic_auth_spec(id: Seq<u8>, secret: Seq<u8>) -> Seq<char> {
    "Basic "@ + base64_of(credential_bytes(id, secret))
}

/// The authorization header value of the token exchange.
pub fn basic_auth_header(client_id: &str, client_secret: &str) -> (r: String)
    requires
        client_id.spec_bytes().len() + client_secret.spec_bytes().len() < usize::MAX / 2,
    ensures
        r@ == basic_auth_spec(client_id.spec_bytes(), client_secret.spec_bytes()),
{
    let mut bytes = client_id.as_bytes_vec();
    bytes.push(58u8);
    let mut rest = client_secret.as_bytes_vec();
    bytes.append(&mut rest);
    assert(bytes@ =~= credential_bytes(client_id.spec_bytes(), client_secret.spec_bytes()));
    let encoded = encode_base64(&bytes);
    let mut out = String::from_str("Basic ");
    out.append(encoded.as_str());
    out
}

/// serde_json's `Value`: a service's configured request body, carried
/// through to the request unread.
#[verifier::external_type_specification]
#[verifier::external_body]
pub struct ExJsonValue(serde_json::Value);

/// The string at a JSON pointer in a JSON text, if the text parses and a
/// string stands there.
pub uninterp spec fn json_str_at(text: Seq<char>, pointer: Seq<char>) -> Option<Seq<char>>;

/// The unsigned integer at a JSON pointer in a JSON text, if the text
/// parses and one stands there.
pub uninterp spec fn json_u64_at(text: Seq<char>, pointer: Seq<char>) -> Option<u64>;

/// The length of the array at a JSON pointer in a JSON text, if the text
/// parses and an array stands there.
pub uninterp spec fn json_len_at(text: Seq<char>, pointer: Seq<char>) -> Option<nat>;

/// Relies on `serde_json::from_str`, `Value::pointer` and `Value::as_str`:
/// the result depends on the text and the pointer alone.
#[verifier::external_body]
fn str_field(text: &str, pointer: &str) -> (r: Option<String>)
    ensures
        opt_view(r) == json_str_at(text@, pointer@),
{
    serde_json::from_str::<serde_json::Value>(text)
        .ok()
        .and_then(|v| v.pointer(pointer).and_then(|x| x.as_str()).map(|x| x.to_string()))
}

/// Relies on `serde_json::from_str`, `Value::pointer` and `Value::as_u64`:
/// the result depends on the text and the pointer alone.
#[verifier::external_body]
fn u64_field(text: &str, pointer: &str) -> (r: Option<u64>)
    ensures
        r == json_u64_at(text@, pointer@),
{
    serde_json::from_str::<serde_json::Value>(text)
        .ok()
        .and_then(|v| v.pointer(pointer).and_then(|x| x.as_u64()))
}

/// Relies on `serde_json::from_str`, `Value::pointer` and `Value::as_array`:
/// the result depends on the text and the pointer alone.
#[verifier::external_body]
fn array_len(text: &str, pointer: &str) -> (r: Option<usize>)
    ensures
        match r {
            Some(n) => json_len_at(text@, pointer@) == Some(n as nat),
            None => json_len_at(text@, pointer@) is None,
        },
{
    serde_json::from_str::<serde_json::Value>(text)
        .ok()
        .and_then(|v| v.pointer(pointer).and_then(|x| x.as_array()).map(|a| a.len()))
}

/// The access token of a token-exchange answer.
pub fn access_token_from_json(body: &str) -> (r: Option<String>)
    ensures
        opt_view(r) == json_str_at(body@, "/access_token"@),
{
    str_field(body, "/access_token")
}

/// A track looked up by id needs a name and an artist; its duration and
/// cover are optional.
pub fn track_from_fields(title: Option<String>, artist: Option<String>, duration_ms: Option<u64>, thumbnail: Option<String>) -> (r: Option<TrackFound>)
    ensures
        match r {
            Some(t) => title is Some && artist is Some
                && t.title@ == title->0@ && t.artist@ == artist->0@
                && t.duration_ms == duration_ms && opt_view(t.thumbnail) == opt_view(thumbnail),
            None => title is None || artist is None,
        },
{
    match (title, artist) {
        (Some(t), Some(a)) => Some(TrackFound { title: t, artist: a, duration_ms, thumbnail }),
        _ => None,
    }
}

/// The track in a track-lookup answer: its name, first artist, duration
/// and first album image.
pub fn track_from_json(body: &str) -> (r: Option<TrackFound>)
    ensures
        match r {
            Some(t) => json_str_at(body@, "/name"@) == Some(t.title@)
                && json_str_at(body@, "/artists/0/name"@) == Some(t.artist@)
                && t.duration_ms == json_u64_at(body@, "/duration_ms"@)
                && opt_view(t.thumbnail) == json_str_at(body@, "/album/images/0/url"@),
            None => json_str_at(body@, "/name"@) is None || json_str_at(body@, "/artists/0/name"@) is None,
        },
{
    track_from_fields(
        str_field(body, "/name"),
        str_field(body, "/artists/0/name"),
        u64_field(body, "/duration_ms"),
        str_field(body, "/album/images/0/url"),
    )
}

/// The best search hit: the first track, with its first artist, or
/// "Unknown" where it lists none.
pub fn hit_from_fields(title: Option<String>, artist: Option<String>) -> (r: Option<SearchHit>)
    ensures
        match r {
            Some(h) => title is Some && h.title@ == title->0@
                && h.artist@ == match artist { Some(a) => a@, None => "Unknown"@ },
            None => title is None,
        },
{
    match title {
        Some(t) => {
            let artist = match artist {
                Some(a) => a,
                None => String::from_str("Unknown"),
            };
            Some(SearchHit { title: t, artist })
        },
        None => None,
    }
}

/// The best hit of a search answer.
pub fn search_hit_from_json(body: &str) -> (r: Option<SearchHit>)
    ensures
        match r {
            Some(h) => json_str_at(body@, "/tracks/items/0/name"@) == Some(h.title@)
                && h.artist@ == match json_str_at(body@, "/tracks/items/0/artists/0/name"@) {
                    Some(a) => a,
                    None => "Unknown"@,
                },
            None => json_str_at(body@, "/tracks/items/0/name"@) is None,
        },
{
    hit_from_fields(str_field(body, "/tracks/items/0/name"), str_field(body, "/tracks/items/0/artists/0/name"))
}

/// What the media extractor reports for one format: the direct URL, the
/// track's metadata and, where known, the size of the stream.
#[derive(Debug)]
pub struct Extracted {
    pub url: String,
    pub meta: TrackMeta,
    pub filesize: Option<u64>,
}

/// Whole seconds as milliseconds, where that fits.
pub open spec fn secs_to_ms(secs: Option<u64>) -> Option<u64> {
    match secs {
        Some(s) => if s <= u64::MAX / 1000 { Some((s * 1000) as u64) } else { None },
        None => None,
    }
}

/// The extractor's report from its fields: a URL is required; the artist
/// falls back to the uploader.
pub fn extracted_from_fields(
    url: Option<String>,
    title: Option<String>,
    artist: Option<String>,
    uploader: Option<String>,
    thumbnail: Option<String>,
    duration_secs: Option<u64>,
    filesize: Option<u64>,
) -> (r: Option<Extracted>)
    ensures
        match r {
            Some(e) => url is Some && e.url@ == url->0@
                && e.meta@ == (MetaView {
                    title: opt_view(title),
                    artist: if artist is Some { opt_view(artist) } else { opt_view(uploader) },
                    duration_ms: secs_to_ms(duration_secs),
                    thumbnail: opt_view(thumbnail),
                })
                && e.filesize == filesize,
            None => url is None,
        },
{
    match url {
        Some(u) => {
            let artist = match artist {
                Some(a) => Some(a),
                None => uploader,
            };
            let duration_ms = match duration_secs {
                Some(s) => if s <= u64::MAX / 1000 { Some(s * 1000) } else { None },
                None => None,
            };
            Some(Extracted { url: u, meta: TrackMeta { title, artist, duration_ms, thumbnail }, filesize })
        },
        None => None,
    }
}

/// One line of the extractor's JSON output.
pub fn extracted_from_json(line: &str) -> (r: Option<Extracted>)
    ensures
        match r {
            Some(e) => json_str_at(line@, "/url"@) == Some(e.url@)
                && e.meta@ == (MetaView {
                    title: json_str_at(line@, "/title"@),
                    artist: if json_str_at(line@, "/artist"@) is Some {
                        json_str_at(line@, "/artist"@)
                    } else {
                        json_str_at(line@, "/uploader"@)
                    },
                    duration_ms: secs_to_ms(json_u64_at(line@, "/duration"@)),
                    thumbnail: json_str_at(line@, "/thumbnail"@),
                })
                && e.filesize == json_u64_at(line@, "/filesize"@),
            None => json_str_at(line@, "/url"@) is None,
        },
{
    extracted_from_fields(
        str_field(line, "/url"),
        str_field(line, "/title"),
        str_field(line, "/artist"),
        str_field(line, "/uploader"),
        str_field(line, "/thumbnail"),
        u64_field(line, "/duration"),
        u64_field(line, "/filesize"),
    )
}

/// The characters the shell still interprets inside double quotes.
pub open spec fn special_in_quotes(c: char) -> bool {
    c == '"' || c == '\\' || c == '$' || c == '`'
}

/// `s` with a backslash before each character the shell interprets inside
/// double quotes.
pub open spec fn escape_quotes(s: Seq<char>) -> Seq<char>
    decreases s.len(),
{
    if s.len() == 0 {
        Seq::empty()
    } else {
        escape_quotes(s.drop_last()) + if special_in_quotes(s.last()) { seq!['\\', s.last()] } else { seq![s.last()] }
    }
}

/// `s` in double quotes for the shell, taken literally: no quote ends it
/// and no expansion happens inside it.
pub open spec fn shell_quoted(s: Seq<char>) -> Seq<char> {
    seq!['"'] + escape_quotes(s) + seq!['"']
}

/// Quotes a value for substitution into a shell command.
pub fn shell_quote(s: &str) -> (r: String)
    ensures
        r@ == shell_quoted(s@),
{
    let n = s.unicode_len();
    let mut out = String::new();
    push_char(&mut out, '"');
    let mut i: usize = 0;
    while i < n
        invariant
            n == s@.len(),
            i <= n,
            out@ == seq!['"'] + escape_quotes(s@.subrange(0, i as int)),
        decreases n - i,
    {
        let c = s.get_char(i);
        if c == '"' || c == '\\' || c == '$' || c == '`' {
            push_char(&mut out, '\\');
        }
        push_char(&mut out, c);
        assert(s@.subrange(0, i + 1).drop_last() =~= s@.subrange(0, i as int));
        i = i + 1;
        assert(out@ =~= seq!['"'] + escape_quotes(s@.subrange(0, i as int)));
    }
    push_char(&mut out, '"');
    assert(s@.subrange(0, n as int) =~= s@);
    assert(out@ =~= shell_quoted(s@));
    out
}

/// `s` with every occurrence of `pat` replaced by `rep`, left to right.
pub open spec fn replace_all(s: Seq<char>, pat: Seq<char>, rep: Seq<char>) -> Seq<char>
    decreases s.len(),
{
    if pat.len() == 0 {
        s
    } else {
        match first_occurrence(s, pat) {
            Some(i) => if 0 <= i && i + pat.len() <= s.len() {
                s.subrange(0, i) + rep + replace_all(s.subrange(i + pat.len(), s.len() as int), pat, rep)
            } else {
                s
            },
            None => s,
        }
    }
}

proof fn lemma_replace_at(s: Seq<char>, pat: Seq<char>, rep: Seq<char>, i: int)
    requires
        pat.len() > 0,
        first_occurrence(s, pat) == Some(i),
        0 <= i,
        i + pat.len() <= s.len(),
    ensures
        replace_all(s, pat, rep) == s.subrange(0, i) + rep + replace_all(s.subrange(i + pat.len(), s.len() as int), pat, rep),
{
}

proof fn lemma_replace_none(s: Seq<char>, pat: Seq<char>, rep: Seq<char>)
    requires
        first_occurrence(s, pat) is None,
    ensures
        replace_all(s, pat, rep) == s,
{
}

/// Replaces every occurrence of a non-empty `pat` in `s` by `rep`.
pub fn replace(s: &str, pat: &str, rep: &str) -> (r: String)
    requires
        pat@.len() > 0,
    ensures
        r@ == replace_all(s@, pat@, rep@),
{
    let m = pat.unicode_len();
    let mut out = String::new();
    let mut rest = String::from_str(s);
    loop
        invariant
            m == pat@.len(),
            m > 0,
            out@ + replace_all(rest@, pat@, rep@) == replace_all(s@, pat@, rep@),
        decreases rest@.len(),
    {
        let n = rest.as_str().unicode_len();
        let ghost before = out@;
        match find(rest.as_str(), pat) {
            Some(i) => {
                let next = String::from_str(rest.as_str().substring_char(i + m, n));
                proof {
                    lemma_replace_at(rest@, pat@, rep@, i as int);
                }
                out.append(rest.as_str().substring_char(0, i));
                out.append(rep);
                assert(out@ + replace_all(next@, pat@, rep@) =~= before + replace_all(rest@, pat@, rep@));
                rest = next;
            },
            None => {
                proof {
                    lemma_replace_none(rest@, pat@, rep@);
                }
                out.append(rest.as_str());
                return out;
            },
        }
    }
}

/// The stream helper's command for a track: the configured template with
/// each `{uri}` replaced by the quoted link.
pub open spec fn templated_command(template: Seq<char>, uri: Seq<char>) -> Seq<char> {
    replace_all(template, "{uri}"@, shell_quoted(uri))
}

/// The bundled helper's command: `<helper> --uri <uri> --stdout`, where a
/// link with a track id is passed as a `spotify:track:<id>` URI.
pub open spec fn bundled_command(helper: Seq<char>, uri: Seq<char>) -> Seq<char> {
    let target = match track_id_of(uri) {
        Some(id) => "spotify:track:"@ + id,
        None => uri,
    };
    helper + " --uri "@ + shell_quoted(target) + " --stdout"@
}

/// The command that streams a track: a configured template wins over the
/// bundled helper; with neither there is none.
pub fn stream_command(template: Option<&str>, helper: Option<&str>, uri: &str) -> (r: Option<String>)
    ensures
        match template {
            Some(t) => opt_view(r) == Some(templated_command(t@, uri@)),
            None => match helper {
                Some(h) => opt_view(r) == Some(bundled_command(h@, uri@)),
                None => r is None,
            },
        },
{
    match template {
        Some(t) => {
            let q = shell_quote(uri);
            proof { reveal_strlit("{uri}"); }
            Some(replace(t, "{uri}", q.as_str()))
        },
        None => match helper {
            Some(h) => {
                let target = match parse_spotify_track_id(uri) {
                    Some(id) => {
                        let mut t = String::from_str("spotify:track:");
                        t.append(id.as_str());
                        t
                    },
                    None => String::from_str(uri),
                };
                let mut out = String::from_str(h);
                out.append(" --uri ");
                let q = shell_quote(target.as_str());
                out.append(q.as_str());
                out.append(" --stdout");
                Some(out)
            },
            None => None,
        },
    }
}

/// A playback device of the user's account.
#[derive(Debug)]
pub struct Device {
    pub id: String,
    pub name: String,
}

pub open spec fn device_views(ds: Seq<Device>) -> Seq<(Seq<char>, Seq<char>)> {
    ds.map_values(|d: Device| (d.id@, d.name@))
}

/// The id of the first device called `name`.
pub open spec fn first_named(ds: Seq<(Seq<char>, Seq<char>)>, name: Seq<char>) -> Option<Seq<char>>
    decreases ds.len(),
{
    if ds.len() == 0 {
        None
    } else if ds[0].1 == name {
        Some(ds[0].0)
    } else {
        first_named(ds.drop_first(), name)
    }
}

/// The id of the first device with the given name.
pub fn device_id_by_name(devices: &Vec<Device>, name: &str) -> (r: Option<String>)
    ensures
        opt_view(r) == first_named(device_views(devices@), name@),
{
    let mut i: usize = 0;
    assert(device_views(devices@).subrange(0, devices@.len() as int) =~= device_views(devices@));
    while i < devices.len()
        invariant
            i <= devices@.len(),
            first_named(device_views(devices@), name@) == first_named(device_views(devices@).subrange(i as int, devices@.len() as int), name@),
        decreases devices@.len() - i,
    {
        let ghost rest = device_views(devices@).subrange(i as int, devices@.len() as int);
        assert(rest.drop_first() =~= device_views(devices@).subrange(i + 1, devices@.len() as int));
        assert(rest[0] == (devices@[i as int].id@, devices@[i as int].name@));
        if same_text(devices[i].name.as_str(), name) {
            return Some(devices[i].id.clone());
        }
        i = i + 1;
    }
    assert(device_views(devices@).subrange(i as int, devices@.len() as int) =~= Seq::<(Seq<char>, Seq<char>)>::empty());
    None
}

/// The JSON pointer of a field of the `i`-th device of a device list.
pub open spec fn device_field(i: nat, field: Seq<char>) -> Seq<char> {
    "/devices/"@ + decimal(i) + field
}

fn device_pointer(i: usize, field: &str) -> (r: String)
    ensures
        r@ == device_field(i as nat, field@),
{
    let mut out = String::from_str("/devices/");
    push_decimal(&mut out, i as u64);
    out.append(field);
    out
}

/// The devices of a device-list answer, in order; `None` where the answer
/// holds no device list or one of its devices lacks an id or a name.
pub fn devices_from_json(body: &str) -> (r: Option<Vec<Device>>)
    ensures
        match r {
            Some(ds) => json_len_at(body@, "/devices"@) == Some(ds@.len())
                && forall|i: int| 0 <= i < ds@.len() ==>
                    json_str_at(body@, device_field(i as nat, "/id"@)) == Some(#[trigger] ds@[i].id@)
                    && json_str_at(body@, device_field(i as nat, "/name"@)) == Some(ds@[i].name@),
            None => match json_len_at(body@, "/devices"@) {
                None => true,
                Some(n) => exists|i: int| 0 <= i < n && (
                    #[trigger] json_str_at(body@, device_field(i as nat, "/id"@)) is None
                    || json_str_at(body@, device_field(i as nat, "/name"@)) is None),
            },
        },
{
    let n = match array_len(body, "/devices") {
        Some(n) => n,
        None => return None,
    };
    let mut out: Vec<Device> = Vec::new();
    let mut i: usize = 0;
    while i < n
        invariant
            i <= n,
            json_len_at(body@, "/devices"@) == Some(n as nat),
            out@.len() == i,
            forall|k: int| 0 <= k < i ==>
                json_str_at(body@, device_field(k as nat, "/id"@)) == Some(#[trigger] out@[k].id@)
                && json_str_at(body@, device_field(k as nat, "/name"@)) == Some(out@[k].name@),
        decreases n - i,
    {
        let id = str_field(body, device_pointer(i, "/id").as_str());
        let name = str_field(body, device_pointer(i, "/name").as_str());
        match (id, name) {
            (Some(id), Some(name)) => out.push(Device { id, name }),
            _ => {
                let ghost k: int = i as int;
                assert(k as nat == i as nat);
                assert(json_str_at(body@, device_field(k as nat, "/id"@)) is None
                    || json_str_at(body@, device_field(k as nat, "/name"@)) is None);
                return None;
            },
        }
        i = i + 1;
    }
    Some(out)
}

/// Largest part of a stream test's probe report shown, in bytes.
pub const PROBE_REPORT_BYTES: usize = 1900;

/// A stream test's probe report as shown: cut to the whole characters that
/// fit in `PROBE_REPORT_BYTES` bytes, marked as cut, when it is longer.
pub fn probe_report_excerpt(report: &str) -> (r: String)
    ensures
        r@ == cut_spec(report@, PROBE_REPORT_BYTES as nat, "\n...[truncated]"@),
{
    cut_to_bytes(report, PROBE_REPORT_BYTES, "\n...[truncated]")
}

/// The shell pipeline of a stream test: ten seconds of the helper's output
/// recorded to a WAV file, the helper's errors kept in a log.
pub open spec fn record_command_spec(cmd: Seq<char>, log: Seq<char>, sample: Seq<char>) -> Seq<char> {
    "( "@ + cmd + " ) 2> "@ + log
        + " | ffmpeg -hide_banner -loglevel error -i - -t 10 -vn -c:a pcm_s16le -ar 48000 -ac 2 -f wav "@ + sample
}

/// Builds the stream test's recording pipeline.
pub fn record_command(cmd: &str, log: &str, sample: &str) -> (r: String)
    ensures
        r@ == record_command_spec(cmd@, log@, sample@),
{
    let mut out = String::from_str("( ");
    out.append(cmd);
    out.append(" ) 2> ");
    out.append(log);
    out.append(" | ffmpeg -hide_banner -loglevel error -i - -t 10 -vn -c:a pcm_s16le -ar 48000 -ac 2 -f wav ");
    out.append(sample);
    out
}

} // verus!
