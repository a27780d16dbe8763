//! The resolver: what kind of source a request names, which lookups at the
//! streaming service it calls for, and the descriptor that results.

use vstd::prelude::*;
use crate::text::{occurs_at, occurs_in, first_occurrence, starts_with, contains, find};
use crate::metadata::{TrackMeta, MetaView, empty_meta, clone_opt, opt_view};

verus! {

/// How a request is to be sourced.
#[derive(Debug, Clone, Copy, PartialEq, Eq, Structural)]
pub enum SourceKind {
    /// A link the media extractor can play as it stands.
    DirectMediaUrl,
    /// A track link or URI of the streaming service.
    StreamingLink,
    /// Free text to search for.
    SearchQuery,
}

pub open spec fn is_direct_media_url(s: Seq<char>) -> bool {
    occurs_at(s, "http"@, 0) && (occurs_in(s, "youtube.com"@) || occurs_in(s, "youtu.be"@))
}

pub open spec fn is_streaming_link(s: Seq<char>) -> bool {
    (occurs_at(s, "http"@, 0) && occurs_in(s, "spotify"@)) || occurs_at(s, "spotify:"@, 0)
}

/// Classification in priority order: direct media first, then a
/// streaming-service link, else a search.
pub open spec fn kind_of(s: Seq<char>) -> SourceKind {
    if is_direct_media_url(s) {
        SourceKind::DirectMediaUrl
    } else if is_streaming_link(s) {
        SourceKind::StreamingLink
    } else {
        SourceKind::SearchQuery
    }
}

/// Classifies request text.
pub fn classify(text: &str) -> (r: SourceKind)
    ensures
        r == kind_of(text@),
{
    let http = starts_with(text, "http");
    if http && (contains(text, "youtube.com") || contains(text, "youtu.be")) {
        SourceKind::DirectMediaUrl
    } else if (http && contains(text, "spotify")) || starts_with(text, "spotify:") {
        SourceKind::StreamingLink
    } else {
        SourceKind::SearchQuery
    }
}

/// A character that ends a track id: query separators, and in a web link
/// also a further path segment.
pub open spec fn ends_id(c: char, in_link: bool) -> bool {
    c == '?' || c == '&' || (in_link && c == '/')
}

/// The index where the id that starts at `i` ends.
pub open spec fn id_end(s: Seq<char>, i: int, in_link: bool) -> int
    decreases s.len() - i,
{
    if i >= s.len() {
        s.len() as int
    } else if ends_id(s[i], in_link) {
        i
    } else {
        id_end(s, i + 1, in_link)
    }
}

/// The track id in a `spotify:track:<id>` URI or a `/track/<id>` link.
pub open spec fn track_id_of(s: Seq<char>) -> Option<Seq<char>> {
    match first_occurrence(s, "spotify:track:"@) {
        Some(p) => {
            let st = p + "spotify:track:"@.len();
            Some(s.subrange(st, id_end(s, st, false)))
        },
        None => match first_occurrence(s, "/track/"@) {
            Some(p) => {
                let st = p + "/track/"@.len();
                Some(s.subrange(st, id_end(s, st, true)))
            },
            None => None,
        },
    }
}

proof fn lemma_id_end_bounds(s: Seq<char>, i: int, in_link: bool)
    requires
        0 <= i <= s.len(),
    ensures
        i <= id_end(s, i, in_link) <= s.len(),
    decreases s.len() - i,
{
    if i < s.len() && !ends_id(s[i], in_link) {
        lemma_id_end_bounds(s, i + 1, in_link);
    }
}

fn id_from(s: &str, start: usize, in_link: bool) -> (r: String)
    requires
        start <= s@.len(),
    ensures
        r@ == s@.subrange(start as int, id_end(s@, start as int, in_link)),
{
    let n = s.unicode_len();
    let mut i = start;
    let mut done = false;
    while i < n && !done
        invariant
            n == s@.len(),
            start <= i <= n,
            id_end(s@, start as int, in_link) == id_end(s@, i as int, in_link),
            done ==> i < n && ends_id(s@[i as int], in_link),
        decreases n - i, if done { 0int } else { 1int },
    {
        let c = s.get_char(i);
        if c == '?' || c == '&' || (in_link && c == '/') {
            done = true;
        } else {
            i = i + 1;
        }
    }
    proof {
        lemma_id_end_bounds(s@, i as int, in_link);
    }
    String::from_str(s.substring_char(start, i))
}

/// Extracts the track id from a streaming-service URI or link.
pub fn parse_spotify_track_id(s: &str) -> (r: Option<String>)
    ensures
        opt_view(r) == track_id_of(s@),
{
    let _n = s.unicode_len();
    let uri_marker = "spotify:track:";
    match find(s, uri_marker) {
        Some(p) => {
            let st = p + uri_marker.unicode_len();
            Some(id_from(s, st, false))
        },
        None => {
            let link_marker = "/track/";
            match find(s, link_marker) {
                Some(p) => {
                    let st = p + link_marker.unicode_len();
                    Some(id_from(s, st, true))
                },
                None => None,
            }
        },
    }
}

/// A lookup at the streaming service's web API.
#[derive(Debug)]
pub enum Lookup {
    /// No call is made.
    Skip,
    /// Fetch the track with this id.
    Track { id: String },
    /// Search for the request text.
    Search,
}

pub enum LookupView {
    Skip,
    Track(Seq<char>),
    Search,
}

impl View for Lookup {
    type V = LookupView;

    open spec fn view(&self) -> LookupView {
        match self {
            Lookup::Skip => LookupView::Skip,
            Lookup::Track { id } => LookupView::Track(id@),
            Lookup::Search => LookupView::Search,
        }
    }
}

/// The first lookup a request calls for. Nothing is looked up without
/// credentials, nor for a direct media link.
pub open spec fn lookup_spec(s: Seq<char>, credentials: bool) -> LookupView {
    if !credentials {
        LookupView::Skip
    } else {
        match kind_of(s) {
            SourceKind::DirectMediaUrl => LookupView::Skip,
            SourceKind::StreamingLink => match track_id_of(s) {
                Some(id) => LookupView::Track(id),
                None => LookupView::Search,
            },
            SourceKind::SearchQuery => LookupView::Search,
        }
    }
}

/// Whether a text search is due, given whether a track lookup found the
/// track: it is due when the first lookup is a search, or a track lookup
/// that failed.
pub open spec fn search_due(s: Seq<char>, credentials: bool, track_found: bool) -> bool {
    match lookup_spec(s, credentials) {
        LookupView::Skip => false,
        LookupView::Track(_) => !track_found,
        LookupView::Search => true,
    }
}

/// The first lookup for request text `raw`.
pub fn plan_lookup(raw: &str, credentials: bool) -> (r: Lookup)
    ensures
        r@ == lookup_spec(raw@, credentials),
        kind_of(raw@) == SourceKind::DirectMediaUrl ==> r is Skip,
        !credentials ==> r is Skip,
{
    if !credentials {
        return Lookup::Skip;
    }
    match classify(raw) {
        SourceKind::DirectMediaUrl => Lookup::Skip,
        SourceKind::StreamingLink => match parse_spotify_track_id(raw) {
            Some(id) => Lookup::Track { id },
            None => Lookup::Search,
        },
        SourceKind::SearchQuery => Lookup::Search,
    }
}

/// Whether to search after the first lookup; a direct media link never
/// leads to a search.
pub fn needs_search(raw: &str, credentials: bool, track_found: bool) -> (r: bool)
    ensures
        r == search_due(raw@, credentials, track_found),
        kind_of(raw@) == SourceKind::DirectMediaUrl ==> !r,
{
    match plan_lookup(raw, credentials) {
        Lookup::Skip => false,
        Lookup::Track { .. } => !track_found,
        Lookup::Search => true,
    }
}

/// A track the streaming service returned for an id.
#[derive(Debug)]
pub struct TrackFound {
    pub title: String,
    pub artist: String,
    pub duration_ms: Option<u64>,
    pub thumbnail: Option<String>,
}

/// The best hit of a text search.
#[derive(Debug)]
pub struct SearchHit {
    pub title: String,
    pub artist: String,
}

/// A resolved request.
#[derive(Debug)]
pub struct SourceDescriptor {
    /// How the request text was classified.
    pub kind: SourceKind,
    /// The request text as given.
    pub raw: String,
    /// The text handed to the media extractor.
    pub query: String,
}

#[derive(Debug)]
pub struct Resolution {
    pub descriptor: SourceDescriptor,
    pub meta: TrackMeta,
}

/// `<title> <artist>`.
pub open spec fn search_text(title: Seq<char>, artist: Seq<char>) -> Seq<char> {
    title + " "@ + artist
}

/// The query the extractor gets, given the outcomes of the lookups that
/// were made (`None` where a lookup failed or was not made).
pub open spec fn query_spec(
    raw: Seq<char>,
    credentials: bool,
    track: Option<(Seq<char>, Seq<char>)>,
    hit: Option<(Seq<char>, Seq<char>)>,
) -> Seq<char> {
    match lookup_spec(raw, credentials) {
        LookupView::Skip => raw,
        LookupView::Track(_) => match track {
            Some(t) => search_text(t.0, t.1),
            None => match hit {
                Some(h) => search_text(h.0, h.1),
                None => raw,
            },
        },
        LookupView::Search => match hit {
            Some(h) => search_text(h.0, h.1),
            None => raw,
        },
    }
}

pub open spec fn found_pair(f: Option<&TrackFound>) -> Option<(Seq<char>, Seq<char>)> {
    match f {
        Some(t) => Some((t.title@, t.artist@)),
        None => None,
    }
}

pub open spec fn hit_pair(h: Option<&SearchHit>) -> Option<(Seq<char>, Seq<char>)> {
    match h {
        Some(x) => Some((x.title@, x.artist@)),
        None => None,
    }
}

/// Metadata the resolver prefetched: that of a track found by id, else
/// nothing.
pub open spec fn prefetched_spec(raw: Seq<char>, credentials: bool, track: Option<&TrackFound>) -> MetaView {
    match (lookup_spec(raw, credentials), track) {
        (LookupView::Track(_), Some(t)) => MetaView {
            title: Some(t.title@),
            artist: Some(t.artist@),
            duration_ms: t.duration_ms,
            thumbnail: opt_view(t.thumbnail),
        },
        _ => empty_meta(),
    }
}

fn joined(title: &String, artist: &String) -> (r: String)
    ensures
        r@ == search_text(title@, artist@),
{
    let mut out = title.clone();
    out.append(" ");
    out.append(artist.as_str());
    out
}

/// Builds the descriptor of request `raw` from the outcomes of the lookups
/// made for it: `track` of the track lookup, `hit` of the search. Lookup
/// failures are not errors: the request text then stands unchanged.
pub fn resolve(raw: &str, credentials: bool, track: Option<&TrackFound>, hit: Option<&SearchHit>) -> (r: Resolution)
    ensures
        r.descriptor.kind == kind_of(raw@),
        r.descriptor.raw@ == raw@,
        r.descriptor.query@ == query_spec(raw@, credentials, found_pair(track), hit_pair(hit)),
        r.meta@ == prefetched_spec(raw@, credentials, track),
{
    let kind = classify(raw);
    let plan = plan_lookup(raw, credentials);
    let from_hit = |h: Option<&SearchHit>| -> (q: String)
        ensures
            q@ == match hit_pair(h) {
                Some(p) => search_text(p.0, p.1),
                None => raw@,
            },
        {
            match h {
                Some(x) => joined(&x.title, &x.artist),
                None => String::from_str(raw),
            }
        };
    let (query, meta) = match plan {
        Lookup::Skip => (String::from_str(raw), TrackMeta::empty()),
        Lookup::Track { .. } => match track {
            Some(t) => (
                joined(&t.title, &t.artist),
                TrackMeta {
                    title: Some(t.title.clone()),
                    artist: Some(t.artist.clone()),
                    duration_ms: t.duration_ms,
                    thumbnail: clone_opt(&t.thumbnail),
                },
            ),
            None => (from_hit(hit), TrackMeta::empty()),
        },
        Lookup::Search => (from_hit(hit), TrackMeta::empty()),
    };
    Resolution {
        descriptor: SourceDescriptor { kind, raw: String::from_str(raw), query },
        meta,
    }
}

/// Without credentials nothing is looked up: the request text is passed
/// through unchanged as the query, with no prefetched metadata, whatever
/// lookup results are handed in.
pub proof fn lemma_no_credentials_passthrough(raw: Seq<char>, track: Option<&TrackFound>, hit: Option<&SearchHit>)
    ensures
        lookup_spec(raw, false) == LookupView::Skip,
        !search_due(raw, false, track is Some),
        query_spec(raw, false, found_pair(track), hit_pair(hit)) == raw,
        prefetched_spec(raw, false, track) == empty_meta(),
{
}

/// A direct media link calls for no lookup at the streaming service, and
/// for no search whatever a lookup returned; its query is the link itself.
pub proof fn lemma_direct_link_never_searched(raw: Seq<char>, credentials: bool, track_found: bool, track: Option<&TrackFound>, hit: Option<&SearchHit>)
    requires
        kind_of(raw) == SourceKind::DirectMediaUrl,
    ensures
        lookup_spec(raw, credentials) == LookupView::Skip,
        !search_due(raw, credentials, track_found),
        query_spec(raw, credentials, found_pair(track), hit_pair(hit)) == raw,
{
}

} // verus!
