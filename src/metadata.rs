//! Track metadata and the texts the status view is built from.

use vstd::prelude::*;
use crate::text::{decimal, push_char, push_decimal};

verus! {

/// What is known of the track a session plays. Durations are in
/// milliseconds.
#[derive(Debug)]
pub struct TrackMeta {
    pub title: Option<String>,
    pub artist: Option<String>,
    pub duration_ms: Option<u64>,
    pub thumbnail: Option<String>,
}

/// Mathematical model of [`TrackMeta`].
pub struct MetaView {
    pub title: Option<Seq<char>>,
    pub artist: Option<Seq<char>>,
    pub duration_ms: Option<u64>,
    pub thumbnail: Option<Seq<char>>,
}

pub open spec fn opt_view(o: Option<String>) -> Option<Seq<char>> {
    match o {
        Some(s) => Some(s@),
        None => None,
    }
}

impl View for TrackMeta {
    type V = MetaView;

    open spec fn view(&self) -> MetaView {
        MetaView {
            title: opt_view(self.title),
            artist: opt_view(self.artist),
            duration_ms: self.duration_ms,
            thumbnail: opt_view(self.thumbnail),
        }
    }
}

/// Metadata with every field unknown.
pub open spec fn empty_meta() -> MetaView {
    MetaView { title: None, artist: None, duration_ms: None, thumbnail: None }
}

/// A text field holds a non-empty value.
pub open spec fn filled(o: Option<Seq<char>>) -> bool {
    o is Some && o->0.len() > 0
}

/// Keep `first` where it holds a value, else take `second`.
pub open spec fn prefer(first: Option<Seq<char>>, second: Option<Seq<char>>) -> Option<Seq<char>> {
    if filled(first) { first } else { second }
}

/// Metadata from the resolver, with the fields it left empty filled from
/// what a sourcing tier discovered.
pub open spec fn merged(resolved: MetaView, discovered: MetaView) -> MetaView {
    MetaView {
        title: prefer(resolved.title, discovered.title),
        artist: prefer(resolved.artist, discovered.artist),
        duration_ms: if resolved.duration_ms is Some { resolved.duration_ms } else { discovered.duration_ms },
        thumbnail: prefer(resolved.thumbnail, discovered.thumbnail),
    }
}

pub fn clone_opt(o: &Option<String>) -> (r: Option<String>)
    ensures
        opt_view(r) == opt_view(*o),
{
    match o {
        Some(s) => Some(s.clone()),
        None => None,
    }
}

fn prefer_field(first: &Option<String>, second: &Option<String>) -> (r: Option<String>)
    ensures
        opt_view(r) == prefer(opt_view(*first), opt_view(*second)),
{
    match first {
        Some(s) => {
            if s.as_str().unicode_len() > 0 {
                return Some(s.clone());
            }
        },
        None => {},
    }
    clone_opt(second)
}

impl TrackMeta {
    /// Metadata with every field unknown.
    pub fn empty() -> (r: TrackMeta)
        ensures
            r@ == empty_meta(),
    {
        TrackMeta { title: None, artist: None, duration_ms: None, thumbnail: None }
    }

    /// Fills the fields this metadata leaves empty from `discovered`; a
    /// field that already holds a value is never overwritten.
    pub fn merge(&self, discovered: &TrackMeta) -> (r: TrackMeta)
        ensures
            r@ == merged(self@, discovered@),
    {
        TrackMeta {
            title: prefer_field(&self.title, &discovered.title),
            artist: prefer_field(&self.artist, &discovered.artist),
            duration_ms: if self.duration_ms.is_some() { self.duration_ms } else { discovered.duration_ms },
            thumbnail: prefer_field(&self.thumbnail, &discovered.thumbnail),
        }
    }
}

/// Two decimal digits, with a leading zero below ten.
pub open spec fn two_digits(n: nat) -> Seq<char> {
    if n < 10 { seq!['0'] + decimal(n) } else { decimal(n) }
}

/// `m:ss` for a number of whole seconds.
pub open spec fn clock_text(secs: nat) -> Seq<char> {
    decimal(secs / 60) + seq![':'] + two_digits(secs % 60)
}

/// Time left of a track of `duration` after `position` (both in ms),
/// floored at zero, or "Unknown" without a duration.
pub open spec fn remaining_spec(duration: Option<u64>, position: u64) -> Seq<char> {
    match duration {
        None => "Unknown"@,
        Some(total) => if total > position {
            clock_text(((total - position) / 1000) as nat)
        } else {
            clock_text(0)
        },
    }
}

/// Volume in hundredths shown with two decimals (`120` is `1.20`).
pub open spec fn volume_spec(hundredths: nat) -> Seq<char> {
    decimal(hundredths / 100) + seq!['.'] + two_digits(hundredths % 100)
}

/// Panel heading: title and artist as known, else a fixed caption.
pub open spec fn heading_spec(meta: Option<MetaView>) -> Seq<char> {
    match meta {
        Some(m) => match (m.title, m.artist) {
            (Some(t), Some(a)) => t + " \u{2014} "@ + a,
            (Some(t), None) => t,
            (None, Some(a)) => a,
            (None, None) => "Music Controls"@,
        },
        None => "Music Controls"@,
    }
}

pub fn push_two_digits(out: &mut String, n: u64)
    ensures
        final(out)@ == old(out)@ + two_digits(n as nat),
{
    if n < 10 {
        push_char(out, '0');
    }
    push_decimal(out, n);
    assert(final(out)@ =~= old(out)@ + two_digits(n as nat));
}

fn push_clock(out: &mut String, secs: u64)
    ensures
        final(out)@ == old(out)@ + clock_text(secs as nat),
{
    push_decimal(out, secs / 60);
    push_char(out, ':');
    push_two_digits(out, secs % 60);
    assert(final(out)@ =~= old(out)@ + clock_text(secs as nat));
}

/// Time left of the track, as the status view shows it.
pub fn remaining_text(duration_ms: Option<u64>, position_ms: u64) -> (r: String)
    ensures
        r@ == remaining_spec(duration_ms, position_ms),
{
    match duration_ms {
        None => String::from_str("Unknown"),
        Some(total) => {
            let mut out = String::new();
            if total > position_ms {
                push_clock(&mut out, (total - position_ms) / 1000);
            } else {
                push_clock(&mut out, 0);
            }
            assert(out@ =~= remaining_spec(duration_ms, position_ms));
            out
        },
    }
}

/// Volume in hundredths with two decimals.
pub fn volume_text(hundredths: u32) -> (r: String)
    ensures
        r@ == volume_spec(hundredths as nat),
{
    let mut out = String::new();
    push_decimal(&mut out, (hundredths / 100) as u64);
    push_char(&mut out, '.');
    push_two_digits(&mut out, (hundredths % 100) as u64);
    assert(out@ =~= volume_spec(hundredths as nat));
    out
}

/// Heading of the control panel for the session's metadata, if any.
pub fn heading(meta: Option<&TrackMeta>) -> (r: String)
    ensures
        r@ == heading_spec(match meta { Some(m) => Some(m@), None => None }),
{
    match meta {
        Some(m) => match (&m.title, &m.artist) {
            (Some(t), Some(a)) => {
                let mut out = t.clone();
                out.append(" \u{2014} ");
                out.append(a.as_str());
                out
            },
            (Some(t), None) => t.clone(),
            (None, Some(a)) => a.clone(),
            (None, None) => String::from_str("Music Controls"),
        },
        None => String::from_str("Music Controls"),
    }
}

} // verus!
