//! Parsing of the music command's text: `<sub> <args...>`.

use vstd::prelude::*;
use crate::text::{occurs_at, starts_with, same_text};
use crate::button::{parse_u64, parse_u64_spec};

verus! {

/// Rust's `char::is_whitespace`: the Unicode `White_Space` characters.
pub open spec fn is_space(c: char) -> bool {
    c == ' ' || c == '\t' || c == '\n' || c == '\x0B' || c == '\x0C' || c == '\r'
        || c == '\u{85}' || c == '\u{A0}' || c == '\u{1680}'
        || ('\u{2000}' <= c && c <= '\u{200A}')
        || c == '\u{2028}' || c == '\u{2029}' || c == '\u{202F}' || c == '\u{205F}' || c == '\u{3000}'
}

pub fn space_char(c: char) -> (r: bool)
    ensures
        r == is_space(c),
{
    c == ' ' || c == '\t' || c == '\n' || c == '\x0B' || c == '\x0C' || c == '\r'
        || c == '\u{85}' || c == '\u{A0}' || c == '\u{1680}'
        || ('\u{2000}' <= c && c <= '\u{200A}')
        || c == '\u{2028}' || c == '\u{2029}' || c == '\u{202F}' || c == '\u{205F}' || c == '\u{3000}'
}

/// The first index from `i` on that holds no whitespace, or the length.
pub open spec fn skip_space(s: Seq<char>, i: int) -> int
    decreases s.len() - i,
{
    if i >= s.len() {
        s.len() as int
    } else if is_space(s[i]) {
        skip_space(s, i + 1)
    } else {
        i
    }
}

/// The first index from `i` on that holds whitespace, or the length.
pub open spec fn word_end(s: Seq<char>, i: int) -> int
    decreases s.len() - i,
{
    if i >= s.len() {
        s.len() as int
    } else if is_space(s[i]) {
        i
    } else {
        word_end(s, i + 1)
    }
}

pub proof fn lemma_skip_bounds(s: Seq<char>, i: int)
    requires
        0 <= i <= s.len(),
    ensures
        i <= skip_space(s, i) <= s.len(),
        skip_space(s, i) < s.len() ==> !is_space(s[skip_space(s, i)]),
    decreases s.len() - i,
{
    if i < s.len() && is_space(s[i]) {
        lemma_skip_bounds(s, i + 1);
    }
}

proof fn lemma_word_bounds(s: Seq<char>, i: int)
    requires
        0 <= i <= s.len(),
    ensures
        i <= word_end(s, i) <= s.len(),
        i < s.len() && !is_space(s[i]) ==> i < word_end(s, i),
    decreases s.len() - i,
{
    if i < s.len() && !is_space(s[i]) {
        lemma_word_bounds(s, i + 1);
    }
}

/// The whitespace-separated words of `s` from index `i` on.
pub open spec fn words_from(s: Seq<char>, i: int) -> Seq<Seq<char>>
    decreases s.len() - i,
{
    if i < 0 || i >= s.len() {
        Seq::empty()
    } else {
        let j = skip_space(s, i);
        if j >= s.len() || j < i {
            Seq::empty()
        } else {
            let k = word_end(s, j);
            if k <= j || k > s.len() {
                Seq::empty()
            } else {
                seq![s.subrange(j, k)] + words_from(s, k)
            }
        }
    }
}

/// The whitespace-separated words of `s`, as `split_whitespace` gives them.
pub open spec fn words(s: Seq<char>) -> Seq<Seq<char>> {
    words_from(s, 0)
}

fn skip_space_from(s: &str, i: usize) -> (r: usize)
    requires
        i <= s@.len(),
    ensures
        r == skip_space(s@, i as int),
{
    let n = s.unicode_len();
    let mut j = i;
    while j < n
        invariant
            n == s@.len(),
            i <= j <= n,
            skip_space(s@, i as int) == skip_space(s@, j as int),
        decreases n - j,
    {
        if !space_char(s.get_char(j)) {
            return j;
        }
        j = j + 1;
    }
    j
}

fn word_end_from(s: &str, i: usize) -> (r: usize)
    requires
        i <= s@.len(),
    ensures
        r == word_end(s@, i as int),
{
    let n = s.unicode_len();
    let mut j = i;
    while j < n
        invariant
            n == s@.len(),
            i <= j <= n,
            word_end(s@, i as int) == word_end(s@, j as int),
        decreases n - j,
    {
        if space_char(s.get_char(j)) {
            return j;
        }
        j = j + 1;
    }
    j
}

pub open spec fn word_views(v: Seq<String>) -> Seq<Seq<char>> {
    v.map_values(|w: String| w@)
}

/// Splits `s` into its whitespace-separated words.
pub fn split_words(s: &str) -> (r: Vec<String>)
    ensures
        word_views(r@) == words(s@),
{
    let n = s.unicode_len();
    let mut out: Vec<String> = Vec::new();
    let mut i: usize = 0;
    while i < n
        invariant
            n == s@.len(),
            i <= n,
            word_views(out@) + words_from(s@, i as int) == words(s@),
        decreases n - i,
    {
        let j = skip_space_from(s, i);
        proof { lemma_skip_bounds(s@, i as int); }
        if j >= n {
            assert(words_from(s@, i as int) =~= Seq::<Seq<char>>::empty());
            assert(word_views(out@) + words_from(s@, i as int) =~= word_views(out@));
            i = n;
        } else {
            let k = word_end_from(s, j);
            proof { lemma_word_bounds(s@, j as int); }
            let w = String::from_str(s.substring_char(j, k));
            let ghost prev = out@;
            assert(words_from(s@, i as int) == seq![w@] + words_from(s@, k as int));
            out.push(w);
            assert(word_views(out@) =~= word_views(prev).push(w@));
            assert(word_views(out@) + words_from(s@, k as int) =~= word_views(prev) + words_from(s@, i as int));
            i = k;
        }
    }
    assert(words_from(s@, n as int) =~= Seq::<Seq<char>>::empty());
    assert(word_views(out@) =~= word_views(out@) + words_from(s@, n as int));
    out
}

/// Words joined with single spaces.
pub open spec fn joined(ws: Seq<Seq<char>>) -> Seq<char>
    decreases ws.len(),
{
    if ws.len() == 0 {
        Seq::empty()
    } else if ws.len() == 1 {
        ws[0]
    } else {
        joined(ws.drop_last()) + " "@ + ws.last()
    }
}

/// Joins `ws[from..]` with single spaces.
pub fn join_from(ws: &Vec<String>, from: usize) -> (r: String)
    ensures
        r@ == joined(word_views(ws@).subrange(if from <= ws@.len() { from as int } else { ws@.len() as int }, ws@.len() as int)),
{
    let n = ws.len();
    let start = if from <= n { from } else { n };
    let mut out = String::new();
    let mut i = start;
    while i < n
        invariant
            n == ws@.len(),
            start <= i <= n,
            out@ == joined(word_views(ws@).subrange(start as int, i as int)),
        decreases n - i,
    {
        let ghost part = word_views(ws@).subrange(start as int, i + 1);
        assert(part.drop_last() =~= word_views(ws@).subrange(start as int, i as int));
        if i > start {
            out.append(" ");
        } else {
            assert(part =~= seq![ws@[i as int]@]);
        }
        out.append(ws[i].as_str());
        i = i + 1;
    }
    out
}

/// A music subcommand.
#[derive(Debug)]
pub enum MusicCommand {
    Join { args: String },
    Leave,
    Play { query: String },
    StreamTest { uri: String },
    Control,
    /// An unknown or missing subcommand: show the usage.
    Usage,
}

pub enum CommandView {
    Join(Seq<char>),
    Leave,
    Play(Seq<char>),
    StreamTest(Seq<char>),
    Control,
    Usage,
}

impl View for MusicCommand {
    type V = CommandView;

    open spec fn view(&self) -> CommandView {
        match self {
            MusicCommand::Join { args } => CommandView::Join(args@),
            MusicCommand::Leave => CommandView::Leave,
            MusicCommand::Play { query } => CommandView::Play(query@),
            MusicCommand::StreamTest { uri } => CommandView::StreamTest(uri@),
            MusicCommand::Control => CommandView::Control,
            MusicCommand::Usage => CommandView::Usage,
        }
    }
}

/// The subcommand named by the first word; the other words, joined by
/// single spaces, are its argument.
pub open spec fn command_spec(s: Seq<char>) -> CommandView {
    let ws = words(s);
    let sub = if ws.len() > 0 { ws[0] } else { Seq::empty() };
    let rest = joined(ws.subrange(if ws.len() > 0 { 1 } else { 0 }, ws.len() as int));
    if sub == "join"@ {
        CommandView::Join(rest)
    } else if sub == "leave"@ {
        CommandView::Leave
    } else if sub == "play"@ {
        CommandView::Play(rest)
    } else if sub == "streamtest"@ {
        CommandView::StreamTest(rest)
    } else if sub == "control"@ {
        CommandView::Control
    } else {
        CommandView::Usage
    }
}

/// Parses the text of a music command.
pub fn parse_music_command(args: &str) -> (r: MusicCommand)
    ensures
        r@ == command_spec(args@),
{
    let ws = split_words(args);
    let rest = join_from(&ws, 1);
    let ghost v = words(args@);
    assert(ws@.len() == v.len());
    if ws.len() == 0 {
        assert(v.len() == 0);
        assert(v.subrange(0, 0) =~= Seq::<Seq<char>>::empty());
        assert(word_views(ws@).subrange(0, 0) =~= Seq::<Seq<char>>::empty());
        proof {
            reveal_strlit("join");
            reveal_strlit("leave");
            reveal_strlit("play");
            reveal_strlit("streamtest");
            reveal_strlit("control");
            assert("join"@.len() == 4 && "leave"@.len() == 5 && "play"@.len() == 4);
            assert("streamtest"@.len() == 10 && "control"@.len() == 7);
        }
        return MusicCommand::Usage;
    }
    let sub = &ws[0];
    assert(sub@ == v[0]);
    if same_text(sub.as_str(), "join") {
        MusicCommand::Join { args: rest }
    } else if same_text(sub.as_str(), "leave") {
        MusicCommand::Leave
    } else if same_text(sub.as_str(), "play") {
        MusicCommand::Play { query: rest }
    } else if same_text(sub.as_str(), "streamtest") {
        MusicCommand::StreamTest { uri: rest }
    } else if same_text(sub.as_str(), "control") {
        MusicCommand::Control
    } else {
        MusicCommand::Usage
    }
}

/// `s` with every leading copy of a non-empty `p` removed.
pub open spec fn strip_leading(s: Seq<char>, p: Seq<char>) -> Seq<char>
    decreases s.len(),
{
    if p.len() > 0 && occurs_at(s, p, 0) {
        strip_leading(s.subrange(p.len() as int, s.len() as int), p)
    } else {
        s
    }
}

/// `s` with every trailing `c` removed.
pub open spec fn strip_trailing(s: Seq<char>, c: char) -> Seq<char>
    decreases s.len(),
{
    if s.len() > 0 && s.last() == c {
        strip_trailing(s.drop_last(), c)
    } else {
        s
    }
}

/// The channel id given as the first word, bare or as a `<#id>` mention.
pub open spec fn channel_arg_spec(s: Seq<char>) -> Option<u64> {
    let ws = words(s);
    if ws.len() > 0 {
        parse_u64_spec(strip_trailing(strip_leading(ws[0], "<#"@), '>'))
    } else {
        None
    }
}

fn strip_mention(w: &str) -> (r: String)
    ensures
        r@ == strip_trailing(strip_leading(w@, "<#"@), '>'),
{
    let mark = "<#";
    let m = mark.unicode_len();
    proof { reveal_strlit("<#"); }
    let mut cur = String::from_str(w);
    while starts_with(cur.as_str(), mark)
        invariant
            m == 2,
            m == mark@.len(),
            strip_leading(cur@, mark@) == strip_leading(w@, mark@),
        decreases cur@.len(),
    {
        let n = cur.as_str().unicode_len();
        cur = String::from_str(cur.as_str().substring_char(m, n));
    }
    let mut n = cur.as_str().unicode_len();
    let ghost lead = cur@;
    while n > 0 && cur.as_str().get_char(n - 1) == '>'
        invariant
            n <= cur@.len(),
            n == cur@.len(),
            strip_trailing(cur@, '>') == strip_trailing(strip_leading(w@, mark@), '>'),
        decreases n,
    {
        let next = String::from_str(cur.as_str().substring_char(0, n - 1));
        assert(next@ =~= cur@.drop_last());
        cur = next;
        n = n - 1;
    }
    cur
}

/// The voice channel named by a join command's argument.
pub fn parse_channel_arg(args: &str) -> (r: Option<u64>)
    ensures
        r == channel_arg_spec(args@),
{
    let ws = split_words(args);
    if ws.len() == 0 {
        return None;
    }
    let w = strip_mention(ws[0].as_str());
    parse_u64(w.as_str())
}

/// The voice channel to join: the one named in the command, else the one
/// the cache shows the user in, else the one the caller saw the user in.
pub fn choose_voice_channel(named: Option<u64>, cached: Option<u64>, seen: Option<u64>) -> (r: Option<u64>)
    ensures
        r == (if named is Some { named } else if cached is Some { cached } else { seen }),
{
    match named {
        Some(c) => Some(c),
        None => match cached {
            Some(c) => Some(c),
            None => seen,
        },
    }
}

} // verus!
