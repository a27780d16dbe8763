//! The `start` command: which configured service a request names, whether
//! it can be called, what is sent and how the answer is shown.

use vstd::prelude::*;
use crate::command::{split_words, join_from, words, joined, is_space, skip_space, space_char, lemma_skip_bounds};
use crate::text::{same_text, push_char, cut_spec, cut_to_bytes};
use crate::metadata::opt_view;

verus! {

/// How one service is started: an HTTP request to `url`.
pub struct ServiceConfig {
    pub url: String,
    /// HTTP method; POST where absent.
    pub method: Option<String>,
    pub headers: Option<Vec<(String, String)>>,
    /// JSON body; its fields are kept where it is an object.
    pub body: Option<serde_json::Value>,
    /// The body field the extra arguments go to; `args` where absent.
    pub args_field: Option<String>,
    pub timeout_secs: Option<u64>,
}

/// The configured services by name.
pub struct StartConfig {
    pub services: Vec<(String, ServiceConfig)>,
}

/// The bot's configuration.
pub struct AppConfig {
    pub start: Option<StartConfig>,
}

pub open spec fn service_names(v: Seq<(String, ServiceConfig)>) -> Seq<Seq<char>> {
    v.map_values(|p: (String, ServiceConfig)| p.0@)
}

/// The index of the first service called `name`.
pub open spec fn service_index(names: Seq<Seq<char>>, name: Seq<char>) -> Option<int> {
    if exists|i: int| 0 <= i < names.len() && names[i] == name {
        Some(choose|i: int| 0 <= i < names.len() && names[i] == name && forall|j: int| 0 <= j < i ==> names[j] != name)
    } else {
        None
    }
}

/// Names joined by `, `.
pub open spec fn comma_list(ns: Seq<Seq<char>>) -> Seq<char>
    decreases ns.len(),
{
    if ns.len() == 0 {
        Seq::empty()
    } else if ns.len() == 1 {
        ns[0]
    } else {
        comma_list(ns.drop_last()) + ", "@ + ns.last()
    }
}

/// The list of services shown when a request names none of them.
pub open spec fn available_spec(ns: Seq<Seq<char>>) -> Seq<char> {
    if ns.len() == 0 { "<none>"@ } else { comma_list(ns) }
}

impl StartConfig {
    /// The index of the first service called `name`.
    pub fn find(&self, name: &str) -> (r: Option<usize>)
        ensures
            match r {
                Some(i) => service_index(service_names(self.services@), name@) == Some(i as int)
                    && i < self.services@.len(),
                None => service_index(service_names(self.services@), name@) is None,
            },
    {
        let ghost ns = service_names(self.services@);
        let mut i: usize = 0;
        while i < self.services.len()
            invariant
                i <= self.services@.len(),
                ns == service_names(self.services@),
                forall|j: int| 0 <= j < i ==> ns[j] != name@,
            decreases self.services@.len() - i,
        {
            if same_text(self.services[i].0.as_str(), name) {
                assert(ns[i as int] == name@);
                let ghost c = service_index(ns, name@)->0;
                assert(exists|k: int| 0 <= k < ns.len() && ns[k] == name@);
                proof {
                    if c < i {
                        assert(ns[c] != name@);
                    } else if c > i {
                        assert(ns[i as int] != name@);
                    }
                }
                return Some(i);
            }
            i = i + 1;
        }
        None
    }

    /// The configured service names, or `<none>`.
    pub fn available(&self) -> (r: String)
        ensures
            r@ == available_spec(service_names(self.services@)),
    {
        let n = self.services.len();
        if n == 0 {
            return String::from_str("<none>");
        }
        let ghost ns = service_names(self.services@);
        let mut out = self.services[0].0.clone();
        assert(ns.subrange(0, 1) =~= seq![ns[0]]);
        let mut i: usize = 1;
        while i < n
            invariant
                n == self.services@.len(),
                ns == service_names(self.services@),
                1 <= i <= n,
                out@ == comma_list(ns.subrange(0, i as int)),
            decreases n - i,
        {
            assert(ns.subrange(0, i + 1).drop_last() =~= ns.subrange(0, i as int));
            out.append(", ");
            out.append(self.services[i].0.as_str());
            i = i + 1;
        }
        assert(ns.subrange(0, n as int) =~= ns);
        out
    }
}

/// ASCII letters in upper case, other characters unchanged.
pub open spec fn upper_char(c: char) -> char {
    if 'a' <= c && c <= 'z' { (((c as u32) - 32) as u8) as char } else { c }
}

pub open spec fn ascii_upper_spec(s: Seq<char>) -> Seq<char> {
    s.map_values(|c: char| upper_char(c))
}

/// Rust's `to_ascii_uppercase`.
pub fn ascii_upper(s: &str) -> (r: String)
    ensures
        r@ == ascii_upper_spec(s@),
{
    let n = s.unicode_len();
    let mut out = String::new();
    let mut i: usize = 0;
    while i < n
        invariant
            n == s@.len(),
            i <= n,
            out@ == ascii_upper_spec(s@.subrange(0, i as int)),
        decreases n - i,
    {
        let c = s.get_char(i);
        let u = if 'a' <= c && c <= 'z' { (((c as u32) - 32) as u8) as char } else { c };
        push_char(&mut out, u);
        assert(ascii_upper_spec(s@.subrange(0, i + 1)) =~= ascii_upper_spec(s@.subrange(0, i as int)).push(u));
        i = i + 1;
    }
    assert(s@.subrange(0, n as int) =~= s@);
    out
}

/// What a start request comes to.
pub enum StartPlan {
    /// No service named: show the usage.
    Usage,
    UnknownService { key: String, available: String },
    UnsupportedMethod { key: String, method: String },
    /// Call the service at `index` of the configuration with the extra
    /// arguments.
    Send { key: String, index: usize, extra: String },
}

pub enum StartPlanView {
    Usage,
    UnknownService(Seq<char>, Seq<char>),
    UnsupportedMethod(Seq<char>, Seq<char>),
    Send(Seq<char>, nat, Seq<char>),
}

impl View for StartPlan {
    type V = StartPlanView;

    open spec fn view(&self) -> StartPlanView {
        match self {
            StartPlan::Usage => StartPlanView::Usage,
            StartPlan::UnknownService { key, available } => StartPlanView::UnknownService(key@, available@),
            StartPlan::UnsupportedMethod { key, method } => StartPlanView::UnsupportedMethod(key@, method@),
            StartPlan::Send { key, index, extra } => StartPlanView::Send(key@, *index as nat, extra@),
        }
    }
}

/// The method a service is called with, in upper case.
pub open spec fn method_spec(m: Option<Seq<char>>) -> Seq<char> {
    match m {
        Some(x) => ascii_upper_spec(x),
        None => "POST"@,
    }
}

/// The first word names the service, the others are its arguments; only
/// services called with POST can be started.
pub open spec fn start_spec(args: Seq<char>, services: Seq<(String, ServiceConfig)>) -> StartPlanView {
    let ws = words(args);
    if ws.len() == 0 {
        StartPlanView::Usage
    } else {
        let key = ws[0];
        let extra = joined(ws.subrange(1, ws.len() as int));
        match service_index(service_names(services), key) {
            None => StartPlanView::UnknownService(key, available_spec(service_names(services))),
            Some(i) => {
                let method = method_spec(opt_view(services[i].1.method));
                if method != "POST"@ {
                    StartPlanView::UnsupportedMethod(key, method)
                } else {
                    StartPlanView::Send(key, i as nat, extra)
                }
            },
        }
    }
}

/// Decides what a start request does.
pub fn plan_start(args: &str, cfg: &StartConfig) -> (r: StartPlan)
    ensures
        r@ == start_spec(args@, cfg.services@),
{
    let ws = split_words(args);
    if ws.len() == 0 {
        return StartPlan::Usage;
    }
    let key = ws[0].clone();
    let extra = join_from(&ws, 1);
    match cfg.find(key.as_str()) {
        None => StartPlan::UnknownService { key, available: cfg.available() },
        Some(i) => {
            let method = match &cfg.services[i].1.method {
                Some(m) => ascii_upper(m.as_str()),
                None => String::from_str("POST"),
            };
            if same_text(method.as_str(), "POST") {
                StartPlan::Send { key, index: i, extra }
            } else {
                StartPlan::UnsupportedMethod { key, method }
            }
        },
    }
}

/// The body field that carries the extra arguments, and their text; none
/// without arguments.
pub fn args_entry(args_field: &Option<String>, extra: &str) -> (r: Option<(String, String)>)
    ensures
        match r {
            Some(e) => extra@.len() > 0 && e.1@ == extra@
                && e.0@ == match args_field { Some(f) => f@, None => "args"@ },
            None => extra@.len() == 0,
        },
{
    if extra.unicode_len() == 0 {
        return None;
    }
    let field = match args_field {
        Some(f) => f.clone(),
        None => String::from_str("args"),
    };
    Some((field, String::from_str(extra)))
}

/// The end of `s` without trailing whitespace.
pub open spec fn trim_end_at(s: Seq<char>, j: int) -> int
    decreases j,
{
    if j <= 0 || j > s.len() {
        0
    } else if is_space(s[j - 1]) {
        trim_end_at(s, j - 1)
    } else {
        j
    }
}

/// `s` without leading and trailing whitespace.
pub open spec fn trimmed(s: Seq<char>) -> Seq<char> {
    let a = skip_space(s, 0);
    let b = trim_end_at(s, s.len() as int);
    if a < b { s.subrange(a, b) } else { Seq::empty() }
}

/// Largest part of an answer shown, in bytes.
pub const EXCERPT_BYTES: usize = 1800;

/// An answer's body as shown: trimmed, `<empty>` when nothing is left, and
/// cut to the whole characters that fit in `EXCERPT_BYTES` bytes, marked
/// as cut, when it is longer.
pub open spec fn excerpt_spec(body: Seq<char>) -> Seq<char> {
    let t = trimmed(body);
    if t.len() == 0 {
        "<empty>"@
    } else {
        cut_spec(t, EXCERPT_BYTES as nat, "... (truncated)"@)
    }
}

proof fn lemma_trim_end_bounds(s: Seq<char>, j: int)
    requires
        0 <= j <= s.len(),
    ensures
        0 <= trim_end_at(s, j) <= j,
    decreases j,
{
    if j > 0 && is_space(s[j - 1]) {
        lemma_trim_end_bounds(s, j - 1);
    }
}

fn trim(s: &str) -> (r: String)
    ensures
        r@ == trimmed(s@),
{
    let n = s.unicode_len();
    let mut a: usize = 0;
    while a < n && space_char(s.get_char(a))
        invariant
            n == s@.len(),
            a <= n,
            skip_space(s@, 0) == skip_space(s@, a as int),
        decreases n - a,
    {
        a = a + 1;
    }
    let mut b: usize = n;
    while b > 0 && space_char(s.get_char(b - 1))
        invariant
            n == s@.len(),
            b <= n,
            trim_end_at(s@, n as int) == trim_end_at(s@, b as int),
        decreases b,
    {
        b = b - 1;
    }
    proof {
        lemma_skip_bounds(s@, a as int);
    }
    if a < b {
        String::from_str(s.substring_char(a, b))
    } else {
        String::new()
    }
}

/// The answer's body as the start command shows it.
pub fn response_excerpt(body: &str) -> (r: String)
    ensures
        r@ == excerpt_spec(body@),
{
    let t = trim(body);
    if t.as_str().unicode_len() == 0 {
        return String::from_str("<empty>");
    }
    cut_to_bytes(t.as_str(), EXCERPT_BYTES, "... (truncated)")
}

} // verus!
