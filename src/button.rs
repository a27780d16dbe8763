//! Identifiers of the control panel's buttons: `music:<action>:<owner>:<key>`.

use vstd::prelude::*;
use crate::text::{occurs_at, occurs_in, first_occurrence, find, push_decimal, decimal, digit_char, same_text};
use crate::metadata::opt_view;

verus! {

/// A control action a panel button triggers.
#[derive(Debug, Clone, Copy, PartialEq, Eq, Structural)]
pub enum ControlAction {
    Pause,
    Resume,
    Stop,
    VolUp,
    VolDown,
}

pub open spec fn action_name(a: ControlAction) -> Seq<char> {
    match a {
        ControlAction::Pause => "pause"@,
        ControlAction::Resume => "resume"@,
        ControlAction::Stop => "stop"@,
        ControlAction::VolUp => "vol_up"@,
        ControlAction::VolDown => "vol_down"@,
    }
}

pub open spec fn action_named(s: Seq<char>) -> Option<ControlAction> {
    if s == "pause"@ {
        Some(ControlAction::Pause)
    } else if s == "resume"@ {
        Some(ControlAction::Resume)
    } else if s == "stop"@ {
        Some(ControlAction::Stop)
    } else if s == "vol_up"@ {
        Some(ControlAction::VolUp)
    } else if s == "vol_down"@ {
        Some(ControlAction::VolDown)
    } else {
        None
    }
}

impl ControlAction {
    /// The action's name in a button identifier.
    pub fn name(self) -> (r: &'static str)
        ensures
            r@ == action_name(self),
    {
        match self {
            ControlAction::Pause => "pause",
            ControlAction::Resume => "resume",
            ControlAction::Stop => "stop",
            ControlAction::VolUp => "vol_up",
            ControlAction::VolDown => "vol_down",
        }
    }

    /// The action of a name, if it names one.
    pub fn from_name(s: &str) -> (r: Option<ControlAction>)
        ensures
            r == action_named(s@),
    {
        if same_text(s, "pause") {
            Some(ControlAction::Pause)
        } else if same_text(s, "resume") {
            Some(ControlAction::Resume)
        } else if same_text(s, "stop") {
            Some(ControlAction::Stop)
        } else if same_text(s, "vol_up") {
            Some(ControlAction::VolUp)
        } else if same_text(s, "vol_down") {
            Some(ControlAction::VolDown)
        } else {
            None
        }
    }
}

pub open spec fn is_digit(c: char) -> bool {
    '0' <= c && c <= '9'
}

pub open spec fn digit_value(c: char) -> nat {
    (c as u32 - '0' as u32) as nat
}

/// The value of a string of decimal digits.
pub open spec fn digits_value(s: Seq<char>) -> nat
    decreases s.len(),
{
    if s.len() == 0 {
        0
    } else {
        digits_value(s.drop_last()) * 10 + digit_value(s.last())
    }
}

pub open spec fn all_digits(s: Seq<char>) -> bool {
    forall|i: int| 0 <= i < s.len() ==> is_digit(#[trigger] s[i])
}

/// An unsigned 64-bit number as Rust's `u64` parser accepts it: an
/// optional `+`, then one or more decimal digits, in range.
pub open spec fn parse_u64_spec(s: Seq<char>) -> Option<u64> {
    let d = if s.len() > 0 && s[0] == '+' { s.drop_first() } else { s };
    if d.len() > 0 && all_digits(d) && digits_value(d) <= u64::MAX {
        Some(digits_value(d) as u64)
    } else {
        None
    }
}

proof fn lemma_digits_grow(s: Seq<char>, k: int)
    requires
        0 <= k <= s.len(),
    ensures
        digits_value(s.subrange(0, k)) <= digits_value(s),
    decreases s.len() - k,
{
    if k < s.len() {
        lemma_digits_grow(s, k + 1);
        assert(s.subrange(0, k + 1).drop_last() =~= s.subrange(0, k));
    } else {
        assert(s.subrange(0, k) =~= s);
    }
}

/// Parses a decimal `u64`.
pub fn parse_u64(s: &str) -> (r: Option<u64>)
    ensures
        r == parse_u64_spec(s@),
{
    let n = s.unicode_len();
    let start: usize = if n > 0 && s.get_char(0) == '+' { 1 } else { 0 };
    let ghost d = if s@.len() > 0 && s@[0] == '+' { s@.drop_first() } else { s@ };
    assert(d =~= s@.subrange(start as int, n as int));
    if start == n {
        return None;
    }
    let mut acc: u64 = 0;
    let mut i = start;
    while i < n
        invariant
            n == s@.len(),
            start <= i <= n,
            d == s@.subrange(start as int, n as int),
            d == (if s@.len() > 0 && s@[0] == '+' { s@.drop_first() } else { s@ }),
            all_digits(d.subrange(0, i - start)),
            acc as nat == digits_value(d.subrange(0, i - start)),
        decreases n - i,
    {
        let c = s.get_char(i);
        let ghost k = i - start;
        assert(d[k] == c);
        if !('0' <= c && c <= '9') {
            assert(!is_digit(d[k]));
            assert(!all_digits(d));
            assert(parse_u64_spec(s@) is None);
            return None;
        }
        let dv = (c as u32 - '0' as u32) as u64;
        assert(d.subrange(0, k + 1).drop_last() =~= d.subrange(0, k));
        assert(d.subrange(0, k + 1).last() == c);
        if acc > (u64::MAX - dv) / 10 {
            proof {
                assert(digits_value(d.subrange(0, k + 1)) == acc * 10 + dv);
                assert(acc * 10 + dv > u64::MAX) by (nonlinear_arith)
                    requires acc > (u64::MAX - dv) / 10, dv <= 9;
                lemma_digits_grow(d, k + 1);
                assert(digits_value(d) > u64::MAX);
            }
            assert(parse_u64_spec(s@) is None);
            return None;
        }
        assert(acc * 10 + dv <= u64::MAX) by (nonlinear_arith)
            requires acc <= (u64::MAX - dv) / 10, dv <= 9;
        acc = acc * 10 + dv;
        i = i + 1;
        assert(all_digits(d.subrange(0, i - start))) by {
            assert forall|j: int| 0 <= j < (i - start) implies is_digit(#[trigger] d.subrange(0, i - start)[j]) by {
                if j < k {
                    assert(d.subrange(0, i - start)[j] == d.subrange(0, k)[j]);
                }
            }
        }
    }
    assert(d.subrange(0, n - start) =~= d);
    Some(acc)
}

/// The field before the first `:`, and what follows that colon, if any.
pub open spec fn head_field(s: Seq<char>) -> Seq<char> {
    match first_occurrence(s, ":"@) {
        Some(i) => s.subrange(0, i),
        None => s,
    }
}

pub open spec fn tail_fields(s: Seq<char>) -> Option<Seq<char>> {
    match first_occurrence(s, ":"@) {
        Some(i) => Some(s.subrange(i + 1, s.len() as int)),
        None => None,
    }
}

/// What follows the `n`-th `:`, if there are that many.
pub open spec fn rest_after(s: Seq<char>, n: nat) -> Option<Seq<char>>
    decreases n,
{
    if n == 0 {
        Some(s)
    } else {
        match rest_after(s, (n - 1) as nat) {
            Some(t) => tail_fields(t),
            None => None,
        }
    }
}

/// The `n`-th `:`-separated field (from 0), if there are that many.
pub open spec fn field(s: Seq<char>, n: nat) -> Option<Seq<char>> {
    match rest_after(s, n) {
        Some(t) => Some(head_field(t)),
        None => None,
    }
}

/// A parsed button identifier.
#[derive(Debug)]
pub struct ButtonId {
    /// The action's name as written.
    pub action: String,
    /// The panel owner's user id, where it parses.
    pub owner: Option<u64>,
    /// The session key, where it parses.
    pub key: Option<u64>,
}

pub open spec fn parse_field_u64(f: Option<Seq<char>>) -> Option<u64> {
    match f {
        Some(x) => parse_u64_spec(x),
        None => None,
    }
}

/// `music:<action>:<owner>:<key>`; an identifier whose first field is not
/// `music` is not a panel button's.
pub open spec fn button_spec(s: Seq<char>) -> Option<(Seq<char>, Option<u64>, Option<u64>)> {
    if head_field(s) != "music"@ {
        None
    } else {
        Some((
            match field(s, 1) { Some(a) => a, None => Seq::empty() },
            parse_field_u64(field(s, 2)),
            parse_field_u64(field(s, 3)),
        ))
    }
}

fn split_field(s: &str) -> (r: (String, Option<String>))
    ensures
        r.0@ == head_field(s@),
        match r.1 {
            Some(t) => tail_fields(s@) == Some(t@),
            None => tail_fields(s@) is None,
        },
{
    let n = s.unicode_len();
    match find(s, ":") {
        Some(i) => {
            proof { reveal_strlit(":"); }
            let head = String::from_str(s.substring_char(0, i));
            let tail = String::from_str(s.substring_char(i + 1, n));
            (head, Some(tail))
        },
        None => (String::from_str(s), None),
    }
}

fn parse_opt(f: &Option<String>) -> (r: Option<u64>)
    ensures
        r == parse_field_u64(opt_view(*f)),
{
    match f {
        Some(x) => parse_u64(x.as_str()),
        None => None,
    }
}

fn next_rest(t: &Option<String>) -> (r: Option<String>)
    ensures
        opt_view(r) == match opt_view(*t) {
            Some(x) => tail_fields(x),
            None => None,
        },
{
    match t {
        Some(x) => split_field(x.as_str()).1,
        None => None,
    }
}

fn head_of(t: &Option<String>) -> (r: Option<String>)
    ensures
        opt_view(r) == match opt_view(*t) {
            Some(x) => Some(head_field(x)),
            None => None,
        },
{
    match t {
        Some(x) => Some(split_field(x.as_str()).0),
        None => None,
    }
}

/// Parses a button identifier.
pub fn parse_button_id(s: &str) -> (r: Option<ButtonId>)
    ensures
        match r {
            Some(b) => button_spec(s@) == Some((b.action@, b.owner, b.key)),
            None => button_spec(s@) is None,
        },
{
    let (prefix, _) = split_field(s);
    if !same_text(prefix.as_str(), "music") {
        return None;
    }
    let r0 = Some(String::from_str(s));
    let r1 = next_rest(&r0);
    let r2 = next_rest(&r1);
    let r3 = next_rest(&r2);
    proof {
        reveal_with_fuel(rest_after, 4);
    }
    assert(opt_view(r1) == rest_after(s@, 1));
    assert(opt_view(r2) == rest_after(s@, 2));
    assert(opt_view(r3) == rest_after(s@, 3));
    let action = match head_of(&r1) {
        Some(a) => a,
        None => String::new(),
    };
    let owner = parse_opt(&head_of(&r2));
    let key = parse_opt(&head_of(&r3));
    Some(ButtonId { action, owner, key })
}

/// The identifier of a panel button.
pub open spec fn button_id_text(a: ControlAction, owner: u64, key: u64) -> Seq<char> {
    "music:"@ + action_name(a) + ":"@ + decimal(owner as nat) + ":"@ + decimal(key as nat)
}

/// Builds the identifier of a panel button.
pub fn button_id(a: ControlAction, owner: u64, key: u64) -> (r: String)
    ensures
        r@ == button_id_text(a, owner, key),
{
    let mut out = String::from_str("music:");
    out.append(a.name());
    out.append(":");
    push_decimal(&mut out, owner);
    out.append(":");
    push_decimal(&mut out, key);
    out
}

/// No `:` in the text.
pub open spec fn no_colon(s: Seq<char>) -> bool {
    forall|i: int| 0 <= i < s.len() ==> s[i] != ':'
}

proof fn lemma_first_at(s: Seq<char>, p: Seq<char>, i: int)
    requires
        occurs_at(s, p, i),
        forall|j: int| 0 <= j < i ==> !occurs_at(s, p, j),
    ensures
        first_occurrence(s, p) == Some(i),
{
    reveal(first_occurrence);
    assert(occurs_in(s, p));
    let c = first_occurrence(s, p)->0;
    assert(occurs_at(s, p, c) && forall|j: int| 0 <= j < c ==> !occurs_at(s, p, j));
    if c < i {
        assert(!occurs_at(s, p, c));
    } else if c > i {
        assert(!occurs_at(s, p, i));
    }
}

proof fn lemma_split_at_colon(x: Seq<char>, y: Seq<char>)
    requires
        no_colon(x),
    ensures
        head_field(x + ":"@ + y) == x,
        tail_fields(x + ":"@ + y) == Some(y),
{
    reveal_strlit(":");
    let s = x + ":"@ + y;
    let n = x.len() as int;
    assert(s.subrange(n, n + 1) =~= ":"@);
    assert forall|j: int| 0 <= j < n implies !occurs_at(s, ":"@, j) by {
        if occurs_at(s, ":"@, j) {
            assert(s.subrange(j, j + 1)[0] == s[j]);
            assert(s[j] == x[j]);
        }
    }
    lemma_first_at(s, ":"@, n);
    assert(s.subrange(0, n) =~= x);
    assert(s.subrange(n + 1, s.len() as int) =~= y);
}

proof fn lemma_last_field(x: Seq<char>)
    requires
        no_colon(x),
    ensures
        head_field(x) == x,
        tail_fields(x) is None,
{
    reveal(first_occurrence);
    reveal_strlit(":");
    if occurs_in(x, ":"@) {
        let i = choose|i: int| occurs_at(x, ":"@, i);
        assert(x.subrange(i, i + 1)[0] == x[i]);
    }
}

proof fn lemma_digit(d: nat)
    requires
        d < 10,
    ensures
        is_digit(digit_char(d)),
        digit_value(digit_char(d)) == d,
{
}

proof fn lemma_decimal_round_trip(n: nat)
    ensures
        decimal(n).len() > 0,
        all_digits(decimal(n)),
        no_colon(decimal(n)),
        decimal(n)[0] != '+',
        digits_value(decimal(n)) == n,
    decreases n,
{
    let s = decimal(n);
    if n < 10 {
        lemma_digit(n);
        assert(s.drop_last() =~= Seq::<char>::empty());
        assert(s.last() == digit_char(n));
        assert(digits_value(s) == digits_value(s.drop_last()) * 10 + digit_value(s.last()));
    } else {
        lemma_decimal_round_trip(n / 10);
        lemma_digit(n % 10);
        let t = decimal(n / 10);
        assert(s == t.push(digit_char(n % 10)));
        assert(s.drop_last() =~= t);
        assert(s.last() == digit_char(n % 10));
        assert(digits_value(s) == digits_value(t) * 10 + digit_value(digit_char(n % 10)));
        assert((n / 10) * 10 + n % 10 == n);
        assert(forall|i: int| 0 <= i < t.len() ==> s[i] == t[i]);
        assert(s[0] == t[0]);
    }
}

proof fn lemma_action_names(a: ControlAction)
    ensures
        no_colon(action_name(a)),
        action_named(action_name(a)) == Some(a),
{
    reveal_strlit("pause");
    reveal_strlit("resume");
    reveal_strlit("stop");
    reveal_strlit("vol_up");
    reveal_strlit("vol_down");
    assert("pause"@.len() == 5 && "resume"@.len() == 6 && "stop"@.len() == 4);
    assert("vol_up"@.len() == 6 && "vol_down"@.len() == 8);
    assert("resume"@[0] != "vol_up"@[0]);
}

proof fn lemma_parse_decimal(n: u64)
    ensures
        parse_u64_spec(decimal(n as nat)) == Some(n),
{
    lemma_decimal_round_trip(n as nat);
}

proof fn lemma_fields(x0: Seq<char>, x1: Seq<char>, x2: Seq<char>, x3: Seq<char>)
    requires
        no_colon(x0),
        no_colon(x1),
        no_colon(x2),
        no_colon(x3),
    ensures
        ({
            let s = x0 + ":"@ + (x1 + ":"@ + (x2 + ":"@ + x3));
            head_field(s) == x0 && field(s, 1) == Some(x1) && field(s, 2) == Some(x2) && field(s, 3) == Some(x3)
        }),
{
    let r2 = x2 + ":"@ + x3;
    let r1 = x1 + ":"@ + r2;
    let s = x0 + ":"@ + r1;
    lemma_split_at_colon(x0, r1);
    lemma_split_at_colon(x1, r2);
    lemma_split_at_colon(x2, x3);
    lemma_last_field(x3);
    assert(rest_after(s, 0) == Some(s));
    assert(rest_after(s, 1) == Some(r1));
    assert(rest_after(s, 2) == Some(r2));
    assert(rest_after(s, 3) == Some(x3));
}

/// A panel button's identifier parses back to its action's name, its
/// owner and its session key.
pub proof fn lemma_button_id_round_trip(a: ControlAction, owner: u64, key: u64)
    ensures
        button_spec(button_id_text(a, owner, key)) == Some((action_name(a), Some(owner), Some(key))),
        action_named(action_name(a)) == Some(a),
{
    reveal_strlit("music:");
    reveal_strlit("music");
    reveal_strlit(":");
    lemma_action_names(a);
    lemma_decimal_round_trip(owner as nat);
    lemma_decimal_round_trip(key as nat);
    lemma_parse_decimal(owner);
    lemma_parse_decimal(key);
    let name = action_name(a);
    let o = decimal(owner as nat);
    let k = decimal(key as nat);
    let s = button_id_text(a, owner, key);
    assert(s =~= "music"@ + ":"@ + (name + ":"@ + (o + ":"@ + k)));
    assert(no_colon("music"@));
    lemma_fields("music"@, name, o, k);
}

} // verus!
