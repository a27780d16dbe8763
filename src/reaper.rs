//! Idempotent reaping of a track's temporary files.

use vstd::prelude::*;

verus! {

/// The views of a list of strings.
pub open spec fn string_views(v: Seq<String>) -> Seq<Seq<char>> {
    v.map_values(|s: String| s@)
}

/// A signal that a track has finished.
#[derive(Debug, Clone, Copy, PartialEq, Eq, Structural)]
pub enum TerminalSignal {
    End,
    Error,
}

/// The temporary paths registered for a track, deleted on the first of its
/// terminal events and never again.
#[derive(Debug)]
pub struct Reaper {
    pending: Vec<String>,
    reaped: bool,
}

pub struct ReaperView {
    pub pending: Seq<Seq<char>>,
    pub reaped: bool,
}

impl View for Reaper {
    type V = ReaperView;

    closed spec fn view(&self) -> ReaperView {
        ReaperView { pending: string_views(self.pending@), reaped: self.reaped }
    }
}

/// A reaper that holds `paths` and has not fired.
pub open spec fn fresh_reaper(paths: Seq<Seq<char>>) -> ReaperView {
    ReaperView { pending: paths, reaped: false }
}

/// The state after a terminal event, whatever its kind.
pub open spec fn after_reap(st: ReaperView) -> ReaperView {
    if st.reaped { st } else { ReaperView { pending: Seq::empty(), reaped: true } }
}

/// The paths a terminal event deletes: all pending ones the first time,
/// none after that.
pub open spec fn reaped_by(st: ReaperView) -> Seq<Seq<char>> {
    if st.reaped { Seq::empty() } else { st.pending }
}

/// The paths deleted over `n` terminal events, in order.
pub open spec fn reaped_over(st: ReaperView, n: nat) -> Seq<Seq<char>>
    decreases n,
{
    if n == 0 {
        Seq::empty()
    } else {
        reaped_by(st) + reaped_over(after_reap(st), (n - 1) as nat)
    }
}

impl Reaper {
    /// Registers `paths` for deletion on the track's end.
    pub fn new(paths: Vec<String>) -> (r: Reaper)
        ensures
            r@ == fresh_reaper(string_views(paths@)),
    {
        Reaper { pending: paths, reaped: false }
    }

    pub fn is_reaped(&self) -> (r: bool)
        ensures
            r == self@.reaped,
    {
        self.reaped
    }

    /// Handles a terminal event: hands out the paths to delete the first
    /// time, nothing afterwards.
    pub fn reap(&mut self) -> (r: Vec<String>)
        ensures
            string_views(r@) == reaped_by(old(self)@),
            final(self)@ == after_reap(old(self)@),
    {
        if self.reaped {
            let none: Vec<String> = Vec::new();
            assert(string_views(none@) =~= Seq::<Seq<char>>::empty());
            return none;
        }
        self.reaped = true;
        let mut out: Vec<String> = Vec::new();
        std::mem::swap(&mut out, &mut self.pending);
        assert(string_views(self.pending@) =~= Seq::<Seq<char>>::empty());
        out
    }

    /// Handles the track's end or error signal.
    pub fn on_signal(&mut self, signal: TerminalSignal) -> (r: Vec<String>)
        ensures
            string_views(r@) == reaped_by(old(self)@),
            final(self)@ == after_reap(old(self)@),
    {
        self.reap()
    }
}

/// However many terminal events a track gets (its end, its error, the
/// session's close, in any order), every registered path is deleted exactly
/// once, on the first of them.
pub proof fn lemma_reaped_exactly_once(paths: Seq<Seq<char>>, n: nat)
    requires
        n >= 1,
    ensures
        reaped_over(fresh_reaper(paths), n) == paths,
{
    lemma_nothing_after_reap(after_reap(fresh_reaper(paths)), (n - 1) as nat);
    assert(reaped_over(fresh_reaper(paths), n) =~= paths);
}

proof fn lemma_nothing_after_reap(st: ReaperView, n: nat)
    requires
        st.reaped,
    ensures
        reaped_over(st, n) == Seq::<Seq<char>>::empty(),
    decreases n,
{
    if n > 0 {
        lemma_nothing_after_reap(after_reap(st), (n - 1) as nat);
        assert(reaped_over(st, n) =~= Seq::<Seq<char>>::empty());
    }
}

} // verus!
