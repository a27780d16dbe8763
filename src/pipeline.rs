//! The stream acquirer: ordered sourcing tiers tried one step at a time
//! until a step yields a playable stream or every tier is exhausted.
//!
//! The acquirer decides; the caller performs each step (running the media
//! extractor, the transcoder or the stream helper, and asking the audio
//! engine whether the result plays) and hands back its [`Outcome`].

use vstd::prelude::*;
use crate::metadata::{TrackMeta, MetaView, merged, filled};
use crate::reaper::string_views;
use crate::source::{SourceDescriptor, SourceKind};

verus! {

/// Input-format hints the transcoder is tried with on the helper's output.
pub const HELPER_HINTS: usize = 6;

/// Format specs the media extractor resolves a direct URL for, in order.
pub const URL_FORMATS: usize = 3;

/// One step of the pipeline.
#[derive(Debug, Clone, Copy, PartialEq, Eq, Structural)]
pub enum Step {
    /// Tier 1: hand the query to the media extractor as a lazy input.
    Stream,
    /// Tier 2: play the stream helper's output as it is.
    HelperRaw,
    /// Tier 2: pipe the helper's output through the transcoder with an
    /// input-format hint.
    HelperTranscode { hint: usize },
    /// Tier 3: resolve a direct URL for a format spec.
    ExtractUrl { format: usize },
    /// Tier 3: play the resolved URL over HTTP.
    PlayUrl { format: usize },
    /// Tier 3: play the resolved URL through the transcoder.
    PipeUrl { format: usize },
    /// Tier 4: download the media to a temporary file.
    Download,
    /// Tier 4: play the downloaded file.
    PlayFile,
    /// Tier 4: transcode the downloaded file to PCM.
    TranscodeFile,
    /// Tier 4: play the transcoded file.
    PlayTranscoded,
}

/// The step's hint and format indices are in range.
pub open spec fn step_ok(s: Step) -> bool {
    match s {
        Step::HelperTranscode { hint } => hint < HELPER_HINTS,
        Step::ExtractUrl { format } => format < URL_FORMATS,
        Step::PlayUrl { format } => format < URL_FORMATS,
        Step::PipeUrl { format } => format < URL_FORMATS,
        _ => true,
    }
}

/// What performing a step gave.
#[derive(Debug)]
pub enum Outcome {
    /// The audio engine confirmed the stream decodes.
    Playable(TrackMeta),
    /// The step produced a URL or a file path, with what it learnt of the
    /// track.
    Produced(String, TrackMeta),
    /// The step failed, with a diagnostic.
    Failed(String),
}

pub enum OutcomeView {
    Playable(MetaView),
    Produced(Seq<char>, MetaView),
    Failed(Seq<char>),
}

impl View for Outcome {
    type V = OutcomeView;

    open spec fn view(&self) -> OutcomeView {
        match self {
            Outcome::Playable(m) => OutcomeView::Playable(m@),
            Outcome::Produced(s, m) => OutcomeView::Produced(s@, m@),
            Outcome::Failed(d) => OutcomeView::Failed(d@),
        }
    }
}

/// A failed candidate of a tier, kept for diagnostics.
#[derive(Debug)]
pub struct SourcingAttempt {
    /// Tier number, 1 to 4.
    pub tier: u8,
    /// Candidate within the tier (the format spec in tier 3, else 0).
    pub candidate: usize,
    pub diagnostic: String,
}

pub struct AttemptView {
    pub tier: u8,
    pub candidate: nat,
    pub diagnostic: Seq<char>,
}

impl View for SourcingAttempt {
    type V = AttemptView;

    open spec fn view(&self) -> AttemptView {
        AttemptView { tier: self.tier, candidate: self.candidate as nat, diagnostic: self.diagnostic@ }
    }
}

pub open spec fn attempt_views(v: Seq<SourcingAttempt>) -> Seq<AttemptView> {
    v.map_values(|a: SourcingAttempt| a@)
}

/// Name of a tier's strategy.
pub open spec fn strategy_name(tier: u8) -> Seq<char> {
    if tier == 1 {
        "stream"@
    } else if tier == 2 {
        "stream helper"@
    } else if tier == 3 {
        "direct url"@
    } else {
        "download"@
    }
}

impl SourcingAttempt {
    /// Name of the strategy of the attempt's tier.
    pub fn strategy(&self) -> (r: &'static str)
        ensures
            r@ == strategy_name(self.tier),
    {
        if self.tier == 1 {
            "stream"
        } else if self.tier == 2 {
            "stream helper"
        } else if self.tier == 3 {
            "direct url"
        } else {
            "download"
        }
    }
}

/// Diagnostic recorded for tier 2 when it does not apply.
pub const NO_HELPER: &'static str = "no stream helper for this source";

/// Diagnostic recorded for an outcome that the step cannot give.
pub const UNEXPECTED: &'static str = "unexpected outcome";

/// The acquirer between two steps.
#[derive(Debug)]
pub struct Acquirer {
    step: Step,
    helper: bool,
    query: String,
    link: String,
    resolved: TrackMeta,
    found: TrackMeta,
    target: String,
    transcoded: String,
    attempts: Vec<SourcingAttempt>,
}

pub struct AcqView {
    pub step: Step,
    pub helper: bool,
    pub query: Seq<char>,
    pub link: Seq<char>,
    pub resolved: MetaView,
    pub found: MetaView,
    pub target: Seq<char>,
    pub transcoded: Seq<char>,
    pub attempts: Seq<AttemptView>,
}

impl View for Acquirer {
    type V = AcqView;

    closed spec fn view(&self) -> AcqView {
        AcqView {
            step: self.step,
            helper: self.helper,
            query: self.query@,
            link: self.link@,
            resolved: self.resolved@,
            found: self.found@,
            target: self.target@,
            transcoded: self.transcoded@,
            attempts: attempt_views(self.attempts@),
        }
    }
}

/// A stream acquired: the step that played, the merged metadata, the
/// temporary paths to reap when the track ends, and the failed attempts
/// before it.
#[derive(Debug)]
pub struct Acquired {
    pub step: Step,
    pub meta: TrackMeta,
    pub temp_paths: Vec<String>,
    pub attempts: Vec<SourcingAttempt>,
}

/// Where the pipeline stands after a step.
#[derive(Debug)]
pub enum Progress {
    /// Perform the acquirer's next step.
    Next(Acquirer),
    Acquired(Acquired),
    /// Every tier failed: the attempts in order, and temporary files left
    /// behind by the last tier.
    Exhausted { attempts: Vec<SourcingAttempt>, leftover: Vec<String> },
}

pub enum ProgressView {
    Next(AcqView),
    Acquired { step: Step, meta: MetaView, temp_paths: Seq<Seq<char>>, attempts: Seq<AttemptView> },
    Exhausted { attempts: Seq<AttemptView>, leftover: Seq<Seq<char>> },
}

impl View for Progress {
    type V = ProgressView;

    open spec fn view(&self) -> ProgressView {
        match self {
            Progress::Next(a) => ProgressView::Next(a@),
            Progress::Acquired(x) => ProgressView::Acquired {
                step: x.step,
                meta: x.meta@,
                temp_paths: string_views(x.temp_paths@),
                attempts: attempt_views(x.attempts@),
            },
            Progress::Exhausted { attempts, leftover } => ProgressView::Exhausted {
                attempts: attempt_views(attempts@),
                leftover: string_views(leftover@),
            },
        }
    }
}

/// The diagnostic an outcome carries when a step failed.
pub open spec fn diagnostic_of(o: OutcomeView) -> Seq<char> {
    match o {
        OutcomeView::Failed(d) => d,
        _ => UNEXPECTED@,
    }
}

pub open spec fn record(a: AcqView, tier: u8, candidate: nat, d: Seq<char>) -> AcqView {
    AcqView { attempts: a.attempts.push(AttemptView { tier, candidate, diagnostic: d }), ..a }
}

pub open spec fn goto(a: AcqView, step: Step) -> AcqView {
    AcqView { step, ..a }
}

pub open spec fn acquired(a: AcqView, discovered: MetaView, temp_paths: Seq<Seq<char>>) -> ProgressView {
    ProgressView::Acquired {
        step: a.step,
        meta: merged(a.resolved, discovered),
        temp_paths,
        attempts: a.attempts,
    }
}

/// After tier 1 failed: tier 2 if it applies, else it is recorded as
/// skipped and tier 3 begins.
pub open spec fn after_stream(a: AcqView, d: Seq<char>) -> ProgressView {
    let a1 = record(a, 1, 0, d);
    if a.helper {
        ProgressView::Next(goto(a1, Step::HelperRaw))
    } else {
        ProgressView::Next(goto(record(a1, 2, 0, NO_HELPER@), Step::ExtractUrl { format: 0 }))
    }
}

/// After a tier-3 candidate failed: the next format, else tier 4.
pub open spec fn after_format(a: AcqView, format: nat, d: Seq<char>) -> ProgressView {
    let a1 = record(a, 3, format, d);
    if format + 1 < URL_FORMATS {
        ProgressView::Next(goto(a1, Step::ExtractUrl { format: (format + 1) as usize }))
    } else {
        ProgressView::Next(goto(a1, Step::Download))
    }
}

/// The pipeline's transition on a step's outcome.
pub open spec fn advance_spec(a: AcqView, o: OutcomeView) -> ProgressView {
    match a.step {
        Step::Stream => match o {
            OutcomeView::Playable(m) => acquired(a, m, Seq::empty()),
            _ => after_stream(a, diagnostic_of(o)),
        },
        Step::HelperRaw => match o {
            OutcomeView::Playable(m) => acquired(a, m, Seq::empty()),
            _ => ProgressView::Next(goto(a, Step::HelperTranscode { hint: 0 })),
        },
        Step::HelperTranscode { hint } => match o {
            OutcomeView::Playable(m) => acquired(a, m, Seq::empty()),
            _ => if hint + 1 < HELPER_HINTS {
                ProgressView::Next(goto(a, Step::HelperTranscode { hint: (hint + 1) as usize }))
            } else {
                ProgressView::Next(goto(record(a, 2, 0, diagnostic_of(o)), Step::ExtractUrl { format: 0 }))
            },
        },
        Step::ExtractUrl { format } => match o {
            OutcomeView::Produced(url, m) => ProgressView::Next(
                AcqView { step: Step::PlayUrl { format }, target: url, found: m, ..a },
            ),
            _ => after_format(a, format as nat, diagnostic_of(o)),
        },
        Step::PlayUrl { format } => match o {
            OutcomeView::Playable(m) => acquired(a, merged(a.found, m), Seq::empty()),
            _ => ProgressView::Next(goto(a, Step::PipeUrl { format })),
        },
        Step::PipeUrl { format } => match o {
            OutcomeView::Playable(m) => acquired(a, merged(a.found, m), Seq::empty()),
            _ => after_format(a, format as nat, diagnostic_of(o)),
        },
        Step::Download => match o {
            OutcomeView::Produced(path, m) => ProgressView::Next(
                AcqView { step: Step::PlayFile, target: path, found: m, ..a },
            ),
            _ => ProgressView::Exhausted {
                attempts: record(a, 4, 0, diagnostic_of(o)).attempts,
                leftover: Seq::empty(),
            },
        },
        Step::PlayFile => match o {
            OutcomeView::Playable(m) => acquired(a, merged(a.found, m), seq![a.target]),
            _ => ProgressView::Next(goto(a, Step::TranscodeFile)),
        },
        Step::TranscodeFile => match o {
            OutcomeView::Produced(path, _) => ProgressView::Next(
                AcqView { step: Step::PlayTranscoded, transcoded: path, ..a },
            ),
            _ => ProgressView::Exhausted {
                attempts: record(a, 4, 0, diagnostic_of(o)).attempts,
                leftover: seq![a.target],
            },
        },
        Step::PlayTranscoded => match o {
            OutcomeView::Playable(m) => acquired(a, merged(a.found, m), seq![a.target, a.transcoded]),
            _ => ProgressView::Exhausted {
                attempts: record(a, 4, 0, diagnostic_of(o)).attempts,
                leftover: seq![a.target, a.transcoded],
            },
        },
    }
}

/// A fresh acquirer for a descriptor.
pub open spec fn start_spec(kind: SourceKind, query: Seq<char>, link: Seq<char>, resolved: MetaView, helper_configured: bool) -> AcqView {
    AcqView {
        step: Step::Stream,
        helper: kind == SourceKind::StreamingLink && helper_configured,
        query,
        link,
        resolved,
        found: crate::metadata::empty_meta(),
        target: Seq::empty(),
        transcoded: Seq::empty(),
        attempts: Seq::empty(),
    }
}

/// The progress after handing the outcomes in order to the acquirer, as far
/// as it asks for them.
pub open spec fn run(p: ProgressView, outcomes: Seq<OutcomeView>) -> ProgressView
    decreases outcomes.len(),
{
    if outcomes.len() == 0 {
        p
    } else {
        match p {
            ProgressView::Next(a) => run(advance_spec(a, outcomes[0]), outcomes.drop_first()),
            _ => p,
        }
    }
}

fn no_paths() -> (r: Vec<String>)
    ensures
        string_views(r@) == Seq::<Seq<char>>::empty(),
{
    let r: Vec<String> = Vec::new();
    assert(string_views(r@) =~= Seq::<Seq<char>>::empty());
    r
}

fn diagnostic(o: Outcome) -> (r: String)
    ensures
        r@ == diagnostic_of(o@),
{
    match o {
        Outcome::Failed(d) => d,
        _ => String::from_str(UNEXPECTED),
    }
}

impl Acquirer {
    /// The step indices are in range.
    pub open spec fn wf(&self) -> bool {
        step_ok(self@.step)
    }

    /// Starts the pipeline for a resolved request with the resolver's
    /// metadata. Tier 2 applies only to a streaming-service link, and only
    /// with a stream helper configured.
    pub fn start(descriptor: &SourceDescriptor, resolved: TrackMeta, helper_configured: bool) -> (r: Acquirer)
        ensures
            r.wf(),
            r@ == start_spec(descriptor.kind, descriptor.query@, descriptor.raw@, resolved@, helper_configured),
    {
        let r = Acquirer {
            step: Step::Stream,
            helper: descriptor.kind == SourceKind::StreamingLink && helper_configured,
            query: descriptor.query.clone(),
            link: descriptor.raw.clone(),
            resolved,
            found: TrackMeta::empty(),
            target: String::new(),
            transcoded: String::new(),
            attempts: Vec::new(),
        };
        assert(r@.attempts =~= Seq::<AttemptView>::empty());
        r
    }

    /// The step to perform next.
    pub fn step(&self) -> (r: Step)
        ensures
            r == self@.step,
    {
        self.step
    }

    /// What the next step works on: the query for the extractor's steps,
    /// the streaming link for the helper's, the resolved URL or the
    /// temporary file for the steps after them.
    pub fn input(&self) -> (r: &String)
        ensures
            r@ == match self@.step {
                Step::Stream | Step::ExtractUrl { .. } | Step::Download => self@.query,
                Step::HelperRaw | Step::HelperTranscode { .. } => self@.link,
                Step::PlayUrl { .. } | Step::PipeUrl { .. } | Step::PlayFile | Step::TranscodeFile => self@.target,
                Step::PlayTranscoded => self@.transcoded,
            },
    {
        match self.step {
            Step::Stream | Step::ExtractUrl { .. } | Step::Download => &self.query,
            Step::HelperRaw | Step::HelperTranscode { .. } => &self.link,
            Step::PlayUrl { .. } | Step::PipeUrl { .. } | Step::PlayFile | Step::TranscodeFile => &self.target,
            Step::PlayTranscoded => &self.transcoded,
        }
    }

    /// The failed attempts so far.
    pub fn attempts(&self) -> (r: &Vec<SourcingAttempt>)
        ensures
            attempt_views(r@) == self@.attempts,
    {
        &self.attempts
    }

    fn record(&mut self, tier: u8, candidate: usize, d: String)
        ensures
            final(self)@ == record(old(self)@, tier, candidate as nat, d@),
    {
        self.attempts.push(SourcingAttempt { tier, candidate, diagnostic: d });
        assert(attempt_views(self.attempts@) =~= old(self)@.attempts.push(AttemptView { tier, candidate: candidate as nat, diagnostic: d@ }));
    }

    fn finish(self, discovered: TrackMeta, temp_paths: Vec<String>) -> (r: Progress)
        ensures
            r@ == acquired(self@, discovered@, string_views(temp_paths@)),
    {
        let meta = self.resolved.merge(&discovered);
        Progress::Acquired(Acquired { step: self.step, meta, temp_paths, attempts: self.attempts })
    }

    fn go(self, step: Step) -> (r: Progress)
        requires
            step_ok(step),
        ensures
            r@ == ProgressView::Next(goto(self@, step)),
            r matches Progress::Next(a) && a.wf(),
    {
        let mut a = self;
        a.step = step;
        Progress::Next(a)
    }

    fn exhausted(self, tier: u8, d: String, leftover: Vec<String>) -> (r: Progress)
        ensures
            r@ == (ProgressView::Exhausted {
                attempts: record(self@, tier, 0, d@).attempts,
                leftover: string_views(leftover@),
            }),
    {
        let mut a = self;
        a.record(tier, 0, d);
        Progress::Exhausted { attempts: a.attempts, leftover }
    }

    fn next_format(self, format: usize, d: String) -> (r: Progress)
        requires
            format < URL_FORMATS,
        ensures
            r@ == after_format(self@, format as nat, d@),
            r matches Progress::Next(a) && a.wf(),
    {
        let mut a = self;
        a.record(3, format, d);
        if format + 1 < URL_FORMATS {
            a.go(Step::ExtractUrl { format: format + 1 })
        } else {
            a.go(Step::Download)
        }
    }

    /// Hands the outcome of the current step to the acquirer: it answers
    /// with the next step, the acquired stream, or exhaustion.
    pub fn advance(self, outcome: Outcome) -> (r: Progress)
        requires
            self.wf(),
        ensures
            r@ == advance_spec(self@, outcome@),
            r matches Progress::Next(a) ==> a.wf(),
    {
        let mut a = self;
        match a.step {
            Step::Stream => match outcome {
                Outcome::Playable(m) => a.finish(m, no_paths()),
                o => {
                    let d = diagnostic(o);
                    a.record(1, 0, d);
                    if a.helper {
                        a.go(Step::HelperRaw)
                    } else {
                        a.record(2, 0, String::from_str(NO_HELPER));
                        a.go(Step::ExtractUrl { format: 0 })
                    }
                },
            },
            Step::HelperRaw => match outcome {
                Outcome::Playable(m) => a.finish(m, no_paths()),
                _ => a.go(Step::HelperTranscode { hint: 0 }),
            },
            Step::HelperTranscode { hint } => match outcome {
                Outcome::Playable(m) => a.finish(m, no_paths()),
                o => {
                    if hint + 1 < HELPER_HINTS {
                        a.go(Step::HelperTranscode { hint: hint + 1 })
                    } else {
                        let d = diagnostic(o);
                        a.record(2, 0, d);
                        a.go(Step::ExtractUrl { format: 0 })
                    }
                },
            },
            Step::ExtractUrl { format } => match outcome {
                Outcome::Produced(url, m) => {
                    a.target = url;
                    a.found = m;
                    a.go(Step::PlayUrl { format })
                },
                o => {
                    let d = diagnostic(o);
                    a.next_format(format, d)
                },
            },
            Step::PlayUrl { format } => match outcome {
                Outcome::Playable(m) => {
                    let d = a.found.merge(&m);
                    a.finish(d, no_paths())
                },
                _ => a.go(Step::PipeUrl { format }),
            },
            Step::PipeUrl { format } => match outcome {
                Outcome::Playable(m) => {
                    let d = a.found.merge(&m);
                    a.finish(d, no_paths())
                },
                o => {
                    let d = diagnostic(o);
                    a.next_format(format, d)
                },
            },
            Step::Download => match outcome {
                Outcome::Produced(path, m) => {
                    a.target = path;
                    a.found = m;
                    a.go(Step::PlayFile)
                },
                o => {
                    let d = diagnostic(o);
                    a.exhausted(4, d, no_paths())
                },
            },
            Step::PlayFile => match outcome {
                Outcome::Playable(m) => {
                    let d = a.found.merge(&m);
                    let paths = vec![a.target.clone()];
                    assert(string_views(paths@) =~= seq![a@.target]);
                    a.finish(d, paths)
                },
                _ => a.go(Step::TranscodeFile),
            },
            Step::TranscodeFile => match outcome {
                Outcome::Produced(path, _) => {
                    a.transcoded = path;
                    a.go(Step::PlayTranscoded)
                },
                o => {
                    let d = diagnostic(o);
                    let paths = vec![a.target.clone()];
                    assert(string_views(paths@) =~= seq![a@.target]);
                    a.exhausted(4, d, paths)
                },
            },
            Step::PlayTranscoded => match outcome {
                Outcome::Playable(m) => {
                    let d = a.found.merge(&m);
                    let paths = vec![a.target.clone(), a.transcoded.clone()];
                    assert(string_views(paths@) =~= seq![a@.target, a@.transcoded]);
                    a.finish(d, paths)
                },
                o => {
                    let d = diagnostic(o);
                    let paths = vec![a.target.clone(), a.transcoded.clone()];
                    assert(string_views(paths@) =~= seq![a@.target, a@.transcoded]);
                    a.exhausted(4, d, paths)
                },
            },
        }
    }
}

/// The outcomes of tiers 1 and 2 failing: tier 1's step, then, where tier 2
/// applies, its raw attempt and every transcoder hint.
pub open spec fn first_tiers_failing(helper: bool, d1: Seq<char>, d2: Seq<char>) -> Seq<OutcomeView> {
    if helper {
        seq![
            OutcomeView::Failed(d1),
            OutcomeView::Failed(d2),
            OutcomeView::Failed(d2),
            OutcomeView::Failed(d2),
            OutcomeView::Failed(d2),
            OutcomeView::Failed(d2),
            OutcomeView::Failed(d2),
            OutcomeView::Failed(d2),
        ]
    } else {
        seq![OutcomeView::Failed(d1)]
    }
}

/// When tiers 1 and 2 fail, tier 3's first format candidate fails and its
/// second resolves a URL that plays, the stream is acquired from that URL;
/// the failed attempts are tier 1, tier 2 and the first candidate, in that
/// order; and the metadata keeps the resolver's fields, with each field the
/// resolver left empty taken from what tier 3 discovered.
pub proof fn lemma_third_tier_second_candidate(
    kind: SourceKind,
    query: Seq<char>,
    link: Seq<char>,
    resolved: MetaView,
    helper_configured: bool,
    d1: Seq<char>,
    d2: Seq<char>,
    d3: Seq<char>,
    url: Seq<char>,
    extracted: MetaView,
    played: MetaView,
)
    ensures
        ({
            let a = start_spec(kind, query, link, resolved, helper_configured);
            let outcomes = first_tiers_failing(a.helper, d1, d2) + seq![
                OutcomeView::Failed(d3),
                OutcomeView::Produced(url, extracted),
                OutcomeView::Playable(played),
            ];
            let tier2 = if a.helper { d2 } else { NO_HELPER@ };
            run(ProgressView::Next(a), outcomes) == (ProgressView::Acquired {
                step: Step::PlayUrl { format: 1 },
                meta: merged(resolved, merged(extracted, played)),
                temp_paths: Seq::empty(),
                attempts: seq![
                    AttemptView { tier: 1, candidate: 0, diagnostic: d1 },
                    AttemptView { tier: 2, candidate: 0, diagnostic: tier2 },
                    AttemptView { tier: 3, candidate: 0, diagnostic: d3 },
                ],
            })
        }),
        !filled(resolved.title) ==> merged(resolved, merged(extracted, played)).title == merged(extracted, played).title,
        !filled(resolved.artist) ==> merged(resolved, merged(extracted, played)).artist == merged(extracted, played).artist,
        resolved.duration_ms is None ==> merged(resolved, merged(extracted, played)).duration_ms == merged(extracted, played).duration_ms,
        !filled(resolved.thumbnail) ==> merged(resolved, merged(extracted, played)).thumbnail == merged(extracted, played).thumbnail,
{
    let a = start_spec(kind, query, link, resolved, helper_configured);
    let f2 = OutcomeView::Failed(d2);
    let last = seq![OutcomeView::Playable(played)];
    let mid = seq![OutcomeView::Produced(url, extracted)] + last;
    let tail = seq![OutcomeView::Failed(d3)] + mid;
    assert(tail =~= seq![
        OutcomeView::Failed(d3),
        OutcomeView::Produced(url, extracted),
        OutcomeView::Playable(played),
    ]);
    let tier2 = if a.helper { d2 } else { NO_HELPER@ };
    let at3 = goto(record(record(a, 1, 0, d1), 2, 0, tier2), Step::ExtractUrl { format: 0 });
    if a.helper {
        let b = goto(record(a, 1, 0, d1), Step::HelperRaw);
        let h5 = goto(b, Step::HelperTranscode { hint: 5 });
        let s1 = seq![f2] + tail;
        let s2 = seq![f2] + s1;
        let s3 = seq![f2] + s2;
        let s4 = seq![f2] + s3;
        let s5 = seq![f2] + s4;
        let s6 = seq![f2] + s5;
        let s7 = seq![f2] + s6;
        lemma_run_step(goto(b, Step::HelperTranscode { hint: 5 }), f2, tail);
        lemma_run_step(goto(b, Step::HelperTranscode { hint: 4 }), f2, s1);
        lemma_run_step(goto(b, Step::HelperTranscode { hint: 3 }), f2, s2);
        lemma_run_step(goto(b, Step::HelperTranscode { hint: 2 }), f2, s3);
        lemma_run_step(goto(b, Step::HelperTranscode { hint: 1 }), f2, s4);
        lemma_run_step(goto(b, Step::HelperTranscode { hint: 0 }), f2, s5);
        lemma_run_step(b, f2, s6);
        lemma_run_step(a, OutcomeView::Failed(d1), s7);
        assert(first_tiers_failing(a.helper, d1, d2) + tail =~= seq![OutcomeView::Failed(d1)] + s7);
    } else {
        lemma_run_step(a, OutcomeView::Failed(d1), tail);
        assert(first_tiers_failing(a.helper, d1, d2) + tail =~= seq![OutcomeView::Failed(d1)] + tail);
    }
    let at3b = goto(record(at3, 3, 0, d3), Step::ExtractUrl { format: 1 });
    lemma_run_step(at3, OutcomeView::Failed(d3), mid);
    let play = AcqView { step: Step::PlayUrl { format: 1 }, target: url, found: extracted, ..at3b };
    lemma_run_step(at3b, OutcomeView::Produced(url, extracted), last);
    assert(last =~= seq![OutcomeView::Playable(played)] + Seq::<OutcomeView>::empty());
    lemma_run_step(play, OutcomeView::Playable(played), Seq::empty());
    assert(play.attempts =~= seq![
        AttemptView { tier: 1, candidate: 0, diagnostic: d1 },
        AttemptView { tier: 2, candidate: 0, diagnostic: tier2 },
        AttemptView { tier: 3, candidate: 0, diagnostic: d3 },
    ]);
}

/// One outcome moves the run one transition on.
pub proof fn lemma_run_step(a: AcqView, o: OutcomeView, rest: Seq<OutcomeView>)
    ensures
        run(ProgressView::Next(a), seq![o] + rest) == run(advance_spec(a, o), rest),
{
    let s = seq![o] + rest;
    assert(s[0] == o);
    assert(s.drop_first() =~= rest);
}

/// The transcoder's input-format hint for the helper's output, by index:
/// probe, WAV, 16-bit PCM at 44.1 kHz, at 48 kHz, MP3, Opus.
pub open spec fn hint_spec(hint: nat) -> Seq<char> {
    if hint == 0 {
        ""@
    } else if hint == 1 {
        "-f wav"@
    } else if hint == 2 {
        "-f s16le -ar 44100 -ac 2"@
    } else if hint == 3 {
        "-f s16le -ar 48000 -ac 2"@
    } else if hint == 4 {
        "-f mp3"@
    } else {
        "-f opus"@
    }
}

/// The transcoder arguments of an input-format hint.
pub fn helper_hint(hint: usize) -> (r: &'static str)
    requires
        hint < HELPER_HINTS,
    ensures
        r@ == hint_spec(hint as nat),
{
    if hint == 0 {
        ""
    } else if hint == 1 {
        "-f wav"
    } else if hint == 2 {
        "-f s16le -ar 44100 -ac 2"
    } else if hint == 3 {
        "-f s16le -ar 48000 -ac 2"
    } else if hint == 4 {
        "-f mp3"
    } else {
        "-f opus"
    }
}

/// The extractor's format spec of a tier-3 candidate, in order of
/// preference.
pub open spec fn format_spec(format: nat) -> Seq<char> {
    if format == 0 {
        "bestaudio[ext=webm]/bestaudio/best"@
    } else if format == 1 {
        "bestaudio[ext=m4a]/bestaudio/best"@
    } else {
        "bestaudio/best"@
    }
}

/// The extractor's format spec of a tier-3 candidate.
pub fn url_format(format: usize) -> (r: &'static str)
    requires
        format < URL_FORMATS,
    ensures
        r@ == format_spec(format as nat),
{
    if format == 0 {
        "bestaudio[ext=webm]/bestaudio/best"
    } else if format == 1 {
        "bestaudio[ext=m4a]/bestaudio/best"
    } else {
        "bestaudio/best"
    }
}

/// The shell pipeline that feeds the helper's output through the
/// transcoder with a hint, emitting 48 kHz stereo WAV.
pub open spec fn helper_pipeline_spec(cmd: Seq<char>, hint: nat) -> Seq<char> {
    if hint == 0 {
        cmd + " | ffmpeg -hide_banner -loglevel error -i - -vn -c:a pcm_s16le -ar 48000 -ac 2 -f wav -"@
    } else {
        cmd + " | ffmpeg -hide_banner -loglevel error "@ + hint_spec(hint)
            + " -i - -vn -c:a pcm_s16le -ar 48000 -ac 2 -f wav -"@
    }
}

/// Builds the helper's transcoding pipeline for a hint.
pub fn helper_pipeline(cmd: &str, hint: usize) -> (r: String)
    requires
        hint < HELPER_HINTS,
    ensures
        r@ == helper_pipeline_spec(cmd@, hint as nat),
{
    let mut out = String::from_str(cmd);
    if hint == 0 {
        out.append(" | ffmpeg -hide_banner -loglevel error -i - -vn -c:a pcm_s16le -ar 48000 -ac 2 -f wav -");
    } else {
        out.append(" | ffmpeg -hide_banner -loglevel error ");
        out.append(helper_hint(hint));
        out.append(" -i - -vn -c:a pcm_s16le -ar 48000 -ac 2 -f wav -");
    }
    out
}

/// The extractor's search target for a query.
pub open spec fn search_target_spec(query: Seq<char>) -> Seq<char> {
    "ytsearch1:"@ + query
}

/// Builds the extractor's search target for a query.
pub fn search_target(query: &str) -> (r: String)
    ensures
        r@ == search_target_spec(query@),
{
    let mut out = String::from_str("ytsearch1:");
    out.append(query);
    out
}

/// The announcement of an acquired stream.
pub open spec fn now_playing_spec(step: Step, query: Seq<char>, link: Seq<char>) -> Seq<char> {
    match step {
        Step::Stream => "Now playing: "@ + query,
        Step::HelperRaw => "Now streaming from Spotify: "@ + link,
        Step::HelperTranscode { hint } => "Now streaming from Spotify (transcoded, fmt='"@ + hint_spec(hint as nat) + "'): "@ + link,
        Step::ExtractUrl { format } | Step::PlayUrl { format } => "Now playing (format "@ + format_spec(format as nat) + "): "@ + query,
        Step::PipeUrl { .. } => "Now playing (ffmpeg stream): "@ + query,
        Step::Download | Step::PlayFile => "Now playing (downloaded): "@ + query,
        Step::TranscodeFile | Step::PlayTranscoded => "Now playing (transcoded): "@ + query,
    }
}

/// Announces the stream acquired by `step` for the request.
pub fn now_playing(step: Step, query: &str, link: &str) -> (r: String)
    requires
        step_ok(step),
    ensures
        r@ == now_playing_spec(step, query@, link@),
{
    match step {
        Step::Stream => {
            let mut out = String::from_str("Now playing: ");
            out.append(query);
            out
        },
        Step::HelperRaw => {
            let mut out = String::from_str("Now streaming from Spotify: ");
            out.append(link);
            out
        },
        Step::HelperTranscode { hint } => {
            let mut out = String::from_str("Now streaming from Spotify (transcoded, fmt='");
            out.append(helper_hint(hint));
            out.append("'): ");
            out.append(link);
            out
        },
        Step::ExtractUrl { format } | Step::PlayUrl { format } => {
            let mut out = String::from_str("Now playing (format ");
            out.append(url_format(format));
            out.append("): ");
            out.append(query);
            out
        },
        Step::PipeUrl { .. } => {
            let mut out = String::from_str("Now playing (ffmpeg stream): ");
            out.append(query);
            out
        },
        Step::Download | Step::PlayFile => {
            let mut out = String::from_str("Now playing (downloaded): ");
            out.append(query);
            out
        },
        Step::TranscodeFile | Step::PlayTranscoded => {
            let mut out = String::from_str("Now playing (transcoded): ");
            out.append(query);
            out
        },
    }
}

/// The most steps the pipeline can still ask for from a step on.
pub open spec fn steps_left(s: Step) -> nat {
    match s {
        Step::Stream => 21,
        Step::HelperRaw => 20,
        Step::HelperTranscode { hint } => (19 - hint) as nat,
        Step::ExtractUrl { format } => (4 + 3 * (3 - format)) as nat,
        Step::PlayUrl { format } => (3 + 3 * (3 - format)) as nat,
        Step::PipeUrl { format } => (2 + 3 * (3 - format)) as nat,
        Step::Download => 4,
        Step::PlayFile => 3,
        Step::TranscodeFile => 2,
        Step::PlayTranscoded => 1,
    }
}

/// Every outcome moves the pipeline strictly towards its end, so it
/// acquires a stream or is exhausted after at most `steps_left` steps, and
/// failed attempts only ever accumulate, in order.
pub proof fn lemma_pipeline_progresses(a: AcqView, o: OutcomeView)
    requires
        step_ok(a.step),
    ensures
        match advance_spec(a, o) {
            ProgressView::Next(b) => step_ok(b.step) && steps_left(b.step) < steps_left(a.step)
                && b.attempts.subrange(0, a.attempts.len() as int) == a.attempts,
            ProgressView::Acquired { attempts, .. } => attempts == a.attempts,
            ProgressView::Exhausted { attempts, .. } => attempts.subrange(0, a.attempts.len() as int) == a.attempts,
        },
{
    let r = advance_spec(a, o);
    assert(a.attempts.subrange(0, a.attempts.len() as int) =~= a.attempts);
    match r {
        ProgressView::Next(b) => {
            assert(b.attempts.subrange(0, a.attempts.len() as int) =~= a.attempts);
        },
        ProgressView::Exhausted { attempts, .. } => {
            assert(attempts.subrange(0, a.attempts.len() as int) =~= a.attempts);
        },
        _ => {},
    }
}

/// What the step that plays a stream discovered of the track: the engine's
/// metadata, on top of what the extractor reported for the URL or file.
pub open spec fn discovered_by(a: AcqView, played: MetaView) -> MetaView {
    match a.step {
        Step::Stream | Step::HelperRaw | Step::HelperTranscode { .. } => played,
        _ => merged(a.found, played),
    }
}

/// The resolver's metadata rides through every step unchanged, and the
/// acquired stream's metadata is exactly the resolver's with each field it
/// left empty filled from what the winning step discovered: nothing of an
/// earlier track or of a failed step survives.
pub proof fn lemma_metadata_of_winner(a: AcqView, o: OutcomeView)
    ensures
        match advance_spec(a, o) {
            ProgressView::Next(b) => b.resolved == a.resolved,
            ProgressView::Acquired { meta, .. } => o matches OutcomeView::Playable(m)
                && meta == merged(a.resolved, discovered_by(a, m))
                && (filled(a.resolved.title) ==> meta.title == a.resolved.title)
                && (!filled(a.resolved.title) ==> meta.title == discovered_by(a, m).title)
                && (filled(a.resolved.artist) ==> meta.artist == a.resolved.artist)
                && (!filled(a.resolved.artist) ==> meta.artist == discovered_by(a, m).artist)
                && (a.resolved.duration_ms is Some ==> meta.duration_ms == a.resolved.duration_ms)
                && (a.resolved.duration_ms is None ==> meta.duration_ms == discovered_by(a, m).duration_ms)
                && (filled(a.resolved.thumbnail) ==> meta.thumbnail == a.resolved.thumbnail)
                && (!filled(a.resolved.thumbnail) ==> meta.thumbnail == discovered_by(a, m).thumbnail),
            ProgressView::Exhausted { .. } => true,
        },
{
}

/// Along any run, the resolver's metadata is kept until the stream is
/// acquired.
pub proof fn lemma_run_keeps_resolved(a: AcqView, outcomes: Seq<OutcomeView>)
    ensures
        run(ProgressView::Next(a), outcomes) matches ProgressView::Next(b) ==> b.resolved == a.resolved,
    decreases outcomes.len(),
{
    if outcomes.len() > 0 {
        lemma_metadata_of_winner(a, outcomes[0]);
        let p = advance_spec(a, outcomes[0]);
        assert(run(ProgressView::Next(a), outcomes) == run(p, outcomes.drop_first()));
        if let ProgressView::Next(b) = p {
            lemma_run_keeps_resolved(b, outcomes.drop_first());
        } else {
            lemma_run_finished(p, outcomes.drop_first());
        }
    }
}

proof fn lemma_run_finished(p: ProgressView, outcomes: Seq<OutcomeView>)
    requires
        !(p is Next),
    ensures
        run(p, outcomes) == p,
{
}

} // verus!
