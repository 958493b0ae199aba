//! Generation of the chain specification, and its discovery and relocation.

use vstd::prelude::*;

use crate::effect::{
    apply_effect, is_terminal, lemma_trace_from_terminal, lemma_trace_index, lemma_trace_len,
    trace, clone_strings, fits, fits_exec, strings_view, text, Awaiting, Effect, EffectView, Invocation,
    InvocationView, Observation, Progress, ProgressView,
};
use crate::paths::{concat_text, join, join_spec, Layout};

verus! {

/// The name under which the builder writes the chain specification.
pub open spec fn spec_file_name() -> Seq<char> {
    "chain_spec.json"@
}

/// Why locating and relocating the chain specification failed.
#[derive(Debug, Clone, PartialEq, Eq)]
pub enum RelocateError {
    /// No candidate directory holds the file.
    NotLocated,
    /// The destination directory could not be created; the filesystem's text.
    DirectoryFailed(String),
    /// The rename failed; the filesystem's text.
    MoveFailed(String),
    /// Resumed with an observation that does not answer the last effect.
    UnexpectedObservation,
}

/// Where a relocation stands.
#[derive(Debug, Clone, Copy, PartialEq, Eq)]
pub enum RelocStage {
    /// About to look into the first candidate directory.
    Start,
    /// Waiting to learn whether candidate `i` holds the file.
    Probing(usize),
    /// The source is known; about to create the destination directory.
    MoveStart,
    CreatingDir,
    Moving,
    Done,
}

/// The workflow that finds `chain_spec.json` in the first candidate directory
/// holding it and moves it into the destination directory.
#[derive(Debug)]
pub struct Relocation {
    pub candidates: Vec<String>,
    pub dest_dir: String,
    /// The file being moved, once known.
    pub source: String,
    pub stage: RelocStage,
}

pub struct RelocationView {
    pub candidates: Seq<Seq<char>>,
    pub dest_dir: Seq<char>,
    pub source: Seq<char>,
    pub stage: RelocStage,
}

impl View for Relocation {
    type V = RelocationView;

    open spec fn view(&self) -> RelocationView {
        RelocationView {
            candidates: strings_view(self.candidates@),
            dest_dir: self.dest_dir@,
            source: self.source@,
            stage: self.stage,
        }
    }
}

pub type RelocProgress = ProgressView<Result<(), RelocateError>>;

impl RelocationView {
    /// Where candidate `i` would hold the file.
    pub open spec fn candidate_path(self, i: int) -> Seq<char> {
        join_spec(self.candidates[i], spec_file_name())
    }

    /// Where the file goes.
    pub open spec fn destination(self) -> Seq<char> {
        join_spec(self.dest_dir, spec_file_name())
    }

    pub open spec fn awaiting(self) -> Awaiting {
        match self.stage {
            RelocStage::Start => Awaiting::Start,
            RelocStage::Probing(_) => Awaiting::Check,
            RelocStage::MoveStart => Awaiting::Start,
            RelocStage::CreatingDir => Awaiting::FsOutcome,
            RelocStage::Moving => Awaiting::FsOutcome,
            RelocStage::Done => Awaiting::Nothing,
        }
    }

    pub open spec fn with_stage(self, stage: RelocStage) -> RelocationView {
        RelocationView { stage, ..self }
    }

    pub open spec fn finish(self, r: Result<(), RelocateError>) -> (RelocationView, RelocProgress) {
        (self.with_stage(RelocStage::Done), ProgressView::Finished(r))
    }

    /// Look into candidate `i`, or give up where there is none.
    pub open spec fn probe(self, i: int) -> (RelocationView, RelocProgress) {
        if 0 <= i < self.candidates.len() {
            (
                self.with_stage(RelocStage::Probing(i as usize)),
                ProgressView::Perform(EffectView::CheckExists(self.candidate_path(i))),
            )
        } else {
            self.finish(Err(RelocateError::NotLocated))
        }
    }

    pub open spec fn create_dir(self) -> (RelocationView, RelocProgress) {
        (
            self.with_stage(RelocStage::CreatingDir),
            ProgressView::Perform(EffectView::CreateDirAll(self.dest_dir)),
        )
    }

    /// One transition of a relocation.
    pub open spec fn step(self, obs: Observation) -> (RelocationView, RelocProgress) {
        if !fits(self.awaiting(), obs) {
            self.finish(Err(RelocateError::UnexpectedObservation))
        } else {
            match self.stage {
                RelocStage::Start => self.probe(0),
                RelocStage::Probing(i) => {
                    if obs == Observation::Exists(true) && i < self.candidates.len() {
                        RelocationView { source: self.candidate_path(i as int), ..self }.create_dir()
                    } else {
                        self.probe(i + 1)
                    }
                },
                RelocStage::MoveStart => self.create_dir(),
                RelocStage::CreatingDir => match obs {
                    Observation::Failed(e) => self.finish(Err(RelocateError::DirectoryFailed(e))),
                    _ => (
                        self.with_stage(RelocStage::Moving),
                        ProgressView::Perform(EffectView::Rename(self.source, self.destination())),
                    ),
                },
                RelocStage::Moving => match obs {
                    Observation::Failed(e) => self.finish(Err(RelocateError::MoveFailed(e))),
                    _ => self.finish(Ok(())),
                },
                RelocStage::Done => self.finish(Err(RelocateError::UnexpectedObservation)),
            }
        }
    }
}

/// The transition function of relocations.
pub open spec fn reloc_fn() -> spec_fn(RelocationView, Observation) -> (RelocationView, RelocProgress) {
    |r: RelocationView, obs: Observation| r.step(obs)
}

proof fn lemma_join_injective(a: Seq<char>, b: Seq<char>, n: Seq<char>)
    requires
        join_spec(a, n) == join_spec(b, n),
    ensures
        a == b,
{
    assert(join_spec(a, n).len() == a.len() + 1 + n.len());
    assert(join_spec(b, n).len() == b.len() + 1 + n.len());
    assert forall|i: int| 0 <= i < a.len() implies a[i] == b[i] by {
        assert(a[i] == join_spec(a, n)[i]);
        assert(b[i] == join_spec(b, n)[i]);
    }
    assert(a =~= b);
}

/// Locate-and-relocate, where the first candidate directory holds the file:
/// the relocation checks that file, creates the destination directory, renames
/// the file into it and succeeds. On a filesystem where these take effect, the
/// file is then gone from its source and present at the destination.
pub proof fn lemma_relocation_moves_found_file(r: RelocationView, fs: Set<Seq<char>>)
    requires
        r.stage == RelocStage::Start,
        r.candidates.len() >= 1,
        r.candidates[0] != r.dest_dir,
        fs.contains(r.candidate_path(0)),
    ensures
        ({
            let obs = seq![
                Observation::Start,
                Observation::Exists(true),
                Observation::Completed,
                Observation::Completed,
            ];
            let src = r.candidate_path(0);
            let dst = r.destination();
            let after = apply_effect(
                apply_effect(fs, EffectView::CreateDirAll(r.dest_dir)),
                EffectView::Rename(src, dst),
            );
            &&& trace(reloc_fn(), r, obs) == seq![
                RelocProgress::Perform(EffectView::CheckExists(src)),
                RelocProgress::Perform(EffectView::CreateDirAll(r.dest_dir)),
                RelocProgress::Perform(EffectView::Rename(src, dst)),
                RelocProgress::Finished(Ok(())),
            ]
            &&& !after.contains(src)
            &&& after.contains(dst)
        }),
{
    let obs = seq![
        Observation::Start,
        Observation::Exists(true),
        Observation::Completed,
        Observation::Completed,
    ];
    let f = reloc_fn();
    let src = r.candidate_path(0);
    let dst = r.destination();
    let s1 = f(r, obs[0]).0;
    let o1 = obs.drop_first();
    let s2 = f(s1, o1[0]).0;
    let o2 = o1.drop_first();
    let s3 = f(s2, o2[0]).0;
    let o3 = o2.drop_first();
    let s4 = f(s3, o3[0]).0;
    let o4 = o3.drop_first();
    assert(o4.len() == 0);
    assert(trace(f, s4, o4) == Seq::<RelocProgress>::empty());
    assert(trace(f, s3, o3) =~= seq![RelocProgress::Finished(Ok(()))] + trace(f, s4, o4));
    assert(trace(f, s2, o2) =~= seq![RelocProgress::Perform(EffectView::Rename(src, dst))] + trace(f, s3, o3));
    assert(trace(f, s1, o1) =~= seq![RelocProgress::Perform(EffectView::CreateDirAll(r.dest_dir))] + trace(f, s2, o2));
    assert(trace(f, r, obs) =~= seq![RelocProgress::Perform(EffectView::CheckExists(src))] + trace(f, s1, o1));
    if src == dst {
        lemma_join_injective(r.candidates[0], r.dest_dir, spec_file_name());
    }
}

proof fn lemma_probes_miss(r: RelocationView, i: int, obs: Seq<Observation>)
    requires
        r.candidates.len() <= usize::MAX,
        0 <= i < r.candidates.len(),
        r.stage == RelocStage::Probing(i as usize),
        obs.len() == r.candidates.len() - i,
        forall|j: int| 0 <= j < obs.len() ==> obs[j] == Observation::Exists(false),
    ensures
        trace(reloc_fn(), r, obs).len() == obs.len(),
        forall|j: int| 0 <= j < obs.len() - 1 ==> #[trigger] trace(reloc_fn(), r, obs)[j]
            == ProgressView::<Result<(), RelocateError>>::Perform(EffectView::CheckExists(r.candidate_path(i + 1 + j))),
        trace(reloc_fn(), r, obs)[obs.len() - 1] == ProgressView::<Result<(), RelocateError>>::Finished(Err(RelocateError::NotLocated)),
    decreases obs.len(),
{
    let f = reloc_fn();
    lemma_trace_len(f, r, obs);
    let next = f(r, obs[0]).0;
    lemma_trace_index(f, r, obs, 0);
    if i + 1 < r.candidates.len() {
        lemma_probes_miss(next, i + 1, obs.drop_first());
        assert forall|j: int| 0 <= j < obs.len() - 1 implies #[trigger] trace(f, r, obs)[j]
            == ProgressView::<Result<(), RelocateError>>::Perform(EffectView::CheckExists(r.candidate_path(i + 1 + j))) by {
            lemma_trace_index(f, r, obs, j);
            if j >= 1 {
                lemma_trace_index(f, r, obs, j);
            }
        }
        lemma_trace_index(f, r, obs, obs.len() - 1);
    }
}

/// Locate-and-relocate, where no candidate directory holds the file: the
/// relocation checks each candidate in order and fails with
/// [`RelocateError::NotLocated`]; it never creates the destination directory,
/// nor hands out any effect but those checks.
pub proof fn lemma_relocation_not_located(r: RelocationView, obs: Seq<Observation>)
    requires
        r.candidates.len() <= usize::MAX,
        r.stage == RelocStage::Start,
        obs.len() == r.candidates.len() + 1,
        obs[0] == Observation::Start,
        forall|j: int| 1 <= j < obs.len() ==> obs[j] == Observation::Exists(false),
    ensures
        trace(reloc_fn(), r, obs).len() == obs.len(),
        forall|j: int| 0 <= j < r.candidates.len() ==> #[trigger] trace(reloc_fn(), r, obs)[j]
            == ProgressView::<Result<(), RelocateError>>::Perform(EffectView::CheckExists(r.candidate_path(j))),
        trace(reloc_fn(), r, obs)[r.candidates.len() as int]
            == ProgressView::<Result<(), RelocateError>>::Finished(Err(RelocateError::NotLocated)),
        forall|j: int| 0 <= j < obs.len() ==> !(#[trigger] trace(reloc_fn(), r, obs)[j] matches ProgressView::Perform(EffectView::CreateDirAll(_))),
{
    let f = reloc_fn();
    let t = trace(f, r, obs);
    lemma_trace_len(f, r, obs);
    lemma_trace_index(f, r, obs, 0);
    if r.candidates.len() > 0 {
        let next = f(r, obs[0]).0;
        let rest = obs.drop_first();
        lemma_probes_miss(next, 0, rest);
        assert forall|j: int| 0 <= j < obs.len() implies #[trigger] t[j] == (if j < r.candidates.len() {
            ProgressView::<Result<(), RelocateError>>::Perform(EffectView::CheckExists(r.candidate_path(j)))
        } else {
            ProgressView::<Result<(), RelocateError>>::Finished(Err(RelocateError::NotLocated))
        }) by {
            lemma_trace_index(f, r, obs, j);
            if j >= 1 {
                assert(t[j] == trace(f, next, rest)[j - 1]);
            }
        }
    }
}

/// The candidate directories searched by default: the working directory, then its parent.
pub open spec fn default_candidates() -> Seq<Seq<char>> {
    seq!["."@, ".."@]
}

/// Starts locating `chain_spec.json` in the working directory, then its
/// parent, and moving it into the layout's chain-spec directory.
pub fn locate_chain_spec(layout: &Layout) -> (r: Relocation)
    ensures
        r@.candidates == default_candidates(),
        r@.dest_dir == layout.chain_specs_dir@,
        r@.stage == RelocStage::Start,
{
    let mut candidates: Vec<String> = Vec::new();
    candidates.push(text("."));
    candidates.push(text(".."));
    assert(strings_view(candidates@) =~= default_candidates());
    Relocation {
        candidates,
        dest_dir: layout.chain_specs_dir.clone(),
        source: String::new(),
        stage: RelocStage::Start,
    }
}

/// Starts locating `chain_spec.json` in the given candidate directories, in
/// order, and moving it into `dest_dir`.
pub fn relocate_from(candidates: &Vec<String>, dest_dir: &str) -> (r: Relocation)
    ensures
        r@.candidates == strings_view(candidates@),
        r@.dest_dir == dest_dir@,
        r@.stage == RelocStage::Start,
{
    Relocation {
        candidates: clone_strings(candidates),
        dest_dir: text(dest_dir),
        source: String::new(),
        stage: RelocStage::Start,
    }
}

/// Starts moving the file at `source` into the layout's chain-spec directory.
pub fn move_chain_spec(layout: &Layout, source: &str) -> (r: Relocation)
    ensures
        r@.candidates.len() == 0,
        r@.dest_dir == layout.chain_specs_dir@,
        r@.source == source@,
        r@.stage == RelocStage::MoveStart,
{
    let r = Relocation {
        candidates: Vec::new(),
        dest_dir: layout.chain_specs_dir.clone(),
        source: text(source),
        stage: RelocStage::MoveStart,
    };
    assert(r@.candidates =~= Seq::<Seq<char>>::empty());
    r
}

impl Relocation {
    pub fn awaiting(&self) -> (r: Awaiting)
        ensures
            r == self@.awaiting(),
    {
        match self.stage {
            RelocStage::Start => Awaiting::Start,
            RelocStage::Probing(_) => Awaiting::Check,
            RelocStage::MoveStart => Awaiting::Start,
            RelocStage::CreatingDir => Awaiting::FsOutcome,
            RelocStage::Moving => Awaiting::FsOutcome,
            RelocStage::Done => Awaiting::Nothing,
        }
    }

    fn finish(&mut self, r: Result<(), RelocateError>) -> (p: Progress<Result<(), RelocateError>>)
        ensures
            (final(self)@, p@) == old(self)@.finish(r),
    {
        self.stage = RelocStage::Done;
        Progress::Finished(r)
    }

    fn probe(&mut self, i: usize) -> (p: Progress<Result<(), RelocateError>>)
        ensures
            (final(self)@, p@) == old(self)@.probe(i as int),
    {
        assert(self@.candidates.len() == self.candidates@.len());
        if i < self.candidates.len() {
            self.stage = RelocStage::Probing(i);
            Progress::Perform(Effect::CheckExists(join(&self.candidates[i], "chain_spec.json")))
        } else {
            self.finish(Err(RelocateError::NotLocated))
        }
    }

    fn create_dir(&mut self) -> (p: Progress<Result<(), RelocateError>>)
        ensures
            (final(self)@, p@) == old(self)@.create_dir(),
    {
        self.stage = RelocStage::CreatingDir;
        Progress::Perform(Effect::CreateDirAll(self.dest_dir.clone()))
    }

    /// Resumes the relocation with the observation of its last effect.
    pub fn resume(&mut self, obs: Observation) -> (p: Progress<Result<(), RelocateError>>)
        ensures
            (final(self)@, p@) == old(self)@.step(obs),
    {
        let a = self.awaiting();
        if !fits_exec(&a, &obs) {
            return self.finish(Err(RelocateError::UnexpectedObservation));
        }
        assert(self@.candidates.len() == self.candidates@.len());
        match self.stage {
            RelocStage::Start => self.probe(0),
            RelocStage::Probing(i) => {
                let n = self.candidates.len();
                if obs.is_found() && i < n {
                    self.source = join(&self.candidates[i], "chain_spec.json");
                    self.create_dir()
                } else if i < n {
                    self.probe(i + 1)
                } else {
                    self.finish(Err(RelocateError::NotLocated))
                }
            },
            RelocStage::MoveStart => self.create_dir(),
            RelocStage::CreatingDir => match obs {
                Observation::Failed(e) => self.finish(Err(RelocateError::DirectoryFailed(e))),
                _ => {
                    self.stage = RelocStage::Moving;
                    let dest = join(&self.dest_dir, "chain_spec.json");
                    Progress::Perform(Effect::Rename(self.source.clone(), dest))
                },
            },
            RelocStage::Moving => match obs {
                Observation::Failed(e) => self.finish(Err(RelocateError::MoveFailed(e))),
                _ => self.finish(Ok(())),
            },
            RelocStage::Done => self.finish(Err(RelocateError::UnexpectedObservation)),
        }
    }
}

/// Why generating the chain specification failed.
#[derive(Debug, Clone, PartialEq, Eq)]
pub enum GenError {
    /// The runtime artifact does not exist; its path.
    RuntimeMissing(String),
    /// The builder binary could not be marked executable.
    BuilderNotExecutable,
    /// The builder left no `chain_spec.json` in any candidate directory.
    NotLocated,
    /// The destination directory could not be created; the filesystem's text.
    DirectoryFailed(String),
    /// Moving the file failed; the filesystem's text.
    MoveFailed(String),
    /// Resumed with an observation that does not answer the last effect.
    UnexpectedObservation,
}

/// The generation error that a relocation error amounts to.
pub open spec fn gen_error_of(e: RelocateError) -> GenError {
    match e {
        RelocateError::NotLocated => GenError::NotLocated,
        RelocateError::DirectoryFailed(t) => GenError::DirectoryFailed(t),
        RelocateError::MoveFailed(t) => GenError::MoveFailed(t),
        RelocateError::UnexpectedObservation => GenError::UnexpectedObservation,
    }
}

/// Where a generation stands.
#[derive(Debug, Clone, Copy, PartialEq, Eq)]
pub enum GenStage {
    Start,
    ProbingRuntime,
    MarkingReadable,
    MarkingExecutable,
    Building,
    Relocating,
    Done,
}

/// The workflow that runs the builder binary against a runtime artifact and
/// moves the chain specification it writes to its canonical place.
#[derive(Debug)]
pub struct Generation {
    pub runtime: String,
    pub builder: String,
    pub relocation: Relocation,
    pub stage: GenStage,
}

pub struct GenerationView {
    pub runtime: String,
    pub builder: String,
    pub relocation: RelocationView,
    pub stage: GenStage,
}

impl View for Generation {
    type V = GenerationView;

    open spec fn view(&self) -> GenerationView {
        GenerationView {
            runtime: self.runtime,
            builder: self.builder,
            relocation: self.relocation@,
            stage: self.stage,
        }
    }
}

pub type GenProgress = ProgressView<Result<(), GenError>>;

/// `chmod <mode> <path>`.
pub open spec fn chmod_view(mode: Seq<char>, path: Seq<char>) -> InvocationView {
    InvocationView { program: "chmod"@, args: seq![mode, path], dir: None }
}

/// The builder's arguments: a development chain specification for relay chain
/// westend and parachain 1000, built from the runtime at `runtime`.
pub open spec fn builder_args(runtime: Seq<char>) -> Seq<Seq<char>> {
    seq![
        "create"@,
        "-t"@,
        "development"@,
        "--relay-chain"@,
        "westend"@,
        "--para-id"@,
        "1000"@,
        "--runtime"@,
        runtime,
        "named-preset"@,
        "development"@,
    ]
}

pub open spec fn builder_view(builder: Seq<char>, runtime: Seq<char>) -> InvocationView {
    InvocationView { program: builder, args: builder_args(runtime), dir: None }
}

/// A relocation's progress as the generation's.
pub open spec fn lift_progress(p: RelocProgress) -> GenProgress {
    match p {
        ProgressView::Perform(e) => ProgressView::Perform(e),
        ProgressView::Finished(Ok(())) => ProgressView::Finished(Ok(())),
        ProgressView::Finished(Err(e)) => ProgressView::Finished(Err(gen_error_of(e))),
    }
}

impl GenerationView {
    pub open spec fn awaiting(self) -> Awaiting {
        match self.stage {
            GenStage::Start => Awaiting::Start,
            GenStage::ProbingRuntime => Awaiting::Check,
            GenStage::MarkingReadable => Awaiting::RunOutcome,
            GenStage::MarkingExecutable => Awaiting::RunOutcome,
            GenStage::Building => Awaiting::RunOutcome,
            GenStage::Relocating => self.relocation.awaiting(),
            GenStage::Done => Awaiting::Nothing,
        }
    }

    pub open spec fn with_stage(self, stage: GenStage) -> GenerationView {
        GenerationView { stage, ..self }
    }

    pub open spec fn finish(self, r: Result<(), GenError>) -> (GenerationView, GenProgress) {
        (self.with_stage(GenStage::Done), ProgressView::Finished(r))
    }

    pub open spec fn run(self, stage: GenStage, inv: InvocationView) -> (GenerationView, GenProgress) {
        (self.with_stage(stage), ProgressView::Perform(EffectView::Run(inv)))
    }

    /// Hands `obs` to the relocation.
    pub open spec fn relocate(self, obs: Observation) -> (GenerationView, GenProgress) {
        let (r, p) = self.relocation.step(obs);
        let stage = if p is Finished { GenStage::Done } else { GenStage::Relocating };
        (GenerationView { relocation: r, stage, ..self }, lift_progress(p))
    }

    /// One transition of a generation.
    pub open spec fn step(self, obs: Observation) -> (GenerationView, GenProgress) {
        if !fits(self.awaiting(), obs) {
            self.finish(Err(GenError::UnexpectedObservation))
        } else {
            match self.stage {
                GenStage::Start => (
                    self.with_stage(GenStage::ProbingRuntime),
                    ProgressView::Perform(EffectView::CheckExists(self.runtime@)),
                ),
                GenStage::ProbingRuntime => {
                    if obs == Observation::Exists(true) {
                        self.run(GenStage::MarkingReadable, chmod_view("+r"@, self.runtime@))
                    } else {
                        self.finish(Err(GenError::RuntimeMissing(self.runtime)))
                    }
                },
                GenStage::MarkingReadable => self.run(
                    GenStage::MarkingExecutable,
                    chmod_view("+x"@, self.builder@),
                ),
                GenStage::MarkingExecutable => {
                    if obs is Completed {
                        self.run(GenStage::Building, builder_view(self.builder@, self.runtime@))
                    } else {
                        self.finish(Err(GenError::BuilderNotExecutable))
                    }
                },
                GenStage::Building => self.relocate(Observation::Start),
                GenStage::Relocating => self.relocate(obs),
                GenStage::Done => self.finish(Err(GenError::UnexpectedObservation)),
            }
        }
    }
}

/// The transition function of generations.
pub open spec fn gen_fn() -> spec_fn(GenerationView, Observation) -> (GenerationView, GenProgress) {
    |g: GenerationView, obs: Observation| g.step(obs)
}

/// Generation fails with a missing runtime when the runtime artifact does not
/// exist, and that check comes before anything else: the existence check is
/// the only effect handed out, so no permission is changed and no program runs.
pub proof fn lemma_generation_checks_runtime_first(g: GenerationView, obs: Seq<Observation>)
    requires
        g.stage == GenStage::Start,
        obs.len() >= 2,
        obs[0] == Observation::Start,
        obs[1] == Observation::Exists(false),
    ensures
        trace(gen_fn(), g, obs).len() == obs.len(),
        trace(gen_fn(), g, obs)[0] == ProgressView::<Result<(), GenError>>::Perform(EffectView::CheckExists(g.runtime@)),
        trace(gen_fn(), g, obs)[1] == ProgressView::<Result<(), GenError>>::Finished(Err(GenError::RuntimeMissing(g.runtime))),
        forall|i: int| 1 <= i < obs.len() ==> (#[trigger] trace(gen_fn(), g, obs)[i]) is Finished,
{
    let f = gen_fn();
    let g1 = f(g, obs[0]).0;
    let rest = obs.drop_first();
    let g2 = f(g1, rest[0]).0;
    let tail = rest.drop_first();
    lemma_trace_len(f, g, obs);
    lemma_trace_index(f, g, obs, 0);
    lemma_trace_index(f, g, obs, 1);
    lemma_trace_index(f, g1, rest, 0);
    assert(is_terminal(f, g2));
    lemma_trace_from_terminal(f, g2, tail);
    assert forall|i: int| 1 <= i < obs.len() implies (#[trigger] trace(f, g, obs)[i]) is Finished by {
        lemma_trace_index(f, g, obs, i);
        if i >= 2 {
            lemma_trace_index(f, g1, rest, i - 1);
        }
    }
}

/// Generation followed by locate-and-relocate, where the runtime and the
/// builder are present, every program succeeds and the builder leaves
/// `chain_spec.json` in the first candidate directory: the generation checks
/// the runtime, marks it readable and the builder executable, runs the
/// builder, then checks the first candidate, creates the destination
/// directory and renames the file into it, and succeeds. On a filesystem
/// where these take effect, the file is then gone from its source and present
/// at the destination.
pub proof fn lemma_generation_relocates_output(g: GenerationView, fs: Set<Seq<char>>)
    requires
        g.stage == GenStage::Start,
        g.relocation.stage == RelocStage::Start,
        g.relocation.candidates.len() >= 1,
        g.relocation.candidates[0] != g.relocation.dest_dir,
        fs.contains(g.relocation.candidate_path(0)),
    ensures
        ({
            let obs = seq![
                Observation::Start,
                Observation::Exists(true),
                Observation::Completed,
                Observation::Completed,
                Observation::Completed,
                Observation::Exists(true),
                Observation::Completed,
                Observation::Completed,
            ];
            let r = g.relocation;
            let src = r.candidate_path(0);
            let dst = r.destination();
            let after = apply_effect(
                apply_effect(fs, EffectView::CreateDirAll(r.dest_dir)),
                EffectView::Rename(src, dst),
            );
            &&& trace(gen_fn(), g, obs) == seq![
                GenProgress::Perform(EffectView::CheckExists(g.runtime@)),
                GenProgress::Perform(EffectView::Run(chmod_view("+r"@, g.runtime@))),
                GenProgress::Perform(EffectView::Run(chmod_view("+x"@, g.builder@))),
                GenProgress::Perform(EffectView::Run(builder_view(g.builder@, g.runtime@))),
                GenProgress::Perform(EffectView::CheckExists(src)),
                GenProgress::Perform(EffectView::CreateDirAll(r.dest_dir)),
                GenProgress::Perform(EffectView::Rename(src, dst)),
                GenProgress::Finished(Ok(())),
            ]
            &&& !after.contains(src)
            &&& after.contains(dst)
        }),
{
    let obs = seq![
        Observation::Start,
        Observation::Exists(true),
        Observation::Completed,
        Observation::Completed,
        Observation::Completed,
        Observation::Exists(true),
        Observation::Completed,
        Observation::Completed,
    ];
    let f = gen_fn();
    let r = g.relocation;
    let src = r.candidate_path(0);
    let dst = r.destination();
    let o0 = obs;
    let g1 = f(g, o0[0]).0;
    let o1 = o0.drop_first();
    let g2 = f(g1, o1[0]).0;
    let o2 = o1.drop_first();
    let g3 = f(g2, o2[0]).0;
    let o3 = o2.drop_first();
    let g4 = f(g3, o3[0]).0;
    let o4 = o3.drop_first();
    let g5 = f(g4, o4[0]).0;
    let o5 = o4.drop_first();
    let g6 = f(g5, o5[0]).0;
    let o6 = o5.drop_first();
    let g7 = f(g6, o6[0]).0;
    let o7 = o6.drop_first();
    let g8 = f(g7, o7[0]).0;
    let o8 = o7.drop_first();
    assert(o8.len() == 0);
    assert(trace(f, g8, o8) == Seq::<GenProgress>::empty());
    assert(trace(f, g7, o7) =~= seq![GenProgress::Finished(Ok(()))] + trace(f, g8, o8));
    assert(trace(f, g6, o6) =~= seq![GenProgress::Perform(EffectView::Rename(src, dst))] + trace(f, g7, o7));
    assert(trace(f, g5, o5) =~= seq![GenProgress::Perform(EffectView::CreateDirAll(r.dest_dir))] + trace(f, g6, o6));
    assert(trace(f, g4, o4) =~= seq![GenProgress::Perform(EffectView::CheckExists(src))] + trace(f, g5, o5));
    assert(trace(f, g3, o3) =~= seq![GenProgress::Perform(EffectView::Run(builder_view(g.builder@, g.runtime@)))] + trace(f, g4, o4));
    assert(trace(f, g2, o2) =~= seq![GenProgress::Perform(EffectView::Run(chmod_view("+x"@, g.builder@)))] + trace(f, g3, o3));
    assert(trace(f, g1, o1) =~= seq![GenProgress::Perform(EffectView::Run(chmod_view("+r"@, g.runtime@)))] + trace(f, g2, o2));
    assert(trace(f, g, o0) =~= seq![GenProgress::Perform(EffectView::CheckExists(g.runtime@))] + trace(f, g1, o1));
    if src == dst {
        lemma_join_injective(r.candidates[0], r.dest_dir, spec_file_name());
    }
}

/// Executable form of [`chmod_view`].
pub fn chmod(mode: &str, path: &str) -> (r: Invocation)
    ensures
        r@ == chmod_view(mode@, path@),
{
    let mut args: Vec<String> = Vec::new();
    args.push(text(mode));
    args.push(text(path));
    let r = Invocation { program: text("chmod"), args, dir: None };
    assert(r@.args =~= chmod_view(mode@, path@).args);
    r
}

/// Executable form of [`builder_view`].
pub fn builder_invocation(builder: &str, runtime: &str) -> (r: Invocation)
    ensures
        r@ == builder_view(builder@, runtime@),
{
    let mut args: Vec<String> = Vec::new();
    args.push(text("create"));
    args.push(text("-t"));
    args.push(text("development"));
    args.push(text("--relay-chain"));
    args.push(text("westend"));
    args.push(text("--para-id"));
    args.push(text("1000"));
    args.push(text("--runtime"));
    args.push(text(runtime));
    args.push(text("named-preset"));
    args.push(text("development"));
    let r = Invocation { program: text(builder), args, dir: None };
    assert(r@.args =~= builder_args(runtime@));
    r
}

/// The runtime artifact's default path in a layout.
pub open spec fn default_runtime(layout: Layout) -> Seq<char> {
    join_spec(layout.nodes_dir@, "asset_hub_westend_runtime.compact.compressed.wasm"@)
}

/// The builder binary's default path in a layout.
pub open spec fn default_builder(layout: Layout) -> Seq<char> {
    join_spec(layout.binaries_dir@, "chain-spec-builder"@)
}

/// Starts generating the chain specification from the runtime artifact at
/// `wasm` with the builder binary at `builder`; either defaults to its place
/// in `layout`. The result is then searched for in the working directory and
/// its parent and moved into the layout's chain-spec directory.
pub fn gen_chain_spec(layout: &Layout, wasm: Option<String>, builder: Option<String>) -> (r: Generation)
    ensures
        r.runtime@ == (match wasm {
            Some(w) => w@,
            None => default_runtime(*layout),
        }),
        r.builder@ == (match builder {
            Some(b) => b@,
            None => default_builder(*layout),
        }),
        r@.relocation.candidates == default_candidates(),
        r@.relocation.dest_dir == layout.chain_specs_dir@,
        r@.relocation.stage == RelocStage::Start,
        r@.stage == GenStage::Start,
{
    let runtime = match wasm {
        Some(w) => w,
        None => join(&layout.nodes_dir, "asset_hub_westend_runtime.compact.compressed.wasm"),
    };
    let builder = match builder {
        Some(b) => b,
        None => join(&layout.binaries_dir, "chain-spec-builder"),
    };
    Generation { runtime, builder, relocation: locate_chain_spec(layout), stage: GenStage::Start }
}

impl Generation {
    pub fn awaiting(&self) -> (r: Awaiting)
        ensures
            r == self@.awaiting(),
    {
        match self.stage {
            GenStage::Start => Awaiting::Start,
            GenStage::ProbingRuntime => Awaiting::Check,
            GenStage::MarkingReadable => Awaiting::RunOutcome,
            GenStage::MarkingExecutable => Awaiting::RunOutcome,
            GenStage::Building => Awaiting::RunOutcome,
            GenStage::Relocating => self.relocation.awaiting(),
            GenStage::Done => Awaiting::Nothing,
        }
    }

    fn finish(&mut self, r: Result<(), GenError>) -> (p: Progress<Result<(), GenError>>)
        ensures
            (final(self)@, p@) == old(self)@.finish(r),
    {
        self.stage = GenStage::Done;
        Progress::Finished(r)
    }

    fn run(&mut self, stage: GenStage, inv: Invocation) -> (p: Progress<Result<(), GenError>>)
        ensures
            (final(self)@, p@) == old(self)@.run(stage, inv@),
    {
        self.stage = stage;
        Progress::Perform(Effect::Run(inv))
    }

    fn relocate(&mut self, obs: Observation) -> (p: Progress<Result<(), GenError>>)
        ensures
            (final(self)@, p@) == old(self)@.relocate(obs),
    {
        match self.relocation.resume(obs) {
            Progress::Perform(e) => {
                self.stage = GenStage::Relocating;
                Progress::Perform(e)
            },
            Progress::Finished(r) => {
                self.stage = GenStage::Done;
                match r {
                    Ok(()) => Progress::Finished(Ok(())),
                    Err(RelocateError::NotLocated) => Progress::Finished(Err(GenError::NotLocated)),
                    Err(RelocateError::DirectoryFailed(t)) => Progress::Finished(Err(GenError::DirectoryFailed(t))),
                    Err(RelocateError::MoveFailed(t)) => Progress::Finished(Err(GenError::MoveFailed(t))),
                    Err(RelocateError::UnexpectedObservation) => Progress::Finished(Err(GenError::UnexpectedObservation)),
                }
            },
        }
    }

    /// Resumes the generation with the observation of its last effect.
    pub fn resume(&mut self, obs: Observation) -> (p: Progress<Result<(), GenError>>)
        ensures
            (final(self)@, p@) == old(self)@.step(obs),
    {
        let a = self.awaiting();
        if !fits_exec(&a, &obs) {
            return self.finish(Err(GenError::UnexpectedObservation));
        }
        match self.stage {
            GenStage::Start => {
                self.stage = GenStage::ProbingRuntime;
                Progress::Perform(Effect::CheckExists(self.runtime.clone()))
            },
            GenStage::ProbingRuntime => {
                if obs.is_found() {
                    let inv = chmod("+r", &self.runtime);
                    self.run(GenStage::MarkingReadable, inv)
                } else {
                    let missing = self.runtime.clone();
                    self.finish(Err(GenError::RuntimeMissing(missing)))
                }
            },
            GenStage::MarkingReadable => {
                let inv = chmod("+x", &self.builder);
                self.run(GenStage::MarkingExecutable, inv)
            },
            GenStage::MarkingExecutable => {
                if obs.is_success() {
                    let inv = builder_invocation(&self.builder, &self.runtime);
                    self.run(GenStage::Building, inv)
                } else {
                    self.finish(Err(GenError::BuilderNotExecutable))
                }
            },
            GenStage::Building => self.relocate(Observation::Start),
            GenStage::Relocating => self.relocate(obs),
            GenStage::Done => self.finish(Err(GenError::UnexpectedObservation)),
        }
    }
}

impl RelocateError {
    pub open spec fn message_spec(self) -> Seq<char> {
        match self {
            RelocateError::NotLocated => "chain_spec.json not found in the specified directories."@,
            RelocateError::DirectoryFailed(e) => "Failed to create chain-specs directory: "@ + e@,
            RelocateError::MoveFailed(e) => "Failed to move chain_spec.json: "@ + e@,
            RelocateError::UnexpectedObservation => "Unexpected observation"@,
        }
    }

    /// A human-readable account of the error.
    pub fn message(&self) -> (r: String)
        ensures
            r@ == self.message_spec(),
    {
        match self {
            RelocateError::NotLocated => String::from_str("chain_spec.json not found in the specified directories."),
            RelocateError::DirectoryFailed(e) => concat_text("Failed to create chain-specs directory: ", e.as_str()),
            RelocateError::MoveFailed(e) => concat_text("Failed to move chain_spec.json: ", e.as_str()),
            RelocateError::UnexpectedObservation => String::from_str("Unexpected observation"),
        }
    }
}

impl GenError {
    pub open spec fn message_spec(self) -> Seq<char> {
        match self {
            GenError::RuntimeMissing(p) => "WASM file not found: \""@ + p@ + "\""@,
            GenError::BuilderNotExecutable => "Failed to add execute permissions to the chain-spec-builder"@,
            GenError::NotLocated => RelocateError::NotLocated.message_spec(),
            GenError::DirectoryFailed(e) => RelocateError::DirectoryFailed(e).message_spec(),
            GenError::MoveFailed(e) => RelocateError::MoveFailed(e).message_spec(),
            GenError::UnexpectedObservation => RelocateError::UnexpectedObservation.message_spec(),
        }
    }

    /// A human-readable account of the error.
    pub fn message(&self) -> (r: String)
        ensures
            r@ == self.message_spec(),
    {
        match self {
            GenError::RuntimeMissing(p) => {
                let mut r = concat_text("WASM file not found: \"", p.as_str());
                r.append("\"");
                r
            },
            GenError::BuilderNotExecutable => String::from_str("Failed to add execute permissions to the chain-spec-builder"),
            GenError::NotLocated => RelocateError::NotLocated.message(),
            GenError::DirectoryFailed(e) => concat_text("Failed to create chain-specs directory: ", e.as_str()),
            GenError::MoveFailed(e) => concat_text("Failed to move chain_spec.json: ", e.as_str()),
            GenError::UnexpectedObservation => RelocateError::UnexpectedObservation.message(),
        }
    }
}

} // verus!
