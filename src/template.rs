//! Fetching a project template and running its node.

use vstd::prelude::*;

use crate::effect::{
    clone_strings, fits, fits_exec, strings_view, text, Awaiting, Effect, EffectView, Invocation,
    InvocationView, Observation, Progress, ProgressView,
};
use crate::paths::{concat_text, same_text};

verus! {

/// The templates that can be run.
pub open spec fn known_template(t: Seq<char>) -> bool {
    t == "minimal"@ || t == "parachain"@ || t == "solochain"@
}

/// Where template `t` is cloned to.
pub open spec fn template_dir(t: Seq<char>) -> Seq<char> {
    "./templates/"@ + t + "-template"@
}

/// Where template `t` is cloned from.
pub open spec fn template_repo(t: Seq<char>) -> Seq<char> {
    "https://github.com/paritytech/polkadot-sdk-"@ + t + "-template.git"@
}

pub open spec fn clone_view(t: Seq<char>) -> InvocationView {
    InvocationView {
        program: "git"@,
        args: seq!["clone"@, "--quiet"@, template_repo(t), template_dir(t)],
        dir: None,
    }
}

/// `cargo run --release -- --dev <args>` in `dir`.
pub open spec fn cargo_run_view(args: Seq<Seq<char>>, dir: Seq<char>) -> InvocationView {
    InvocationView {
        program: "cargo"@,
        args: seq!["run"@, "--release"@, "--"@, "--dev"@] + args,
        dir: Some(dir),
    }
}

/// Why running a template failed.
#[derive(Debug, Clone, PartialEq, Eq)]
pub enum TemplateError {
    /// No template of that name.
    Unrecognized(String),
    /// Cloning the template failed.
    CloneFailed,
    /// The template directory does not exist; its path.
    DirectoryMissing(String),
    /// The template's node did not run successfully.
    RunFailed,
    /// Resumed with an observation that does not answer the last effect.
    UnexpectedObservation,
}

impl TemplateError {
    pub open spec fn message_spec(self) -> Seq<char> {
        match self {
            TemplateError::Unrecognized(t) => "Template unrecognized: "@ + t@,
            TemplateError::CloneFailed => "Failed to clone template"@,
            TemplateError::DirectoryMissing(d) => "The specified template directory does not exist: "@ + d@,
            TemplateError::RunFailed => "Failed to run a node"@,
            TemplateError::UnexpectedObservation => "Unexpected observation"@,
        }
    }

    /// A human-readable account of the error.
    pub fn message(&self) -> (r: String)
        ensures
            r@ == self.message_spec(),
    {
        match self {
            TemplateError::Unrecognized(t) => concat_text("Template unrecognized: ", t.as_str()),
            TemplateError::CloneFailed => String::from_str("Failed to clone template"),
            TemplateError::DirectoryMissing(d) => concat_text("The specified template directory does not exist: ", d.as_str()),
            TemplateError::RunFailed => String::from_str("Failed to run a node"),
            TemplateError::UnexpectedObservation => String::from_str("Unexpected observation"),
        }
    }
}

/// Where a template run stands.
#[derive(Debug, Clone, Copy, PartialEq, Eq)]
pub enum TemplateStage {
    /// About to check the template's name.
    Start,
    /// About to check the template directory before running it.
    ServeStart,
    ProbingDest,
    Cloning,
    ProbingRepo,
    Running,
    Done,
}

/// The workflow that clones a template where it is absent and runs its node.
#[derive(Debug)]
pub struct TemplateRun {
    pub template: String,
    pub args: Vec<String>,
    pub dir: String,
    /// Whether the run's own failures are reported (serving alone), or
    /// dropped once the template is in place (a full template run).
    pub serve_only: bool,
    pub stage: TemplateStage,
}

pub struct TemplateRunView {
    pub template: String,
    pub args: Seq<Seq<char>>,
    pub dir: String,
    pub serve_only: bool,
    pub stage: TemplateStage,
}

impl View for TemplateRun {
    type V = TemplateRunView;

    open spec fn view(&self) -> TemplateRunView {
        TemplateRunView {
            template: self.template,
            args: strings_view(self.args@),
            dir: self.dir,
            serve_only: self.serve_only,
            stage: self.stage,
        }
    }
}

pub type TemplateProgress = ProgressView<Result<(), TemplateError>>;

impl TemplateRunView {
    pub open spec fn awaiting(self) -> Awaiting {
        match self.stage {
            TemplateStage::Start => Awaiting::Start,
            TemplateStage::ServeStart => Awaiting::Start,
            TemplateStage::ProbingDest => Awaiting::Check,
            TemplateStage::Cloning => Awaiting::RunOutcome,
            TemplateStage::ProbingRepo => Awaiting::Check,
            TemplateStage::Running => Awaiting::RunOutcome,
            TemplateStage::Done => Awaiting::Nothing,
        }
    }

    pub open spec fn go(self, stage: TemplateStage, e: EffectView) -> (TemplateRunView, TemplateProgress) {
        (TemplateRunView { stage, ..self }, ProgressView::Perform(e))
    }

    pub open spec fn finish(self, r: Result<(), TemplateError>) -> (TemplateRunView, TemplateProgress) {
        (TemplateRunView { stage: TemplateStage::Done, ..self }, ProgressView::Finished(r))
    }

    /// The end of the serving half: its own result when serving alone, else success.
    pub open spec fn serve_end(self, e: TemplateError) -> (TemplateRunView, TemplateProgress) {
        if self.serve_only {
            self.finish(Err(e))
        } else {
            self.finish(Ok(()))
        }
    }

    /// One transition of a template run.
    pub open spec fn step(self, obs: Observation) -> (TemplateRunView, TemplateProgress) {
        if !fits(self.awaiting(), obs) {
            self.finish(Err(TemplateError::UnexpectedObservation))
        } else {
            match self.stage {
                TemplateStage::Start => {
                    if known_template(self.template@) {
                        self.go(TemplateStage::ProbingDest, EffectView::CheckExists(self.dir@))
                    } else {
                        self.finish(Err(TemplateError::Unrecognized(self.template)))
                    }
                },
                TemplateStage::ServeStart => self.go(TemplateStage::ProbingRepo, EffectView::CheckExists(self.dir@)),
                TemplateStage::ProbingDest => {
                    if obs == Observation::Exists(true) {
                        self.go(TemplateStage::ProbingRepo, EffectView::CheckExists(self.dir@))
                    } else {
                        self.go(TemplateStage::Cloning, EffectView::Run(clone_view(self.template@)))
                    }
                },
                TemplateStage::Cloning => {
                    if obs is Completed {
                        self.go(TemplateStage::ProbingRepo, EffectView::CheckExists(self.dir@))
                    } else {
                        self.finish(Err(TemplateError::CloneFailed))
                    }
                },
                TemplateStage::ProbingRepo => {
                    if obs == Observation::Exists(true) {
                        self.go(TemplateStage::Running, EffectView::Run(cargo_run_view(self.args, self.dir@)))
                    } else {
                        self.serve_end(TemplateError::DirectoryMissing(self.dir))
                    }
                },
                TemplateStage::Running => {
                    if obs is Completed {
                        self.finish(Ok(()))
                    } else {
                        self.serve_end(TemplateError::RunFailed)
                    }
                },
                TemplateStage::Done => self.finish(Err(TemplateError::UnexpectedObservation)),
            }
        }
    }
}

fn is_known_template(t: &str) -> (r: bool)
    ensures
        r == known_template(t@),
{
    same_text(t, "minimal") || same_text(t, "parachain") || same_text(t, "solochain")
}

fn template_dir_text(t: &str) -> (r: String)
    ensures
        r@ == template_dir(t@),
{
    let mut r = concat_text("./templates/", t);
    r.append("-template");
    r
}

fn clone_invocation(t: &str) -> (r: Invocation)
    ensures
        r@ == clone_view(t@),
{
    let mut repo = concat_text("https://github.com/paritytech/polkadot-sdk-", t);
    repo.append("-template.git");
    let mut args: Vec<String> = Vec::new();
    args.push(text("clone"));
    args.push(text("--quiet"));
    args.push(repo);
    args.push(template_dir_text(t));
    let r = Invocation { program: text("git"), args, dir: None };
    assert(r@.args =~= clone_view(t@).args);
    r
}

fn cargo_run(args: &Vec<String>, dir: &str) -> (r: Invocation)
    ensures
        r@ == cargo_run_view(strings_view(args@), dir@),
{
    let mut all: Vec<String> = Vec::new();
    all.push(text("run"));
    all.push(text("--release"));
    all.push(text("--"));
    all.push(text("--dev"));
    let ghost head = seq!["run"@, "--release"@, "--"@, "--dev"@];
    assert(strings_view(all@) =~= head);
    let mut i: usize = 0;
    while i < args.len()
        invariant
            i <= args@.len(),
            all@.len() == 4 + i,
            forall|j: int| 0 <= j < 4 ==> #[trigger] all@[j]@ == head[j],
            forall|j: int| 0 <= j < i ==> #[trigger] all@[4 + j]@ == args@[j]@,
        decreases args@.len() - i,
    {
        all.push(args[i].clone());
        i = i + 1;
    }
    assert(strings_view(all@) =~= head + strings_view(args@)) by {
        assert forall|j: int| 4 <= j < all@.len() implies all@[j]@ == strings_view(args@)[j - 4] by {
            assert(all@[4 + (j - 4)]@ == args@[j - 4]@);
        }
    }
    Invocation { program: text("cargo"), args: all, dir: Some(text(dir)) }
}

/// Starts running template `template` with the node arguments `args`: an
/// unknown name is refused before anything else; the template is cloned
/// into `./templates/<template>-template` where that is absent, and its node
/// is then run there. Once the template is in place the run succeeds,
/// whatever became of the node.
pub fn run_template(args: &Vec<String>, template: &str) -> (r: TemplateRun)
    ensures
        r@.template@ == template@,
        r@.args == strings_view(args@),
        r@.dir@ == template_dir(template@),
        !r@.serve_only,
        r@.stage == TemplateStage::Start,
{
    TemplateRun {
        template: text(template),
        args: clone_strings(args),
        dir: template_dir_text(template),
        serve_only: false,
        stage: TemplateStage::Start,
    }
}

/// Starts running the template node in `repo` with the arguments `args`;
/// fails where the directory is missing or the node does not run successfully.
pub fn serve_template(args: &Vec<String>, repo: &str) -> (r: TemplateRun)
    ensures
        r@.args == strings_view(args@),
        r@.dir@ == repo@,
        r@.serve_only,
        r@.stage == TemplateStage::ServeStart,
{
    TemplateRun {
        template: String::new(),
        args: clone_strings(args),
        dir: text(repo),
        serve_only: true,
        stage: TemplateStage::ServeStart,
    }
}

impl TemplateRun {
    pub fn awaiting(&self) -> (r: Awaiting)
        ensures
            r == self@.awaiting(),
    {
        match self.stage {
            TemplateStage::Start => Awaiting::Start,
            TemplateStage::ServeStart => Awaiting::Start,
            TemplateStage::ProbingDest => Awaiting::Check,
            TemplateStage::Cloning => Awaiting::RunOutcome,
            TemplateStage::ProbingRepo => Awaiting::Check,
            TemplateStage::Running => Awaiting::RunOutcome,
            TemplateStage::Done => Awaiting::Nothing,
        }
    }

    fn finish(&mut self, r: Result<(), TemplateError>) -> (p: Progress<Result<(), TemplateError>>)
        ensures
            (final(self)@, p@) == old(self)@.finish(r),
    {
        self.stage = TemplateStage::Done;
        Progress::Finished(r)
    }

    fn go(&mut self, stage: TemplateStage, e: Effect) -> (p: Progress<Result<(), TemplateError>>)
        ensures
            (final(self)@, p@) == old(self)@.go(stage, e@),
    {
        self.stage = stage;
        Progress::Perform(e)
    }

    fn serve_end(&mut self, e: TemplateError) -> (p: Progress<Result<(), TemplateError>>)
        ensures
            (final(self)@, p@) == old(self)@.serve_end(e),
    {
        if self.serve_only {
            self.finish(Err(e))
        } else {
            self.finish(Ok(()))
        }
    }

    /// Resumes the template run with the observation of its last effect.
    pub fn resume(&mut self, obs: Observation) -> (p: Progress<Result<(), TemplateError>>)
        ensures
            (final(self)@, p@) == old(self)@.step(obs),
    {
        let a = self.awaiting();
        if !fits_exec(&a, &obs) {
            return self.finish(Err(TemplateError::UnexpectedObservation));
        }
        match self.stage {
            TemplateStage::Start => {
                if is_known_template(self.template.as_str()) {
                    let e = Effect::CheckExists(self.dir.clone());
                    self.go(TemplateStage::ProbingDest, e)
                } else {
                    let t = self.template.clone();
                    self.finish(Err(TemplateError::Unrecognized(t)))
                }
            },
            TemplateStage::ServeStart => {
                let e = Effect::CheckExists(self.dir.clone());
                self.go(TemplateStage::ProbingRepo, e)
            },
            TemplateStage::ProbingDest => {
                if obs.is_found() {
                    let e = Effect::CheckExists(self.dir.clone());
                    self.go(TemplateStage::ProbingRepo, e)
                } else {
                    let e = Effect::Run(clone_invocation(self.template.as_str()));
                    self.go(TemplateStage::Cloning, e)
                }
            },
            TemplateStage::Cloning => {
                if obs.is_success() {
                    let e = Effect::CheckExists(self.dir.clone());
                    self.go(TemplateStage::ProbingRepo, e)
                } else {
                    self.finish(Err(TemplateError::CloneFailed))
                }
            },
            TemplateStage::ProbingRepo => {
                if obs.is_found() {
                    let e = Effect::Run(cargo_run(&self.args, self.dir.as_str()));
                    self.go(TemplateStage::Running, e)
                } else {
                    let d = self.dir.clone();
                    self.serve_end(TemplateError::DirectoryMissing(d))
                }
            },
            TemplateStage::Running => {
                if obs.is_success() {
                    self.finish(Ok(()))
                } else {
                    self.serve_end(TemplateError::RunFailed)
                }
            },
            TemplateStage::Done => self.finish(Err(TemplateError::UnexpectedObservation)),
        }
    }
}

} // verus!
