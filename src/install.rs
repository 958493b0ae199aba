//! The installation pipeline: the fixed sequence of provisioning steps.

use vstd::prelude::*;

use crate::chain_spec::{
    default_builder, default_candidates, default_runtime, gen_chain_spec, GenError, GenProgress,
    GenStage, Generation, GenerationView, RelocStage,
};
use crate::effect::{
    fits, fits_exec, strings_view, text, Awaiting, Effect, EffectView, Invocation, InvocationView,
    Observation, Progress, ProgressView,
};
use crate::fetch::{
    builder_url_macos, builder_url_other, ensure, fetch_step, install_chain_spec_builder,
    install_omni_node, omni_node_url_macos, omni_node_url_other, run_download_script, runtime_url,
    sidecar_installer, sidecar_url, Fetch, FetchError, FetchStage,
};
use crate::orchestrator::{
    lemma_record_well_formed, run_all, Orchestrator, OrchestratorView, StepOutcome, StepOutcomeView,
};
use crate::paths::{join, join_spec, Layout};
use crate::platform::OsInfo;

verus! {

/// Where the toolchain bootstrap script is fetched from.
pub open spec fn script_url() -> Seq<char> {
    "https://raw.githubusercontent.com/paritytech/polkadot-sdk/refs/heads/master/scripts/getting-started.sh"@
}

/// The download of the bootstrap script, to standard output.
pub open spec fn script_fetch_view() -> InvocationView {
    InvocationView {
        program: "curl"@,
        args: seq!["--proto"@, "=https"@, "--tlsv1.2"@, "-sSf"@, script_url()],
        dir: None,
    }
}

/// The shell that runs the script from its standard input.
pub open spec fn shell_view() -> InvocationView {
    InvocationView { program: "bash"@, args: Seq::empty(), dir: None }
}

/// Why the bootstrap failed.
#[derive(Debug, Clone, PartialEq, Eq)]
pub enum BootstrapError {
    /// The script or the shell did not succeed.
    ScriptFailed,
    /// Resumed with an observation that does not answer the last effect.
    UnexpectedObservation,
}

impl BootstrapError {
    pub open spec fn message_spec(self) -> Seq<char> {
        match self {
            BootstrapError::ScriptFailed => "Failed to run Polkadot-sdk"@,
            BootstrapError::UnexpectedObservation => "Unexpected observation"@,
        }
    }

    /// A human-readable account of the error.
    pub fn message(&self) -> (r: String)
        ensures
            r@ == self.message_spec(),
    {
        match self {
            BootstrapError::ScriptFailed => String::from_str("Failed to run Polkadot-sdk"),
            BootstrapError::UnexpectedObservation => String::from_str("Unexpected observation"),
        }
    }
}

/// Where a bootstrap stands.
#[derive(Debug, Clone, Copy, PartialEq, Eq)]
pub enum BootStage {
    Start,
    Running,
    Done,
}

pub open spec fn boot_awaiting(stage: BootStage) -> Awaiting {
    match stage {
        BootStage::Start => Awaiting::Start,
        BootStage::Running => Awaiting::RunOutcome,
        BootStage::Done => Awaiting::Nothing,
    }
}

/// One transition of the bootstrap: pipe the script into the shell, and
/// succeed exactly when that succeeds.
pub open spec fn boot_step(stage: BootStage, obs: Observation) -> (BootStage, ProgressView<Result<(), BootstrapError>>) {
    if !fits(boot_awaiting(stage), obs) {
        (BootStage::Done, ProgressView::Finished(Err(BootstrapError::UnexpectedObservation)))
    } else {
        match stage {
            BootStage::Start => (
                BootStage::Running,
                ProgressView::Perform(EffectView::RunPiped(script_fetch_view(), shell_view())),
            ),
            BootStage::Running => {
                if obs is Completed {
                    (BootStage::Done, ProgressView::Finished(Ok(())))
                } else {
                    (BootStage::Done, ProgressView::Finished(Err(BootstrapError::ScriptFailed)))
                }
            },
            BootStage::Done => (BootStage::Done, ProgressView::Finished(Err(BootstrapError::UnexpectedObservation))),
        }
    }
}

/// The workflow that installs the base toolchain by piping the published
/// getting-started script into a shell.
#[derive(Debug)]
pub struct Bootstrap {
    pub stage: BootStage,
}

/// Starts the toolchain bootstrap.
pub fn install_polkadot() -> (r: Bootstrap)
    ensures
        r.stage == BootStage::Start,
{
    Bootstrap { stage: BootStage::Start }
}

fn script_fetch() -> (r: Invocation)
    ensures
        r@ == script_fetch_view(),
{
    let mut args: Vec<String> = Vec::new();
    args.push(text("--proto"));
    args.push(text("=https"));
    args.push(text("--tlsv1.2"));
    args.push(text("-sSf"));
    args.push(text(
        "https://raw.githubusercontent.com/paritytech/polkadot-sdk/refs/heads/master/scripts/getting-started.sh",
    ));
    let r = Invocation { program: text("curl"), args, dir: None };
    assert(r@.args =~= script_fetch_view().args);
    r
}

fn shell() -> (r: Invocation)
    ensures
        r@ == shell_view(),
{
    let r = Invocation { program: text("bash"), args: Vec::new(), dir: None };
    assert(r@.args =~= shell_view().args);
    r
}

impl Bootstrap {
    /// Resumes the bootstrap with the observation of its last effect.
    pub fn resume(&mut self, obs: Observation) -> (p: Progress<Result<(), BootstrapError>>)
        ensures
            (final(self).stage, p@) == boot_step(old(self).stage, obs),
    {
        let a = match self.stage {
            BootStage::Start => Awaiting::Start,
            BootStage::Running => Awaiting::RunOutcome,
            BootStage::Done => Awaiting::Nothing,
        };
        if !fits_exec(&a, &obs) {
            self.stage = BootStage::Done;
            return Progress::Finished(Err(BootstrapError::UnexpectedObservation));
        }
        match self.stage {
            BootStage::Start => {
                self.stage = BootStage::Running;
                Progress::Perform(Effect::RunPiped(script_fetch(), shell()))
            },
            BootStage::Running => {
                self.stage = BootStage::Done;
                if obs.is_success() {
                    Progress::Finished(Ok(()))
                } else {
                    Progress::Finished(Err(BootstrapError::ScriptFailed))
                }
            },
            BootStage::Done => Progress::Finished(Err(BootstrapError::UnexpectedObservation)),
        }
    }
}

/// The labels of the installation steps, in the order they run.
pub open spec fn install_labels() -> Seq<Seq<char>> {
    seq![
        "$ Polkadot installation"@,
        "$ Chain spec builder installation"@,
        "$ Omni-node installation"@,
        "$ Eth-rpc installation"@,
        "$ Wasm file download script"@,
        "$ Chain spec script"@,
    ]
}

/// A finished step's result as a report outcome.
pub open spec fn fetch_outcome(p: ProgressView<Result<(), FetchError>>) -> ProgressView<StepOutcomeView> {
    match p {
        ProgressView::Perform(e) => ProgressView::Perform(e),
        ProgressView::Finished(Ok(())) => ProgressView::Finished(StepOutcomeView::Succeeded),
        ProgressView::Finished(Err(e)) => ProgressView::Finished(StepOutcomeView::Failed(e.message_spec())),
    }
}

pub open spec fn gen_outcome(p: GenProgress) -> ProgressView<StepOutcomeView> {
    match p {
        ProgressView::Perform(e) => ProgressView::Perform(e),
        ProgressView::Finished(Ok(())) => ProgressView::Finished(StepOutcomeView::Succeeded),
        ProgressView::Finished(Err(e)) => ProgressView::Finished(StepOutcomeView::Failed(e.message_spec())),
    }
}

pub open spec fn boot_outcome(p: ProgressView<Result<(), BootstrapError>>) -> ProgressView<StepOutcomeView> {
    match p {
        ProgressView::Perform(e) => ProgressView::Perform(e),
        ProgressView::Finished(Ok(())) => ProgressView::Finished(StepOutcomeView::Succeeded),
        ProgressView::Finished(Err(e)) => ProgressView::Finished(StepOutcomeView::Failed(e.message_spec())),
    }
}

/// One transition of a fetch held as a whole.
pub open spec fn fetch_advance(f: Fetch, obs: Observation) -> (Fetch, ProgressView<StepOutcomeView>) {
    let (stage, p) = fetch_step(f.spec, f.stage, obs);
    (Fetch { spec: f.spec, stage }, fetch_outcome(p))
}

/// The whole installation: bootstrap the toolchain, fetch the chain-spec
/// builder, the omni node, the RPC sidecar and the runtime artifact, then
/// generate the chain specification. Every step runs whatever became of the
/// ones before it, and each outcome goes into the report.
#[derive(Debug)]
pub struct Installation {
    pub orchestrator: Orchestrator,
    pub bootstrap: Bootstrap,
    pub builder: Fetch,
    pub node: Fetch,
    pub sidecar: Fetch,
    pub runtime: Fetch,
    pub generation: Generation,
}

pub struct InstallationView {
    pub orchestrator: OrchestratorView,
    pub bootstrap: BootStage,
    pub builder: Fetch,
    pub node: Fetch,
    pub sidecar: Fetch,
    pub runtime: Fetch,
    pub generation: GenerationView,
}

impl View for Installation {
    type V = InstallationView;

    open spec fn view(&self) -> InstallationView {
        InstallationView {
            orchestrator: self.orchestrator@,
            bootstrap: self.bootstrap.stage,
            builder: self.builder,
            node: self.node,
            sidecar: self.sidecar,
            runtime: self.runtime,
            generation: self.generation@,
        }
    }
}

pub type InstallProgress = ProgressView<()>;

impl InstallationView {
    /// Resumes step `k`'s own workflow with `obs`.
    pub open spec fn sub_step(self, k: int, obs: Observation) -> (InstallationView, ProgressView<StepOutcomeView>) {
        if k == 0 {
            let (b, p) = boot_step(self.bootstrap, obs);
            (InstallationView { bootstrap: b, ..self }, boot_outcome(p))
        } else if k == 1 {
            let (f, p) = fetch_advance(self.builder, obs);
            (InstallationView { builder: f, ..self }, p)
        } else if k == 2 {
            let (f, p) = fetch_advance(self.node, obs);
            (InstallationView { node: f, ..self }, p)
        } else if k == 3 {
            let (f, p) = fetch_advance(self.sidecar, obs);
            (InstallationView { sidecar: f, ..self }, p)
        } else if k == 4 {
            let (f, p) = fetch_advance(self.runtime, obs);
            (InstallationView { runtime: f, ..self }, p)
        } else {
            let (g, p) = self.generation.step(obs);
            (InstallationView { generation: g, ..self }, gen_outcome(p))
        }
    }

    /// Starts the next step, recording every step that finishes at once, or
    /// finishes when no step is left.
    pub open spec fn kick(self) -> (InstallationView, InstallProgress)
        decreases self.orchestrator.labels.len() - self.orchestrator.report.len(),
    {
        match self.orchestrator.next() {
            None => (self, ProgressView::Finished(())),
            Some(k) => {
                let (s, p) = self.sub_step(k, Observation::Start);
                match p {
                    ProgressView::Perform(e) => (s, ProgressView::Perform(e)),
                    ProgressView::Finished(out) => InstallationView {
                        orchestrator: s.orchestrator.record(out),
                        ..s
                    }.kick(),
                }
            },
        }
    }

    /// One transition of the installation.
    pub open spec fn step(self, obs: Observation) -> (InstallationView, InstallProgress) {
        match self.orchestrator.next() {
            None => (self, ProgressView::Finished(())),
            Some(k) => {
                let (s, p) = self.sub_step(k, obs);
                match p {
                    ProgressView::Perform(e) => (s, ProgressView::Perform(e)),
                    ProgressView::Finished(out) => InstallationView {
                        orchestrator: s.orchestrator.record(out),
                        ..s
                    }.kick(),
                }
            },
        }
    }
}

proof fn lemma_sub_step_keeps_orchestrator(v: InstallationView, k: int, obs: Observation)
    ensures
        v.sub_step(k, obs).0.orchestrator == v.orchestrator,
{
}

proof fn lemma_kick_well_formed(v: InstallationView)
    requires
        v.orchestrator.well_formed(),
    ensures
        v.kick().0.orchestrator.well_formed(),
        v.kick().0.orchestrator.labels == v.orchestrator.labels,
        v.kick().0.orchestrator.report.len() >= v.orchestrator.report.len(),
    decreases v.orchestrator.labels.len() - v.orchestrator.report.len(),
{
    if let Some(k) = v.orchestrator.next() {
        lemma_sub_step_keeps_orchestrator(v, k, Observation::Start);
        let (s, p) = v.sub_step(k, Observation::Start);
        if let ProgressView::Finished(out) = p {
            lemma_record_well_formed(s.orchestrator, out);
            lemma_kick_well_formed(InstallationView { orchestrator: s.orchestrator.record(out), ..s });
        }
    }
}

/// Whatever is observed, an installation step keeps its report one entry per
/// step run so far, in step order, under the fixed step labels, and never
/// drops an entry: the outcome of every step that has run stays recorded.
pub proof fn lemma_installation_report_in_order(v: InstallationView, obs: Observation)
    requires
        v.orchestrator.well_formed(),
    ensures
        v.step(obs).0.orchestrator.well_formed(),
        v.step(obs).0.orchestrator.labels == v.orchestrator.labels,
        v.step(obs).0.orchestrator.report.len() >= v.orchestrator.report.len(),
        forall|i: int| 0 <= i < v.orchestrator.report.len() ==>
            #[trigger] v.step(obs).0.orchestrator.report[i] == v.orchestrator.report[i],
{
    if let Some(k) = v.orchestrator.next() {
        lemma_sub_step_keeps_orchestrator(v, k, obs);
        let (s, p) = v.sub_step(k, obs);
        if let ProgressView::Finished(out) = p {
            lemma_record_well_formed(s.orchestrator, out);
            let w = InstallationView { orchestrator: s.orchestrator.record(out), ..s };
            lemma_kick_well_formed(w);
            lemma_kick_keeps_prefix(w);
            assert forall|i: int| 0 <= i < v.orchestrator.report.len() implies
                #[trigger] v.step(obs).0.orchestrator.report[i] == v.orchestrator.report[i] by {
                assert(w.orchestrator.report[i] == v.orchestrator.report[i]);
            }
        }
    }
}

proof fn lemma_kick_keeps_prefix(v: InstallationView)
    ensures
        v.kick().0.orchestrator.report.len() >= v.orchestrator.report.len(),
        forall|i: int| 0 <= i < v.orchestrator.report.len() ==>
            #[trigger] v.kick().0.orchestrator.report[i] == v.orchestrator.report[i],
    decreases v.orchestrator.labels.len() - v.orchestrator.report.len(),
{
    if let Some(k) = v.orchestrator.next() {
        lemma_sub_step_keeps_orchestrator(v, k, Observation::Start);
        let (s, p) = v.sub_step(k, Observation::Start);
        if let ProgressView::Finished(out) = p {
            let w = InstallationView { orchestrator: s.orchestrator.record(out), ..s };
            lemma_kick_keeps_prefix(w);
            assert forall|i: int| 0 <= i < v.orchestrator.report.len() implies
                #[trigger] v.kick().0.orchestrator.report[i] == v.orchestrator.report[i] by {
                assert(w.orchestrator.report[i] == v.orchestrator.report[i]);
            }
        }
    }
}

/// The view of a step's progress whose outcome is executable.
pub open spec fn outcome_progress_view(p: ProgressView<StepOutcome>) -> ProgressView<StepOutcomeView> {
    match p {
        ProgressView::Perform(e) => ProgressView::Perform(e),
        ProgressView::Finished(o) => ProgressView::Finished(o@),
    }
}

fn fetch_outcome_exec(p: Progress<Result<(), FetchError>>) -> (r: Progress<StepOutcome>)
    ensures
        outcome_progress_view(r@) == fetch_outcome(p@),
{
    match p {
        Progress::Perform(e) => Progress::Perform(e),
        Progress::Finished(Ok(())) => Progress::Finished(StepOutcome::Succeeded),
        Progress::Finished(Err(e)) => Progress::Finished(StepOutcome::Failed(e.message())),
    }
}

/// The labels of [`install_labels`].
fn labels() -> (r: Vec<String>)
    ensures
        strings_view(r@) == install_labels(),
{
    let mut r: Vec<String> = Vec::new();
    r.push(text("$ Polkadot installation"));
    r.push(text("$ Chain spec builder installation"));
    r.push(text("$ Omni-node installation"));
    r.push(text("$ Eth-rpc installation"));
    r.push(text("$ Wasm file download script"));
    r.push(text("$ Chain spec script"));
    assert(strings_view(r@) =~= install_labels());
    r
}

/// Starts the installation into `layout` on the system `os`.
pub fn install(layout: &Layout, os: &OsInfo) -> (r: Installation)
    ensures
        r@.orchestrator.labels == install_labels(),
        r@.orchestrator.report.len() == 0,
        r@.bootstrap == BootStage::Start,
        r.builder.spec.url@ == (if *os is MacOs { builder_url_macos() } else { builder_url_other() }),
        r.builder.spec.destination@ == default_builder(*layout),
        r.builder.spec.executable,
        r.node.spec.url@ == (if *os is MacOs { omni_node_url_macos() } else { omni_node_url_other() }),
        r.node.spec.destination@ == join_spec(layout.binaries_dir@, "polkadot-omni-node"@),
        r.node.spec.executable,
        r.sidecar.spec.url@ == sidecar_url(),
        r.sidecar.spec.destination@ == join_spec(layout.binaries_dir@, "eth-rpc"@),
        r.sidecar.spec.executable,
        r.runtime.spec.url@ == runtime_url(),
        r.runtime.spec.destination@ == default_runtime(*layout),
        !r.runtime.spec.executable,
        r.builder.stage == FetchStage::Start,
        r.node.stage == FetchStage::Start,
        r.sidecar.stage == FetchStage::Start,
        r.runtime.stage == FetchStage::Start,
        r.generation.runtime@ == default_runtime(*layout),
        r.generation.builder@ == default_builder(*layout),
        r@.generation.relocation.candidates == default_candidates(),
        r@.generation.relocation.dest_dir == layout.chain_specs_dir@,
        r@.generation.relocation.stage == RelocStage::Start,
        r@.generation.stage == GenStage::Start,
{
    let runtime_path = join(&layout.nodes_dir, "asset_hub_westend_runtime.compact.compressed.wasm");
    Installation {
        orchestrator: run_all(labels()),
        bootstrap: install_polkadot(),
        builder: ensure(install_chain_spec_builder(layout, os)),
        node: ensure(install_omni_node(layout, os)),
        sidecar: sidecar_installer(layout).install(),
        runtime: ensure(run_download_script(runtime_path.as_str())),
        generation: gen_chain_spec(layout, None, None),
    }
}

impl Installation {
    fn sub_resume(&mut self, k: usize, obs: Observation) -> (p: Progress<StepOutcome>)
        ensures
            (final(self)@, outcome_progress_view(p@)) == old(self)@.sub_step(k as int, obs),
    {
        if k == 0 {
            match self.bootstrap.resume(obs) {
                Progress::Perform(e) => Progress::Perform(e),
                Progress::Finished(Ok(())) => Progress::Finished(StepOutcome::Succeeded),
                Progress::Finished(Err(e)) => Progress::Finished(StepOutcome::Failed(e.message())),
            }
        } else if k == 1 {
            fetch_outcome_exec(self.builder.resume(obs))
        } else if k == 2 {
            fetch_outcome_exec(self.node.resume(obs))
        } else if k == 3 {
            fetch_outcome_exec(self.sidecar.resume(obs))
        } else if k == 4 {
            fetch_outcome_exec(self.runtime.resume(obs))
        } else {
            match self.generation.resume(obs) {
                Progress::Perform(e) => Progress::Perform(e),
                Progress::Finished(Ok(())) => Progress::Finished(StepOutcome::Succeeded),
                Progress::Finished(Err(e)) => Progress::Finished(StepOutcome::Failed(e.message())),
            }
        }
    }

    fn kick(&mut self) -> (p: Progress<()>)
        ensures
            (final(self)@, p@) == old(self)@.kick(),
        decreases self@.orchestrator.labels.len() - self@.orchestrator.report.len(),
    {
        match self.orchestrator.next_step() {
            None => Progress::Finished(()),
            Some(k) => match self.sub_resume(k, Observation::Start) {
                Progress::Perform(e) => Progress::Perform(e),
                Progress::Finished(out) => {
                    self.orchestrator.record(out);
                    self.kick()
                },
            },
        }
    }

    /// Resumes the installation with the observation of its last effect; it
    /// finishes once every step has run, and its report is then complete.
    pub fn resume(&mut self, obs: Observation) -> (p: Progress<()>)
        ensures
            (final(self)@, p@) == old(self)@.step(obs),
    {
        match self.orchestrator.next_step() {
            None => Progress::Finished(()),
            Some(k) => match self.sub_resume(k, obs) {
                Progress::Perform(e) => Progress::Perform(e),
                Progress::Finished(out) => {
                    self.orchestrator.record(out);
                    self.kick()
                },
            },
        }
    }
}

/// The chains whose specification can be asked for by name.
pub open spec fn supported_chain(name: Seq<char>) -> bool {
    name == "westend"@ || name == "paseo"@ || name == "rococo"@
}

/// Whether a chain-specification option names a supported chain.
pub fn chain_spec_option_supported(name: &str) -> (r: bool)
    ensures
        r == supported_chain(name@),
{
    crate::paths::same_text(name, "westend") || crate::paths::same_text(name, "paseo")
        || crate::paths::same_text(name, "rococo")
}

} // verus!
