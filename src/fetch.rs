//! Idempotent provisioning of one downloadable artifact.

use vstd::prelude::*;

use crate::effect::{
    fits, fits_exec, invocation, lemma_trace_index, lemma_trace_len, trace, text, Awaiting, Effect, EffectView, InvocationView, Observation,
    Progress, ProgressView,
};
use crate::paths::{concat_text, decimal, decimal_text, join, join_spec, parent, parent_dir, Layout};
use crate::platform::OsInfo;

verus! {

/// One provisioning unit: where to download from, where the file goes, and
/// whether it must be made executable.
#[derive(Debug, Clone, PartialEq, Eq)]
pub struct FetchSpec {
    pub url: String,
    pub destination: String,
    pub executable: bool,
}

/// Why a fetch failed.
#[derive(Debug, Clone, PartialEq, Eq)]
pub enum FetchError {
    /// The ancestors of the destination could not be created; the filesystem's text.
    DirectoryFailed(String),
    /// The download program ran and exited unsuccessfully, with its exit code if any.
    DownloadFailed(Option<i32>),
    /// The download program could not be started; the underlying text.
    DownloadNotStarted(String),
    /// The destination could not be marked executable.
    PermissionFailed,
    /// The fetch was resumed with an observation that does not answer its last effect.
    UnexpectedObservation,
}

/// Where a fetch stands.
#[derive(Debug, Clone, Copy, PartialEq, Eq)]
pub enum FetchStage {
    Start,
    Probing,
    CreatingDirs,
    Downloading,
    MarkingExecutable,
    Done,
}

/// The download command: `wget -O <destination> <url>`.
pub open spec fn download_view(url: Seq<char>, destination: Seq<char>) -> InvocationView {
    InvocationView {
        program: "wget"@,
        args: seq!["-O"@, destination, url],
        dir: None,
    }
}

/// The command that marks a file executable: `chmod 755 <path>`.
pub open spec fn mark_executable_view(path: Seq<char>) -> InvocationView {
    InvocationView { program: "chmod"@, args: seq!["755"@, path], dir: None }
}

pub open spec fn fetch_awaiting(stage: FetchStage) -> Awaiting {
    match stage {
        FetchStage::Start => Awaiting::Start,
        FetchStage::Probing => Awaiting::Check,
        FetchStage::CreatingDirs => Awaiting::FsOutcome,
        FetchStage::Downloading => Awaiting::RunOutcome,
        FetchStage::MarkingExecutable => Awaiting::RunOutcome,
        FetchStage::Done => Awaiting::Nothing,
    }
}

pub open spec fn fetch_finish(r: Result<(), FetchError>) -> (FetchStage, ProgressView<Result<(), FetchError>>) {
    (FetchStage::Done, ProgressView::Finished(r))
}

/// The step that starts the download itself.
pub open spec fn fetch_download(spec: FetchSpec) -> (FetchStage, ProgressView<Result<(), FetchError>>) {
    (
        FetchStage::Downloading,
        ProgressView::Perform(EffectView::Run(download_view(spec.url@, spec.destination@))),
    )
}

/// One transition of a fetch: from its stage and the observation of the last
/// effect, the next stage and what to do next.
pub open spec fn fetch_step(spec: FetchSpec, stage: FetchStage, obs: Observation) -> (FetchStage, ProgressView<Result<(), FetchError>>) {
    if !fits(fetch_awaiting(stage), obs) {
        fetch_finish(Err(FetchError::UnexpectedObservation))
    } else {
        match stage {
            FetchStage::Start => (
                FetchStage::Probing,
                ProgressView::Perform(EffectView::CheckExists(spec.destination@)),
            ),
            FetchStage::Probing => {
                if obs == Observation::Exists(true) {
                    fetch_finish(Ok(()))
                } else {
                    match parent_dir(spec.destination@) {
                        Some(d) => (
                            FetchStage::CreatingDirs,
                            ProgressView::Perform(EffectView::CreateDirAll(d)),
                        ),
                        None => fetch_download(spec),
                    }
                }
            },
            FetchStage::CreatingDirs => match obs {
                Observation::Failed(e) => fetch_finish(Err(FetchError::DirectoryFailed(e))),
                _ => fetch_download(spec),
            },
            FetchStage::Downloading => match obs {
                Observation::Completed => {
                    if spec.executable {
                        (
                            FetchStage::MarkingExecutable,
                            ProgressView::Perform(
                                EffectView::Run(mark_executable_view(spec.destination@)),
                            ),
                        )
                    } else {
                        fetch_finish(Ok(()))
                    }
                },
                Observation::ExitedWith(c) => fetch_finish(Err(FetchError::DownloadFailed(c))),
                Observation::Failed(e) => fetch_finish(Err(FetchError::DownloadNotStarted(e))),
                _ => fetch_finish(Err(FetchError::UnexpectedObservation)),
            },
            FetchStage::MarkingExecutable => {
                if obs is Completed {
                    fetch_finish(Ok(()))
                } else {
                    fetch_finish(Err(FetchError::PermissionFailed))
                }
            },
            FetchStage::Done => fetch_finish(Err(FetchError::UnexpectedObservation)),
        }
    }
}

/// The transition function of a fetch of `spec`.
pub open spec fn fetch_fn(spec: FetchSpec) -> spec_fn(FetchStage, Observation) -> (FetchStage, ProgressView<Result<(), FetchError>>) {
    |stage: FetchStage, obs: Observation| fetch_step(spec, stage, obs)
}

proof fn lemma_fetch_trace_after_done(spec: FetchSpec, obs: Seq<Observation>)
    ensures
        trace(fetch_fn(spec), FetchStage::Done, obs).len() == obs.len(),
        forall|i: int| 0 <= i < obs.len() ==> #[trigger] trace(fetch_fn(spec), FetchStage::Done, obs)[i]
            == ProgressView::<Result<(), FetchError>>::Finished(Err(FetchError::UnexpectedObservation)),
    decreases obs.len(),
{
    lemma_trace_len(fetch_fn(spec), FetchStage::Done, obs);
    if obs.len() > 0 {
        lemma_fetch_trace_after_done(spec, obs.drop_first());
        assert forall|i: int| 0 <= i < obs.len() implies #[trigger] trace(fetch_fn(spec), FetchStage::Done, obs)[i]
            == ProgressView::<Result<(), FetchError>>::Finished(Err(FetchError::UnexpectedObservation)) by {
            if i > 0 {
                lemma_trace_index(fetch_fn(spec), FetchStage::Done, obs, i);
            }
        }
    }
}

/// Fetching is idempotent. A fetch depends on nothing but its spec and the
/// observations fed to it, so however an earlier fetch of the same spec went,
/// a fetch that finds its destination present checks that path, finishes with
/// success, and hands out no other effect: no directory is created and no
/// program (download or permission change) is run.
pub proof fn lemma_fetch_of_present_destination(spec: FetchSpec, obs: Seq<Observation>)
    requires
        obs.len() >= 2,
        obs[0] == Observation::Start,
        obs[1] == Observation::Exists(true),
    ensures
        trace(fetch_fn(spec), FetchStage::Start, obs).len() == obs.len(),
        trace(fetch_fn(spec), FetchStage::Start, obs)[0]
            == ProgressView::<Result<(), FetchError>>::Perform(EffectView::CheckExists(spec.destination@)),
        trace(fetch_fn(spec), FetchStage::Start, obs)[1]
            == ProgressView::<Result<(), FetchError>>::Finished(Ok(())),
        forall|i: int| 1 <= i < obs.len() ==> (#[trigger] trace(fetch_fn(spec), FetchStage::Start, obs)[i]) is Finished,
        forall|i: int| 0 <= i < obs.len() ==> !(#[trigger] trace(fetch_fn(spec), FetchStage::Start, obs)[i]
            matches ProgressView::Perform(e) && e.invokes_program()),
{
    let f = fetch_fn(spec);
    let rest = obs.drop_first();
    let tail = rest.drop_first();
    lemma_trace_len(f, FetchStage::Start, obs);
    lemma_trace_index(f, FetchStage::Start, obs, 1);
    lemma_trace_index(f, FetchStage::Probing, rest, 0);
    lemma_fetch_trace_after_done(spec, tail);
    assert forall|i: int| 1 <= i < obs.len() implies (#[trigger] trace(f, FetchStage::Start, obs)[i]) is Finished by {
        lemma_trace_index(f, FetchStage::Start, obs, i);
        if i >= 2 {
            lemma_trace_index(f, FetchStage::Probing, rest, i - 1);
        }
    }
    assert forall|i: int| 0 <= i < obs.len() implies !(#[trigger] trace(f, FetchStage::Start, obs)[i]
        matches ProgressView::Perform(e) && e.invokes_program()) by {
        lemma_trace_index(f, FetchStage::Start, obs, i);
        if i >= 2 {
            lemma_trace_index(f, FetchStage::Probing, rest, i - 1);
        }
    }
}

/// The download invocation of [`download_view`].
pub fn download_file(url: &str, destination: &str) -> (r: crate::effect::Invocation)
    ensures
        r@ == download_view(url@, destination@),
{
    let mut args: Vec<String> = Vec::new();
    args.push(text("-O"));
    args.push(text(destination));
    args.push(text(url));
    let r = invocation("wget", args);
    assert(r@.args =~= download_view(url@, destination@).args);
    r
}

/// The invocation of [`mark_executable_view`].
pub fn mark_executable(path: &str) -> (r: crate::effect::Invocation)
    ensures
        r@ == mark_executable_view(path@),
{
    let mut args: Vec<String> = Vec::new();
    args.push(text("755"));
    args.push(text(path));
    let r = invocation("chmod", args);
    assert(r@.args =~= mark_executable_view(path@).args);
    r
}

/// A fetch in progress: the workflow that makes sure one artifact is present,
/// downloaded and, where asked, executable.
#[derive(Debug)]
pub struct Fetch {
    pub spec: FetchSpec,
    pub stage: FetchStage,
}

/// Starts the fetch of `spec`.
pub fn ensure(spec: FetchSpec) -> (r: Fetch)
    ensures
        r.spec == spec,
        r.stage == FetchStage::Start,
{
    Fetch { spec, stage: FetchStage::Start }
}

impl Fetch {
    pub fn awaiting(&self) -> (r: Awaiting)
        ensures
            r == fetch_awaiting(self.stage),
    {
        match self.stage {
            FetchStage::Start => Awaiting::Start,
            FetchStage::Probing => Awaiting::Check,
            FetchStage::CreatingDirs => Awaiting::FsOutcome,
            FetchStage::Downloading => Awaiting::RunOutcome,
            FetchStage::MarkingExecutable => Awaiting::RunOutcome,
            FetchStage::Done => Awaiting::Nothing,
        }
    }

    fn finish(&mut self, r: Result<(), FetchError>) -> (p: Progress<Result<(), FetchError>>)
        ensures
            final(self).spec == old(self).spec,
            (final(self).stage, p@) == fetch_finish(r),
    {
        self.stage = FetchStage::Done;
        Progress::Finished(r)
    }

    fn download(&mut self) -> (p: Progress<Result<(), FetchError>>)
        ensures
            final(self).spec == old(self).spec,
            (final(self).stage, p@) == fetch_download(old(self).spec),
    {
        self.stage = FetchStage::Downloading;
        Progress::Perform(Effect::Run(download_file(&self.spec.url, &self.spec.destination)))
    }

    /// Resumes the fetch with the observation of its last effect.
    pub fn resume(&mut self, obs: Observation) -> (p: Progress<Result<(), FetchError>>)
        ensures
            final(self).spec == old(self).spec,
            (final(self).stage, p@) == fetch_step(old(self).spec, old(self).stage, obs),
    {
        let a = self.awaiting();
        if !fits_exec(&a, &obs) {
            return self.finish(Err(FetchError::UnexpectedObservation));
        }
        match self.stage {
            FetchStage::Start => {
                self.stage = FetchStage::Probing;
                Progress::Perform(Effect::CheckExists(self.spec.destination.clone()))
            },
            FetchStage::Probing => {
                if obs.is_found() {
                    self.finish(Ok(()))
                } else {
                    match parent(&self.spec.destination) {
                        Some(d) => {
                            self.stage = FetchStage::CreatingDirs;
                            Progress::Perform(Effect::CreateDirAll(d))
                        },
                        None => self.download(),
                    }
                }
            },
            FetchStage::CreatingDirs => match obs {
                Observation::Failed(e) => self.finish(Err(FetchError::DirectoryFailed(e))),
                _ => self.download(),
            },
            FetchStage::Downloading => match obs {
                Observation::Completed => {
                    if self.spec.executable {
                        self.stage = FetchStage::MarkingExecutable;
                        Progress::Perform(Effect::Run(mark_executable(&self.spec.destination)))
                    } else {
                        self.finish(Ok(()))
                    }
                },
                Observation::ExitedWith(c) => self.finish(Err(FetchError::DownloadFailed(c))),
                Observation::Failed(e) => self.finish(Err(FetchError::DownloadNotStarted(e))),
                _ => self.finish(Err(FetchError::UnexpectedObservation)),
            },
            FetchStage::MarkingExecutable => {
                if obs.is_success() {
                    self.finish(Ok(()))
                } else {
                    self.finish(Err(FetchError::PermissionFailed))
                }
            },
            FetchStage::Done => self.finish(Err(FetchError::UnexpectedObservation)),
        }
    }
}

impl FetchError {
    pub open spec fn message_spec(self) -> Seq<char> {
        match self {
            FetchError::DirectoryFailed(e) => "Failed to create directory: "@ + e@,
            FetchError::DownloadFailed(Some(c)) => "Download failed with exit code: "@ + decimal(c as int),
            FetchError::DownloadFailed(None) => "Download failed without an exit code"@,
            FetchError::DownloadNotStarted(e) => "Failed to execute wget: "@ + e@,
            FetchError::PermissionFailed => "Failed to set executable permissions"@,
            FetchError::UnexpectedObservation => "Unexpected observation"@,
        }
    }

    /// A human-readable account of the error.
    pub fn message(&self) -> (r: String)
        ensures
            r@ == self.message_spec(),
    {
        match self {
            FetchError::DirectoryFailed(e) => concat_text("Failed to create directory: ", e.as_str()),
            FetchError::DownloadFailed(Some(c)) => {
                let code = decimal_text(*c);
                concat_text("Download failed with exit code: ", code.as_str())
            },
            FetchError::DownloadFailed(None) => String::from_str("Download failed without an exit code"),
            FetchError::DownloadNotStarted(e) => concat_text("Failed to execute wget: ", e.as_str()),
            FetchError::PermissionFailed => String::from_str("Failed to set executable permissions"),
            FetchError::UnexpectedObservation => String::from_str("Unexpected observation"),
        }
    }
}

/// Where the chain-spec builder is downloaded from on macOS.
pub open spec fn builder_url_macos() -> Seq<char> {
    "https://github.com/ArneilPaulPolican/dot/releases/download/v0.0.1-binary/chain-spec-builder"@
}

/// Where the chain-spec builder is downloaded from elsewhere.
pub open spec fn builder_url_other() -> Seq<char> {
    "https://github.com/paritytech/polkadot-sdk/releases/download/polkadot-stable2412/chain-spec-builder"@
}

/// Where the omni node is downloaded from on macOS.
pub open spec fn omni_node_url_macos() -> Seq<char> {
    "https://github.com/ArneilPaulPolican/dot/releases/download/v0.0.1-binary/polkadot-omni-node"@
}

/// Where the omni node is downloaded from elsewhere.
pub open spec fn omni_node_url_other() -> Seq<char> {
    "https://github.com/paritytech/polkadot-sdk/releases/download/polkadot-stable2412/polkadot-omni-node"@
}

/// Where the runtime artifact is downloaded from.
pub open spec fn runtime_url() -> Seq<char> {
    "https://github.com/paritytech/polkadot-sdk/releases/download/polkadot-stable2412/asset_hub_westend_runtime.compact.compressed.wasm"@
}

/// Where the RPC sidecar is downloaded from by default.
pub open spec fn sidecar_url() -> Seq<char> {
    "https://github.com/ArneilPaulPolican/dot/releases/download/v0.0.1-binary/eth-rpc"@
}

/// The chain-spec builder: fetched from the artifact for macOS there and from
/// the general one elsewhere, into the layout's binaries directory, executable.
pub fn install_chain_spec_builder(layout: &Layout, os: &OsInfo) -> (r: FetchSpec)
    ensures
        r.url@ == (if *os is MacOs { builder_url_macos() } else { builder_url_other() }),
        r.destination@ == join_spec(layout.binaries_dir@, "chain-spec-builder"@),
        r.executable,
{
    let url = match os {
        OsInfo::MacOs => String::from_str(
            "https://github.com/ArneilPaulPolican/dot/releases/download/v0.0.1-binary/chain-spec-builder",
        ),
        _ => String::from_str(
            "https://github.com/paritytech/polkadot-sdk/releases/download/polkadot-stable2412/chain-spec-builder",
        ),
    };
    FetchSpec { url, destination: join(&layout.binaries_dir, "chain-spec-builder"), executable: true }
}

/// The omni node: fetched from the artifact for macOS there and from the
/// general one elsewhere, into the layout's binaries directory, executable.
pub fn install_omni_node(layout: &Layout, os: &OsInfo) -> (r: FetchSpec)
    ensures
        r.url@ == (if *os is MacOs { omni_node_url_macos() } else { omni_node_url_other() }),
        r.destination@ == join_spec(layout.binaries_dir@, "polkadot-omni-node"@),
        r.executable,
{
    let url = match os {
        OsInfo::MacOs => String::from_str(
            "https://github.com/ArneilPaulPolican/dot/releases/download/v0.0.1-binary/polkadot-omni-node",
        ),
        _ => String::from_str(
            "https://github.com/paritytech/polkadot-sdk/releases/download/polkadot-stable2412/polkadot-omni-node",
        ),
    };
    FetchSpec { url, destination: join(&layout.binaries_dir, "polkadot-omni-node"), executable: true }
}

/// The runtime artifact, fetched to `destination`; it is data, not a program.
pub fn run_download_script(destination: &str) -> (r: FetchSpec)
    ensures
        r.url@ == runtime_url(),
        r.destination@ == destination@,
        !r.executable,
{
    FetchSpec {
        url: String::from_str(
            "https://github.com/paritytech/polkadot-sdk/releases/download/polkadot-stable2412/asset_hub_westend_runtime.compact.compressed.wasm",
        ),
        destination: String::from_str(destination),
        executable: false,
    }
}

/// Installs the RPC sidecar binary from `url` into a directory.
#[derive(Debug)]
pub struct EthRpcInstaller {
    pub url: String,
    pub binaries_dir: String,
    pub binary_name: String,
}

impl EthRpcInstaller {
    pub fn new(url: &str, binaries_dir: &str, binary_name: &str) -> (r: EthRpcInstaller)
        ensures
            r.url@ == url@,
            r.binaries_dir@ == binaries_dir@,
            r.binary_name@ == binary_name@,
    {
        EthRpcInstaller {
            url: String::from_str(url),
            binaries_dir: String::from_str(binaries_dir),
            binary_name: String::from_str(binary_name),
        }
    }

    /// What installing the sidecar fetches: the binary from the installer's
    /// URL into its directory under its name, executable.
    pub fn fetch_spec(&self) -> (r: FetchSpec)
        ensures
            r.url@ == self.url@,
            r.destination@ == join_spec(self.binaries_dir@, self.binary_name@),
            r.executable,
    {
        FetchSpec {
            url: self.url.clone(),
            destination: join(&self.binaries_dir, &self.binary_name),
            executable: true,
        }
    }

    /// Starts installing the sidecar: the fetch of [`EthRpcInstaller::fetch_spec`].
    pub fn install(&self) -> (r: Fetch)
        ensures
            r.spec.url@ == self.url@,
            r.spec.destination@ == join_spec(self.binaries_dir@, self.binary_name@),
            r.spec.executable,
            r.stage == FetchStage::Start,
    {
        ensure(self.fetch_spec())
    }
}

/// The sidecar installer of a layout: the default sidecar artifact, into the
/// layout's binaries directory as `eth-rpc`.
pub fn sidecar_installer(layout: &Layout) -> (r: EthRpcInstaller)
    ensures
        r.url@ == sidecar_url(),
        r.binaries_dir@ == layout.binaries_dir@,
        r.binary_name@ == "eth-rpc"@,
{
    EthRpcInstaller::new(
        "https://github.com/ArneilPaulPolican/dot/releases/download/v0.0.1-binary/eth-rpc",
        layout.binaries_dir.as_str(),
        "eth-rpc",
    )
}

/// Whether the chain-spec builder binary is in place, from whether its path
/// exists: success, or the error text `Chain-spec-builder binary is not available`.
pub fn check_binary(exists: bool) -> (r: Result<(), String>)
    ensures
        exists ==> r is Ok,
        !exists ==> (r matches Err(e) && e@ == "Chain-spec-builder binary is not available"@),
{
    if exists {
        Ok(())
    } else {
        Err(String::from_str("Chain-spec-builder binary is not available"))
    }
}

} // verus!
