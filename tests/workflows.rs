use dot_installer::chain_spec::{gen_chain_spec, locate_chain_spec, move_chain_spec, relocate_from, GenError, RelocateError};
use dot_installer::effect::{Effect, Invocation, Observation, Progress};
use dot_installer::fetch::{
    check_binary, download_file, ensure, install_chain_spec_builder, install_omni_node, run_download_script,
    EthRpcInstaller, FetchError, FetchSpec,
};
use dot_installer::install::{install, install_polkadot, BootstrapError};
use dot_installer::orchestrator::{report_lines, run_all, StepOutcome};
use dot_installer::paths::Layout;
use dot_installer::platform::OsInfo;
use dot_installer::template::{run_template, serve_template, TemplateError};

/// An in-memory stand-in for the filesystem and the external programs.
struct World {
    paths: Vec<String>,
    performed: Vec<Effect>,
    failing: Vec<(String, Observation)>,
}

impl World {
    fn new(paths: &[&str]) -> World {
        World { paths: paths.iter().map(|p| p.to_string()).collect(), performed: Vec::new(), failing: Vec::new() }
    }

    fn has(&self, p: &str) -> bool {
        self.paths.iter().any(|q| q == p)
    }

    fn add(&mut self, p: &str) {
        if !self.has(p) {
            self.paths.push(p.to_string());
        }
    }

    fn remove(&mut self, p: &str) {
        self.paths.retain(|q| q != p);
    }

    fn fail(&mut self, program: &str, obs: Observation) {
        self.failing.push((program.to_string(), obs));
    }

    fn programs_run(&self) -> usize {
        self.performed.iter().filter(|e| matches!(e, Effect::Run(_) | Effect::RunPiped(_, _))).count()
    }

    fn run(&mut self, inv: &Invocation) -> Observation {
        if let Some((_, o)) = self.failing.iter().find(|(p, _)| *p == inv.program) {
            return o.clone();
        }
        match inv.program.as_str() {
            "wget" => {
                let dest = inv.args[1].clone();
                self.add(&dest);
                Observation::Completed
            }
            "chmod" => {
                if self.has(&inv.args[1]) {
                    Observation::Completed
                } else {
                    Observation::ExitedWith(Some(1))
                }
            }
            "git" => {
                let dest = inv.args[3].clone();
                self.add(&dest);
                Observation::Completed
            }
            p if p.ends_with("chain-spec-builder") => {
                self.add("./chain_spec.json");
                Observation::Completed
            }
            _ => Observation::Completed,
        }
    }

    fn perform(&mut self, e: &Effect) -> Observation {
        self.performed.push(e.clone());
        match e {
            Effect::CheckExists(p) => Observation::Exists(self.has(p)),
            Effect::CreateDirAll(d) => {
                self.add(d);
                Observation::Completed
            }
            Effect::Rename(a, b) => {
                if self.has(a) {
                    self.remove(a);
                    self.add(b);
                    Observation::Completed
                } else {
                    Observation::Failed("No such file or directory (os error 2)".to_string())
                }
            }
            Effect::Run(inv) => self.run(inv),
            Effect::RunPiped(a, b) => {
                let first = self.run(a);
                if first == Observation::Completed {
                    self.run(b)
                } else {
                    first
                }
            }
        }
    }
}

fn drive<R>(world: &mut World, mut resume: impl FnMut(Observation) -> Progress<R>) -> R {
    let mut obs = Observation::Start;
    loop {
        match resume(obs) {
            Progress::Perform(e) => obs = world.perform(&e),
            Progress::Finished(r) => return r,
        }
    }
}

fn fetch_in(world: &mut World, spec: FetchSpec) -> Result<(), FetchError> {
    let mut f = ensure(spec);
    drive(world, |o| f.resume(o))
}

fn strings(v: &[&str]) -> Vec<String> {
    v.iter().map(|s| s.to_string()).collect()
}

// ---- fetching ----

#[test]
fn fetch_scenario_downloads_and_marks_executable() {
    let mut world = World::new(&[]);
    let spec = FetchSpec { url: "https://example/bin".to_string(), destination: "/tmp/x/bin".to_string(), executable: true };
    assert_eq!(fetch_in(&mut world, spec), Ok(()));
    assert!(world.has("/tmp/x/bin"));
    assert!(world.has("/tmp/x"));
    assert_eq!(world.performed.len(), 4);
    assert_eq!(world.performed[1], Effect::CreateDirAll("/tmp/x".to_string()));
    match &world.performed[3] {
        Effect::Run(inv) => {
            assert_eq!(inv.program, "chmod");
            assert_eq!(inv.args, strings(&["755", "/tmp/x/bin"]));
        }
        other => panic!("unexpected effect {:?}", other),
    }
}

#[test]
fn fetch_twice_runs_no_program_the_second_time() {
    let mut world = World::new(&[]);
    let spec = FetchSpec { url: "https://example/bin".to_string(), destination: "/tmp/x/bin".to_string(), executable: true };
    assert_eq!(fetch_in(&mut world, spec.clone()), Ok(()));
    let before = world.programs_run();
    assert_eq!(before, 2);
    let effects_before = world.performed.len();
    assert_eq!(fetch_in(&mut world, spec), Ok(()));
    assert_eq!(world.programs_run(), before);
    assert_eq!(world.performed.len(), effects_before + 1);
    assert_eq!(world.performed[effects_before], Effect::CheckExists("/tmp/x/bin".to_string()));
}

#[test]
fn fetch_download_failure_skips_permissions() {
    let mut world = World::new(&[]);
    world.fail("wget", Observation::ExitedWith(Some(4)));
    let spec = FetchSpec { url: "u".to_string(), destination: "./binaries/tool".to_string(), executable: true };
    let r = fetch_in(&mut world, spec);
    assert_eq!(r, Err(FetchError::DownloadFailed(Some(4))));
    assert_eq!(r.unwrap_err().message(), "Download failed with exit code: 4");
    assert!(!world.performed.iter().any(|e| matches!(e, Effect::Run(i) if i.program == "chmod")));
}

#[test]
fn fetch_error_variants() {
    let mut world = World::new(&[]);
    world.fail("wget", Observation::Failed("not found".to_string()));
    let spec = FetchSpec { url: "u".to_string(), destination: "file".to_string(), executable: false };
    let r = fetch_in(&mut world, spec);
    assert_eq!(r, Err(FetchError::DownloadNotStarted("not found".to_string())));
    assert_eq!(r.unwrap_err().message(), "Failed to execute wget: not found");
    assert!(!world.performed.iter().any(|e| matches!(e, Effect::CreateDirAll(_))));

    let mut world = World::new(&[]);
    world.fail("chmod", Observation::ExitedWith(Some(1)));
    let spec = FetchSpec { url: "u".to_string(), destination: "a/b".to_string(), executable: true };
    assert_eq!(fetch_in(&mut world, spec), Err(FetchError::PermissionFailed));

    let spec = FetchSpec { url: "u".to_string(), destination: "a/b".to_string(), executable: true };
    let mut f = ensure(spec);
    assert!(matches!(f.resume(Observation::Start), Progress::Perform(Effect::CheckExists(_))));
    assert!(matches!(f.resume(Observation::Exists(false)), Progress::Perform(Effect::CreateDirAll(_))));
    let r = f.resume(Observation::Failed("denied".to_string()));
    assert!(matches!(r, Progress::Finished(Err(FetchError::DirectoryFailed(ref e))) if e == "denied"));

    let spec = FetchSpec { url: "u".to_string(), destination: "a/b".to_string(), executable: true };
    let mut f = ensure(spec);
    assert!(matches!(f.resume(Observation::Completed), Progress::Finished(Err(FetchError::UnexpectedObservation))));
    assert_eq!(FetchError::DownloadFailed(Some(-3)).message(), "Download failed with exit code: -3");
    assert_eq!(FetchError::DownloadFailed(None).message(), "Download failed without an exit code");
}

#[test]
fn test_download_file_success() {
    let url = "https://github.com/paritytech/polkadot-sdk/releases/download/polkadot-stable2412/asset_hub_westend_runtime.compact.compressed.wasm";
    let destination = "/tmp/t/nodes/asset_hub_westend_runtime.compact.compressed.wasm";
    let inv = download_file(url, destination);
    assert_eq!(inv.program, "wget");
    assert_eq!(inv.args, strings(&["-O", destination, url]));
    let mut world = World::new(&["/tmp/t/nodes"]);
    assert_eq!(world.perform(&Effect::Run(inv)), Observation::Completed);
    assert!(world.has(destination));
}

#[test]
fn test_run_download_script_skips_download_when_file_exists() {
    let wasm_path = "/tmp/t/nodes/asset_hub_westend_runtime.compact.compressed.wasm";
    let mut world = World::new(&["/tmp/t/nodes", wasm_path]);
    assert!(fetch_in(&mut world, run_download_script(wasm_path)).is_ok());
    assert_eq!(world.programs_run(), 0);
}

#[test]
fn test_run_ensure_directory_exists() {
    let wasm_path = "/tmp/u/nodes/asset_hub_westend_runtime.compact.compressed.wasm";
    let mut world = World::new(&["/tmp/u/nodes", wasm_path]);
    let result = fetch_in(&mut world, run_download_script(wasm_path));
    assert!(result.is_ok(), "run_download_script failed with {:?}", result.unwrap_err());
}

#[test]
fn test_run_download_script() {
    let destination = "./nodes/asset_hub_westend_runtime.compact.compressed.wasm";
    let mut world = World::new(&[]);
    let result = fetch_in(&mut world, run_download_script(destination));
    assert!(result.is_ok(), "Download script failed: {:?}", result.err());
    assert!(world.has(destination), "WASM file not created at the expected destination.");
    assert!(world.has("./nodes"));
}

#[test]
fn test_check_binary_exists() {
    let result = check_binary(true);
    assert!(result.is_ok(), "check_binary failed: {:?}", result.unwrap_err());
    let result = check_binary(false);
    assert!(result.is_err(), "check_binary should have failed but didn't");
    assert_eq!(result.unwrap_err(), "Chain-spec-builder binary is not available");
}

#[test]
fn install_test_install_chain_spec_builder_success() {
    let layout = Layout::default();
    let spec = install_chain_spec_builder(&layout, &OsInfo::Linux);
    assert_eq!(spec.url, "https://github.com/paritytech/polkadot-sdk/releases/download/polkadot-stable2412/chain-spec-builder");
    assert_eq!(spec.destination, "./binaries/chain-spec-builder");
    let mut world = World::new(&[]);
    let result = fetch_in(&mut world, spec);
    assert!(result.is_ok(), "install_chain_spec_builder() failed with error: {:?}", result.unwrap_err());
}

#[test]
fn test_test_install_chain_spec_builder_success() {
    let layout = Layout::default();
    let spec = install_chain_spec_builder(&layout, &OsInfo::MacOs);
    assert_eq!(spec.url, "https://github.com/ArneilPaulPolican/dot/releases/download/v0.0.1-binary/chain-spec-builder");
    let mut world = World::new(&["./binaries"]);
    assert!(fetch_in(&mut world, spec).is_ok());
    assert!(world.has("./binaries/chain-spec-builder"));
}

#[test]
fn install_test_create_binaries_directory() {
    let mut world = World::new(&[]);
    assert!(!world.has("./binaries"));
    fetch_in(&mut world, install_chain_spec_builder(&Layout::default(), &OsInfo::Linux)).unwrap();
    assert!(world.has("./binaries"));
}

#[test]
fn test_test_create_binaries_directory() {
    let layout = Layout { binaries_dir: "/tmp/w/binaries".to_string(), nodes_dir: "/tmp/w/nodes".to_string(), chain_specs_dir: "/tmp/w/chain-specs".to_string() };
    let mut world = World::new(&["/tmp/w"]);
    fetch_in(&mut world, install_chain_spec_builder(&layout, &OsInfo::Linux)).unwrap();
    assert!(world.has("/tmp/w/binaries"));
}

#[test]
fn install_test_install_omni_node() {
    let spec = install_omni_node(&Layout::default(), &OsInfo::Linux);
    assert_eq!(spec.url, "https://github.com/paritytech/polkadot-sdk/releases/download/polkadot-stable2412/polkadot-omni-node");
    assert_eq!(spec.destination, "./binaries/polkadot-omni-node");
    let mut world = World::new(&[]);
    assert!(fetch_in(&mut world, spec).is_ok(), "Omni-node installation failed");
}

#[test]
fn test_test_install_omni_node() {
    let spec = install_omni_node(&Layout::default(), &OsInfo::MacOs);
    assert_eq!(spec.url, "https://github.com/ArneilPaulPolican/dot/releases/download/v0.0.1-binary/polkadot-omni-node");
    let mut world = World::new(&[]);
    assert!(fetch_in(&mut world, spec).is_ok(), "Omni-node installation failed");
    assert!(world.has("./binaries/polkadot-omni-node"));
}

#[test]
fn test_install_eth_rpc_success() {
    let test_dir = "/tmp/test_binaries";
    let url = "https://github.com/ArneilPaulPolican/dot/releases/download/v0.0.1-binary/eth-rpc";
    let installer = EthRpcInstaller::new(url, test_dir, "eth-rpc-test");
    let mut world = World::new(&[]);
    let mut f = installer.install();
    let result = drive(&mut world, |o| f.resume(o));
    assert!(result.is_ok(), "Installation should succeed");
    assert!(world.has("/tmp/test_binaries/eth-rpc-test"), "Binary should be downloaded");
}

// ---- chain specification ----

#[test]
fn test_gen_chain_spec_wasm_not_found() {
    let mut g = gen_chain_spec(&Layout::default(), Some("non_existent_wasm.wasm".to_string()), None);
    let mut world = World::new(&[]);
    let result = drive(&mut world, |o| g.resume(o));
    assert!(result.is_err());
    assert_eq!(result.unwrap_err().message(), "WASM file not found: \"non_existent_wasm.wasm\"");
    assert_eq!(world.programs_run(), 0);
}

#[test]
fn test_test_gen_chain_spec_failure_wasm_not_found() {
    let mut g = gen_chain_spec(&Layout::default(), None, None);
    let mut world = World::new(&["./binaries/chain-spec-builder"]);
    let result = drive(&mut world, |o| g.resume(o));
    assert!(result.is_err());
    assert_eq!(
        result.unwrap_err().message(),
        "WASM file not found: \"./nodes/asset_hub_westend_runtime.compact.compressed.wasm\""
    );
}

#[test]
fn chain_specs_test_gen_chain_spec_failure_wasm_not_found() {
    let wasm = "/tmp/m/asset_hub_westend_runtime.compact.compressed.wasm";
    let builder = "/tmp/m/chain-spec-builder";
    let mut world = World::new(&[wasm]);
    let mut g = gen_chain_spec(&Layout::default(), Some(wasm.to_string()), Some(builder.to_string()));
    let result = drive(&mut world, |o| g.resume(o));
    assert!(result.is_err(), "gen_chain_spec should have failed");
    assert_eq!(result.unwrap_err().message(), "Failed to add execute permissions to the chain-spec-builder");

    world.add(builder);
    let missing = "./nodes/asset_hub_westend_runtime_test.compact.compressed.wasm";
    let mut g = gen_chain_spec(&Layout::default(), Some(missing.to_string()), Some(builder.to_string()));
    let result = drive(&mut world, |o| g.resume(o));
    assert_eq!(result, Err(GenError::RuntimeMissing(missing.to_string())));
    assert_eq!(
        result.unwrap_err().message(),
        "WASM file not found: \"./nodes/asset_hub_westend_runtime_test.compact.compressed.wasm\""
    );
}

#[test]
fn chain_specs_test_gen_chain_spec_success() {
    let wasm = "/tmp/g/asset_hub_westend_runtime.compact.compressed.wasm";
    let builder = "/tmp/g/chain-spec-builder";
    let mut world = World::new(&[wasm, builder]);
    let mut g = gen_chain_spec(&Layout::default(), Some(wasm.to_string()), Some(builder.to_string()));
    let result = drive(&mut world, |o| g.resume(o));
    assert!(result.is_ok());
    assert!(world.has("./chain-specs/chain_spec.json"));
    assert!(!world.has("./chain_spec.json"));
    let build = world.performed.iter().find_map(|e| match e {
        Effect::Run(inv) if inv.program == builder => Some(inv.clone()),
        _ => None,
    });
    assert_eq!(
        build.unwrap().args,
        strings(&[
            "create", "-t", "development", "--relay-chain", "westend", "--para-id", "1000", "--runtime", wasm,
            "named-preset", "development",
        ])
    );
}

#[test]
fn test_test_gen_chain_spec_success() {
    let layout = Layout::default();
    let mut world = World::new(&[
        "./nodes/asset_hub_westend_runtime.compact.compressed.wasm",
        "./binaries/chain-spec-builder",
    ]);
    let mut g = gen_chain_spec(&layout, None, None);
    assert!(drive(&mut world, |o| g.resume(o)).is_ok());
    assert!(world.has("./chain-specs/chain_spec.json"));
}

#[test]
fn generation_without_output_is_not_located() {
    let wasm = "/tmp/n/runtime.wasm";
    let builder = "/tmp/n/builder";
    let mut world = World::new(&[wasm, builder]);
    let mut g = gen_chain_spec(&Layout::default(), Some(wasm.to_string()), Some(builder.to_string()));
    let result = drive(&mut world, |o| g.resume(o));
    assert_eq!(result, Err(GenError::NotLocated));
    assert!(!world.has("./chain-specs"));
}

#[test]
fn generation_tolerates_unreadable_runtime_marking() {
    let wasm = "/tmp/r/runtime.wasm";
    let builder = "/tmp/r/chain-spec-builder";
    let mut g = gen_chain_spec(&Layout::default(), Some(wasm.to_string()), Some(builder.to_string()));
    assert!(matches!(g.resume(Observation::Start), Progress::Perform(Effect::CheckExists(_))));
    assert!(matches!(g.resume(Observation::Exists(true)), Progress::Perform(Effect::Run(_))));
    match g.resume(Observation::ExitedWith(Some(1))) {
        Progress::Perform(Effect::Run(inv)) => assert_eq!(inv.args, strings(&["+x", builder])),
        other => panic!("unexpected {:?}", other),
    }
}

#[test]
fn chain_specs_test_move_chain_spec() {
    let source_dir = "/tmp/s/source";
    let dest_dir = "/tmp/s/chain-specs";
    let source_file = "/tmp/s/source/chain_spec.json";
    let mut world = World::new(&[source_dir, source_file]);
    let mut r = relocate_from(&strings(&[source_dir]), dest_dir);
    let result = drive(&mut world, |o| r.resume(o));
    assert!(result.is_ok(), "move_chain_spec failed: {:?}", result.err());
    assert!(!world.has(source_file), "Source chain_spec.json should not exist after being moved.");
    assert!(world.has("/tmp/s/chain-specs/chain_spec.json"), "chain_spec.json was not moved to the destination directory.");
}

#[test]
fn test_test_move_chain_spec() {
    let mut world = World::new(&["./chain_spec.json", "../chain_spec.json"]);
    let mut r = locate_chain_spec(&Layout::default());
    assert!(drive(&mut world, |o| r.resume(o)).is_ok());
    assert!(!world.has("./chain_spec.json"));
    assert!(world.has("../chain_spec.json"));
    assert!(world.has("./chain-specs/chain_spec.json"));
}

#[test]
fn relocation_falls_back_to_parent_directory() {
    let mut world = World::new(&["../chain_spec.json"]);
    let mut r = locate_chain_spec(&Layout::default());
    assert!(drive(&mut world, |o| r.resume(o)).is_ok());
    assert!(!world.has("../chain_spec.json"));
    assert!(world.has("./chain-specs/chain_spec.json"));
}

#[test]
fn test_test_move_chain_spec_failure() {
    let mut world = World::new(&[]);
    let mut r = locate_chain_spec(&Layout::default());
    let result = drive(&mut world, |o| r.resume(o));
    assert!(result.is_err());
    assert_eq!(result.as_ref().err().unwrap(), &RelocateError::NotLocated);
    assert_eq!(result.err().unwrap().message(), "chain_spec.json not found in the specified directories.");
    assert!(!world.has("./chain-specs"));
    assert!(!world.performed.iter().any(|e| matches!(e, Effect::CreateDirAll(_))));
}

#[test]
fn chain_specs_test_move_chain_spec_failure() {
    let mut world = World::new(&[]);
    let mut r = move_chain_spec(&Layout::default(), "non_existent_chain_spec.json");
    let result = drive(&mut world, |o| r.resume(o));
    assert!(result.is_err());
}

#[test]
fn test_move_chain_spec_failure_v2() {
    let mut world = World::new(&[]);
    let mut r = move_chain_spec(&Layout::default(), "chain_spec.json");
    let result = drive(&mut world, |o| r.resume(o));
    assert_eq!(result.err().unwrap().message(), "Failed to move chain_spec.json: No such file or directory (os error 2)");
}

#[test]
fn test_move_chain_spec_success() {
    let source = "/tmp/v/chain_spec.json";
    let mut world = World::new(&[source]);
    let mut r = move_chain_spec(&Layout::default(), source);
    let result = drive(&mut world, |o| r.resume(o));
    assert!(result.is_ok());
    assert!(!world.has(source), "Source chain_spec.json should not exist after being moved.");
}

#[test]
fn relocation_directory_failure_is_reported_verbatim() {
    let mut r = move_chain_spec(&Layout::default(), "x");
    assert!(matches!(r.resume(Observation::Start), Progress::Perform(Effect::CreateDirAll(_))));
    match r.resume(Observation::Failed("Permission denied (os error 13)".to_string())) {
        Progress::Finished(Err(e)) => {
            assert_eq!(e.message(), "Failed to create chain-specs directory: Permission denied (os error 13)")
        }
        other => panic!("unexpected {:?}", other),
    }
}

// ---- templates ----

#[test]
fn test_run_template_fail_template_not_recognize() {
    let args = strings(&["--arg1", "value1"]);
    let template = "unknown_template";
    let mut run = run_template(&args, template);
    let mut world = World::new(&[]);
    let result = drive(&mut world, |o| run.resume(o));
    assert!(result.is_err(), "Expected run_template to return an error for unrecognized template");
    assert_eq!(result.unwrap_err().message(), format!("Template unrecognized: {}", template));
    assert!(world.performed.is_empty());
}

#[test]
fn test_run_template_with_invalid_template() {
    let mut run = run_template(&Vec::new(), "invalid-template");
    let mut world = World::new(&[]);
    assert!(drive(&mut world, |o| run.resume(o)).is_err());
}

#[test]
fn test_serve_template() {
    let repo = "/tmp/tp";
    let mut world = World::new(&[repo]);
    let mut run = serve_template(&strings(&["--example-arg"]), repo);
    assert!(drive(&mut world, |o| run.resume(o)).is_ok());
    match world.performed.last().unwrap() {
        Effect::Run(inv) => {
            assert_eq!(inv.program, "cargo");
            assert_eq!(inv.args, strings(&["run", "--release", "--", "--dev", "--example-arg"]));
            assert_eq!(inv.dir, Some(repo.to_string()));
        }
        other => panic!("unexpected {:?}", other),
    }
}

#[test]
fn test_serve_template_fail_no_directory() {
    let template = "mock";
    let destination = format!("./templates/{}-template", template);
    let destination_path = std::path::Path::new(&destination);
    assert!(!destination_path.exists(), "Template directory should exist");
}

#[test]
fn test_serve_template_fail_no_file() {
    let args = strings(&["--arg1", "value1", "--arg2", "value2"]);
    let mut world = World::new(&[]);
    let mut run = serve_template(&args, "./templates/mock-template");
    let result = drive(&mut world, |o| run.resume(o));
    assert!(result.is_err(), "Expected serve_template to return an error");
    assert_eq!(result, Err(TemplateError::DirectoryMissing("./templates/mock-template".to_string())));
}

#[test]
fn template_is_cloned_then_run() {
    let mut world = World::new(&[]);
    let mut run = run_template(&strings(&["--x"]), "minimal");
    assert!(drive(&mut world, |o| run.resume(o)).is_ok());
    let clone = world.performed.iter().find_map(|e| match e {
        Effect::Run(inv) if inv.program == "git" => Some(inv.clone()),
        _ => None,
    });
    assert_eq!(
        clone.unwrap().args,
        strings(&["clone", "--quiet", "https://github.com/paritytech/polkadot-sdk-minimal-template.git", "./templates/minimal-template"])
    );
    world.fail("git", Observation::ExitedWith(Some(128)));
    let mut world2 = World::new(&[]);
    world2.fail("git", Observation::ExitedWith(Some(128)));
    let mut run = run_template(&Vec::new(), "parachain");
    let r = drive(&mut world2, |o| run.resume(o));
    assert_eq!(r, Err(TemplateError::CloneFailed));
    assert_eq!(r.unwrap_err().message(), "Failed to clone template");
    let mut world3 = World::new(&["./templates/solochain-template"]);
    world3.fail("cargo", Observation::ExitedWith(Some(101)));
    let mut run = run_template(&Vec::new(), "solochain");
    assert_eq!(drive(&mut world3, |o| run.resume(o)), Ok(()));
    let mut run = serve_template(&Vec::new(), "./templates/solochain-template");
    assert_eq!(drive(&mut world3, |o| run.resume(o)), Err(TemplateError::RunFailed));
}

// ---- orchestration ----

#[test]
fn orchestrator_scenario_failure_then_success() {
    let calls = std::cell::Cell::new([0u32, 0u32]);
    let actions: Vec<Box<dyn Fn() -> StepOutcome>> = vec![
        Box::new(|| {
            let mut c = calls.get();
            c[0] += 1;
            calls.set(c);
            StepOutcome::Failed("boom".to_string())
        }),
        Box::new(|| {
            let mut c = calls.get();
            c[1] += 1;
            calls.set(c);
            StepOutcome::Succeeded
        }),
    ];
    let mut orch = run_all(strings(&["step1", "step2"]));
    while let Some(k) = orch.next_step() {
        let out = actions[k]();
        orch.record(out);
    }
    assert_eq!(calls.get(), [1, 1]);
    assert_eq!(orch.report.len(), 2);
    assert_eq!(orch.report[0].label, "step1");
    assert_eq!(orch.report[0].outcome, StepOutcome::Failed("boom".to_string()));
    assert_eq!(orch.report[1].label, "step2");
    assert_eq!(orch.report[1].outcome, StepOutcome::Succeeded);
    assert_eq!(report_lines(&orch.report), strings(&["step1 failed ✗", "step2 success ✓"]));
}

#[test]
fn orchestrator_records_every_step_in_order() {
    let labels = strings(&["a", "b", "c", "d"]);
    let mut orch = run_all(labels.clone());
    let outs = [false, false, true, false];
    let mut order = Vec::new();
    while let Some(k) = orch.next_step() {
        order.push(k);
        orch.record(if outs[k] { StepOutcome::Succeeded } else { StepOutcome::Failed(format!("e{}", k)) });
    }
    assert_eq!(order, vec![0, 1, 2, 3]);
    assert!(orch.is_complete());
    let got: Vec<String> = orch.report.iter().map(|e| e.label.clone()).collect();
    assert_eq!(got, labels);
    orch.record(StepOutcome::Succeeded);
    assert_eq!(orch.report.len(), 4);
}

#[test]
fn test_install() {
    let mut orch = run_all(strings(&[
        "$ Polkadot installation",
        "$ Chain spec builder installation",
        "$ Omni-node installation",
        "$ Wasm file download script",
        "$ Chain spec script",
    ]));
    let outcomes = vec![
        StepOutcome::Succeeded,
        StepOutcome::Failed("Mock failure for chain spec builder".to_string()),
        StepOutcome::Succeeded,
        StepOutcome::Failed("Mock failure for download script".to_string()),
        StepOutcome::Succeeded,
    ];
    for o in outcomes {
        orch.record(o);
    }
    assert_eq!(
        report_lines(&orch.report),
        strings(&[
            "$ Polkadot installation success ✓",
            "$ Chain spec builder installation failed ✗",
            "$ Omni-node installation success ✓",
            "$ Wasm file download script failed ✗",
            "$ Chain spec script success ✓",
        ])
    );
}

#[test]
fn test_install_polkadot() {
    let mut boot = install_polkadot();
    let mut world = World::new(&[]);
    let result = drive(&mut world, |o| boot.resume(o));
    assert!(result.is_ok(), "Function failed: {:?}", result.err());
    match &world.performed[0] {
        Effect::RunPiped(a, b) => {
            assert_eq!(a.program, "curl");
            assert_eq!(b.program, "bash");
        }
        other => panic!("unexpected {:?}", other),
    }
    let mut boot = install_polkadot();
    let mut world = World::new(&[]);
    world.fail("bash", Observation::ExitedWith(Some(2)));
    let r = drive(&mut world, |o| boot.resume(o));
    assert_eq!(r, Err(BootstrapError::ScriptFailed));
    assert_eq!(r.unwrap_err().message(), "Failed to run Polkadot-sdk");
}

#[test]
fn full_installation_continues_past_failures() {
    let layout = Layout::default();
    let mut inst = install(&layout, &OsInfo::Linux);
    let mut world = World::new(&[]);
    world.fail("bash", Observation::ExitedWith(Some(1)));
    drive(&mut world, |o| inst.resume(o));
    let lines = report_lines(&inst.orchestrator.report);
    assert_eq!(
        lines,
        strings(&[
            "$ Polkadot installation failed ✗",
            "$ Chain spec builder installation success ✓",
            "$ Omni-node installation success ✓",
            "$ Eth-rpc installation success ✓",
            "$ Wasm file download script success ✓",
            "$ Chain spec script success ✓",
        ])
    );
    assert!(world.has("./chain-specs/chain_spec.json"));
    assert!(world.has("./binaries/eth-rpc"));
}

#[test]
fn installation_generation_fails_when_runtime_download_fails() {
    let mut inst = install(&Layout::default(), &OsInfo::MacOs);
    let mut world = World::new(&[]);
    world.fail("wget", Observation::ExitedWith(Some(8)));
    drive(&mut world, |o| inst.resume(o));
    let report = &inst.orchestrator.report;
    assert_eq!(report.len(), 6);
    assert_eq!(report[4].outcome, StepOutcome::Failed("Download failed with exit code: 8".to_string()));
    assert_eq!(
        report[5].outcome,
        StepOutcome::Failed("WASM file not found: \"./nodes/asset_hub_westend_runtime.compact.compressed.wasm\"".to_string())
    );
    assert!(matches!(inst.resume(Observation::Completed), Progress::Finished(())));
}

#[test]
fn unexpected_observation_stops_a_workflow() {
    let mut inst = install(&Layout::default(), &OsInfo::Linux);
    assert!(matches!(inst.resume(Observation::Start), Progress::Perform(Effect::RunPiped(_, _))));
    assert!(matches!(inst.resume(Observation::Exists(true)), Progress::Perform(Effect::CheckExists(_))));
    assert_eq!(inst.orchestrator.report[0].outcome, StepOutcome::Failed("Unexpected observation".to_string()));
}
