use dot_installer::effect::Observation;
use dot_installer::install::chain_spec_option_supported;
use dot_installer::paths::{contains_text, decimal_text, join, parent, same_text, Layout};
use dot_installer::platform::{check_operating_system, get_os_info, is_wsl, OsInfo};
use dot_installer::serve::{launch_result, run, run_eth, serve, serve_args, LaunchError, Role};

fn strings(v: &[&str]) -> Vec<String> {
    v.iter().map(|s| s.to_string()).collect()
}

// ---- operating system ----

#[test]
fn install_test_check_operating_system_linux() {
    let os_info = get_os_info(&check_operating_system("linux", false));
    assert_eq!(os_info, "linux");
}

#[test]
fn install_test_check_operating_system_windows_wsl() {
    assert_eq!(get_os_info(&check_operating_system("windows", true)), "windows-wsl2");
    assert_eq!(get_os_info(&check_operating_system("windows", false)), "windows");
}

#[test]
fn install_test_check_operating_system_macos() {
    assert_eq!(get_os_info(&check_operating_system("macos", false)), "macos");
}

#[test]
fn test_test_check_operating_system_linux() {
    assert_eq!(check_operating_system("linux", true), OsInfo::Linux);
}

#[test]
fn test_test_check_operating_system_windows_wsl() {
    assert_eq!(check_operating_system("windows", true), OsInfo::WindowsWsl2);
    assert_eq!(check_operating_system("windows", false), OsInfo::Windows);
}

#[test]
fn test_test_check_operating_system_macos() {
    assert_eq!(check_operating_system("macos", true), OsInfo::MacOs);
}

#[test]
fn test_check_operating_system() {
    assert_eq!(get_os_info(&check_operating_system("macos", false)), "macos");
    assert_eq!(get_os_info(&check_operating_system("linux", false)), "linux");
    assert_eq!(get_os_info(&check_operating_system("windows", false)), "windows");
    assert_eq!(get_os_info(&check_operating_system("windows", true)), "windows-wsl2");
    assert_eq!(get_os_info(&check_operating_system("freebsd", false)), format!("Unknown operating system: {}", "freebsd"));
}

#[test]
fn test_get_os_info() {
    for os in ["macos", "linux", "windows", "plan9"] {
        let info = check_operating_system(os, false);
        match os {
            "macos" => assert_eq!(get_os_info(&info), "macos"),
            "linux" => assert_eq!(get_os_info(&info), "linux"),
            "windows" => assert_eq!(get_os_info(&info), "windows"),
            _ => assert_eq!(get_os_info(&info), format!("Unknown operating system: {}", os)),
        }
    }
}

#[test]
fn test_is_wsl() {
    assert!(is_wsl(Some("Linux version 4.4.0-19041-Microsoft (Microsoft@Microsoft.com)")));
    assert!(!is_wsl(Some("Linux version 6.1.0 (gcc version 12.2.0)")));
    assert!(!is_wsl(None), "`is_wsl` should return false when `/proc/version` does not exist.");
    assert!(!is_wsl(Some("microsoft")));
}

// ---- text and paths ----

#[test]
fn text_helpers() {
    assert!(same_text("abc", "abc"));
    assert!(!same_text("abc", "abd"));
    assert!(!same_text("abc", "ab"));
    assert!(contains_text("hello world", "o w"));
    assert!(contains_text("hello", ""));
    assert!(!contains_text("hi", "hello"));
    assert_eq!(join("./binaries", "chain-spec-builder"), "./binaries/chain-spec-builder");
    assert_eq!(parent("/tmp/x/bin"), Some("/tmp/x".to_string()));
    assert_eq!(parent("./nodes/a.wasm"), Some("./nodes".to_string()));
    assert_eq!(parent("bin"), None);
    assert_eq!(parent("/bin"), None);
    assert_eq!(decimal_text(0), "0");
    assert_eq!(decimal_text(1000), "1000");
    assert_eq!(decimal_text(-42), "-42");
    assert_eq!(decimal_text(i32::MIN), "-2147483648");
    assert_eq!(decimal_text(i32::MAX), "2147483647");
}

#[test]
fn default_layout() {
    let l = Layout::default();
    assert_eq!(l.binaries_dir, "./binaries");
    assert_eq!(l.nodes_dir, "./nodes");
    assert_eq!(l.chain_specs_dir, "./chain-specs");
}

#[test]
fn chain_spec_options() {
    assert!(chain_spec_option_supported("westend"));
    assert!(chain_spec_option_supported("paseo"));
    assert!(chain_spec_option_supported("rococo"));
    assert!(!chain_spec_option_supported("kusama"));
}

// ---- serving ----

#[test]
fn test_run_success() {
    let args = strings(&["--chain", "./mock-specs/mock_chain.json"]);
    let p = run(&Layout::default(), &args);
    assert_eq!(p.program, "./binaries/polkadot-omni-node");
    assert_eq!(p.args, args);
    assert_eq!(launch_result(Role::Node, Observation::Completed), Ok(()));
}

#[test]
fn test_run_failure() {
    let r = launch_result(Role::Node, Observation::ExitedWith(Some(1)));
    assert_eq!(r, Err(LaunchError::Exited(Role::Node, Some(1))));
    assert_eq!(r.unwrap_err().message(), "Omni-node failed to start with exit status: 1");
}

#[test]
fn test_run_fail_to_run() {
    let r = launch_result(Role::Node, Observation::Failed("No such file or directory (os error 2)".to_string()));
    assert_eq!(r.unwrap_err().message(), "Failed to run Omni-node: No such file or directory (os error 2)");
}

#[test]
fn test_run_eth_success() {
    let p = run_eth(&Layout::default(), &strings(&["--chain", "./mock-specs/mock_chain.json"]));
    assert_eq!(p.program, "./binaries/eth-rpc");
    assert_eq!(p.env.len(), 1);
    assert_eq!(p.env[0].name, "RUST_LOG");
    assert_eq!(p.env[0].value, "debug");
    let result = launch_result(Role::Sidecar, Observation::Completed);
    assert!(result.is_ok());
}

#[test]
fn test_run_eth_failure() {
    let result = launch_result(Role::Sidecar, Observation::ExitedWith(Some(1)));
    assert!(result.is_err());
    assert_eq!(result.unwrap_err().message(), "Eth-rpc failed to start with exit status: 1");
}

#[test]
fn test_run_eth_runner_failure() {
    let result = launch_result(Role::Sidecar, Observation::Failed("Simulated failure".to_string()));
    assert!(result.is_err());
    assert_eq!(result.unwrap_err().message(), "Failed to run Eth-rpc: Simulated failure");
}

#[test]
fn serve_defaults_to_canonical_chain_spec() {
    let l = Layout::default();
    assert_eq!(serve_args(&l, &Vec::new()), strings(&["--chain", "./chain-specs/chain_spec.json"]));
    assert_eq!(serve_args(&l, &strings(&["--dev"])), strings(&["--dev"]));
    let s = serve(&l, &Vec::new());
    assert_eq!(s.node.args, strings(&["--chain", "./chain-specs/chain_spec.json"]));
    assert!(s.sidecar.args.is_empty());
}

#[test]
fn supervisor_waits_for_both_processes() {
    let mut s = serve(&Layout::default(), &Vec::new());
    assert!(!s.is_done());
    s.report(Role::Sidecar, Observation::Failed("exec format error".to_string()));
    assert!(!s.is_done());
    assert_eq!(s.node_result, None);
    assert_eq!(
        s.sidecar_result.clone().unwrap().unwrap_err().message(),
        "Failed to run Eth-rpc: exec format error"
    );
    s.report(Role::Node, Observation::Completed);
    assert!(s.is_done());
    assert_eq!(s.node_result, Some(Ok(())));
    s.report(Role::Node, Observation::ExitedWith(Some(3)));
    assert_eq!(s.node_result, Some(Ok(())));
}
