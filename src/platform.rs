//! Classification of the operating system the installer runs on.

use vstd::prelude::*;

use crate::paths::{contains_spec, contains_text, same_text};

verus! {

/// The operating system, as far as the installer tells them apart.
#[derive(Debug, Clone, PartialEq, Eq)]
pub enum OsInfo {
    MacOs,
    Linux,
    Windows,
    /// Windows with the Linux subsystem.
    WindowsWsl2,
    /// Any other system; its name.
    Unknown(String),
}

/// The label of an operating system.
pub open spec fn os_label(info: OsInfo) -> Seq<char> {
    match info {
        OsInfo::MacOs => "macos"@,
        OsInfo::Linux => "linux"@,
        OsInfo::Windows => "windows"@,
        OsInfo::WindowsWsl2 => "windows-wsl2"@,
        OsInfo::Unknown(name) => "Unknown operating system: "@ + name@,
    }
}

/// Classifies the system named `os` (as the platform reports its own name);
/// `wsl` tells whether the Linux subsystem for Windows was detected.
pub fn check_operating_system(os: &str, wsl: bool) -> (r: OsInfo)
    ensures
        os@ == "macos"@ ==> r == OsInfo::MacOs,
        os@ == "linux"@ ==> r == OsInfo::Linux,
        os@ == "windows"@ ==> r == (if wsl { OsInfo::WindowsWsl2 } else { OsInfo::Windows }),
        os@ != "macos"@ && os@ != "linux"@ && os@ != "windows"@ ==> (r matches OsInfo::Unknown(n) && n@ == os@),
{
    proof {
        reveal_strlit("macos");
        reveal_strlit("linux");
        reveal_strlit("windows");
        assert("macos"@[0] != "linux"@[0]);
        assert("macos"@.len() != "windows"@.len());
        assert("linux"@.len() != "windows"@.len());
    }
    if same_text(os, "macos") {
        OsInfo::MacOs
    } else if same_text(os, "linux") {
        OsInfo::Linux
    } else if same_text(os, "windows") {
        if wsl {
            OsInfo::WindowsWsl2
        } else {
            OsInfo::Windows
        }
    } else {
        OsInfo::Unknown(String::from_str(os))
    }
}

/// The label of the operating system: `macos`, `linux`, `windows`,
/// `windows-wsl2`, or `Unknown operating system: <name>`.
pub fn get_os_info(info: &OsInfo) -> (r: String)
    ensures
        r@ == os_label(*info),
{
    match info {
        OsInfo::MacOs => String::from_str("macos"),
        OsInfo::Linux => String::from_str("linux"),
        OsInfo::Windows => String::from_str("windows"),
        OsInfo::WindowsWsl2 => String::from_str("windows-wsl2"),
        OsInfo::Unknown(name) => {
            let mut r = String::from_str("Unknown operating system: ");
            r.append(name.as_str());
            r
        },
    }
}

/// Whether the kernel version text (absent where it could not be read) shows
/// the Linux subsystem for Windows, that is, names `Microsoft`.
pub fn is_wsl(proc_version: Option<&str>) -> (r: bool)
    ensures
        r == (proc_version matches Some(v) && contains_spec(v@, "Microsoft"@)),
{
    match proc_version {
        Some(v) => contains_text(v, "Microsoft"),
        None => false,
    }
}

} // verus!
