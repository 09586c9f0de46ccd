//! Installing the browser through its official command-line installer:
//! whether an installation is possible, and which command runs it.

use vstd::prelude::*;
use crate::text::{names, owned};

verus! {

/// The operating system a decision is made for.
#[derive(Debug, Clone, Copy, PartialEq, Eq, Structural)]
pub enum TargetOs {
    Windows,
    MacOs,
    Other,
}

/// Outcome of checking whether the browser can be installed.
#[derive(Debug)]
pub enum InstallResult {
    /// Already installed at this path.
    Found(String),
    /// A runtime that can install it is present.
    Installing,
    RequiresNodeJs,
    RequiresPython,
    Error(String),
}

/// Which installer runtimes the system offers.
#[derive(Debug, Clone, Copy, PartialEq, Eq, Structural)]
pub struct Runtimes {
    pub npx: bool,
    pub node: bool,
    pub python: bool,
    pub python3: bool,
}

/// Names a browser binary may have in a directory, per system.
pub open spec fn chrome_names(os: TargetOs) -> Seq<Seq<char>> {
    match os {
        TargetOs::Windows => seq!["chrome.exe"@, "chromium.exe"@, "msedge.exe"@],
        TargetOs::MacOs => seq!["Chromium"@, "chrome"@, "Google Chrome"@],
        TargetOs::Other => seq!["chrome"@, "chromium"@, "google-chrome"@],
    }
}

/// The names to look for, in order of preference.
pub fn chrome_candidates(os: TargetOs) -> (r: Vec<String>)
    ensures
        names(r@) == chrome_names(os),
{
    let mut v: Vec<String> = Vec::new();
    match os {
        TargetOs::Windows => {
            v.push(owned("chrome.exe"));
            v.push(owned("chromium.exe"));
            v.push(owned("msedge.exe"));
        },
        TargetOs::MacOs => {
            v.push(owned("Chromium"));
            v.push(owned("chrome"));
            v.push(owned("Google Chrome"));
        },
        TargetOs::Other => {
            v.push(owned("chrome"));
            v.push(owned("chromium"));
            v.push(owned("google-chrome"));
        },
    }
    assert(names(v@) =~= chrome_names(os));
    v
}

/// Whether the browser can be installed: found where it was found;
/// otherwise installable with Node.js or Python; otherwise Node.js is
/// asked for.
pub fn check_install_readiness(found: Option<String>, rt: Runtimes) -> (r: InstallResult)
    ensures
        found matches Some(p) ==> r == InstallResult::Found(p),
        found is None && (rt.npx || rt.node || rt.python || rt.python3) ==> r is Installing,
        found is None && !(rt.npx || rt.node || rt.python || rt.python3) ==> r is RequiresNodeJs,
{
    if let Some(p) = found {
        return InstallResult::Found(p);
    }
    if rt.npx || rt.node {
        return InstallResult::Installing;
    }
    if rt.python || rt.python3 {
        return InstallResult::Installing;
    }
    InstallResult::RequiresNodeJs
}

/// The install command for the runtimes at hand: `npx` first, then
/// `python3`, then `python`, then `npx --yes` where only Node.js is there.
pub open spec fn install_command_for(rt: Runtimes) -> Option<(Seq<char>, Seq<Seq<char>>)> {
    if rt.npx {
        Some(("npx"@, seq!["cloakbrowser"@, "install"@]))
    } else if rt.python3 {
        Some(("python3"@, seq!["-m"@, "cloakbrowser"@, "install"@]))
    } else if rt.python {
        Some(("python"@, seq!["-m"@, "cloakbrowser"@, "install"@]))
    } else if rt.node {
        Some(("npx"@, seq!["--yes"@, "cloakbrowser"@, "install"@]))
    } else {
        None
    }
}

/// The command that installs the browser, or the refusal where neither
/// Node.js nor Python is present.
pub fn install_command(rt: Runtimes) -> (r: Result<(String, Vec<String>), String>)
    ensures
        install_command_for(rt) matches Some((c, a)) ==> (r matches Ok((rc, ra)) && rc@ == c && names(ra@) == a),
        install_command_for(rt) is None ==> (r matches Err(e) && e@ == "未检测到 Node.js 或 Python"@),
{
    let mut args: Vec<String> = Vec::new();
    if rt.npx {
        args.push(owned("cloakbrowser"));
        args.push(owned("install"));
        assert(names(args@) =~= seq!["cloakbrowser"@, "install"@]);
        Ok((owned("npx"), args))
    } else if rt.python3 || rt.python {
        args.push(owned("-m"));
        args.push(owned("cloakbrowser"));
        args.push(owned("install"));
        assert(names(args@) =~= seq!["-m"@, "cloakbrowser"@, "install"@]);
        let cmd = if rt.python3 { owned("python3") } else { owned("python") };
        Ok((cmd, args))
    } else if rt.node {
        args.push(owned("--yes"));
        args.push(owned("cloakbrowser"));
        args.push(owned("install"));
        assert(names(args@) =~= seq!["--yes"@, "cloakbrowser"@, "install"@]);
        Ok((owned("npx"), args))
    } else {
        Err(owned("未检测到 Node.js 或 Python"))
    }
}

/// An install command exists exactly when some installer runtime is
/// present (npx, Node.js, Python or Python 3: the runtimes that make
/// `check_install_readiness` answer `Installing`), and the runtimes are
/// preferred in this order: `npx cloakbrowser install` with npx; otherwise
/// `python3 -m cloakbrowser install` with Python 3; otherwise
/// `python -m cloakbrowser install` with Python; otherwise
/// `npx --yes cloakbrowser install` with Node.js alone.
pub proof fn law_install_command_choice(rt: Runtimes)
    ensures
        (rt.npx || rt.node || rt.python || rt.python3) <==> install_command_for(rt) is Some,
        rt.npx ==> install_command_for(rt) == Some(("npx"@, seq!["cloakbrowser"@, "install"@])),
        !rt.npx && rt.python3 ==> install_command_for(rt) == Some(("python3"@, seq!["-m"@, "cloakbrowser"@, "install"@])),
        !rt.npx && !rt.python3 && rt.python ==> install_command_for(rt) == Some(("python"@, seq!["-m"@, "cloakbrowser"@, "install"@])),
        !rt.npx && !rt.python3 && !rt.python && rt.node ==> install_command_for(rt) == Some(("npx"@, seq!["--yes"@, "cloakbrowser"@, "install"@])),
{
}

} // verus!
