//! Starting the browser: the command lines of a visible and of a headless
//! browser, and the address its debugging port answers on. Spawning and
//! stopping processes is done by the application.

use vstd::prelude::*;
use crate::text::{append_decimal, decimal, names, owned};

verus! {

/// `--remote-debugging-port=<port>`.
pub open spec fn port_arg(port: u16) -> Seq<char> {
    "--remote-debugging-port="@ + decimal(port as nat)
}

/// `--user-data-dir=<dir>`.
pub open spec fn data_dir_arg(data_dir: Seq<char>) -> Seq<char> {
    "--user-data-dir="@ + data_dir
}

/// The debugging-port argument.
pub fn build_port_arg(port: u16) -> (r: String)
    ensures
        r@ == port_arg(port),
{
    let mut s = owned("--remote-debugging-port=");
    append_decimal(&mut s, port as u64);
    s
}

/// The profile-directory argument.
pub fn build_data_dir_arg(data_dir: &str) -> (r: String)
    ensures
        r@ == data_dir_arg(data_dir@),
{
    let mut s = owned("--user-data-dir=");
    s.append(data_dir);
    s
}

/// Command line of a visible browser on `port` with profile `data_dir`.
pub fn launch_args(port: u16, data_dir: &str) -> (r: Vec<String>)
    ensures
        names(r@) == seq![
            port_arg(port),
            data_dir_arg(data_dir@),
            "--no-first-run"@,
            "--no-default-browser-check"@,
            "--disable-extensions"@,
            "--about:blank"@,
        ],
{
    let mut v: Vec<String> = Vec::new();
    v.push(build_port_arg(port));
    v.push(build_data_dir_arg(data_dir));
    v.push(owned("--no-first-run"));
    v.push(owned("--no-default-browser-check"));
    v.push(owned("--disable-extensions"));
    v.push(owned("--about:blank"));
    assert(names(v@) =~= seq![
        port_arg(port),
        data_dir_arg(data_dir@),
        "--no-first-run"@,
        "--no-default-browser-check"@,
        "--disable-extensions"@,
        "--about:blank"@,
    ]);
    v
}

/// Command line of a headless browser on `port` with profile `data_dir`.
pub fn headless_launch_args(port: u16, data_dir: &str) -> (r: Vec<String>)
    ensures
        names(r@) == seq![
            port_arg(port),
            data_dir_arg(data_dir@),
            "--headless=new"@,
            "--disable-gpu"@,
            "--no-first-run"@,
            "--about:blank"@,
        ],
{
    let mut v: Vec<String> = Vec::new();
    v.push(build_port_arg(port));
    v.push(build_data_dir_arg(data_dir));
    v.push(owned("--headless=new"));
    v.push(owned("--disable-gpu"));
    v.push(owned("--no-first-run"));
    v.push(owned("--about:blank"));
    assert(names(v@) =~= seq![
        port_arg(port),
        data_dir_arg(data_dir@),
        "--headless=new"@,
        "--disable-gpu"@,
        "--no-first-run"@,
        "--about:blank"@,
    ]);
    v
}

/// `http://127.0.0.1:<port><path>`.
pub open spec fn local_url(port: u16, path: Seq<char>) -> Seq<char> {
    "http://127.0.0.1:"@ + decimal(port as nat) + path
}

/// The local address `path` on the debugging `port`.
pub fn build_local_url(port: u16, path: &str) -> (r: String)
    ensures
        r@ == local_url(port, path@),
{
    let mut s = owned("http://127.0.0.1:");
    append_decimal(&mut s, port as u64);
    s.append(path);
    s
}

/// Where the browser's version record (with its debugger address) is served.
pub fn cdp_version_url(port: u16) -> (r: String)
    ensures
        r@ == local_url(port, "/json/version"@),
{
    build_local_url(port, "/json/version")
}

/// The error of a debugging port that did not answer in time.
pub fn cdp_not_ready(port: u16) -> (r: String)
    ensures
        r@ == "CDP port "@ + decimal(port as nat) + " not ready"@,
{
    let mut s = owned("CDP port ");
    append_decimal(&mut s, port as u64);
    s.append(" not ready");
    s
}

/// Names a browser binary may have inside an installation directory, in the
/// order they are tried.
pub open spec fn binary_names_spec() -> Seq<Seq<char>> {
    seq!["chrome.exe"@, "chromium.exe"@, "chrome"@, "chromium"@, "google-chrome"@, "Chromium"@]
}

/// The binary names to try in a directory, in order.
pub fn binary_names() -> (r: Vec<String>)
    ensures
        names(r@) == binary_names_spec(),
{
    let mut v: Vec<String> = Vec::new();
    v.push(owned("chrome.exe"));
    v.push(owned("chromium.exe"));
    v.push(owned("chrome"));
    v.push(owned("chromium"));
    v.push(owned("google-chrome"));
    v.push(owned("Chromium"));
    assert(names(v@) =~= binary_names_spec());
    v
}

/// Sub-directories of a versioned installation (`chromium-<version>/`) that
/// may hold the binary, in the order they are tried.
pub open spec fn version_layouts_spec() -> Seq<Seq<char>> {
    seq![""@, "chrome-win"@, "chrome-linux"@, "chrome-mac"@]
}

/// The sub-directories of a versioned installation to look into, in order.
pub fn version_layouts() -> (r: Vec<String>)
    ensures
        names(r@) == version_layouts_spec(),
{
    let mut v: Vec<String> = Vec::new();
    v.push(owned(""));
    v.push(owned("chrome-win"));
    v.push(owned("chrome-linux"));
    v.push(owned("chrome-mac"));
    assert(names(v@) =~= version_layouts_spec());
    v
}

} // verus!
