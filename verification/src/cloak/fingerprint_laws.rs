//! Laws of fingerprint generation and of the injected page scripts, stated
//! with the fixed lists and texts they choose from.

use vstd::prelude::*;
use crate::cloak::fingerprint::{generated_from, proxy_url, ProxyConfig, injection_script, FingerprintConfig, SCRIPT_0, SCRIPT_1, SCRIPT_2,
    SCRIPT_3, SCRIPT_4, SCRIPT_5, SCRIPT_6};
use crate::scripts::fingerprint as first;
use crate::text::decimal;

verus! {

/// The magnitude of a seed value, `i32::MIN` included.
pub open spec fn magnitude(v: i32) -> int {
    if v < 0 { -(v as int) } else { v as int }
}

/// The screens a Windows or Linux fingerprint is drawn from.
pub open spec fn desktop_screens() -> Seq<(u32, u32)> {
    seq![(1366u32, 768u32), (1440u32, 900u32), (1536u32, 864u32), (1600u32, 900u32), (1920u32, 1080u32)]
}

/// The screens a Mac fingerprint is drawn from.
pub open spec fn mac_screens() -> Seq<(u32, u32)> {
    seq![(1440u32, 900u32), (1680u32, 1050u32), (1728u32, 1117u32), (2560u32, 1600u32)]
}

/// The twelve time zones a fingerprint is drawn from.
pub open spec fn time_zones() -> Seq<Seq<char>> {
    seq![
        "Asia/Shanghai"@, "Asia/Tokyo"@, "Asia/Seoul"@, "America/New_York"@, "America/Chicago"@,
        "America/Los_Angeles"@, "Europe/London"@, "Europe/Paris"@, "Europe/Berlin"@, "Australia/Sydney"@,
        "Asia/Singapore"@, "Asia/Hong_Kong"@,
    ]
}

/// A fingerprint draws each of its seed-dependent values from a fixed list
/// by the magnitude `a` of the seed value: the screen is entry `a mod 5` of
/// the desktop screens (entry `a mod 4` of the Mac screens on "mac"), so that
/// every listed screen is drawn for some seed value; the scale is 1.25 on
/// screens at least 1920 wide and 1 otherwise; the CPU count is entry
/// `a mod 3` of 4, 8, 16 (8, 10, 12 on "mac"); the memory entry `a mod 3` of
/// 8, 16, 32 GB; the time zone entry `a mod 12` of the twelve zones.
pub proof fn law_fingerprint_draws_from_lists(
    r: FingerprintConfig,
    seed: &str,
    platform: Seq<char>,
    browser: Seq<char>,
    v: i32,
)
    requires
        generated_from(r, seed, platform, browser, v),
    ensures
        platform != "mac"@ ==> (r.screen_width, r.screen_height) == desktop_screens()[magnitude(v) % 5],
        platform == "mac"@ ==> (r.screen_width, r.screen_height) == mac_screens()[magnitude(v) % 4],
        r.pixel_ratio_pct == (if r.screen_width >= 1920 { 125u32 } else { 100u32 }),
        platform != "mac"@ ==> r.hardware_concurrency == seq![4u32, 8u32, 16u32][magnitude(v) % 3],
        platform == "mac"@ ==> r.hardware_concurrency == seq![8u32, 10u32, 12u32][magnitude(v) % 3],
        r.device_memory_gb == seq![8u32, 16u32, 32u32][magnitude(v) % 3],
        r.timezone@ == time_zones()[magnitude(v) % 12],
{
    let a = magnitude(v);
    assert(0 <= a % 5 < 5 && 0 <= a % 4 < 4 && 0 <= a % 3 < 3 && 0 <= a % 12 < 12);
}

/// A fingerprint's browser identity: version 124.0.6367.0 for "Chrome 124",
/// 122.0.6261.0 for "Chrome 122" and 120.0.6099.0 for any other browser;
/// `navigator.platform` "MacIntel" on "mac", "Linux x86_64" on "linux" and
/// "Win32" otherwise; a Chrome user agent of that platform ending in
/// `Chrome/<version> Safari/537.36`; Chinese locale and languages; the
/// seed itself, with no proxy.
pub proof fn law_fingerprint_identity(r: FingerprintConfig, seed: &str, platform: Seq<char>, browser: Seq<char>, v: i32)
    requires
        generated_from(r, seed, platform, browser, v),
    ensures
        r.browser_version@ == (if browser == "Chrome 124"@ {
            "124.0.6367.0"@
        } else if browser == "Chrome 122"@ {
            "122.0.6261.0"@
        } else {
            "120.0.6099.0"@
        }),
        r.platform@ == (if platform == "mac"@ {
            "MacIntel"@
        } else if platform == "linux"@ {
            "Linux x86_64"@
        } else {
            "Win32"@
        }),
        platform == "mac"@ ==> r.user_agent@
            == "Mozilla/5.0 (Macintosh; Intel Mac OS X 10_15_7) AppleWebKit/537.36 (KHTML, like Gecko) Chrome/"@
            + r.browser_version@ + " Safari/537.36"@,
        platform == "linux"@ ==> r.user_agent@
            == "Mozilla/5.0 (X11; Linux x86_64) AppleWebKit/537.36 (KHTML, like Gecko) Chrome/"@ + r.browser_version@
            + " Safari/537.36"@,
        platform != "mac"@ && platform != "linux"@ ==> r.user_agent@
            == "Mozilla/5.0 (Windows NT 10.0; Win64; x64) AppleWebKit/537.36 (KHTML, like Gecko) Chrome/"@
            + r.browser_version@ + " Safari/537.36"@,
        r.locale@ == "zh-CN"@,
        r.accept_language@ == "zh-CN,zh;q=0.9,en;q=0.8"@,
        r.seed@ == seed@,
        r.noise_seed == v,
        r.proxy is None,
        r.color_depth == 24,
{
    reveal_strlit("mac");
    reveal_strlit("linux");
    assert("mac"@.len() != "linux"@.len());
}

/// Every desktop screen is drawn for some seed value: the one whose
/// magnitude is its position in the list.
pub proof fn law_every_desktop_screen_drawn(k: int)
    requires
        0 <= k < 5,
    ensures
        desktop_screens()[magnitude(k as i32) % 5] == desktop_screens()[k],
{
}

/// The page script answers with the fingerprint's values: the device memory
/// stands between the first two pieces of the script, the CPU count between
/// the next two, then the platform and the languages; the WebGL vendor
/// (parameter 37445) stands right before the piece that asks for parameter
/// 37446, and the WebGL renderer right after it.
pub proof fn law_injection_script_answers(c: FingerprintConfig, languages_json: Seq<char>)
    ensures
        SCRIPT_5@ == "';\n        if (p === 37446) return '"@,
        exists|pre: Seq<char>, post: Seq<char>|
            injection_script(c, languages_json) == pre + SCRIPT_0@ + decimal(c.device_memory_gb as nat) + SCRIPT_1@ + post,
        exists|pre: Seq<char>, post: Seq<char>|
            injection_script(c, languages_json) == pre + SCRIPT_1@ + decimal(c.hardware_concurrency as nat) + SCRIPT_2@ + post,
        exists|pre: Seq<char>, post: Seq<char>|
            injection_script(c, languages_json) == pre + SCRIPT_2@ + c.platform@ + SCRIPT_3@ + post,
        exists|pre: Seq<char>, post: Seq<char>|
            injection_script(c, languages_json) == pre + SCRIPT_3@ + languages_json + SCRIPT_4@ + post,
        exists|pre: Seq<char>, post: Seq<char>|
            injection_script(c, languages_json) == pre + SCRIPT_4@ + c.gpu_vendor@ + SCRIPT_5@ + post,
        exists|pre: Seq<char>, post: Seq<char>|
            injection_script(c, languages_json) == pre + SCRIPT_5@ + c.gpu_renderer@ + SCRIPT_6@ + post,
{
    let s = injection_script(c, languages_json);
    let m = decimal(c.device_memory_gb as nat);
    let h = decimal(c.hardware_concurrency as nat);
    let e = Seq::<char>::empty();
    let t0 = h + SCRIPT_2@ + c.platform@ + SCRIPT_3@ + languages_json + SCRIPT_4@ + c.gpu_vendor@ + SCRIPT_5@
        + c.gpu_renderer@ + SCRIPT_6@;
    assert(s == e + SCRIPT_0@ + m + SCRIPT_1@ + t0);
    let p1 = SCRIPT_0@ + m;
    let t1 = c.platform@ + SCRIPT_3@ + languages_json + SCRIPT_4@ + c.gpu_vendor@ + SCRIPT_5@ + c.gpu_renderer@
        + SCRIPT_6@;
    assert(s == p1 + SCRIPT_1@ + h + SCRIPT_2@ + t1);
    let p2 = p1 + SCRIPT_1@ + h;
    let t2 = languages_json + SCRIPT_4@ + c.gpu_vendor@ + SCRIPT_5@ + c.gpu_renderer@ + SCRIPT_6@;
    assert(s == p2 + SCRIPT_2@ + c.platform@ + SCRIPT_3@ + t2);
    let p3 = p2 + SCRIPT_2@ + c.platform@;
    let t3 = c.gpu_vendor@ + SCRIPT_5@ + c.gpu_renderer@ + SCRIPT_6@;
    assert(s == p3 + SCRIPT_3@ + languages_json + SCRIPT_4@ + t3);
    let p4 = p3 + SCRIPT_3@ + languages_json;
    let t4 = c.gpu_renderer@ + SCRIPT_6@;
    assert(s == p4 + SCRIPT_4@ + c.gpu_vendor@ + SCRIPT_5@ + t4);
    let p5 = p4 + SCRIPT_4@ + c.gpu_vendor@;
    assert(s == p5 + SCRIPT_5@ + c.gpu_renderer@ + SCRIPT_6@ + e);
}

/// The screens a first-generation Windows or Linux fingerprint is drawn
/// from.
pub open spec fn first_desktop_screens() -> Seq<(u32, u32)> {
    seq![(1366u32, 768u32), (1440u32, 900u32), (1536u32, 864u32), (1600u32, 900u32), (1920u32, 900u32)]
}

/// The screens a first-generation Mac fingerprint is drawn from.
pub open spec fn first_mac_screens() -> Seq<(u32, u32)> {
    seq![(1440u32, 900u32), (1680u32, 1050u32), (1728u32, 1117u32), (1920u32, 900u32)]
}

/// A first-generation fingerprint draws its screen from a fixed list by the
/// magnitude `a` of the seed value (entry `a mod 5`, or `a mod 4` on "mac"),
/// with scale 1.25 on screens at least 1920 wide and 1 otherwise; its CPU
/// count and memory as the current generation does.
pub proof fn law_first_fingerprint_draws_from_lists(r: first::FingerprintConfig, seed: &str, platform: Seq<char>, v: i32)
    requires
        first::generated_from(r, seed, platform, v),
    ensures
        platform != "mac"@ ==> (r.screen_width, r.screen_height) == first_desktop_screens()[magnitude(v) % 5],
        platform == "mac"@ ==> (r.screen_width, r.screen_height) == first_mac_screens()[magnitude(v) % 4],
        r.pixel_ratio_pct == (if r.screen_width >= 1920 { 125u32 } else { 100u32 }),
        platform != "mac"@ ==> r.cpu_cores == seq![4u32, 8u32, 16u32][magnitude(v) % 3],
        platform == "mac"@ ==> r.cpu_cores == seq![8u32, 10u32, 12u32][magnitude(v) % 3],
        r.device_memory_gb == seq![8u32, 16u32, 32u32][magnitude(v) % 3],
        r.timezone@ == (if platform == "mac"@ { "America/New_York"@ } else { "Asia/Shanghai"@ }),
        r.noise_seed == v,
{
    let a = magnitude(v);
    assert(0 <= a % 5 < 5 && 0 <= a % 4 < 4 && 0 <= a % 3 < 3);
}

/// The first-generation page script answers WebGL parameter 37445 with the
/// fingerprint's vendor and 37446 with its renderer: the vendor stands
/// between the pieces that ask for the two parameters, the renderer right
/// after the one that asks for 37446; the canvas noise figure stands before
/// the vendor's piece.
pub proof fn law_first_injection_script_answers(c: first::FingerprintConfig, languages_json: Seq<char>, noise_text: Seq<char>)
    ensures
        first::SCRIPT_6@ == "';\n        if (param === 37446) return '"@,
        exists|pre: Seq<char>, post: Seq<char>|
            first::injection_script(c, languages_json, noise_text) == pre + first::SCRIPT_5@ + c.gpu_vendor@ + first::SCRIPT_6@ + post,
        exists|pre: Seq<char>, post: Seq<char>|
            first::injection_script(c, languages_json, noise_text) == pre + first::SCRIPT_6@ + c.gpu_renderer@ + first::SCRIPT_7@ + post,
        exists|pre: Seq<char>, post: Seq<char>|
            first::injection_script(c, languages_json, noise_text) == pre + first::SCRIPT_4@ + noise_text + first::SCRIPT_5@ + post,
{
    let s = first::injection_script(c, languages_json, noise_text);
    let e = Seq::<char>::empty();
    let p = first::SCRIPT_0@ + decimal(c.device_memory_gb as nat) + first::SCRIPT_1@ + decimal(c.cpu_cores as nat)
        + first::SCRIPT_2@ + c.platform@ + first::SCRIPT_3@ + languages_json;
    assert(s == p + first::SCRIPT_4@ + noise_text + first::SCRIPT_5@ + (c.gpu_vendor@ + first::SCRIPT_6@
        + c.gpu_renderer@ + first::SCRIPT_7@));
    assert(s == (p + first::SCRIPT_4@ + noise_text) + first::SCRIPT_5@ + c.gpu_vendor@ + first::SCRIPT_6@ + (
    c.gpu_renderer@ + first::SCRIPT_7@));
    assert(s == (p + first::SCRIPT_4@ + noise_text + first::SCRIPT_5@ + c.gpu_vendor@) + first::SCRIPT_6@
        + c.gpu_renderer@ + first::SCRIPT_7@ + e);
}

/// A proxy is written as a URL of its scheme, host and port; user name and
/// password are written into it (`user:password@`) only when both are
/// given, and never otherwise.
pub proof fn law_proxy_url(c: ProxyConfig)
    ensures
        (c.username matches Some(u) && c.password matches Some(p)) ==> proxy_url(c) == c.proxy_type@ + "://"@
            + c.username.unwrap()@ + ":"@ + c.password.unwrap()@ + "@"@ + c.host@ + ":"@ + decimal(c.port as nat),
        (c.username is None || c.password is None) ==> proxy_url(c) == c.proxy_type@ + "://"@ + c.host@ + ":"@
            + decimal(c.port as nat),
{
}

} // verus!
