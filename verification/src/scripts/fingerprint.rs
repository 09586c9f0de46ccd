//! First generation of fingerprints: derived from the seed and the
//! platform alone, with Chrome 120 throughout.

use vstd::prelude::*;
use vstd::string::StringSliceAdditionalSpecFns;
use vstd::utf8::decode_utf8;
use crate::cloak::config::now_ms;
use crate::cloak::fingerprint::{
    abs_of, abs_value, build_ua as build_versioned_ua, cores_for, json_of_strings,
    json_string_array, memory_for, name_prefix_len, navigator_platform, seed_cuttable, seed_value, seed_value_of,
    is_uuid_v4_text, sha256, sha256_spec, ua_for, uuid_v4, vec_of,
};
use crate::text::{append_decimal, decimal, names, owned, str_eq};

verus! {

pub const SCRIPT_0: &'static str = r#"
(function() {
    // 删除自动化痕迹
    delete window.__webdriver__;
    delete window.chrome?.loadTimes;
    delete window.chrome?.csi;

    // 伪造 navigator 属性
    Object.defineProperty(navigator, 'webdriver', { get: () => undefined });
    Object.defineProperty(navigator, 'deviceMemory', { get: () => "#;

pub const SCRIPT_1: &'static str = r#" });
    Object.defineProperty(navigator, 'hardwareConcurrency', { get: () => "#;

pub const SCRIPT_2: &'static str = r#" });
    Object.defineProperty(navigator, 'platform', { get: () => '"#;

pub const SCRIPT_3: &'static str = r#"' });
    Object.defineProperty(navigator, 'languages', { get: () => "#;

pub const SCRIPT_4: &'static str = r#" });

    // Canvas 指纹噪声
    const origGetImageData = CanvasRenderingContext2D.prototype.getImageData;
    CanvasRenderingContext2D.prototype.getImageData = function(...args) {
        const imageData = origGetImageData.apply(this, args);
        const noise = "#;

pub const SCRIPT_5: &'static str = r#";
        for (let i = 0; i < imageData.data.length; i += 4) {
            imageData.data[i] = Math.min(255, imageData.data[i] + (Math.random() > 0.5 ? 1 : -1));
        }
        return imageData;
    };

    // WebGL 指纹噪声
    const origGetParameter = WebGLRenderingContext.prototype.getParameter;
    WebGLRenderingContext.prototype.getParameter = function(param) {
        const value = origGetParameter.call(this, param);
        if (param === 37445) return '"#;

pub const SCRIPT_6: &'static str = r#"';
        if (param === 37446) return '"#;

pub const SCRIPT_7: &'static str = r#"';
        return value;
    };
})();
"#;

/// A proxy to route a browser through.
#[derive(Debug)]
pub struct ProxyInfo {
    /// "http", "https" or "socks5".
    pub proxy_type: String,
    pub host: String,
    pub port: u16,
    pub username: Option<String>,
    pub password: Option<String>,
}

/// A fingerprint of the first generation. The screen scale is in
/// hundredths; `noise_seed` is the seed value the noise levels are derived
/// from.
#[derive(Debug)]
pub struct FingerprintConfig {
    pub id: String,
    pub name: String,
    pub seed: String,
    pub user_agent: String,
    pub platform: String,
    pub browser_version: String,
    pub timezone: String,
    pub locale: String,
    pub languages: Vec<String>,
    pub screen_width: u32,
    pub screen_height: u32,
    pub color_depth: u32,
    pub pixel_ratio_pct: u32,
    pub cpu_cores: u32,
    pub device_memory_gb: u32,
    pub gpu_vendor: String,
    pub gpu_renderer: String,
    pub noise_seed: i32,
    pub fonts: Vec<String>,
    pub proxy: Option<ProxyInfo>,
    pub created_at: i64,
    pub updated_at: i64,
}

/// Screen width picked for a platform.
pub open spec fn screen_width_for(platform: Seq<char>, v: i32) -> u32 {
    if platform == "mac"@ {
        let i = abs_of(v) % 4;
        if i == 0 { 1440 } else if i == 1 { 1680 } else if i == 2 { 1728 } else { 1920 }
    } else {
        let i = abs_of(v) % 5;
        if i == 0 { 1366 } else if i == 1 { 1440 } else if i == 2 { 1536 } else if i == 3 { 1600 } else { 1920 }
    }
}

/// Screen height that goes with a width.
pub open spec fn screen_height_for(w: u32) -> u32 {
    if w == 1920 || w == 1600 || w == 1440 {
        900
    } else if w == 1728 {
        1117
    } else if w == 1680 {
        1050
    } else if w == 1536 {
        864
    } else {
        768
    }
}

/// The fonts listed by fingerprints of this generation.
pub open spec fn fonts_v1() -> Seq<Seq<char>> {
    seq![
        "Arial"@, "Calibri"@, "Cambria"@, "Consolas"@, "Georgia"@, "Microsoft YaHei"@, "Segoe UI"@,
        "Tahoma"@, "Times New Roman"@, "Verdana"@,
    ]
}

/// `r` is the fingerprint generated for `seed` on `platform` from the seed
/// value `v` (timestamps aside).
pub open spec fn generated_from(r: FingerprintConfig, seed: &str, platform: Seq<char>, v: i32) -> bool {
    let w = screen_width_for(platform, v);
    &&& r.id@ == Seq::<char>::empty()
    &&& r.name@ == "指纹 #"@ + decode_utf8(seed.spec_bytes().subrange(0, name_prefix_len(seed)))
    &&& r.seed@ == seed@
    &&& r.user_agent@ == ua_for(platform, "120.0.0.0"@)
    &&& r.platform@ == navigator_platform(platform)
    &&& r.browser_version@ == "120.0.0.0"@
    &&& r.timezone@ == (if platform == "mac"@ { "America/New_York"@ } else { "Asia/Shanghai"@ })
    &&& r.locale@ == "zh-CN"@
    &&& names(r.languages@) == seq!["zh-CN"@, "zh"@, "en"@]
    &&& r.screen_width == w
    &&& r.screen_height == screen_height_for(w)
    &&& r.color_depth == 24
    &&& r.pixel_ratio_pct == (if w >= 1920 { 125u32 } else { 100u32 })
    &&& r.cpu_cores == cores_for(platform, v)
    &&& r.device_memory_gb == memory_for(v)
    &&& r.gpu_vendor@ == "Google Inc. (Intel)"@
    &&& r.gpu_renderer@ == "ANGLE (Intel, Intel(R) UHD Graphics 620 Direct3D11 vs_5_0 ps_5_0)"@
    &&& r.noise_seed == v
    &&& names(r.fonts@) == fonts_v1()
    &&& r.proxy is None
}

/// Two first-generation fingerprints agree in every field but their time
/// stamps.
pub open spec fn same_but_timestamps(a: FingerprintConfig, b: FingerprintConfig) -> bool {
    &&& a.id@ == b.id@ && a.name@ == b.name@ && a.seed@ == b.seed@
    &&& a.user_agent@ == b.user_agent@ && a.platform@ == b.platform@ && a.browser_version@ == b.browser_version@
    &&& a.timezone@ == b.timezone@ && a.locale@ == b.locale@ && names(a.languages@) == names(b.languages@)
    &&& a.screen_width == b.screen_width && a.screen_height == b.screen_height
    &&& a.color_depth == b.color_depth && a.pixel_ratio_pct == b.pixel_ratio_pct
    &&& a.cpu_cores == b.cpu_cores && a.device_memory_gb == b.device_memory_gb
    &&& a.gpu_vendor@ == b.gpu_vendor@ && a.gpu_renderer@ == b.gpu_renderer@
    &&& a.noise_seed == b.noise_seed && names(a.fonts@) == names(b.fonts@)
    &&& a.proxy == b.proxy
}

/// A first-generation fingerprint depends on its seed and platform alone:
/// two generated from the same ones, at any two times, agree in every field
/// but their time stamps.
pub proof fn law_generate_deterministic(a: FingerprintConfig, b: FingerprintConfig, seed: &str, platform: Seq<char>)
    requires
        generated_from(a, seed, platform, seed_value(sha256_spec(seed.spec_bytes()))),
        generated_from(b, seed, platform, seed_value(sha256_spec(seed.spec_bytes()))),
    ensures
        same_but_timestamps(a, b),
{
}

/// The Chrome 120 user agent of a platform.
pub fn build_ua(platform: &str) -> (r: String)
    ensures
        r@ == ua_for(platform@, "120.0.0.0"@),
{
    build_versioned_ua(platform, "120.0.0.0")
}

impl FingerprintConfig {
    /// The fingerprint for `seed` and `platform` built from the SHA-256
    /// digest of the seed, stamped `created_at` and `updated_at`.
    pub fn from_digest(seed: &str, platform: &str, digest: &[u8], created_at: i64, updated_at: i64) -> (r: Self)
        requires
            digest@.len() >= 4,
            seed_cuttable(seed),
        ensures
            generated_from(r, seed, platform@, seed_value(digest@)),
            r.created_at == created_at,
            r.updated_at == updated_at,
    {
        let v = seed_value_of(digest);
        let au = abs_value(v);
        let mac = str_eq(platform, "mac");
        let w: u32 = if mac {
            let i = au % 4;
            if i == 0 { 1440 } else if i == 1 { 1680 } else if i == 2 { 1728 } else { 1920 }
        } else {
            let i = au % 5;
            if i == 0 { 1366 } else if i == 1 { 1440 } else if i == 2 { 1536 } else if i == 3 { 1600 } else { 1920 }
        };
        let h: u32 = if w == 1920 || w == 1600 || w == 1440 {
            900
        } else if w == 1728 {
            1117
        } else if w == 1680 {
            1050
        } else if w == 1536 {
            864
        } else {
            768
        };
        let k: usize = if seed.len() < 8 { seed.len() } else { 8 };
        assert(k as int == name_prefix_len(seed));
        let (head, _tail) = seed.split_at(k);
        let mut name = owned("指纹 #");
        name.append(head);
        proof {
            vstd::utf8::encode_utf8_decode_utf8(head@);
        }
        let nav = if mac { "MacIntel" } else if str_eq(platform, "linux") { "Linux x86_64" } else { "Win32" };
        let i3 = au % 3;
        let cores: u32 = if mac {
            if i3 == 0 { 8 } else if i3 == 1 { 10 } else { 12 }
        } else {
            if i3 == 0 { 4 } else if i3 == 1 { 8 } else { 16 }
        };
        let mem: u32 = if i3 == 0 { 8 } else if i3 == 1 { 16 } else { 32 };
        let languages = vec_of(&["zh-CN", "zh", "en"]);
        let fonts = vec_of(
            &["Arial", "Calibri", "Cambria", "Consolas", "Georgia", "Microsoft YaHei", "Segoe UI", "Tahoma", "Times New Roman", "Verdana"],
        );
        proof {
            assert(names(languages@) =~= seq!["zh-CN"@, "zh"@, "en"@]);
            assert(names(fonts@) =~= fonts_v1());
        }
        let r = FingerprintConfig {
            id: String::new(),
            name,
            seed: owned(seed),
            user_agent: build_ua(platform),
            platform: owned(nav),
            browser_version: owned("120.0.0.0"),
            timezone: if mac { owned("America/New_York") } else { owned("Asia/Shanghai") },
            locale: owned("zh-CN"),
            languages,
            screen_width: w,
            screen_height: h,
            color_depth: 24,
            pixel_ratio_pct: if w >= 1920 { 125 } else { 100 },
            cpu_cores: cores,
            device_memory_gb: mem,
            gpu_vendor: owned("Google Inc. (Intel)"),
            gpu_renderer: owned("ANGLE (Intel, Intel(R) UHD Graphics 620 Direct3D11 vs_5_0 ps_5_0)"),
            noise_seed: v,
            fonts,
            proxy: None,
            created_at,
            updated_at,
        };
        proof {
            assert(r.screen_width == screen_width_for(platform@, v));
            assert(r.cpu_cores == cores_for(platform@, v));
            assert(r.device_memory_gb == memory_for(v));
            assert(r.platform@ == navigator_platform(platform@));
        }
        r
    }

    /// The fingerprint for `seed` and `platform`, stamped with the current
    /// time.
    pub fn generate(seed: &str, platform: &str) -> (r: Self)
        requires
            seed_cuttable(seed),
        ensures
            generated_from(r, seed, platform@, seed_value(sha256_spec(seed.spec_bytes()))),
    {
        let digest = sha256(seed.as_bytes());
        let created = now_ms();
        let updated = now_ms();
        Self::from_digest(seed, platform, digest.as_slice(), created, updated)
    }
}

/// The page script of this generation, given the text of the canvas noise
/// figure and the JSON text of the languages.
pub open spec fn injection_script(c: FingerprintConfig, languages_json: Seq<char>, noise_text: Seq<char>) -> Seq<char> {
    SCRIPT_0@ + decimal(c.device_memory_gb as nat) + SCRIPT_1@ + decimal(c.cpu_cores as nat) + SCRIPT_2@ + c.platform@
        + SCRIPT_3@ + languages_json + SCRIPT_4@ + noise_text + SCRIPT_5@ + c.gpu_vendor@ + SCRIPT_6@ + c.gpu_renderer@
        + SCRIPT_7@
}

impl FingerprintConfig {
    /// The script to inject into every page, with `noise_text` the written
    /// form of the canvas noise figure (the noise level in percent).
    pub fn build_injection_script(&self, noise_text: &str) -> (r: String)
        ensures
            r@ == injection_script(*self, json_string_array(names(self.languages@)), noise_text@),
    {
        let mut s = owned(SCRIPT_0);
        append_decimal(&mut s, self.device_memory_gb as u64);
        s.append(SCRIPT_1);
        append_decimal(&mut s, self.cpu_cores as u64);
        s.append(SCRIPT_2);
        s.append(self.platform.as_str());
        s.append(SCRIPT_3);
        let langs = json_of_strings(&self.languages);
        s.append(langs.as_str());
        s.append(SCRIPT_4);
        s.append(noise_text);
        s.append(SCRIPT_5);
        s.append(self.gpu_vendor.as_str());
        s.append(SCRIPT_6);
        s.append(self.gpu_renderer.as_str());
        s.append(SCRIPT_7);
        s
    }
}

/// A named fingerprint preset of this generation.
#[derive(Debug)]
pub struct FingerprintTemplate {
    pub id: String,
    pub name: String,
    pub platform: String,
    pub browser: String,
    pub is_system: bool,
    pub config: FingerprintConfig,
}

/// `t` is the built-in template named `name` for `platform`, with its
/// fingerprint generated from `seed`.
pub open spec fn preset_of(t: FingerprintTemplate, seed: &str, name: Seq<char>, platform: Seq<char>) -> bool {
    &&& is_uuid_v4_text(t.id@)
    &&& t.name@ == name
    &&& t.platform@ == platform
    &&& t.browser@ == "Chrome 120"@
    &&& t.is_system
    &&& generated_from(t.config, seed, platform, seed_value(sha256_spec(seed.spec_bytes())))
}

impl FingerprintTemplate {
    fn preset(seed: &str, name: &str, platform: &str) -> (r: Self)
        requires
            seed_cuttable(seed),
        ensures
            preset_of(r, seed, name@, platform@),
    {
        FingerprintTemplate {
            id: uuid_v4(),
            name: owned(name),
            platform: owned(platform),
            browser: owned("Chrome 120"),
            is_system: true,
            config: FingerprintConfig::generate(seed, platform),
        }
    }

    /// Windows with Chrome 120.
    pub fn windows_chrome_120(seed: &str) -> (r: Self)
        requires
            seed_cuttable(seed),
        ensures
            preset_of(r, seed, "Windows Chrome 120"@, "windows"@),
    {
        Self::preset(seed, "Windows Chrome 120", "windows")
    }

    /// macOS with Chrome 120.
    pub fn mac_chrome_120(seed: &str) -> (r: Self)
        requires
            seed_cuttable(seed),
        ensures
            preset_of(r, seed, "macOS Chrome 120"@, "mac"@),
    {
        Self::preset(seed, "macOS Chrome 120", "mac")
    }
}

} // verus!
