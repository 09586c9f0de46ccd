use metachat::cloak::fingerprint::{build_ua, pick_timezone, FingerprintConfig, FingerprintTemplate, ProxyConfig};
use metachat::cloak::injector::{build_beads_update, build_injection_js, NOTIFICATION_JS};
use metachat::scripts::fingerprint as v1;

#[test]
fn proxy_cli_arg_with_credentials() {
    let p = ProxyConfig {
        proxy_type: "socks5".to_string(),
        host: "10.0.0.1".to_string(),
        port: 1080,
        username: Some("u".to_string()),
        password: Some("p".to_string()),
    };
    assert_eq!(p.to_cli_arg(), "socks5://u:p@10.0.0.1:1080");
}

#[test]
fn proxy_cli_arg_without_password() {
    let p = ProxyConfig {
        proxy_type: "http".to_string(),
        host: "proxy.local".to_string(),
        port: 8080,
        username: Some("u".to_string()),
        password: None,
    };
    assert_eq!(p.to_cli_arg(), "http://proxy.local:8080");
}

#[test]
fn user_agents() {
    assert_eq!(
        build_ua("mac", "124.0.6367.0"),
        "Mozilla/5.0 (Macintosh; Intel Mac OS X 10_15_7) AppleWebKit/537.36 (KHTML, like Gecko) Chrome/124.0.6367.0 Safari/537.36"
    );
    assert_eq!(
        build_ua("linux", "1"),
        "Mozilla/5.0 (X11; Linux x86_64) AppleWebKit/537.36 (KHTML, like Gecko) Chrome/1 Safari/537.36"
    );
    assert_eq!(
        build_ua("windows", "2"),
        "Mozilla/5.0 (Windows NT 10.0; Win64; x64) AppleWebKit/537.36 (KHTML, like Gecko) Chrome/2 Safari/537.36"
    );
}

#[test]
fn timezones_by_seed() {
    assert_eq!(pick_timezone(0), "Asia/Shanghai");
    assert_eq!(pick_timezone(-13), "Asia/Tokyo");
    assert_eq!(pick_timezone(23), "Asia/Hong_Kong");
    assert_eq!(pick_timezone(i32::MAX), "Europe/Paris");
    assert_eq!(pick_timezone(i32::MIN), "Europe/Berlin");
}

#[test]
fn generate_system_default_windows() {
    // SHA-256("system_default") starts 5a dd 02 f1: seed value -251470502.
    let f = FingerprintConfig::generate("system_default", "windows", "Chrome 120");
    assert_eq!(f.noise_seed, -251470502);
    assert_eq!(f.name, "指纹 #system_d");
    assert_eq!((f.screen_width, f.screen_height), (1536, 864));
    assert_eq!(f.hardware_concurrency, 16);
    assert_eq!(f.device_memory_gb, 32);
    assert_eq!(f.timezone, "Asia/Seoul");
    assert_eq!(f.browser_version, "120.0.6099.0");
    assert_eq!(f.platform, "Win32");
    assert_eq!(f.pixel_ratio_pct, 100);
    assert_eq!(f.languages, vec!["zh-CN", "zh", "en"]);
    assert_eq!(f.fonts.len(), 9);
    assert!(f.proxy.is_none());
    assert!(!f.is_system);
}

#[test]
fn generate_short_seed_mac_124() {
    // SHA-256("acc-123") starts 1c e6 7b 02: seed value 41674268.
    let f = FingerprintConfig::generate("acc-123", "mac", "Chrome 124");
    assert_eq!(f.noise_seed, 41674268);
    assert_eq!(f.name, "指纹 #acc-123");
    assert_eq!((f.screen_width, f.screen_height), (1440, 900));
    assert_eq!(f.hardware_concurrency, 12);
    assert_eq!(f.timezone, "Europe/Berlin");
    assert_eq!(f.browser_version, "124.0.6367.0");
    assert_eq!(f.platform, "MacIntel");
    assert!(f.user_agent.contains("Chrome/124.0.6367.0"));
}

#[test]
fn injection_script_carries_values() {
    let f = FingerprintConfig::generate("abc", "linux", "Chrome 122");
    assert_eq!(f.browser_version, "122.0.6261.0");
    assert_eq!(f.platform, "Linux x86_64");
    let js = f.build_injection_script();
    assert!(js.contains("'deviceMemory',    { get: () => 16, configurable: true }"));
    assert!(js.contains("'hardwareConcurrency', { get: () => 8, configurable: true }"));
    assert!(js.contains("{ get: () => 'Linux x86_64', configurable: true }"));
    assert!(js.contains("{ get: () => [\"zh-CN\",\"zh\",\"en\"], configurable: true }"));
    assert!(js.contains("if (p === 37445) return 'Google Inc. (Intel)';"));
}

#[test]
fn injection_script_escapes_languages() {
    let mut f = FingerprintConfig::generate("abc", "windows", "Chrome 120");
    f.languages = vec!["a\"b".to_string(), "c\\d".to_string(), "x\ny\u{1}".to_string(), "中".to_string()];
    let js = f.build_injection_script();
    assert!(js.contains(r#"{ get: () => ["a\"b","c\\d","x\ny\u0001","中"], configurable: true }"#));
    f.languages = vec![];
    let js = f.build_injection_script();
    assert!(js.contains("{ get: () => [], configurable: true }"));
}

#[test]
fn templates_are_system() {
    let t = FingerprintTemplate::windows_chrome_124("system_default");
    assert_eq!(t.name, "Windows Chrome 124");
    assert_eq!(t.platform, "windows");
    assert!(t.is_system);
    assert_eq!(t.id.len(), 36);
    let id: Vec<char> = t.id.chars().collect();
    for (i, c) in id.iter().enumerate() {
        if i == 8 || i == 13 || i == 18 || i == 23 {
            assert_eq!(*c, '-');
        } else {
            assert!(c.is_ascii_digit() || ('a'..='f').contains(c));
        }
    }
    assert_eq!(id[14], '4');
    assert!(['8', '9', 'a', 'b'].contains(&id[19]));
    assert_eq!(t.config.browser_version, "124.0.6367.0");
    let all = FingerprintTemplate::system_templates();
    assert_eq!(all.len(), 3);
    assert_eq!(all[0].name, "Windows Chrome 120");
    assert_eq!(all[1].name, "Windows Chrome 124");
    assert_eq!(all[2].name, "macOS Chrome 120");
    assert_ne!(all[0].id, all[1].id);
    let m = FingerprintTemplate::mac_chrome_120("x");
    assert_eq!(m.config.platform, "MacIntel");
}

#[test]
fn first_generation_fingerprint() {
    // SHA-256("user_0001_long") starts af d1 ee d6: seed value -688991825.
    let f = v1::FingerprintConfig::generate("user_0001_long", "mac");
    assert_eq!(f.noise_seed, -688991825);
    assert_eq!((f.screen_width, f.screen_height), (1680, 1050));
    assert_eq!(f.cpu_cores, 12);
    assert_eq!(f.timezone, "America/New_York");
    assert_eq!(f.browser_version, "120.0.0.0");
    assert_eq!(f.name, "指纹 #user_000");
    assert_eq!(f.fonts.len(), 10);
    let w = v1::FingerprintConfig::generate("user_0001_long", "windows");
    assert_eq!((w.screen_width, w.screen_height), (1366, 768));
    assert_eq!(w.timezone, "Asia/Shanghai");
    let js = w.build_injection_script("4.5");
    assert!(js.contains("const noise = 4.5;"));
    assert_eq!(v1::build_ua("mac"), build_ua("mac", "120.0.0.0"));
    let t = v1::FingerprintTemplate::mac_chrome_120("user_0001_long");
    assert_eq!(t.browser, "Chrome 120");
    let t2 = v1::FingerprintTemplate::windows_chrome_120("user_0001_long");
    assert_eq!(t2.platform, "windows");
}

#[test]
fn notification_overlay() {
    assert_eq!(build_injection_js(), NOTIFICATION_JS);
    assert!(build_injection_js().contains("window.__metachat"));
    assert_eq!(
        build_beads_update("[1]"),
        "window.__metachat?.updateBeads && window.__metachat.updateBeads([1])"
    );
}

#[test]
fn fingerprint_of_lowest_seed_value() {
    // A digest whose first four bytes read as i32::MIN (|v| = 2^31).
    let mut digest = vec![0u8; 32];
    digest[3] = 0x80;
    let f = FingerprintConfig::from_digest("seed", "windows", "Chrome 120", &digest, 1, 2);
    assert_eq!(f.noise_seed, i32::MIN);
    assert_eq!((f.screen_width, f.screen_height), (1600, 900));
    assert_eq!(f.hardware_concurrency, 16);
    assert_eq!(f.device_memory_gb, 32);
    assert_eq!(f.timezone, "Europe/Berlin");
    let m = FingerprintConfig::from_digest("seed", "mac", "Chrome 120", &digest, 1, 2);
    assert_eq!((m.screen_width, m.screen_height), (1440, 900));
    assert_eq!(m.hardware_concurrency, 12);
    let g = v1::FingerprintConfig::from_digest("seed", "mac", &digest, 1, 2);
    assert_eq!(g.screen_width, 1440);
}

#[test]
fn generation_is_deterministic() {
    let a = FingerprintConfig::generate("acc-123", "mac", "Chrome 124");
    let b = FingerprintConfig::generate("acc-123", "mac", "Chrome 124");
    assert_eq!((a.screen_width, a.screen_height, a.hardware_concurrency), (b.screen_width, b.screen_height, b.hardware_concurrency));
    assert_eq!((a.timezone.clone(), a.user_agent.clone(), a.name.clone()), (b.timezone.clone(), b.user_agent.clone(), b.name.clone()));
    assert_eq!((a.noise_seed, a.device_memory_gb, a.pixel_ratio_pct), (b.noise_seed, b.device_memory_gb, b.pixel_ratio_pct));
    assert_eq!(a.build_injection_script(), b.build_injection_script());
}
