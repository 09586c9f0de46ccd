use metachat::cloak::apply::{after_step, first_step, method_of, ApplyNext, ApplyStep};
use metachat::cloak::cdp::{call_outcome, RequestIds};
use metachat::scripts::downloader::{archive_sha256_hex, check_archive, download_total, resume_offset, resume_range};
use metachat::cloak::config::{millis_of_reading, now_ms};
use metachat::storage::models::Platform as StoredPlatform;
use metachat::cloak::cdp::{reply_error, route_message, CdpError, MessageRoute};
use metachat::cloak::job;
use metachat::cloak::position::{
    chromeless_style, embed_window, embedded_child_style, hide_window, position_window, remove_window_chrome,
    show_window, tool_window_ex_style,
};
use metachat::cloak::process::{cdp_not_ready, cdp_version_url, headless_launch_args, launch_args};
use metachat::cloak::window_embed::{
    clear_embed_hwnd, get_embed_hwnd, resize_embed, set_embed_hwnd, EmbedRegistry, WindowEmbed, WindowMove,
};
use metachat::commands::browser::{
    build_bead_json, get_platform_url, pick_page_ws, plan_switch, session_launch_args, BrowserEntry, PageTarget,
};
use metachat::config::AppConfig;
use metachat::scripts::downloader::{
    check_download_config, executable_name, is_blank, marker_shows_installed, to_hex_lower, verify_checksum,
    DownloadConfig,
};
use metachat::scripts::installer::{chrome_candidates, check_install_readiness, install_command, InstallResult, Runtimes, TargetOs};
use metachat::storage::models::Platform;
use metachat::storage::query::{cache_expires_at, like_pattern};
use metachat::storage::schema::{get_create_indexes_sql, get_create_tables_sql, CURRENT_SCHEMA_VERSION};
use metachat::text::decimal_string;

#[test]
fn decimal_text() {
    assert_eq!(decimal_string(0), "0");
    assert_eq!(decimal_string(9222), "9222");
    assert_eq!(decimal_string(u64::MAX), "18446744073709551615");
}

#[test]
fn cdp_errors_read_as_text() {
    assert_eq!(CdpError::Connection("refused".to_string()).message(), "Connection failed: refused");
    assert_eq!(CdpError::Command { id: 7, msg: "bad".to_string() }.message(), "Command 7 failed: bad");
    assert_eq!(CdpError::Timeout(12).message(), "Response timeout for command 12");
    assert_eq!(CdpError::Disconnected.message(), "Disconnected");
    assert_eq!(CdpError::PageNotFound.message(), "Page not found");
}

#[test]
fn messages_are_routed() {
    assert!(matches!(route_message(Some(3), Some("x".to_string())), MessageRoute::Response(3)));
    assert!(matches!(route_message(None, Some("Page.loadEventFired".to_string())), MessageRoute::Event(m) if m == "Page.loadEventFired"));
    assert!(matches!(route_message(None, None), MessageRoute::Ignored));
    assert!(matches!(reply_error(4, Some("{}".to_string())), Some(CdpError::Command { id: 4, .. })));
    assert!(reply_error(4, None).is_none());
}

#[test]
fn platform_hooks_off_windows() {
    assert!(job::init().is_ok());
    assert!(job::assign(42).is_ok());
    assert!(!remove_window_chrome(1));
    assert_eq!(embed_window(1, 2).unwrap_err(), "只支持 Windows");
    assert!(!hide_window(1));
    assert!(!show_window(1, 0, 0, 1, 1));
    assert!(!position_window(1, 0, 0, 1, 1));
}

#[test]
fn window_styles() {
    assert_eq!(chromeless_style(0x00CF_0000) as u32, 0x9600_0000);
    assert_eq!(chromeless_style(0x0000_0001) as u32, 0x9600_0001);
    assert_eq!(tool_window_ex_style(0x0004_0100), 0x0000_0180);
    assert_eq!(embedded_child_style(0x00CF_0003), 0x5000_0003);
}

#[test]
fn launch_command_lines() {
    let a = launch_args(9222, "/p");
    assert_eq!(a, vec!["--remote-debugging-port=9222", "--user-data-dir=/p", "--no-first-run", "--no-default-browser-check", "--disable-extensions", "--about:blank"]);
    let h = headless_launch_args(9333, "/q");
    assert_eq!(h[2], "--headless=new");
    assert_eq!(h[0], "--remote-debugging-port=9333");
    assert_eq!(cdp_version_url(9222), "http://127.0.0.1:9222/json/version");
    assert_eq!(cdp_not_ready(9222), "CDP port 9222 not ready");
    let s = session_launch_args(9222, "/r", "telegram");
    assert_eq!(s[5], "--window-position=320,140");
    assert_eq!(s[6], "--window-size=1280,800");
    assert_eq!(s[7], "--app=https://web.telegram.org");
}

#[test]
fn embedding_state() {
    let mut e = WindowEmbed::new(77);
    assert_eq!(e.child_pid(), 77);
    assert!(e.resize(0, 0, 10, 10).is_none());
    assert!(e.embed(5).is_err());
    assert!(!e.is_embedded());
    e.mark_embedded(99);
    assert_eq!(e.resize(1, 2, 3, 4), Some(WindowMove { hwnd: 99, x: 1, y: 2, width: 3, height: 4 }));
    e.unembed();
    assert!(e.resize(1, 2, 3, 4).is_none());
    assert_eq!(e.cloak_hwnd(), Some(99));
}

#[test]
fn embed_registry_reads_back() {
    let mut r = EmbedRegistry::new();
    assert_eq!(get_embed_hwnd(&r), 0);
    assert!(resize_embed(&r, 0, 100, 10, 10).is_none());
    assert!(resize_embed(&r, 0, i32::MIN, 10, i32::MAX).is_none());
    set_embed_hwnd(&mut r, 1234);
    assert_eq!(get_embed_hwnd(&r), 1234);
    assert_eq!(resize_embed(&r, 5, 100, 800, 600), Some(WindowMove { hwnd: 1234, x: 5, y: 52, width: 800, height: 648 }));
    clear_embed_hwnd(&mut r);
    assert_eq!(get_embed_hwnd(&r), 0);
}

#[test]
fn platform_urls() {
    assert_eq!(get_platform_url("whatsapp"), "https://web.whatsapp.com");
    assert_eq!(get_platform_url("telegram"), "https://web.telegram.org");
    assert_eq!(get_platform_url("facebook"), "https://www.facebook.com");
    assert_eq!(get_platform_url("instagram"), "https://www.instagram.com");
    assert_eq!(get_platform_url("x"), "https://x.com");
    assert_eq!(get_platform_url("line"), "https://access.line.me");
    assert_eq!(get_platform_url("zalo"), "https://web.whatsapp.com");
}

#[test]
fn bead_json_text() {
    assert_eq!(build_bead_json("a1", "x"), r#"[{"id":"a1","name":"a1","unread":0,"platform":"x"}]"#);
}

#[test]
fn page_target_choice() {
    let t = vec![
        PageTarget { kind: "service_worker".to_string(), ws_url: Some("ws://sw".to_string()) },
        PageTarget { kind: "page".to_string(), ws_url: Some("ws://p1".to_string()) },
        PageTarget { kind: "page".to_string(), ws_url: Some("ws://p2".to_string()) },
    ];
    assert_eq!(pick_page_ws(&t), Some("ws://p1".to_string()));
    let u = vec![
        PageTarget { kind: "page".to_string(), ws_url: None },
        PageTarget { kind: "page".to_string(), ws_url: Some("ws://p2".to_string()) },
    ];
    assert_eq!(pick_page_ws(&u), None);
    assert_eq!(pick_page_ws(&vec![]), None);
}

#[test]
fn switching_accounts() {
    let e = vec![
        BrowserEntry { account_id: "a".to_string(), pid: 10, port: 9222 },
        BrowserEntry { account_id: "b".to_string(), pid: 20, port: 9223 },
        BrowserEntry { account_id: "c".to_string(), pid: 30, port: 9224 },
    ];
    let p = plan_switch(&e, "b").unwrap();
    assert_eq!(p.hide_pids, vec![10, 30]);
    assert_eq!(p.show_pid, 20);
    assert_eq!(p.port, 9223);
    assert_eq!(plan_switch(&e, "z").unwrap_err(), "账号 z 未启动，请先打开");
}

#[test]
fn platform_text_round_trip() {
    assert_eq!(Platform::TikTok.to_text(), "tiktok");
    assert!(matches!(Platform::parse("tiktok"), Platform::TikTok));
    assert_eq!(Platform::Custom("signal".to_string()).to_text(), "custom_signal");
    assert!(matches!(Platform::parse("custom_signal"), Platform::Custom(s) if s == "custom_signal"));
    let p: Platform = "zalo".parse().unwrap();
    assert!(matches!(p, Platform::Zalo));
}

#[test]
fn schema_statements() {
    assert_eq!(CURRENT_SCHEMA_VERSION, 1);
    let t = get_create_tables_sql();
    assert_eq!(t.len(), 13);
    assert!(t[0].starts_with("CREATE TABLE IF NOT EXISTS accounts"));
    assert!(t[11].starts_with("CREATE TABLE IF NOT EXISTS schema_version"));
    assert!(t[12].starts_with("CREATE TABLE IF NOT EXISTS sync_outbox"));
    let i = get_create_indexes_sql();
    assert_eq!(i.len(), 4);
    assert_eq!(i[3], "CREATE INDEX IF NOT EXISTS idx_contacts_account ON contacts(account_id);");
}

#[test]
fn query_values() {
    assert_eq!(like_pattern("bob"), "%bob%");
    assert_eq!(cache_expires_at(1_000, 86400), 86_401_000);
    assert_eq!(cache_expires_at(1_700_000_000_000, u64::MAX), 1_699_999_999_000);
}

#[test]
fn app_config_defaults() {
    let c = AppConfig::with_paths("/d/metachat.db".to_string(), "/d/cloak".to_string());
    assert_eq!(c.log_level, "info");
    assert_eq!(c.translation_cache_ttl_secs, 86400);
    assert_eq!(c.db_path, "/d/metachat.db");
}

#[test]
fn download_checks() {
    let d = DownloadConfig::default();
    assert_eq!(d.version, "1.0.0");
    assert_eq!(
        check_download_config(&d).unwrap_err(),
        "CDN_URL 未配置，请在 config 中设置 CloakBrowser 下载地址"
    );
    let ok = DownloadConfig { cdn_url: "https://cdn/x.zip".to_string(), ..DownloadConfig::default() };
    assert!(check_download_config(&ok).is_ok());
    assert!(verify_checksum("", "ab").is_ok());
    assert!(verify_checksum("ab", "ab").is_ok());
    assert_eq!(verify_checksum("ab", "cd").unwrap_err(), "SHA256 不匹配: 期望 ab 实际 cd");
    assert_eq!(to_hex_lower(&[0xba, 0x78, 0x16, 0x0f, 0x00]), "ba78160f00");
    assert_eq!(executable_name(TargetOs::Windows), "cloak-browser.exe");
    assert_eq!(executable_name(TargetOs::Other), "cloak-browser");
}

#[test]
fn version_marker() {
    assert!(is_blank(" \t\n\u{3000}"));
    assert!(!is_blank(" 1.0 "));
    assert!(marker_shows_installed(Some("1.0.0\n")));
    assert!(!marker_shows_installed(Some("  \n")));
    assert!(!marker_shows_installed(None));
}

#[test]
fn install_decisions() {
    let none = Runtimes { npx: false, node: false, python: false, python3: false };
    assert!(matches!(check_install_readiness(Some("/x/chrome".to_string()), none), InstallResult::Found(p) if p == "/x/chrome"));
    assert!(matches!(check_install_readiness(None, none), InstallResult::RequiresNodeJs));
    assert!(matches!(check_install_readiness(None, Runtimes { python3: true, ..none }), InstallResult::Installing));
    let (c, a) = install_command(Runtimes { npx: true, python3: true, ..none }).unwrap();
    assert_eq!((c.as_str(), a), ("npx", vec!["cloakbrowser".to_string(), "install".to_string()]));
    let (c, a) = install_command(Runtimes { python: true, ..none }).unwrap();
    assert_eq!((c.as_str(), a.len()), ("python", 3));
    let (c, a) = install_command(Runtimes { node: true, ..none }).unwrap();
    assert_eq!((c.as_str(), a[0].as_str()), ("npx", "--yes"));
    assert_eq!(install_command(none).unwrap_err(), "未检测到 Node.js 或 Python");
    assert_eq!(chrome_candidates(TargetOs::MacOs), vec!["Chromium", "chrome", "Google Chrome"]);
}

#[test]
fn clock_readings() {
    assert_eq!(millis_of_reading(Some(1_700_000_000_123)), 1_700_000_000_123);
    assert_eq!(millis_of_reading(None), 0);
    assert_eq!(millis_of_reading(Some((1u128 << 64) + 7)), 7);
    assert!(now_ms() > 1_600_000_000_000);
}

#[test]
fn platform_from_str() {
    let p: StoredPlatform = "telegram".parse().unwrap();
    assert!(matches!(p, StoredPlatform::Telegram));
    let q: StoredPlatform = "wechat".parse().unwrap();
    assert!(matches!(q, StoredPlatform::Custom(ref c) if c == "wechat"));
}

#[test]
fn schema_creates_outbox_tables() {
    let conn = rusqlite::Connection::open_in_memory().unwrap();
    for sql in get_create_tables_sql() {
        conn.execute_batch(sql).unwrap();
    }
    for sql in get_create_indexes_sql() {
        conn.execute_batch(sql).unwrap();
    }
    let n: i64 = conn
        .query_row("SELECT count(*) FROM sqlite_master WHERE type = 'table' AND name != 'sqlite_sequence'", [], |r| r.get(0))
        .unwrap();
    assert_eq!(n, 13);
    conn.execute(
        "INSERT INTO sync_outbox (entity_type, entity_id, action, payload_json, status, created_at) VALUES ('contact', 'c1', 'update', '{}', 'pending', 1)",
        [],
    )
    .unwrap();
    conn.execute("UPDATE sync_outbox SET status = 'failed', retry_count = retry_count + 1 WHERE id = 1", []).unwrap();
    let (status, retries): (String, i64) = conn
        .query_row("SELECT status, retry_count FROM sync_outbox WHERE id = 1", [], |r| Ok((r.get(0)?, r.get(1)?)))
        .unwrap();
    assert_eq!((status.as_str(), retries), ("failed", 1));
}

#[test]
fn archive_digest_checks() {
    let abc = "ba7816bf8f01cfea414140de5dae2223b00361a396177a9cb410ff61f20015ad";
    assert_eq!(archive_sha256_hex(b"abc"), abc);
    assert_eq!(check_archive(abc, b"abc"), Ok(()));
    assert_eq!(check_archive("", b"anything"), Ok(()));
    assert_eq!(check_archive("00", b"abc"), Err(format!("SHA256 不匹配: 期望 00 实际 {}", abc)));
}

#[test]
fn download_resume_decisions() {
    assert_eq!(resume_range(0), None);
    assert_eq!(resume_range(1024), Some("bytes=1024-".to_string()));
    assert_eq!(resume_offset(1024, 206), 1024);
    assert_eq!(resume_offset(1024, 200), 0);
    assert_eq!(resume_offset(0, 206), 0);
    assert_eq!(download_total(1024, 4096), 5120);
    assert_eq!(download_total(u64::MAX, 1), u64::MAX);
}

#[test]
fn white_space_matches_std() {
    for u in 0u32..=0x10FFFF {
        if let Some(c) = char::from_u32(u) {
            let mut t = String::new();
            t.push(c);
            assert_eq!(is_blank(&t), c.is_whitespace(), "U+{:04X}", u);
        }
    }
}

#[test]
fn fingerprint_application_steps() {
    let mut step = first_step();
    let mut methods = Vec::new();
    loop {
        methods.push(method_of(step));
        match after_step(step, Ok(())) {
            ApplyNext::Call(next) => step = next,
            ApplyNext::Finished(r) => {
                assert_eq!(r, Ok(()));
                break;
            }
        }
    }
    assert_eq!(
        methods,
        vec![
            "Network.setUserAgentOverride",
            "Emulation.setTimezoneOverride",
            "Emulation.setLocaleOverride",
            "Emulation.setDeviceMetricsOverride",
            "Page.addScriptToEvaluateOnNewDocument",
        ]
    );
    match after_step(ApplyStep::Locale, Err("Disconnected".to_string())) {
        ApplyNext::Finished(Err(m)) => assert_eq!(m, "setLocale: Disconnected"),
        _ => panic!("a failed step must finish"),
    }
}

#[test]
fn command_outcomes_and_ids() {
    assert!(matches!(call_outcome(3, false, None), Err(CdpError::Disconnected)));
    assert!(matches!(call_outcome(3, true, None), Err(CdpError::Timeout(3))));
    assert!(matches!(call_outcome(3, true, Some(Some("bad".to_string()))), Err(CdpError::Command { id: 3, ref msg }) if msg == "bad"));
    assert!(call_outcome(3, true, Some(None)).is_ok());
    let mut ids = RequestIds::new();
    assert_eq!((ids.take(), ids.take(), ids.take()), (1, 2, 3));
}
