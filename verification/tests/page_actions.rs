use wsl_dashboard::manage::{
    information_outcome, local_link_target, message_link_action, operation_gate, proxy_url,
    row_is_default, settings_form, sparse_probe_base, terminal_proxy_exports, DistroRow, Gate,
    InfoOutcome, InstanceConfig, LinkAction, ProxyConfig, RegisteredDistro,
};
use wsl_dashboard::models::WslCommandResult;
use wsl_dashboard::text::{has_prefix, replace_slashes, same_text};

fn s(x: &str) -> String {
    x.to_string()
}

#[test]
fn clipboard_link_copies() {
    assert_eq!(message_link_action("clipboard", "wsl --update"), LinkAction::CopyToClipboard(s("wsl --update")));
    assert_eq!(message_link_action("clipboard", ""), LinkAction::Ignore);
}

#[test]
fn web_and_local_links() {
    assert_eq!(message_link_action("https://example.org", "x"), LinkAction::OpenUrl(s("https://example.org")));
    assert_eq!(message_link_action("", "http://a.b"), LinkAction::OpenUrl(s("http://a.b")));
    assert_eq!(message_link_action("", r"C:\logs"), LinkAction::OpenLocal(s(r"C:\logs")));
    assert_eq!(message_link_action("ftp://x", "https://y"), LinkAction::OpenLocal(s("ftp://x")));
    assert_eq!(message_link_action("", ""), LinkAction::OpenLocal(s("")));
    assert_eq!(message_link_action("HTTP://UP", ""), LinkAction::OpenLocal(s("HTTP://UP")));
}

#[test]
fn local_link_fallback() {
    assert_eq!(local_link_target(s("C:/a"), true, Some(s("C:/startup"))), Some(s("C:/a")));
    assert_eq!(local_link_target(s("C:/a"), false, Some(s("C:/startup"))), Some(s("C:/startup")));
    assert_eq!(local_link_target(s("C:/a"), false, None), None);
}

fn proxy(enabled: bool, host: &str, port: &str, auth: bool, user: &str, pass: &str, no: &str) -> ProxyConfig {
    ProxyConfig {
        is_enabled: enabled,
        host: s(host),
        port: s(port),
        auth_enabled: auth,
        username: s(user),
        password: s(pass),
        no_proxy: s(no),
    }
}

#[test]
fn proxy_address_with_and_without_credentials() {
    assert_eq!(proxy_url(&proxy(true, "10.0.0.1", "8080", false, "u", "p", "")), "http://10.0.0.1:8080");
    assert_eq!(proxy_url(&proxy(true, "h", "1", true, "u", "p", "")), "http://u:p@h:1");
    assert_eq!(proxy_url(&proxy(true, "h", "1", true, "u", "", "")), "http://h:1");
}

#[test]
fn proxy_exports_when_applied() {
    let p = proxy(true, "h", "3128", true, "me", "pw", "localhost,127.0.0.1");
    assert_eq!(
        terminal_proxy_exports(true, &p),
        Some(vec![
            (s("HTTP_PROXY"), s("http://me:pw@h:3128")),
            (s("HTTPS_PROXY"), s("http://me:pw@h:3128")),
            (s("NO_PROXY"), s("localhost,127.0.0.1")),
        ])
    );
    let q = proxy(true, "h", "3128", false, "", "", "");
    assert_eq!(
        terminal_proxy_exports(true, &q),
        Some(vec![(s("HTTP_PROXY"), s("http://h:3128")), (s("HTTPS_PROXY"), s("http://h:3128"))])
    );
}

#[test]
fn proxy_exports_when_not_applied() {
    let p = proxy(true, "h", "1", false, "", "", "");
    assert_eq!(terminal_proxy_exports(false, &p), None);
    assert_eq!(terminal_proxy_exports(true, &proxy(false, "h", "1", false, "", "", "")), None);
    assert_eq!(terminal_proxy_exports(true, &proxy(true, "", "1", false, "", "", "")), None);
    assert_eq!(terminal_proxy_exports(true, &proxy(true, "h", "", false, "", "", "")), None);
}

#[test]
fn gate_orders_checks() {
    assert_eq!(operation_gate(Some(s("export")), true, true), Gate::DistroBusy(s("export")));
    assert_eq!(operation_gate(None, true, true), Gate::SystemBusy);
    assert_eq!(operation_gate(None, false, true), Gate::Proceed);
    assert_eq!(operation_gate(None, true, false), Gate::Proceed);
}

#[test]
fn default_flag_from_rows() {
    let rows = vec![
        None,
        Some(DistroRow { name: s("Debian"), is_default: false }),
        Some(DistroRow { name: s("Ubuntu"), is_default: true }),
        Some(DistroRow { name: s("Ubuntu"), is_default: false }),
    ];
    assert!(row_is_default(&rows, "Ubuntu"));
    assert!(!row_is_default(&rows, "Debian"));
    assert!(!row_is_default(&rows, "Arch"));
    assert!(!row_is_default(&Vec::new(), "Arch"));
}

#[test]
fn settings_form_fields() {
    let cfg = InstanceConfig {
        terminal_dir: s("~"),
        vscode_dir: s("/src"),
        startup_script: s("echo hi"),
        terminal_proxy: true,
        auto_startup: true,
    };
    let f = settings_form(s("Ubuntu"), true, cfg.clone(), false);
    assert_eq!(f.distro_name, "Ubuntu");
    assert!(f.is_default && f.lock_default);
    assert_eq!(f.terminal_dir, "~");
    assert_eq!(f.vscode_dir, "/src");
    assert_eq!(f.startup_script, "echo hi");
    assert!(f.terminal_proxy);
    assert!(!f.autostart);
    assert!(!f.is_task_exists);
    assert_eq!(f.terminal_dir_error, "");
    assert!(!f.enable_sparse && !f.sparse_fixed);
    let g = settings_form(s("Ubuntu"), false, cfg, true);
    assert!(g.autostart && g.is_task_exists && !g.lock_default);
}

#[test]
fn sparse_probe_first_match() {
    let regs = vec![
        RegisteredDistro { name: s("Old"), version: 1, base_path: s("C:/old") },
        RegisteredDistro { name: s("Ubuntu"), version: 2, base_path: s("C:/ubuntu") },
        RegisteredDistro { name: s("Ubuntu"), version: 2, base_path: s("C:/other") },
    ];
    assert_eq!(sparse_probe_base(&regs, "Ubuntu"), Some(s("C:/ubuntu")));
    assert_eq!(sparse_probe_base(&regs, "Old"), None);
    assert_eq!(sparse_probe_base(&regs, "None"), None);
}

#[test]
fn information_outcomes() {
    let shown = information_outcome(WslCommandResult::success(s(""), Some(7u32)));
    assert_eq!(shown, InfoOutcome::Show(7));
    let empty: InfoOutcome<u32> = information_outcome(WslCommandResult::success(s(""), None));
    assert_eq!(empty, InfoOutcome::Nothing);
    let failed: InfoOutcome<u32> = information_outcome(WslCommandResult::error(s(""), s("timeout")));
    assert_eq!(failed, InfoOutcome::Failed(Some(s("timeout"))));
    let bare: WslCommandResult<u32> = WslCommandResult { success: false, output: s(""), error: None, data: None };
    assert_eq!(information_outcome(bare), InfoOutcome::Failed(None));
}

#[test]
fn text_helpers() {
    assert!(has_prefix("https://x", "https://"));
    assert!(!has_prefix("http", "http://"));
    assert!(has_prefix("abc", ""));
    assert!(same_text("~", "~"));
    assert!(!same_text("~", "~/"));
    assert_eq!(replace_slashes("a/b//c"), r"a\b\\c");
    assert_eq!(replace_slashes(&replace_slashes("a/b")), r"a\b");
}
