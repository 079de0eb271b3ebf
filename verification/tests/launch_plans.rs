use wsl_dashboard::launch::{
    check_vscode_extension_plan, check_vscode_extension_result, distro_share_path,
    distro_share_root, launch_result, open_distro_folder_path_plan, open_distro_folder_plan,
    open_distro_terminal_step, open_distro_vscode_plan, open_with_cmd_plan, open_with_wt_plan,
    CommandPlan, ProcessOutput, TerminalAction, TerminalEvent, CREATE_NO_WINDOW, DETACHED_PROCESS,
};

fn strings(v: &[&str]) -> Vec<String> {
    v.iter().map(|s| s.to_string()).collect()
}

fn pairs(v: &[(&str, &str)]) -> Vec<(String, String)> {
    v.iter().map(|(k, v)| (k.to_string(), v.to_string())).collect()
}

fn plan(program: &str, args: &[&str], envs: &[(&str, &str)], flags: u32) -> CommandPlan {
    CommandPlan { program: program.to_string(), args: strings(args), envs: pairs(envs), creation_flags: flags }
}

#[test]
fn share_root_of_distro() {
    assert_eq!(distro_share_root("Ubuntu"), r"\\wsl$\Ubuntu");
}

#[test]
fn share_path_home_is_root() {
    assert_eq!(distro_share_path("Ubuntu", "~"), r"\\wsl$\Ubuntu");
}

#[test]
fn share_path_turns_slashes() {
    assert_eq!(distro_share_path("Debian", "/home/me/src"), r"\\wsl$\Debian\\home\me\src");
    assert_eq!(distro_share_path("Debian", "etc/apt"), r"\\wsl$\Debian\etc\apt");
    assert_eq!(distro_share_path("Debian", ""), r"\\wsl$\Debian\");
    assert_eq!(distro_share_path("Debian", "~/x"), r"\\wsl$\Debian\~\x");
}

#[test]
fn folder_plans() {
    assert_eq!(open_distro_folder_plan("Arch"), plan("explorer.exe", &[r"\\wsl$\Arch"], &[], 0x0800_0000));
    assert_eq!(
        open_distro_folder_path_plan("Arch", "var/log"),
        plan("explorer.exe", &[r"\\wsl$\Arch\var\log"], &[], CREATE_NO_WINDOW)
    );
}

#[test]
fn vscode_plan() {
    assert_eq!(
        open_distro_vscode_plan("Ubuntu", "/home/me"),
        plan(
            "powershell",
            &["-NoProfile", "-Command", "antigravity --remote wsl+Ubuntu '/home/me'"],
            &[],
            CREATE_NO_WINDOW
        )
    );
}

#[test]
fn extension_list_plan() {
    assert_eq!(
        check_vscode_extension_plan(),
        plan("powershell", &["-NoProfile", "-Command", "code --list-extensions"], &[], CREATE_NO_WINDOW)
    );
}

#[test]
fn wt_plan_without_exports() {
    assert_eq!(
        open_with_wt_plan("Ubuntu", "", &None),
        plan("wt", &["--title", "WSL: Ubuntu", "wsl.exe", "-d", "Ubuntu"], &[], 0x0800_0008)
    );
    assert_eq!(
        open_with_wt_plan("Ubuntu", "~", &Some(Vec::new())),
        plan("wt", &["--title", "WSL: Ubuntu", "wsl.exe", "-d", "Ubuntu", "--cd", "~"], &[], DETACHED_PROCESS | CREATE_NO_WINDOW)
    );
}

#[test]
fn wt_plan_forwards_exports() {
    let ex = Some(pairs(&[("HTTP_PROXY", "http://h:1"), ("NO_PROXY", "localhost")]));
    assert_eq!(
        open_with_wt_plan("Deb", "/srv", &ex),
        plan(
            "wt",
            &["--title", "WSL: Deb", "wsl.exe", "-d", "Deb", "--cd", "/srv"],
            &[("HTTP_PROXY", "http://h:1"), ("NO_PROXY", "localhost"), ("WSLENV", "HTTP_PROXY/u:NO_PROXY/u")],
            DETACHED_PROCESS | CREATE_NO_WINDOW
        )
    );
}

#[test]
fn cmd_plan_without_exports() {
    assert_eq!(
        open_with_cmd_plan("Ubuntu", "~", &None),
        plan("cmd", &["/c", "start", "WSL: Ubuntu", "wsl.exe", "-d", "Ubuntu", "--cd", "~"], &[], CREATE_NO_WINDOW)
    );
}

#[test]
fn cmd_plan_with_exports() {
    let ex = Some(pairs(&[("A", "1"), ("B", "x y")]));
    assert_eq!(
        open_with_cmd_plan("Ubuntu", "", &ex),
        plan(
            "cmd",
            &["/c", "start", "WSL: Ubuntu", "wsl.exe", "-d", "Ubuntu", "--cd", "", "--", "bash", "-c",
              "export A=1; export B=x y; exec bash -l"],
            &[],
            CREATE_NO_WINDOW
        )
    );
    assert_eq!(open_with_cmd_plan("U", "d", &Some(Vec::new())).args.last().unwrap(), "exec bash -l");
}

#[test]
fn launch_result_reports() {
    let ok = launch_result(Ok(()));
    assert!(ok.success);
    assert_eq!(ok.output, "");
    assert_eq!(ok.error, None);
    let err = launch_result(Err("not found".to_string()));
    assert!(!err.success);
    assert_eq!(err.output, "");
    assert_eq!(err.error.as_deref(), Some("not found"));
    assert_eq!(err.data, None);
}

#[test]
fn extension_result_decodes_streams() {
    let ok = check_vscode_extension_result(Ok(ProcessOutput {
        stdout: b"ms-vscode-remote.remote-wsl\n".to_vec(),
        stderr: b"ignored".to_vec(),
        exit_success: true,
    }));
    assert!(ok.success);
    assert_eq!(ok.output, "ms-vscode-remote.remote-wsl\n");
    assert_eq!(ok.error, None);

    let failed = check_vscode_extension_result(Ok(ProcessOutput {
        stdout: b"partial".to_vec(),
        stderr: vec![b'b', b'a', b'd', 0xff],
        exit_success: false,
    }));
    assert!(!failed.success);
    assert_eq!(failed.output, "partial");
    assert_eq!(failed.error.as_deref(), Some("bad\u{FFFD}"));

    let absent = check_vscode_extension_result(Err("program not found".to_string()));
    assert!(!absent.success);
    assert_eq!(absent.output, "");
    assert_eq!(absent.error.as_deref(), Some("program not found"));
}

fn finish(a: TerminalAction) -> wsl_dashboard::models::WslCommandResult<String> {
    match a {
        TerminalAction::Finish(r) => r,
        _ => panic!("expected a report"),
    }
}

#[test]
fn terminal_prefers_wt() {
    assert!(matches!(open_distro_terminal_step(TerminalEvent::Requested { wt_available: true }), TerminalAction::LaunchWt));
    let r = finish(open_distro_terminal_step(TerminalEvent::WtLaunched { outcome: Ok(()) }));
    assert!(r.success);
    assert_eq!(r.error, None);
}

#[test]
fn terminal_falls_back_to_cmd() {
    assert!(matches!(open_distro_terminal_step(TerminalEvent::Requested { wt_available: false }), TerminalAction::LaunchCmd));
    assert!(matches!(
        open_distro_terminal_step(TerminalEvent::WtLaunched { outcome: Err("denied".to_string()) }),
        TerminalAction::LaunchCmd
    ));
    let ok = finish(open_distro_terminal_step(TerminalEvent::CmdLaunched { outcome: Ok(()) }));
    assert!(ok.success);
    let bad = finish(open_distro_terminal_step(TerminalEvent::CmdLaunched { outcome: Err("no cmd".to_string()) }));
    assert!(!bad.success);
    assert_eq!(bad.error.as_deref(), Some("no cmd"));
}
