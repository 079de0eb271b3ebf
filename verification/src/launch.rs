//! What the dashboard launches to open a distribution's folder, editor or
//! terminal, and how a launch outcome becomes a [`WslCommandResult`].

use vstd::prelude::*;
use vstd::string::*;

use crate::models::{Report, WslCommandResult};
use crate::text::{backslashed, pop_char, replace_slashes, same_text};

verus! {

/// Process creation flag: the child gets no console window.
pub const CREATE_NO_WINDOW: u32 = 0x0800_0000;

/// Process creation flag: the child is not attached to any console.
pub const DETACHED_PROCESS: u32 = 0x0000_0008;

/// A process to start: program, arguments in order, environment variables
/// set in order (a later one wins over an earlier one of the same name), and
/// the creation flags used where the platform has them.
#[derive(Debug, Clone, PartialEq, Eq)]
pub struct CommandPlan {
    pub program: String,
    pub args: Vec<String>,
    pub envs: Vec<(String, String)>,
    pub creation_flags: u32,
}

/// Texts of a sequence of strings.
pub open spec fn texts(v: Seq<String>) -> Seq<Seq<char>> {
    v.map_values(|a: String| a@)
}

/// Texts of a sequence of string pairs.
pub open spec fn pair_texts(v: Seq<(String, String)>) -> Seq<(Seq<char>, Seq<char>)> {
    v.map_values(|p: (String, String)| (p.0@, p.1@))
}

impl CommandPlan {
    pub open spec fn arg_texts(&self) -> Seq<Seq<char>> {
        texts(self.args@)
    }

    pub open spec fn env_texts(&self) -> Seq<(Seq<char>, Seq<char>)> {
        pair_texts(self.envs@)
    }
}

/// The network share under which Windows exposes a distribution's files.
pub open spec fn share_root(distro: Seq<char>) -> Seq<char> {
    "\\\\wsl$\\"@ + distro
}

/// The share path of `sub` inside a distribution: `~` stands for the root,
/// any other path is appended with its `/` turned into `\`.
pub open spec fn share_path(distro: Seq<char>, sub: Seq<char>) -> Seq<char> {
    if sub == "~"@ {
        share_root(distro)
    } else {
        share_root(distro) + "\\"@ + backslashed(sub)
    }
}

/// The share root of the distribution `distro_name`.
pub fn distro_share_root(distro_name: &str) -> (res: String)
    ensures
        res@ == share_root(distro_name@),
{
    let mut s = "\\\\wsl$\\".to_owned();
    s.append(distro_name);
    s
}

/// The share path of `sub_path` inside the distribution `distro_name`.
pub fn distro_share_path(distro_name: &str, sub_path: &str) -> (res: String)
    ensures
        res@ == share_path(distro_name@, sub_path@),
        sub_path@ == "~"@ ==> res@ == "\\\\wsl$\\"@ + distro_name@,
        sub_path@ != "~"@ ==> {
            let root = "\\\\wsl$\\"@ + distro_name@;
            &&& res@.len() == root.len() + 1 + sub_path@.len()
            &&& res@.subrange(0, root.len() as int) == root
            &&& res@[root.len() as int] == '\\'
            &&& forall|i: int|
                0 <= i < sub_path@.len() ==> #[trigger] res@[root.len() + 1 + i] == (if sub_path@[i]
                    == '/' {
                    '\\'
                } else {
                    sub_path@[i]
                })
        },
{
    proof {
        lemma_share_path_layout(distro_name@, sub_path@);
    }
    if same_text(sub_path, "~") {
        distro_share_root(distro_name)
    } else {
        let mut s = distro_share_root(distro_name);
        s.append("\\");
        let rest = replace_slashes(sub_path);
        s.append(rest.as_str());
        s
    }
}

/// A plan that starts the file explorer on `target`.
fn explorer_plan(target: String) -> (res: CommandPlan)
    ensures
        res.program@ == "explorer.exe"@,
        res.arg_texts() == seq![target@],
        res.envs@.len() == 0,
        res.creation_flags == CREATE_NO_WINDOW,
{
    let mut args: Vec<String> = Vec::new();
    args.push(target);
    let res = CommandPlan {
        program: "explorer.exe".to_owned(),
        args,
        envs: Vec::new(),
        creation_flags: CREATE_NO_WINDOW,
    };
    assert(res.arg_texts() =~= seq![res.args@[0]@]);
    res
}

/// The explorer launch that opens the root of a distribution.
pub fn open_distro_folder_plan(distro_name: &str) -> (res: CommandPlan)
    ensures
        res.program@ == "explorer.exe"@,
        res.arg_texts() == seq![share_root(distro_name@)],
        res.envs@.len() == 0,
        res.creation_flags == CREATE_NO_WINDOW,
{
    explorer_plan(distro_share_root(distro_name))
}

/// The explorer launch that opens `sub_path` inside a distribution.
pub fn open_distro_folder_path_plan(distro_name: &str, sub_path: &str) -> (res: CommandPlan)
    ensures
        res.program@ == "explorer.exe"@,
        res.arg_texts() == seq![share_path(distro_name@, sub_path@)],
        res.envs@.len() == 0,
        res.creation_flags == CREATE_NO_WINDOW,
{
    explorer_plan(distro_share_path(distro_name, sub_path))
}

/// The PowerShell command that opens the editor on `dir` inside a distribution.
pub open spec fn editor_command(distro: Seq<char>, dir: Seq<char>) -> Seq<char> {
    "antigravity --remote "@ + ("wsl+"@ + distro) + " '"@ + dir + "'"@
}

/// A hidden PowerShell launch of `command`.
fn powershell_plan(command: String) -> (res: CommandPlan)
    ensures
        res.program@ == "powershell"@,
        res.arg_texts() == seq!["-NoProfile"@, "-Command"@, command@],
        res.envs@.len() == 0,
        res.creation_flags == CREATE_NO_WINDOW,
{
    let mut args: Vec<String> = Vec::new();
    args.push("-NoProfile".to_owned());
    args.push("-Command".to_owned());
    args.push(command);
    let res = CommandPlan {
        program: "powershell".to_owned(),
        args,
        envs: Vec::new(),
        creation_flags: CREATE_NO_WINDOW,
    };
    assert(res.arg_texts() =~= seq!["-NoProfile"@, "-Command"@, command@]);
    res
}

/// The launch that opens the editor, connected to a distribution, on `working_dir`.
pub fn open_distro_vscode_plan(distro_name: &str, working_dir: &str) -> (res: CommandPlan)
    ensures
        res.program@ == "powershell"@,
        res.arg_texts() == seq!["-NoProfile"@, "-Command"@, editor_command(distro_name@, working_dir@)],
        res.envs@.len() == 0,
        res.creation_flags == CREATE_NO_WINDOW,
{
    let mut remote_arg = "wsl+".to_owned();
    remote_arg.append(distro_name);
    let mut command = "antigravity --remote ".to_owned();
    command.append(remote_arg.as_str());
    command.append(" '");
    command.append(working_dir);
    command.append("'");
    powershell_plan(command)
}

/// The launch that lists the editor's installed extensions.
pub fn check_vscode_extension_plan() -> (res: CommandPlan)
    ensures
        res.program@ == "powershell"@,
        res.arg_texts() == seq!["-NoProfile"@, "-Command"@, "code --list-extensions"@],
        res.envs@.len() == 0,
        res.creation_flags == CREATE_NO_WINDOW,
{
    powershell_plan("code --list-extensions".to_owned())
}

/// The window title of a distribution's terminal.
pub open spec fn terminal_title(name: Seq<char>) -> Seq<char> {
    "WSL: "@ + name
}

/// Each exported variable's name followed by `/u:`, in order.
pub open spec fn wslenv_entries(exports: Seq<(String, String)>) -> Seq<char>
    decreases exports.len(),
{
    if exports.len() == 0 {
        Seq::empty()
    } else {
        wslenv_entries(exports.drop_last()) + exports.last().0@ + "/u:"@
    }
}

/// The value of `WSLENV` that forwards the exported variables into the
/// distribution: their entries without the final `:`.
pub open spec fn wslenv_value(exports: Seq<(String, String)>) -> Seq<char> {
    wslenv_entries(exports).drop_last()
}

/// Arguments of the Windows Terminal launch.
pub open spec fn wt_args(name: Seq<char>, cd: Seq<char>) -> Seq<Seq<char>> {
    seq!["--title"@, terminal_title(name), "wsl.exe"@, "-d"@, name] + if cd.len() == 0 {
        Seq::<Seq<char>>::empty()
    } else {
        seq!["--cd"@, cd]
    }
}

/// Environment of the Windows Terminal launch: each export as given, then
/// `WSLENV` naming them all, when there is at least one.
pub open spec fn wt_envs(exports: Option<Seq<(String, String)>>) -> Seq<(Seq<char>, Seq<char>)> {
    match exports {
        None => Seq::empty(),
        Some(ex) => pair_texts(ex) + if ex.len() == 0 {
            Seq::<(Seq<char>, Seq<char>)>::empty()
        } else {
            seq![("WSLENV"@, wslenv_value(ex))]
        },
    }
}

/// The vector's contents, for an optional vector.
pub open spec fn opt_seq<T>(v: Option<Vec<T>>) -> Option<Seq<T>> {
    match v {
        Some(x) => Some(x@),
        None => None,
    }
}

/// The Windows Terminal launch of a distribution's shell, started in `cd_path`
/// when that is not empty, with the given variables exported into it.
pub fn open_with_wt_plan(
    name: &str,
    cd_path: &str,
    proxy_exports: &Option<Vec<(String, String)>>,
) -> (res: CommandPlan)
    ensures
        res.program@ == "wt"@,
        res.arg_texts() == wt_args(name@, cd_path@),
        res.env_texts() == wt_envs(opt_seq(*proxy_exports)),
        res.creation_flags == DETACHED_PROCESS | CREATE_NO_WINDOW,
        proxy_exports is None ==> res.envs@.len() == 0,
        proxy_exports is Some ==> {
            let ex = proxy_exports->0@;
            &&& res.envs@.len() == (if ex.len() == 0 { 0int } else { ex.len() + 1int })
            &&& forall|i: int|
                0 <= i < ex.len() ==> #[trigger] res.env_texts()[i] == (ex[i].0@, ex[i].1@)
            &&& ex.len() > 0 ==> res.env_texts()[ex.len() as int] == ("WSLENV"@, colon_joined(
                wslenv_items(ex),
            ))
        },
        res.args@.len() == (if cd_path@.len() == 0 { 5int } else { 7int }),
        res.arg_texts()[0] == "--title"@,
        res.arg_texts()[1] == "WSL: "@ + name@,
        res.arg_texts()[2] == "wsl.exe"@,
        res.arg_texts()[3] == "-d"@,
        res.arg_texts()[4] == name@,
        cd_path@.len() > 0 ==> res.arg_texts()[5] == "--cd"@ && res.arg_texts()[6] == cd_path@,
{
    proof {
        lemma_wt_args_verbatim(name@, cd_path@);
        if let Some(ex) = proxy_exports {
            lemma_wt_envs_forward(ex@);
        }
    }
    let mut title = "WSL: ".to_owned();
    title.append(name);
    let mut args: Vec<String> = Vec::new();
    args.push("--title".to_owned());
    args.push(title);
    args.push("wsl.exe".to_owned());
    args.push("-d".to_owned());
    args.push(name.to_owned());
    if !cd_path.is_empty() {
        args.push("--cd".to_owned());
        args.push(cd_path.to_owned());
    }
    assert(texts(args@) =~= wt_args(name@, cd_path@));
    let mut envs: Vec<(String, String)> = Vec::new();
    match proxy_exports {
        None => {},
        Some(exports) => {
            let n = exports.len();
            let mut wslenv = String::new();
            let mut i: usize = 0;
            while i < n
                invariant
                    n == exports@.len(),
                    i <= n,
                    wslenv@ == wslenv_entries(exports@.subrange(0, i as int)),
                    i > 0 ==> wslenv@.len() > 0,
                    envs@ == exports@.subrange(0, i as int),
                decreases n - i,
            {
                let k = exports[i].0.clone();
                let v = exports[i].1.clone();
                proof {
                    reveal_strlit("/u:");
                }
                assert(exports@.subrange(0, i + 1).drop_last() =~= exports@.subrange(0, i as int));
                wslenv.append(k.as_str());
                wslenv.append("/u:");
                assert(k == exports@[i as int].0 && v == exports@[i as int].1);
                envs.push((k, v));
                assert(envs@ =~= exports@.subrange(0, i + 1));
                i = i + 1;
            }
            assert(exports@.subrange(0, n as int) =~= exports@);
            if !wslenv.as_str().is_empty() {
                let _ = pop_char(&mut wslenv);
                envs.push(("WSLENV".to_owned(), wslenv));
            }
        },
    }
    let res = CommandPlan {
        program: "wt".to_owned(),
        args,
        envs,
        creation_flags: DETACHED_PROCESS | CREATE_NO_WINDOW,
    };
    assert(res.env_texts() =~= wt_envs(opt_seq(*proxy_exports)));
    res
}

/// One `export NAME=VALUE; ` per exported variable, in order.
pub open spec fn export_script(exports: Seq<(String, String)>) -> Seq<char>
    decreases exports.len(),
{
    if exports.len() == 0 {
        Seq::empty()
    } else {
        export_script(exports.drop_last()) + "export "@ + exports.last().0@ + "="@
            + exports.last().1@ + "; "@
    }
}

/// The shell command run in the terminal when variables are exported:
/// the exports, then a login shell.
pub open spec fn login_shell_command(exports: Seq<(String, String)>) -> Seq<char> {
    export_script(exports) + "exec bash -l"@
}

/// Arguments of the console launch of a distribution's shell.
pub open spec fn cmd_args(name: Seq<char>, cd: Seq<char>, exports: Option<Seq<(String, String)>>) -> Seq<
    Seq<char>,
> {
    let base = seq![
        "/c"@,
        "start"@,
        terminal_title(name),
        "wsl.exe"@,
        "-d"@,
        name,
        "--cd"@,
        cd,
    ];
    match exports {
        None => base,
        Some(ex) => base + seq!["--"@, "bash"@, "-c"@, login_shell_command(ex)],
    }
}

/// The text of `export_script` for `exports`.
fn export_script_text(exports: &Vec<(String, String)>) -> (res: String)
    ensures
        res@ == export_script(exports@),
{
    let n = exports.len();
    let mut out = String::new();
    let mut i: usize = 0;
    while i < n
        invariant
            n == exports@.len(),
            i <= n,
            out@ == export_script(exports@.subrange(0, i as int)),
        decreases n - i,
    {
        assert(exports@.subrange(0, i + 1).drop_last() =~= exports@.subrange(0, i as int));
        out.append("export ");
        out.append(exports[i].0.as_str());
        out.append("=");
        out.append(exports[i].1.as_str());
        out.append("; ");
        i = i + 1;
    }
    assert(exports@.subrange(0, n as int) =~= exports@);
    out
}

/// The console launch of a distribution's shell in `cd_path`; when variables
/// are exported, the shell first exports them and then becomes a login shell.
pub fn open_with_cmd_plan(
    name: &str,
    cd_path: &str,
    proxy_exports: &Option<Vec<(String, String)>>,
) -> (res: CommandPlan)
    ensures
        res.program@ == "cmd"@,
        res.arg_texts() == cmd_args(name@, cd_path@, opt_seq(*proxy_exports)),
        res.envs@.len() == 0,
        res.creation_flags == CREATE_NO_WINDOW,
        res.args@.len() == (if proxy_exports is None { 8int } else { 12int }),
        res.arg_texts()[0] == "/c"@,
        res.arg_texts()[1] == "start"@,
        res.arg_texts()[2] == "WSL: "@ + name@,
        res.arg_texts()[3] == "wsl.exe"@,
        res.arg_texts()[4] == "-d"@,
        res.arg_texts()[5] == name@,
        res.arg_texts()[6] == "--cd"@,
        res.arg_texts()[7] == cd_path@,
        proxy_exports is Some ==> res.arg_texts()[8] == "--"@ && res.arg_texts()[9] == "bash"@
            && res.arg_texts()[10] == "-c"@,
{
    proof {
        lemma_console_args_verbatim(name@, cd_path@, opt_seq(*proxy_exports));
    }
    let mut title = "WSL: ".to_owned();
    title.append(name);
    let mut args: Vec<String> = Vec::new();
    args.push("/c".to_owned());
    args.push("start".to_owned());
    args.push(title);
    args.push("wsl.exe".to_owned());
    args.push("-d".to_owned());
    args.push(name.to_owned());
    args.push("--cd".to_owned());
    args.push(cd_path.to_owned());
    match proxy_exports {
        None => {},
        Some(exports) => {
            let mut bash_cmd = export_script_text(exports);
            bash_cmd.append("exec bash -l");
            args.push("--".to_owned());
            args.push("bash".to_owned());
            args.push("-c".to_owned());
            args.push(bash_cmd);
        },
    }
    let res = CommandPlan {
        program: "cmd".to_owned(),
        args,
        envs: Vec::new(),
        creation_flags: CREATE_NO_WINDOW,
    };
    assert(res.arg_texts() =~= cmd_args(name@, cd_path@, opt_seq(*proxy_exports)));
    res
}

/// The report of a launch that either started (`Ok`) or failed with a
/// message: no output, and the message as the error.
pub open spec fn launch_report(outcome: Result<(), String>) -> Report {
    match outcome {
        Ok(_) => Report { success: true, output: Seq::empty(), error: None },
        Err(e) => Report { success: false, output: Seq::empty(), error: Some(e@) },
    }
}

/// Turns the outcome of starting a process into the operation's report.
pub fn launch_result(outcome: Result<(), String>) -> (res: WslCommandResult<String>)
    ensures
        res.report() == launch_report(outcome),
        res.data is None,
        res.success == outcome is Ok,
        res.output@.len() == 0,
        outcome is Ok ==> res.error is None,
        outcome is Err ==> res.error_text() == Some(outcome->Err_0@),
{
    match outcome {
        Ok(_) => WslCommandResult::success(String::new(), None),
        Err(e) => WslCommandResult::error(String::new(), e),
    }
}

/// The report of a finished editor extension listing: the listing as the
/// output, and, when the process failed, its error stream as the error.
pub open spec fn extension_list_report(stdout: Seq<char>, exit_success: bool, stderr: Seq<char>) -> Report {
    if exit_success {
        Report { success: true, output: stdout, error: None }
    } else {
        Report { success: false, output: stdout, error: Some(stderr) }
    }
}

/// The report of the extension listing, from its decoded streams and exit status.
pub fn extension_list_result(stdout: String, exit_success: bool, stderr: String) -> (res:
    WslCommandResult<String>)
    ensures
        res.report() == extension_list_report(stdout@, exit_success, stderr@),
        res.data is None,
        res.success == exit_success,
        res.output@ == stdout@,
        res.error_text() == (if exit_success {
            None
        } else {
            Some(stderr@)
        }),
{
    if exit_success {
        WslCommandResult::success(stdout, None)
    } else {
        WslCommandResult::error(stdout, stderr)
    }
}

/// What a finished process left: its two output streams and whether it exited successfully.
#[derive(Debug, Clone, PartialEq, Eq)]
pub struct ProcessOutput {
    pub stdout: Vec<u8>,
    pub stderr: Vec<u8>,
    pub exit_success: bool,
}

/// The text that `String::from_utf8_lossy` makes of `bytes`.
pub uninterp spec fn utf8_lossy(bytes: Seq<u8>) -> Seq<char>;

/// Every byte is below 0x80.
pub open spec fn ascii_bytes(bytes: Seq<u8>) -> bool {
    forall|i: int| 0 <= i < bytes.len() ==> bytes[i] < 0x80
}

/// `String::from_utf8_lossy`: decodes `bytes` as UTF-8, with U+FFFD for any
/// invalid sequence. The result is named `utf8_lossy(bytes)`; of it, only
/// what holds of ASCII input is stated (ASCII decodes to the same code points).
#[verifier::external_body]
fn decode_lossy(bytes: &[u8]) -> (res: String)
    ensures
        res@ == utf8_lossy(bytes@),
        ascii_bytes(bytes@) ==> res@ == bytes@.map_values(|b: u8| b as char),
{
    String::from_utf8_lossy(bytes).into_owned()
}

/// The report of the editor extension listing, from the process outcome: the
/// output stream decoded as the output; on a failed exit the decoded error
/// stream as the error; when the process could not run, its message.
pub fn check_vscode_extension_result(outcome: Result<ProcessOutput, String>) -> (res:
    WslCommandResult<String>)
    ensures
        res.data is None,
        match outcome {
            Ok(o) => res.report() == extension_list_report(
                utf8_lossy(o.stdout@),
                o.exit_success,
                utf8_lossy(o.stderr@),
            ),
            Err(e) => res.report() == Report {
                success: false,
                output: Seq::empty(),
                error: Some(e@),
            },
        },
{
    match outcome {
        Ok(o) => {
            let stdout = decode_lossy(o.stdout.as_slice());
            if o.exit_success {
                extension_list_result(stdout, true, String::new())
            } else {
                let stderr = decode_lossy(o.stderr.as_slice());
                extension_list_result(stdout, false, stderr)
            }
        },
        Err(e) => WslCommandResult::error(String::new(), e),
    }
}

/// What happened last while opening a terminal.
pub enum TerminalEvent {
    /// The request arrived; whether Windows Terminal is on the search path.
    Requested { wt_available: bool },
    /// Windows Terminal was started, or failed with a message.
    WtLaunched { outcome: Result<(), String> },
    /// The console launch ran, or failed with a message.
    CmdLaunched { outcome: Result<(), String> },
}

/// What to do next while opening a terminal.
pub enum TerminalAction {
    /// Start Windows Terminal (`open_with_wt_plan`).
    LaunchWt,
    /// Start the console launch (`open_with_cmd_plan`).
    LaunchCmd,
    /// Stop and hand back this report.
    Finish(WslCommandResult<String>),
}

/// A terminal step, by the report it finishes with.
pub enum TerminalNext {
    LaunchWt,
    LaunchCmd,
    Finish(Report),
}

impl View for TerminalAction {
    type V = TerminalNext;

    open spec fn view(&self) -> TerminalNext {
        match self {
            TerminalAction::LaunchWt => TerminalNext::LaunchWt,
            TerminalAction::LaunchCmd => TerminalNext::LaunchCmd,
            TerminalAction::Finish(r) => TerminalNext::Finish(r.report()),
        }
    }
}

/// Opening a terminal: Windows Terminal first when it is there, the console
/// launch when it is not or when it failed; the console's outcome is final.
pub open spec fn terminal_next(event: TerminalEvent) -> TerminalNext {
    match event {
        TerminalEvent::Requested { wt_available } => if wt_available {
            TerminalNext::LaunchWt
        } else {
            TerminalNext::LaunchCmd
        },
        TerminalEvent::WtLaunched { outcome } => match outcome {
            Ok(_) => TerminalNext::Finish(launch_report(outcome)),
            Err(_) => TerminalNext::LaunchCmd,
        },
        TerminalEvent::CmdLaunched { outcome } => TerminalNext::Finish(launch_report(outcome)),
    }
}

/// The next step of opening a distribution's terminal, given what just happened.
pub fn open_distro_terminal_step(event: TerminalEvent) -> (res: TerminalAction)
    ensures
        res@ == terminal_next(event),
        res matches TerminalAction::Finish(r) ==> r.data is None,
        event is Requested ==> (if event->wt_available {
            res is LaunchWt
        } else {
            res is LaunchCmd
        }),
        event is WtLaunched && event->WtLaunched_outcome is Err ==> res is LaunchCmd,
        event is WtLaunched && event->WtLaunched_outcome is Ok ==> (res matches TerminalAction::Finish(
            r,
        ) && r.success && r.error is None && r.output@.len() == 0),
        event is CmdLaunched ==> (res matches TerminalAction::Finish(r) && r.success == (
        event->CmdLaunched_outcome is Ok) && r.output@.len() == 0 && (event->CmdLaunched_outcome is Err
            ==> r.error_text() == Some(event->CmdLaunched_outcome->Err_0@)) && (
        event->CmdLaunched_outcome is Ok ==> r.error is None)),
{
    match event {
        TerminalEvent::Requested { wt_available } => {
            if wt_available {
                TerminalAction::LaunchWt
            } else {
                TerminalAction::LaunchCmd
            }
        },
        TerminalEvent::WtLaunched { outcome } => {
            match outcome {
                Ok(_) => TerminalAction::Finish(launch_result(outcome)),
                Err(_) => TerminalAction::LaunchCmd,
            }
        },
        TerminalEvent::CmdLaunched { outcome } => TerminalAction::Finish(launch_result(outcome)),
    }
}

/// `~` names the root of a distribution: its share path is the share root.
pub proof fn lemma_home_is_share_root(distro: Seq<char>)
    ensures
        share_path(distro, "~"@) == share_root(distro),
{
}

/// Items joined with `:` between them.
pub open spec fn colon_joined(items: Seq<Seq<char>>) -> Seq<char>
    decreases items.len(),
{
    if items.len() == 0 {
        Seq::empty()
    } else if items.len() == 1 {
        items[0]
    } else {
        colon_joined(items.drop_last()) + ":"@ + items.last()
    }
}

/// The `WSLENV` entries of the exports: each name followed by `/u`.
pub open spec fn wslenv_items(exports: Seq<(String, String)>) -> Seq<Seq<char>> {
    exports.map_values(|p: (String, String)| p.0@ + "/u"@)
}

proof fn lemma_wslenv_entries_joined(exports: Seq<(String, String)>)
    requires
        exports.len() > 0,
    ensures
        wslenv_entries(exports) == colon_joined(wslenv_items(exports)) + ":"@,
    decreases exports.len(),
{
    reveal_strlit("/u:");
    reveal_strlit("/u");
    reveal_strlit(":");
    let dl = exports.drop_last();
    let k = exports.last().0@;
    assert(wslenv_items(exports).drop_last() =~= wslenv_items(dl));
    assert(wslenv_items(exports).last() == k + "/u"@);
    if exports.len() == 1 {
        assert(wslenv_entries(dl) =~= Seq::<char>::empty());
        assert(wslenv_entries(exports) =~= k + "/u"@ + ":"@);
    } else {
        lemma_wslenv_entries_joined(dl);
        assert(wslenv_entries(exports) =~= colon_joined(wslenv_items(exports)) + ":"@);
    }
}

/// `WSLENV` forwards every exported variable, in order: it is the entries
/// `NAME/u` of the exports joined with `:`.
pub proof fn lemma_wslenv_forwards_every_export(exports: Seq<(String, String)>)
    requires
        exports.len() > 0,
    ensures
        wslenv_value(exports) == colon_joined(wslenv_items(exports)),
{
    lemma_wslenv_entries_joined(exports);
    reveal_strlit(":");
    assert(wslenv_value(exports) =~= colon_joined(wslenv_items(exports)));
}

/// Exporting variables into a console terminal keeps the launch of the
/// plain terminal and only adds a shell command after it, which runs the
/// exports and then a login shell.
pub proof fn lemma_console_exports_extend(name: Seq<char>, cd: Seq<char>, exports: Seq<(String, String)>)
    ensures
        cmd_args(name, cd, Some(exports)).len() == cmd_args(name, cd, None).len() + 4,
        cmd_args(name, cd, Some(exports)).subrange(0, cmd_args(name, cd, None).len() as int)
            == cmd_args(name, cd, None),
        cmd_args(name, cd, Some(exports)).last() == login_shell_command(exports),
{
    assert(cmd_args(name, cd, Some(exports)).subrange(0, cmd_args(name, cd, None).len() as int)
        =~= cmd_args(name, cd, None));
}

/// Opening a terminal, from request to report, with whether Windows Terminal
/// is available and the outcomes the two launches would have.
pub open spec fn terminal_run(
    wt_available: bool,
    wt_outcome: Result<(), String>,
    cmd_outcome: Result<(), String>,
) -> TerminalNext {
    let first = terminal_next(TerminalEvent::Requested { wt_available });
    let second = if first is LaunchWt {
        terminal_next(TerminalEvent::WtLaunched { outcome: wt_outcome })
    } else {
        first
    };
    if second is LaunchCmd {
        terminal_next(TerminalEvent::CmdLaunched { outcome: cmd_outcome })
    } else {
        second
    }
}

/// Opening a terminal always ends with a report. The console launch runs
/// exactly when Windows Terminal is missing or failed to start; the report
/// is a success exactly when one of the launches that ran succeeded, and
/// otherwise carries the console launch's error.
pub proof fn lemma_terminal_falls_back(
    wt_available: bool,
    wt_outcome: Result<(), String>,
    cmd_outcome: Result<(), String>,
)
    ensures
        terminal_run(wt_available, wt_outcome, cmd_outcome) is Finish,
        wt_available && wt_outcome is Ok ==> terminal_run(wt_available, wt_outcome, cmd_outcome)
            == TerminalNext::Finish(launch_report(wt_outcome)),
        !(wt_available && wt_outcome is Ok) ==> terminal_run(wt_available, wt_outcome, cmd_outcome)
            == TerminalNext::Finish(launch_report(cmd_outcome)),
        terminal_run(wt_available, wt_outcome, cmd_outcome)->Finish_0.success == ((wt_available
            && wt_outcome is Ok) || cmd_outcome is Ok),
{
}

/// The Windows Terminal launch names the distribution and titles the window
/// after it; the working directory, when one is set, follows `--cd` exactly
/// as given, and otherwise no `--cd` is passed at all.
pub proof fn lemma_wt_args_verbatim(name: Seq<char>, cd: Seq<char>)
    ensures
        wt_args(name, cd).len() == (if cd.len() == 0 { 5int } else { 7int }),
        wt_args(name, cd)[0] == "--title"@,
        wt_args(name, cd)[1] == "WSL: "@ + name,
        wt_args(name, cd)[2] == "wsl.exe"@,
        wt_args(name, cd)[3] == "-d"@,
        wt_args(name, cd)[4] == name,
        cd.len() > 0 ==> wt_args(name, cd)[5] == "--cd"@ && wt_args(name, cd)[6] == cd,
{
}

/// The console launch names the distribution, titles the window after it,
/// and always passes the working directory after `--cd` exactly as given,
/// whether or not variables are exported; exports only append
/// `-- bash -c <command>`.
pub proof fn lemma_console_args_verbatim(
    name: Seq<char>,
    cd: Seq<char>,
    exports: Option<Seq<(String, String)>>,
)
    ensures
        cmd_args(name, cd, exports).len() == (if exports is None { 8int } else { 12int }),
        cmd_args(name, cd, exports)[0] == "/c"@,
        cmd_args(name, cd, exports)[1] == "start"@,
        cmd_args(name, cd, exports)[2] == "WSL: "@ + name,
        cmd_args(name, cd, exports)[3] == "wsl.exe"@,
        cmd_args(name, cd, exports)[4] == "-d"@,
        cmd_args(name, cd, exports)[5] == name,
        cmd_args(name, cd, exports)[6] == "--cd"@,
        cmd_args(name, cd, exports)[7] == cd,
        exports is Some ==> cmd_args(name, cd, exports)[8] == "--"@ && cmd_args(name, cd, exports)[9]
            == "bash"@ && cmd_args(name, cd, exports)[10] == "-c"@,
{
}

/// A share path starts with `\\wsl$\` and the distribution's name; a
/// sub-path other than `~` follows after one `\`, character for character,
/// with each `/` turned into `\`.
pub proof fn lemma_share_path_layout(distro: Seq<char>, sub: Seq<char>)
    ensures
        sub == "~"@ ==> share_path(distro, sub) == "\\\\wsl$\\"@ + distro,
        sub != "~"@ ==> {
            let root = "\\\\wsl$\\"@ + distro;
            &&& share_path(distro, sub).len() == root.len() + 1 + sub.len()
            &&& share_path(distro, sub).subrange(0, root.len() as int) == root
            &&& share_path(distro, sub)[root.len() as int] == '\\'
            &&& forall|i: int|
                0 <= i < sub.len() ==> #[trigger] share_path(distro, sub)[root.len() + 1 + i] == (
                if sub[i] == '/' {
                    '\\'
                } else {
                    sub[i]
                })
        },
{
    reveal_strlit("\\");
    let root = "\\\\wsl$\\"@ + distro;
    if sub != "~"@ {
        assert(share_path(distro, sub).subrange(0, root.len() as int) =~= root);
        assert(share_path(distro, sub)[root.len() as int] == "\\"@[0]);
    }
}

/// The Windows Terminal launch sets every exported variable, in order, to
/// exactly its value, and then `WSLENV` naming each of them as `NAME/u`,
/// joined with `:`; with nothing exported, it sets nothing.
pub proof fn lemma_wt_envs_forward(ex: Seq<(String, String)>)
    ensures
        wt_envs(Some(ex)).len() == (if ex.len() == 0 { 0int } else { ex.len() + 1int }),
        forall|i: int| 0 <= i < ex.len() ==> #[trigger] wt_envs(Some(ex))[i] == (ex[i].0@, ex[i].1@),
        ex.len() > 0 ==> wt_envs(Some(ex))[ex.len() as int] == ("WSLENV"@, colon_joined(
            wslenv_items(ex),
        )),
        wt_envs(None).len() == 0,
{
    if ex.len() > 0 {
        lemma_wslenv_forwards_every_export(ex);
    }
}

/// The export script of two lists of variables one after the other is the
/// script of the first followed by the script of the second; one variable
/// makes `export NAME=VALUE; `.
pub proof fn lemma_export_script_concat(a: Seq<(String, String)>, b: Seq<(String, String)>)
    ensures
        export_script(a + b) == export_script(a) + export_script(b),
        b.len() == 1 ==> export_script(b) == "export "@ + b[0].0@ + "="@ + b[0].1@ + "; "@,
    decreases b.len(),
{
    if b.len() == 0 {
        assert(a + b =~= a);
        assert(export_script(b) =~= Seq::<char>::empty());
        assert(export_script(a) + export_script(b) =~= export_script(a));
    } else {
        lemma_export_script_concat(a, b.drop_last());
        assert((a + b).drop_last() =~= a + b.drop_last());
        assert((a + b).last() == b.last());
        assert(export_script(a + b) =~= export_script(a) + export_script(b));
        if b.len() == 1 {
            assert(b.drop_last() =~= Seq::<(String, String)>::empty());
            assert(export_script(b) =~= "export "@ + b[0].0@ + "="@ + b[0].1@ + "; "@);
        }
    }
}

} // verus!
