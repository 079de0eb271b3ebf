//! What the distribution page of the dashboard does on each user action,
//! decided from plain values: which link to open or copy, which proxy
//! variables a terminal gets, whether an action may run now, and what the
//! settings and information dialogs show.

use vstd::prelude::*;
use vstd::string::*;

use crate::launch::{pair_texts, wslenv_entries, wslenv_value, wt_envs};
use crate::models::{opt_text, WslCommandResult};
use crate::text::{has_prefix, same_text, starts_with};

verus! {

/// What to do when the link in a message is clicked.
#[derive(Debug, Clone, PartialEq, Eq)]
pub enum LinkAction {
    /// Nothing.
    Ignore,
    /// Put this text on the clipboard.
    CopyToClipboard(String),
    /// Open this web address.
    OpenUrl(String),
    /// Open this local path if it exists (see `local_link_target`).
    OpenLocal(String),
}

/// A link action, by the characters of its text.
pub enum LinkStep {
    Ignore,
    CopyToClipboard(Seq<char>),
    OpenUrl(Seq<char>),
    OpenLocal(Seq<char>),
}

impl View for LinkAction {
    type V = LinkStep;

    open spec fn view(&self) -> LinkStep {
        match self {
            LinkAction::Ignore => LinkStep::Ignore,
            LinkAction::CopyToClipboard(t) => LinkStep::CopyToClipboard(t@),
            LinkAction::OpenUrl(t) => LinkStep::OpenUrl(t@),
            LinkAction::OpenLocal(t) => LinkStep::OpenLocal(t@),
        }
    }
}

/// `s` is an `http://` or `https://` address.
pub open spec fn is_web_link(s: Seq<char>) -> bool {
    starts_with(s, "http://"@) || starts_with(s, "https://"@)
}

/// The message's link target: its address, or its link text when the address is empty.
pub open spec fn link_target(url: Seq<char>, link: Seq<char>) -> Seq<char> {
    if url.len() == 0 {
        link
    } else {
        url
    }
}

/// A message whose address is `clipboard` copies its link text (when there
/// is any); any other message opens its target, as a web address or as a
/// local path.
pub open spec fn link_step(url: Seq<char>, link: Seq<char>) -> LinkStep {
    if url == "clipboard"@ {
        if link.len() == 0 {
            LinkStep::Ignore
        } else {
            LinkStep::CopyToClipboard(link)
        }
    } else if is_web_link(link_target(url, link)) {
        LinkStep::OpenUrl(link_target(url, link))
    } else {
        LinkStep::OpenLocal(link_target(url, link))
    }
}

/// What clicking a message's link does, given the message's address `url`
/// and its link text `link`.
pub fn message_link_action(url: &str, link: &str) -> (res: LinkAction)
    ensures
        res@ == link_step(url@, link@),
        url@ != "clipboard"@ && url@.len() > 0 ==> res@ == (if starts_with(url@, "http://"@)
            || starts_with(url@, "https://"@) {
            LinkStep::OpenUrl(url@)
        } else {
            LinkStep::OpenLocal(url@)
        }),
        url@.len() == 0 ==> res@ == (if starts_with(link@, "http://"@) || starts_with(
            link@,
            "https://"@,
        ) {
            LinkStep::OpenUrl(link@)
        } else {
            LinkStep::OpenLocal(link@)
        }),
        url@ == "clipboard"@ ==> res@ == (if link@.len() == 0 {
            LinkStep::Ignore
        } else {
            LinkStep::CopyToClipboard(link@)
        }),
{
    proof {
        lemma_link_opens_its_target(url@, link@);
    }
    if same_text(url, "clipboard") {
        if link.is_empty() {
            LinkAction::Ignore
        } else {
            LinkAction::CopyToClipboard(link.to_owned())
        }
    } else {
        let target = if url.is_empty() {
            link
        } else {
            url
        };
        if has_prefix(target, "http://") || has_prefix(target, "https://") {
            LinkAction::OpenUrl(target.to_owned())
        } else {
            LinkAction::OpenLocal(target.to_owned())
        }
    }
}

/// What a local link opens: the path when it exists, else the startup
/// folder when that is known, else nothing.
pub open spec fn local_target(path: Seq<char>, exists: bool, startup_dir: Option<Seq<char>>) -> Option<Seq<char>> {
    if exists {
        Some(path)
    } else {
        startup_dir
    }
}

/// What a local link opens, given whether its path exists and the startup
/// folder, when that could be found.
pub fn local_link_target(path: String, exists: bool, startup_dir: Option<String>) -> (res: Option<String>)
    ensures
        opt_text(res) == local_target(path@, exists, opt_text(startup_dir)),
        exists ==> opt_text(res) == Some(path@),
        !exists ==> opt_text(res) == opt_text(startup_dir),
{
    if exists {
        Some(path)
    } else {
        startup_dir
    }
}

/// The dashboard's network proxy settings.
#[derive(Debug, Clone, PartialEq, Eq)]
pub struct ProxyConfig {
    pub is_enabled: bool,
    pub host: String,
    pub port: String,
    pub auth_enabled: bool,
    pub username: String,
    pub password: String,
    pub no_proxy: String,
}

/// The proxy is used for a terminal: the distribution asks for it, and the
/// proxy is enabled with a host and a port.
pub open spec fn proxy_applies(terminal_proxy: bool, proxy: ProxyConfig) -> bool {
    terminal_proxy && proxy.is_enabled && proxy.host@.len() > 0 && proxy.port@.len() > 0
}

/// The credentials part of the proxy address: `user:password@` when
/// authentication is on and both are given, else nothing.
pub open spec fn proxy_credentials(proxy: ProxyConfig) -> Seq<char> {
    if proxy.auth_enabled && proxy.username@.len() > 0 && proxy.password@.len() > 0 {
        proxy.username@ + ":"@ + proxy.password@ + "@"@
    } else {
        Seq::empty()
    }
}

/// The proxy address: `http://`, the credentials, the host, `:` and the port.
pub open spec fn proxy_address(proxy: ProxyConfig) -> Seq<char> {
    "http://"@ + proxy_credentials(proxy) + proxy.host@ + ":"@ + proxy.port@
}

/// The variables exported into a terminal: when the proxy applies,
/// `HTTP_PROXY` and `HTTPS_PROXY` set to its address, then `NO_PROXY` when
/// there are exceptions; otherwise none at all.
pub open spec fn proxy_exports(terminal_proxy: bool, proxy: ProxyConfig) -> Option<Seq<(Seq<char>, Seq<char>)>> {
    if proxy_applies(terminal_proxy, proxy) {
        Some(seq![("HTTP_PROXY"@, proxy_address(proxy)), ("HTTPS_PROXY"@, proxy_address(proxy))]
            + if proxy.no_proxy@.len() > 0 {
            seq![("NO_PROXY"@, proxy.no_proxy@)]
        } else {
            Seq::<(Seq<char>, Seq<char>)>::empty()
        })
    } else {
        None
    }
}

/// Texts of optional exports.
pub open spec fn opt_pair_texts(v: Option<Vec<(String, String)>>) -> Option<Seq<(Seq<char>, Seq<char>)>> {
    match v {
        Some(x) => Some(pair_texts(x@)),
        None => None,
    }
}

/// The proxy address of `proxy`.
pub fn proxy_url(proxy: &ProxyConfig) -> (res: String)
    ensures
        res@ == proxy_address(*proxy),
        proxy.auth_enabled && proxy.username@.len() > 0 && proxy.password@.len() > 0 ==> res@
            == "http://"@ + proxy.username@ + ":"@ + proxy.password@ + "@"@ + proxy.host@ + ":"@
            + proxy.port@,
        !(proxy.auth_enabled && proxy.username@.len() > 0 && proxy.password@.len() > 0) ==> res@
            == "http://"@ + proxy.host@ + ":"@ + proxy.port@,
{
    proof {
        lemma_proxy_address_parts(*proxy);
    }
    let mut url = "http://".to_owned();
    if proxy.auth_enabled && !proxy.username.as_str().is_empty() && !proxy.password.as_str().is_empty() {
        url.append(proxy.username.as_str());
        url.append(":");
        url.append(proxy.password.as_str());
        url.append("@");
    }
    url.append(proxy.host.as_str());
    url.append(":");
    url.append(proxy.port.as_str());
    url
}

/// The variables to export into a distribution's terminal, given whether
/// the distribution uses the proxy and the proxy settings.
pub fn terminal_proxy_exports(terminal_proxy: bool, proxy: &ProxyConfig) -> (res: Option<Vec<(String, String)>>)
    ensures
        opt_pair_texts(res) == proxy_exports(terminal_proxy, *proxy),
        res is Some == (terminal_proxy && proxy.is_enabled && proxy.host@.len() > 0
            && proxy.port@.len() > 0),
        res is Some ==> {
            let ex = pair_texts(res->0@);
            &&& ex.len() == (if proxy.no_proxy@.len() > 0 { 3int } else { 2int })
            &&& ex[0] == ("HTTP_PROXY"@, proxy_address(*proxy))
            &&& ex[1] == ("HTTPS_PROXY"@, proxy_address(*proxy))
            &&& proxy.no_proxy@.len() > 0 ==> ex[2] == ("NO_PROXY"@, proxy.no_proxy@)
        },
{
    proof {
        lemma_proxy_exports_shape(terminal_proxy, *proxy);
    }
    if terminal_proxy && proxy.is_enabled && !proxy.host.as_str().is_empty()
        && !proxy.port.as_str().is_empty() {
        let url = proxy_url(proxy);
        let mut exports: Vec<(String, String)> = Vec::new();
        exports.push(("HTTP_PROXY".to_owned(), url.clone()));
        exports.push(("HTTPS_PROXY".to_owned(), url.clone()));
        if !proxy.no_proxy.as_str().is_empty() {
            exports.push(("NO_PROXY".to_owned(), proxy.no_proxy.clone()));
        }
        assert(pair_texts(exports@) =~= proxy_exports(terminal_proxy, *proxy)->0);
        Some(exports)
    } else {
        None
    }
}

/// Whether an action on a distribution may start.
#[derive(Debug, Clone, PartialEq, Eq)]
pub enum Gate {
    /// It may.
    Proceed,
    /// The distribution is busy with this operation.
    DistroBusy(String),
    /// A system-wide operation is running.
    SystemBusy,
}

/// An action's gate, by the characters of the operation's name.
pub enum GateStep {
    Proceed,
    DistroBusy(Seq<char>),
    SystemBusy,
}

impl View for Gate {
    type V = GateStep;

    open spec fn view(&self) -> GateStep {
        match self {
            Gate::Proceed => GateStep::Proceed,
            Gate::DistroBusy(op) => GateStep::DistroBusy(op@),
            Gate::SystemBusy => GateStep::SystemBusy,
        }
    }
}

/// An operation running on the distribution stops any action; a
/// system-wide operation stops the actions that need the system alone.
pub open spec fn gate_step(active_op: Option<Seq<char>>, needs_exclusive: bool, system_busy: bool) -> GateStep {
    match active_op {
        Some(op) => GateStep::DistroBusy(op),
        None => if needs_exclusive && system_busy {
            GateStep::SystemBusy
        } else {
            GateStep::Proceed
        },
    }
}

/// Whether an action may start, given the operation running on the
/// distribution, whether the action needs the system alone, and whether a
/// system-wide operation is running (only asked for when it matters).
pub fn operation_gate(active_op: Option<String>, needs_exclusive: bool, system_busy: bool) -> (res: Gate)
    ensures
        res@ == gate_step(opt_text(active_op), needs_exclusive, system_busy),
        active_op is Some ==> res@ == GateStep::DistroBusy(active_op->0@),
        active_op is None && needs_exclusive && system_busy ==> res is SystemBusy,
        active_op is None && !(needs_exclusive && system_busy) ==> res is Proceed,
{
    match active_op {
        Some(op) => Gate::DistroBusy(op),
        None => {
            if needs_exclusive && system_busy {
                Gate::SystemBusy
            } else {
                Gate::Proceed
            }
        },
    }
}

/// One row of the distribution list as shown.
#[derive(Debug, Clone, PartialEq, Eq)]
pub struct DistroRow {
    pub name: String,
    pub is_default: bool,
}

/// The default flag of the first readable row named `name`; `false` when
/// there is none.
pub open spec fn row_default(rows: Seq<Option<DistroRow>>, name: Seq<char>) -> bool
    decreases rows.len(),
{
    if rows.len() == 0 {
        false
    } else if rows[0] matches Some(r) && r.name@ == name {
        rows[0]->0.is_default
    } else {
        row_default(rows.drop_first(), name)
    }
}

/// Whether the list shows the distribution `name` as the default one
/// (`None` stands for a row that could not be read).
pub fn row_is_default(rows: &Vec<Option<DistroRow>>, name: &str) -> (res: bool)
    ensures
        res == row_default(rows@, name@),
        res == (exists|i: int|
            0 <= i < rows@.len() && #[trigger] rows@[i] is Some && rows@[i]->0.name@ == name@
                && rows@[i]->0.is_default && forall|j: int|
                0 <= j < i ==> !(#[trigger] rows@[j] is Some && rows@[j]->0.name@ == name@)),
{
    proof {
        lemma_default_is_first_exact_row(rows@, name@);
    }
    let n = rows.len();
    let mut i: usize = 0;
    assert(rows@.subrange(0, n as int) =~= rows@);
    while i < n
        invariant
            n == rows@.len(),
            i <= n,
            row_default(rows@, name@) == row_default(rows@.subrange(i as int, n as int), name@),
        decreases n - i,
    {
        let rest = Ghost(rows@.subrange(i as int, n as int));
        assert(rest@[0] == rows@[i as int]);
        assert(rest@.drop_first() =~= rows@.subrange(i + 1, n as int));
        match &rows[i] {
            Some(row) => {
                if same_text(row.name.as_str(), name) {
                    proof {
                        lemma_default_is_first_exact_row(rows@, name@);
                    }
                    return row.is_default;
                }
            },
            None => {},
        }
        i = i + 1;
    }
    false
}

/// A distribution's own settings.
#[derive(Debug, Clone, PartialEq, Eq)]
pub struct InstanceConfig {
    pub terminal_dir: String,
    pub vscode_dir: String,
    pub startup_script: String,
    pub terminal_proxy: bool,
    pub auto_startup: bool,
}

/// What the settings dialog shows when it opens.
#[derive(Debug, Clone, PartialEq, Eq)]
pub struct SettingsForm {
    pub distro_name: String,
    pub is_default: bool,
    pub lock_default: bool,
    pub terminal_dir: String,
    pub vscode_dir: String,
    pub startup_script: String,
    pub terminal_proxy: bool,
    pub autostart: bool,
    pub is_task_exists: bool,
    pub terminal_dir_error: String,
    pub vscode_dir_error: String,
    pub startup_script_error: String,
    pub default_error: String,
    pub enable_sparse: bool,
    pub sparse_fixed: bool,
}

/// The settings dialog of `name`: its stored settings; the default flag,
/// locked when set; autostart shown on only when the startup task exists;
/// no errors; sparse disk off until probed.
pub fn settings_form(name: String, is_default: bool, config: InstanceConfig, task_exists: bool) -> (res: SettingsForm)
    ensures
        res.distro_name@ == name@,
        res.is_default == is_default,
        res.lock_default == is_default,
        res.terminal_dir@ == config.terminal_dir@,
        res.vscode_dir@ == config.vscode_dir@,
        res.startup_script@ == config.startup_script@,
        res.terminal_proxy == config.terminal_proxy,
        res.autostart == (config.auto_startup && task_exists),
        res.is_task_exists == task_exists,
        res.terminal_dir_error@.len() == 0,
        res.vscode_dir_error@.len() == 0,
        res.startup_script_error@.len() == 0,
        res.default_error@.len() == 0,
        !res.enable_sparse,
        !res.sparse_fixed,
{
    SettingsForm {
        distro_name: name,
        is_default,
        lock_default: is_default,
        terminal_dir: config.terminal_dir,
        vscode_dir: config.vscode_dir,
        startup_script: config.startup_script,
        terminal_proxy: config.terminal_proxy,
        autostart: config.auto_startup && task_exists,
        is_task_exists: task_exists,
        terminal_dir_error: String::new(),
        vscode_dir_error: String::new(),
        startup_script_error: String::new(),
        default_error: String::new(),
        enable_sparse: false,
        sparse_fixed: false,
    }
}

/// A distribution as the Windows registry lists it.
#[derive(Debug, Clone, PartialEq, Eq)]
pub struct RegisteredDistro {
    pub name: String,
    pub version: u32,
    pub base_path: String,
}

/// Where to look for the disk image whose sparseness the settings dialog
/// shows: the base path of the first registered distribution named `name`,
/// when that one runs under WSL 2; nothing otherwise.
pub open spec fn sparse_base(distros: Seq<RegisteredDistro>, name: Seq<char>) -> Option<Seq<char>>
    decreases distros.len(),
{
    if distros.len() == 0 {
        None
    } else if distros[0].name@ == name {
        if distros[0].version == 2 {
            Some(distros[0].base_path@)
        } else {
            None
        }
    } else {
        sparse_base(distros.drop_first(), name)
    }
}

/// The base path to probe for a sparse disk image of `name`.
pub fn sparse_probe_base(distros: &Vec<RegisteredDistro>, name: &str) -> (res: Option<String>)
    ensures
        opt_text(res) == sparse_base(distros@, name@),
        res is Some ==> exists|i: int|
            0 <= i < distros@.len() && #[trigger] distros@[i].name@ == name@ && distros@[i].version
                == 2 && distros@[i].base_path@ == res->0@ && forall|j: int|
                0 <= j < i ==> #[trigger] distros@[j].name@ != name@,
        res is None ==> forall|i: int|
            0 <= i < distros@.len() && #[trigger] distros@[i].name@ == name@ ==> (distros@[i].version
                != 2 || exists|j: int| 0 <= j < i && #[trigger] distros@[j].name@ == name@),
{
    proof {
        lemma_sparse_base_is_first_exact_entry(distros@, name@);
    }
    let n = distros.len();
    let mut i: usize = 0;
    assert(distros@.subrange(0, n as int) =~= distros@);
    while i < n
        invariant
            n == distros@.len(),
            i <= n,
            sparse_base(distros@, name@) == sparse_base(distros@.subrange(i as int, n as int), name@),
        decreases n - i,
    {
        let rest = Ghost(distros@.subrange(i as int, n as int));
        assert(rest@[0] == distros@[i as int]);
        assert(rest@.drop_first() =~= distros@.subrange(i + 1, n as int));
        if same_text(distros[i].name.as_str(), name) {
            proof {
                lemma_sparse_base_is_first_exact_entry(distros@, name@);
            }
            if distros[i].version == 2 {
                return Some(distros[i].base_path.clone());
            } else {
                return None;
            }
        }
        i = i + 1;
    }
    None
}

/// What the information action shows.
#[derive(Debug, Clone, PartialEq, Eq)]
pub enum InfoOutcome<T> {
    /// The information dialog, filled with these details.
    Show(T),
    /// Nothing: the query succeeded without details.
    Nothing,
    /// A failure message, with the error text when the query gave one.
    Failed(Option<String>),
}

/// What the information action shows for the query's report: its details
/// when it succeeded with some, nothing when it succeeded without, and its
/// error when it failed.
pub fn information_outcome<T>(result: WslCommandResult<T>) -> (res: InfoOutcome<T>)
    ensures
        result.success && result.data is Some ==> res == InfoOutcome::Show(result.data->0),
        result.success && result.data is None ==> res is Nothing,
        !result.success ==> (res matches InfoOutcome::Failed(e) && opt_text(e) == result.error_text()),
{
    if result.success {
        match result.data {
            Some(data) => InfoOutcome::Show(data),
            None => InfoOutcome::Nothing,
        }
    } else {
        InfoOutcome::Failed(result.error)
    }
}

/// A message addressed to `clipboard` never opens anything: it copies its
/// link text, or does nothing when there is none.
pub proof fn lemma_clipboard_never_opens(link: Seq<char>)
    ensures
        link_step("clipboard"@, link) == (if link.len() == 0 {
            LinkStep::Ignore
        } else {
            LinkStep::CopyToClipboard(link)
        }),
{
}

/// An action proceeds exactly when no operation runs on its distribution
/// and, for an action that needs the system alone, no system-wide operation
/// runs; a busy distribution is reported before a busy system.
pub proof fn lemma_gate_proceeds(active_op: Option<Seq<char>>, needs_exclusive: bool, system_busy: bool)
    ensures
        (gate_step(active_op, needs_exclusive, system_busy) is Proceed) == (active_op is None && !(
        needs_exclusive && system_busy)),
        active_op is Some ==> gate_step(active_op, needs_exclusive, system_busy) == GateStep::DistroBusy(
            active_op->0,
        ),
{
}

/// When the proxy applies, a terminal gets the same address in
/// `HTTP_PROXY` and `HTTPS_PROXY`, and `NO_PROXY` exactly when exceptions
/// are set; without the proxy, nothing is exported.
pub proof fn lemma_proxy_exports_shape(terminal_proxy: bool, proxy: ProxyConfig)
    ensures
        proxy_exports(terminal_proxy, proxy) is Some == proxy_applies(terminal_proxy, proxy),
        proxy_applies(terminal_proxy, proxy) ==> {
            let ex = proxy_exports(terminal_proxy, proxy)->0;
            &&& ex[0] == ("HTTP_PROXY"@, proxy_address(proxy))
            &&& ex[1] == ("HTTPS_PROXY"@, proxy_address(proxy))
            &&& ex.len() == (if proxy.no_proxy@.len() > 0 { 3int } else { 2int })
        },
{
}

/// The proxy variables reach the shell inside a Windows Terminal launch:
/// they are set as given, and `WSLENV` forwards `HTTP_PROXY`, `HTTPS_PROXY`
/// and, when set, `NO_PROXY`.
pub proof fn lemma_proxy_forwarded_by_wslenv(
    terminal_proxy: bool,
    proxy: ProxyConfig,
    exports: Seq<(String, String)>,
)
    requires
        proxy_exports(terminal_proxy, proxy) == Some(pair_texts(exports)),
    ensures
        wt_envs(Some(exports)).subrange(0, exports.len() as int) == pair_texts(exports),
        wt_envs(Some(exports)).last() == ("WSLENV"@, if proxy.no_proxy@.len() > 0 {
            "HTTP_PROXY/u:HTTPS_PROXY/u:NO_PROXY/u"@
        } else {
            "HTTP_PROXY/u:HTTPS_PROXY/u"@
        }),
{
    reveal_strlit("HTTP_PROXY");
    reveal_strlit("HTTPS_PROXY");
    reveal_strlit("NO_PROXY");
    reveal_strlit("/u:");
    reveal_strlit("HTTP_PROXY/u:HTTPS_PROXY/u:NO_PROXY/u");
    reveal_strlit("HTTP_PROXY/u:HTTPS_PROXY/u");
    let p = pair_texts(exports);
    assert(p.len() == exports.len());
    assert(exports[0].0@ == p[0].0);
    assert(exports[1].0@ == p[1].0);
    let e1 = exports.subrange(0, 1);
    let e2 = exports.subrange(0, 2);
    assert(e1.drop_last() =~= Seq::<(String, String)>::empty());
    assert(e2.drop_last() =~= e1);
    reveal_strlit("HTTP_PROXY/u:");
    reveal_strlit("HTTP_PROXY/u:HTTPS_PROXY/u:");
    assert(e1.last() == exports[0]);
    assert(e2.last() == exports[1]);
    assert(wslenv_entries(e1.drop_last()) =~= Seq::<char>::empty());
    assert(wslenv_entries(e1) == wslenv_entries(e1.drop_last()) + exports[0].0@ + "/u:"@);
    assert(wslenv_entries(e1) =~= "HTTP_PROXY/u:"@);
    assert(wslenv_entries(e2) == wslenv_entries(e1) + exports[1].0@ + "/u:"@);
    assert(wslenv_entries(e2) =~= "HTTP_PROXY/u:HTTPS_PROXY/u:"@);
    if proxy.no_proxy@.len() > 0 {
        assert(exports[2].0@ == p[2].0);
        assert(exports.drop_last() =~= e2);
        assert(wslenv_entries(exports) == wslenv_entries(e2) + exports[2].0@ + "/u:"@);
        assert(wslenv_value(exports) =~= "HTTP_PROXY/u:HTTPS_PROXY/u:NO_PROXY/u"@);
    } else {
        assert(exports =~= e2);
        assert(wslenv_value(exports) =~= "HTTP_PROXY/u:HTTPS_PROXY/u"@);
    }
    assert(wt_envs(Some(exports)).subrange(0, exports.len() as int) =~= pair_texts(exports));
}

/// A message with an address other than `clipboard` opens that address,
/// as a web page exactly when it begins with `http://` or `https://` and as a
/// local path otherwise, whatever its link text; a message without an
/// address does the same with its link text.
pub proof fn lemma_link_opens_its_target(url: Seq<char>, link: Seq<char>)
    ensures
        url != "clipboard"@ && url.len() > 0 ==> link_step(url, link) == (if starts_with(
            url,
            "http://"@,
        ) || starts_with(url, "https://"@) {
            LinkStep::OpenUrl(url)
        } else {
            LinkStep::OpenLocal(url)
        }),
        url.len() == 0 ==> link_step(url, link) == (if starts_with(link, "http://"@) || starts_with(
            link,
            "https://"@,
        ) {
            LinkStep::OpenUrl(link)
        } else {
            LinkStep::OpenLocal(link)
        }),
        forall|other: Seq<char>|
            url != "clipboard"@ && url.len() > 0 ==> #[trigger] link_step(url, other) == link_step(
                url,
                link,
            ),
{
    reveal_strlit("clipboard");
}

/// The default flag shown in the settings dialog is that of the first
/// readable row whose name is exactly the distribution's name; rows with
/// any other name, and unreadable rows, never decide it; with no such row
/// the flag is off.
pub proof fn lemma_default_is_first_exact_row(rows: Seq<Option<DistroRow>>, name: Seq<char>)
    ensures
        row_default(rows, name) == (exists|i: int|
            0 <= i < rows.len() && #[trigger] rows[i] is Some && rows[i]->0.name@ == name
                && rows[i]->0.is_default && forall|j: int|
                0 <= j < i ==> !(#[trigger] rows[j] is Some && rows[j]->0.name@ == name)),
    decreases rows.len(),
{
    if rows.len() == 0 {
    } else if rows[0] matches Some(r) && r.name@ == name {
        if !rows[0]->0.is_default {
            assert forall|i: int|
                0 <= i < rows.len() && #[trigger] rows[i] is Some && rows[i]->0.name@ == name
                    && rows[i]->0.is_default implies !(forall|j: int|
                0 <= j < i ==> !(#[trigger] rows[j] is Some && rows[j]->0.name@ == name)) by {
                assert(i != 0);
                assert(rows[0] is Some && rows[0]->0.name@ == name);
            }
        } else {
            assert(rows[0] is Some);
        }
    } else {
        let rest = rows.drop_first();
        lemma_default_is_first_exact_row(rest, name);
        if row_default(rest, name) {
            let i = choose|i: int|
                0 <= i < rest.len() && #[trigger] rest[i] is Some && rest[i]->0.name@ == name
                    && rest[i]->0.is_default && forall|j: int|
                    0 <= j < i ==> !(#[trigger] rest[j] is Some && rest[j]->0.name@ == name);
            assert(rows[i + 1] == rest[i]);
            assert forall|j: int| 0 <= j < i + 1 implies !(#[trigger] rows[j] is Some
                && rows[j]->0.name@ == name) by {
                if j > 0 {
                    assert(rows[j] == rest[j - 1]);
                }
            }
            assert(rows[i + 1] is Some);
        } else {
            assert forall|i: int|
                0 <= i < rows.len() && #[trigger] rows[i] is Some && rows[i]->0.name@ == name
                    && rows[i]->0.is_default implies !(forall|j: int|
                0 <= j < i ==> !(#[trigger] rows[j] is Some && rows[j]->0.name@ == name)) by {
                assert(i != 0);
                assert(rows[i] == rest[i - 1]);
                if forall|j: int| 0 <= j < i ==> !(#[trigger] rows[j] is Some && rows[j]->0.name@ == name) {
                    assert forall|j: int| 0 <= j < i - 1 implies !(#[trigger] rest[j] is Some
                        && rest[j]->0.name@ == name) by {
                        assert(rest[j] == rows[j + 1]);
                    }
                    assert(rest[i - 1] is Some);
                }
            }
        }
    }
}

/// The disk image probed for sparseness belongs to the first registered
/// distribution whose name is exactly the requested one, and only when that
/// one runs under WSL 2; entries with any other name never decide it.
pub proof fn lemma_sparse_base_is_first_exact_entry(distros: Seq<RegisteredDistro>, name: Seq<char>)
    ensures
        sparse_base(distros, name) is Some ==> exists|i: int|
            0 <= i < distros.len() && #[trigger] distros[i].name@ == name && distros[i].version == 2
                && distros[i].base_path@ == sparse_base(distros, name)->0 && forall|j: int|
                0 <= j < i ==> #[trigger] distros[j].name@ != name,
        sparse_base(distros, name) is None ==> forall|i: int|
            0 <= i < distros.len() && #[trigger] distros[i].name@ == name ==> (distros[i].version != 2
                || exists|j: int| 0 <= j < i && #[trigger] distros[j].name@ == name),
    decreases distros.len(),
{
    if distros.len() == 0 {
    } else if distros[0].name@ == name {
        assert forall|i: int|
            0 <= i < distros.len() && #[trigger] distros[i].name@ == name && distros[0].version != 2
                implies (distros[i].version != 2 || exists|j: int|
            0 <= j < i && #[trigger] distros[j].name@ == name) by {
            if i > 0 {
                assert(distros[0].name@ == name);
            }
        }
    } else {
        let rest = distros.drop_first();
        lemma_sparse_base_is_first_exact_entry(rest, name);
        if sparse_base(rest, name) is Some {
            let i = choose|i: int|
                0 <= i < rest.len() && #[trigger] rest[i].name@ == name && rest[i].version == 2
                    && rest[i].base_path@ == sparse_base(rest, name)->0 && forall|j: int|
                    0 <= j < i ==> #[trigger] rest[j].name@ != name;
            assert(distros[i + 1] == rest[i]);
            assert forall|j: int| 0 <= j < i + 1 implies #[trigger] distros[j].name@ != name by {
                if j > 0 {
                    assert(distros[j] == rest[j - 1]);
                }
            }
        } else {
            assert forall|i: int|
                0 <= i < distros.len() && #[trigger] distros[i].name@ == name implies (distros[i].version
                != 2 || exists|j: int| 0 <= j < i && #[trigger] distros[j].name@ == name) by {
                assert(i != 0);
                assert(distros[i] == rest[i - 1]);
                if distros[i].version == 2 {
                    let j = choose|j: int| 0 <= j < i - 1 && #[trigger] rest[j].name@ == name;
                    assert(distros[j + 1] == rest[j]);
                }
            }
        }
    }
}

/// The proxy address is `http://`, then `user:password@` only when
/// authentication is on and both are given, then `host:port`.
pub proof fn lemma_proxy_address_parts(proxy: ProxyConfig)
    ensures
        proxy.auth_enabled && proxy.username@.len() > 0 && proxy.password@.len() > 0
            ==> proxy_address(proxy) == "http://"@ + proxy.username@ + ":"@ + proxy.password@ + "@"@
            + proxy.host@ + ":"@ + proxy.port@,
        !(proxy.auth_enabled && proxy.username@.len() > 0 && proxy.password@.len() > 0)
            ==> proxy_address(proxy) == "http://"@ + proxy.host@ + ":"@ + proxy.port@,
{
    assert("http://"@ + proxy_credentials(proxy) + proxy.host@ + ":"@ + proxy.port@ =~= "http://"@
        + proxy.username@ + ":"@ + proxy.password@ + "@"@ + proxy.host@ + ":"@ + proxy.port@
        || !(proxy.auth_enabled && proxy.username@.len() > 0 && proxy.password@.len() > 0));
    if !(proxy.auth_enabled && proxy.username@.len() > 0 && proxy.password@.len() > 0) {
        assert(proxy_credentials(proxy) =~= Seq::<char>::empty());
        assert(proxy_address(proxy) =~= "http://"@ + proxy.host@ + ":"@ + proxy.port@);
    }
}

} // verus!
