//! Choosing the package manager: by name, or by looking for the executables
//! of the package managers known on the current platform.

use vstd::prelude::*;

use crate::config::{is_default, opt_str_view, Config};
use crate::strings::str_eq;

verus! {

/// The operating system `pacaptr` runs on.
#[derive(Copy, Clone, Debug, PartialEq, Eq, Structural)]
pub enum Os {
    Windows,
    MacOs,
    Ios,
    Linux,
    Other,
}

/// What the choice of a package manager depends on besides the files on
/// disk.
#[derive(Copy, Clone, Debug)]
pub struct Platform {
    /// The operating system.
    pub os: Os,
    /// Whether Termux says that its package manager is `apt`: either
    /// `$TERMUX_APP_PACKAGE_MANAGER` is `apt` or `$TERMUX_MAIN_PACKAGE_FORMAT`
    /// is `debian`.
    pub termux_apt: bool,
}

/// Whether the operating system is macOS.
pub open spec fn is_macos(os: Os) -> bool {
    os == Os::MacOs
}

/// The package managers to look for on each operating system, with the
/// path at which each is usually installed, in order of preference.
pub open spec fn spec_candidates(os: Os) -> Seq<(&'static str, &'static str)> {
    match os {
        Os::Windows => seq![("scoop", ""), ("choco", ""), ("winget", "")],
        Os::MacOs => seq![
            ("brew", "/usr/local/bin/brew"),
            ("port", "/opt/local/bin/port"),
            ("apt", "/opt/procursus/bin/apt"),
        ],
        Os::Ios => seq![("apt", "/usr/bin/apt")],
        Os::Linux => seq![
            ("apk", "/sbin/apk"),
            ("apt", "/usr/bin/apt"),
            ("dnf", "/usr/bin/dnf"),
            ("emerge", "/usr/bin/emerge"),
            ("xbps-install", "/usr/bin/xbps-install"),
            ("zypper", "/usr/bin/zypper"),
        ],
        Os::Other => seq![],
    }
}

/// The package managers to look for on each operating system, in order of
/// preference.
pub fn candidates(os: Os) -> (res: Vec<(&'static str, &'static str)>)
    ensures
        res@ == spec_candidates(os),
{
    match os {
        Os::Windows => vec![("scoop", ""), ("choco", ""), ("winget", "")],
        Os::MacOs => vec![
            ("brew", "/usr/local/bin/brew"),
            ("port", "/opt/local/bin/port"),
            ("apt", "/opt/procursus/bin/apt"),
        ],
        Os::Ios => vec![("apt", "/usr/bin/apt")],
        Os::Linux => vec![
            ("apk", "/sbin/apk"),
            ("apt", "/usr/bin/apt"),
            ("dnf", "/usr/bin/dnf"),
            ("emerge", "/usr/bin/emerge"),
            ("xbps-install", "/usr/bin/xbps-install"),
            ("zypper", "/usr/bin/zypper"),
        ],
        Os::Other => vec![],
    }
}

/// The name of the first candidate found, if any. `found[i]` tells whether
/// the `i`-th candidate was found; candidates past the end of `found` were
/// not.
pub open spec fn spec_first_found(cands: Seq<(&'static str, &'static str)>, found: Seq<bool>) -> Option<Seq<char>>
    decreases cands.len(),
{
    if cands.len() == 0 {
        None
    } else if found.len() > 0 && found[0] {
        Some(cands[0].0@)
    } else {
        spec_first_found(cands.drop_first(), if found.len() > 0 { found.drop_first() } else { found })
    }
}

/// The name of the package manager to use: the first candidate found,
/// `pkg` for `apt` on Termux, and `unknown` when none is found.
pub open spec fn spec_pick(cands: Seq<(&'static str, &'static str)>, found: Seq<bool>, termux_apt: bool) -> Seq<char> {
    match spec_first_found(cands, found) {
        Some(name) => if name == "apt"@ && termux_apt { "pkg"@ } else { name },
        None => "unknown"@,
    }
}

/// Picks the package manager among the candidates, given which of them were
/// found.
pub fn pick(cands: &Vec<(&'static str, &'static str)>, found: &Vec<bool>, termux_apt: bool) -> (res: String)
    ensures
        res@ == spec_pick(cands@, found@, termux_apt),
{
    let mut i: usize = 0;
    assert(cands@.skip(0) =~= cands@);
    assert(found@.skip(0) =~= found@);
    while i < cands.len()
        invariant
            i <= cands@.len(),
            spec_first_found(cands@, found@) == spec_first_found(cands@.skip(i as int), if i <= found@.len() { found@.skip(i as int) } else { Seq::empty() }),
        decreases cands@.len() - i,
    {
        let ghost rest_c = cands@.skip(i as int);
        let ghost rest_f = if i <= found@.len() { found@.skip(i as int) } else { Seq::<bool>::empty() };
        if i < found.len() && found[i] {
            let name = cands[i].0;
            assert(rest_c[0] == cands@[i as int]);
            assert(rest_f[0] == found@[i as int]);
            return finish_pick(name, termux_apt);
        }
        proof {
            assert(rest_c.drop_first() =~= cands@.skip(i + 1));
            if i < found@.len() {
                assert(rest_f.drop_first() =~= found@.skip(i + 1));
            } else {
                assert(rest_f =~= Seq::<bool>::empty());
            }
        }
        i = i + 1;
    }
    assert(cands@.skip(i as int) =~= Seq::<(&'static str, &'static str)>::empty());
    String::from_str("unknown")
}

/// `pkg` for `apt` on Termux, otherwise the name itself.
fn finish_pick(name: &str, termux_apt: bool) -> (res: String)
    ensures
        res@ == (if name@ == "apt"@ && termux_apt { "pkg"@ } else { name@ }),
{
    if termux_apt && str_eq(name, "apt") {
        String::from_str("pkg")
    } else {
        String::from_str(name)
    }
}

/// Reports whether an executable of the given name or path is found.
///
/// Calls `which::which`, which looks the name up in `$PATH` (or checks the
/// given absolute path) for an executable file. The answer depends on the
/// files on disk, so nothing is stated of it.
#[verifier::external_body]
fn exe_found(name: &str) -> bool {
    which::which(name).is_ok()
}

/// Whether `found` is an answer that the lookup of the executable `s`
/// gives: the lookup was made with `s`, and `found` is what came back.
pub closed spec fn lookup_answered(s: &str, found: bool) -> bool {
    call_ensures(exe_found, (s,), found)
}

/// Whether `found` is what checking for the executable `name` or `path`
/// can give: the path is looked up first, when it is not empty, and the
/// name after it, when it is not empty and the path was not found; the
/// check holds when one of these lookups answers yes, and fails when every
/// lookup made answers no.
pub open spec fn exe_check_gave(name: &str, path: &str, found: bool) -> bool {
    &&& found ==> (path@.len() > 0 && lookup_answered(path, true)) || (
        (path@.len() == 0 || lookup_answered(path, false)) && name@.len() > 0 && lookup_answered(name, true))
    &&& !found ==> (path@.len() > 0 ==> lookup_answered(path, false)) && (name@.len() > 0 ==> lookup_answered(name, false))
}

/// Whether `found` gives, for each of the first candidates, what checking
/// for its executable gave.
pub open spec fn checks_gave(cands: Seq<(&'static str, &'static str)>, found: Seq<bool>) -> bool {
    &&& found.len() <= cands.len()
    &&& forall|i: int| 0 <= i < found.len() ==> exe_check_gave(cands[i].0, cands[i].1, #[trigger] found[i])
}

/// Whether an executable is found by name or by path, given the answers of
/// the lookups: the path counts only when it is not empty, and so does the
/// name.
pub open spec fn spec_exe_answer(name: Seq<char>, path: Seq<char>, path_found: bool, name_found: bool) -> bool {
    (path.len() > 0 && path_found) || (name.len() > 0 && name_found)
}

/// Combines the answers of the lookups of an executable by path and by
/// name: an empty path or name never counts.
pub fn exe_answer(name: &str, path: &str, path_found: bool, name_found: bool) -> (res: bool)
    ensures
        res == spec_exe_answer(name@, path@, path_found, name_found),
{
    (path.unicode_len() != 0 && path_found) || (name.unicode_len() != 0 && name_found)
}

/// Checks if an executable exists by name (consulting `$PATH`) or by path.
/// To check by one of them only, pass `""` for the other one: an empty name
/// or path is never looked up. The path is looked up first, and the name
/// only when the path is not found.
pub fn is_exe(name: &str, path: &str) -> (res: bool)
    ensures
        exe_check_gave(name, path, res),
{
    let lookup = exe_found;
    let path_found = path.unicode_len() != 0 && lookup(path);
    let name_found = !path_found && name.unicode_len() != 0 && lookup(name);
    exe_answer(name, path, path_found, name_found)
}

/// Detects the name of the package manager to be used in auto dispatch:
/// the first candidate of the platform whose executable is found (`pkg`
/// for `apt` on Termux), or `unknown`.
pub fn detect_pm_str(platform: Platform) -> (res: String)
    ensures
        exists|found: Seq<bool>|
            checks_gave(spec_candidates(platform.os), found) && res@ == spec_pick(spec_candidates(platform.os), found, platform.termux_apt),
{
    let cands = candidates(platform.os);
    let mut found: Vec<bool> = Vec::new();
    let mut i: usize = 0;
    while i < cands.len()
        invariant
            i <= cands@.len(),
            found@.len() == i,
            cands@ == spec_candidates(platform.os),
            checks_gave(cands@, found@),
        decreases cands@.len() - i,
    {
        let (name, path) = cands[i];
        let f = is_exe(name, path);
        let ghost before = found@;
        found.push(f);
        proof {
            assert forall|j: int| 0 <= j < found@.len() implies exe_check_gave(cands@[j].0, cands@[j].1, #[trigger] found@[j]) by {
                if j < i {
                    assert(found@[j] == before[j]);
                }
            }
        }
        if f {
            let res = pick(&cands, &found, platform.termux_apt);
            assert(checks_gave(spec_candidates(platform.os), found@));
            assert(res@ == spec_pick(spec_candidates(platform.os), found@, platform.termux_apt));
            return res;
        }
        i = i + 1;
    }
    let res = pick(&cands, &found, platform.termux_apt);
    assert(res@ == spec_pick(spec_candidates(platform.os), found@, platform.termux_apt));
    res
}

/// The package managers looked for by the `Opt` front end, in order of
/// preference.
pub open spec fn spec_opt_candidates(os: Os) -> Seq<(&'static str, &'static str)> {
    match os {
        Os::Windows => seq![("choco", "")],
        Os::MacOs => seq![("brew", "/usr/local/bin/brew"), ("port", "/opt/local/bin/port")],
        Os::Linux => seq![
            ("apk", "/sbin/apk"),
            ("apt", "/usr/bin/apt"),
            ("apt-get", "/usr/bin/apt-get"),
            ("dnf", "/usr/bin/dnf"),
            ("zypper", "/usr/bin/zypper"),
        ],
        _ => seq![],
    }
}

/// The package managers looked for by the `Opt` front end.
pub fn opt_candidates(os: Os) -> (res: Vec<(&'static str, &'static str)>)
    ensures
        res@ == spec_opt_candidates(os),
{
    match os {
        Os::Windows => vec![("choco", "")],
        Os::MacOs => vec![("brew", "/usr/local/bin/brew"), ("port", "/opt/local/bin/port")],
        Os::Linux => vec![
            ("apk", "/sbin/apk"),
            ("apt", "/usr/bin/apt"),
            ("apt-get", "/usr/bin/apt-get"),
            ("dnf", "/usr/bin/dnf"),
            ("zypper", "/usr/bin/zypper"),
        ],
        _ => vec![],
    }
}

/// Looks for the candidates in order and returns the name of the first one
/// found, or `unknown`.
pub fn detect_among(cands: &Vec<(&'static str, &'static str)>) -> (res: String)
    ensures
        exists|found: Seq<bool>| checks_gave(cands@, found) && res@ == spec_pick(cands@, found, false),
{
    let mut found: Vec<bool> = Vec::new();
    let mut i: usize = 0;
    while i < cands.len()
        invariant
            i <= cands@.len(),
            found@.len() == i,
            checks_gave(cands@, found@),
        decreases cands@.len() - i,
    {
        let (name, path) = cands[i];
        let f = is_exe(name, path);
        let ghost before = found@;
        found.push(f);
        proof {
            assert forall|j: int| 0 <= j < found@.len() implies exe_check_gave(cands@[j].0, cands@[j].1, #[trigger] found@[j]) by {
                if j < i {
                    assert(found@[j] == before[j]);
                }
            }
        }
        if f {
            let res = pick(cands, &found, false);
            assert(checks_gave(cands@, found@));
            assert(res@ == spec_pick(cands@, found@, false));
            return res;
        }
        i = i + 1;
    }
    let res = pick(cands, &found, false);
    assert(res@ == spec_pick(cands@, found@, false));
    res
}

/// The package managers that `pacaptr` knows how to drive.
#[derive(Debug)]
pub enum PmKind {
    /// The Alpine Package Keeper.
    Apk,
    /// The Advanced Package Tool, invoked as `cmd` (eg. `apt`, `pkg`).
    Apt { cmd: String },
    /// The Homebrew package manager.
    Brew,
    /// The Chocolatey package manager.
    Choco,
    /// The Conda package manager.
    Conda,
    /// Dandified YUM.
    Dnf,
    /// The Portage package manager.
    Emerge,
    /// The Python package installer, invoked as `cmd` (eg. `pip`, `pip3`).
    Pip { cmd: String },
    /// The PackageKit console client.
    Pkcon,
    /// The MacPorts package manager.
    Port,
    /// The Scoop installer, run through the given PowerShell.
    Scoop { shell: String },
    /// The TeX Live package manager.
    Tlmgr,
    /// The Windows package manager.
    Winget,
    /// The X Binary Package System.
    Xbps,
    /// The Zypper package manager.
    Zypper,
    /// An unidentified package manager of the given name.
    Unknown { name: String },
}

pub enum PmKindView {
    Apk,
    Apt(Seq<char>),
    Brew,
    Choco,
    Conda,
    Dnf,
    Emerge,
    Pip(Seq<char>),
    Pkcon,
    Port,
    Scoop(Seq<char>),
    Tlmgr,
    Winget,
    Xbps,
    Zypper,
    Unknown(Seq<char>),
}

impl View for PmKind {
    type V = PmKindView;

    open spec fn view(&self) -> PmKindView {
        match self {
            PmKind::Apk => PmKindView::Apk,
            PmKind::Apt { cmd } => PmKindView::Apt(cmd@),
            PmKind::Brew => PmKindView::Brew,
            PmKind::Choco => PmKindView::Choco,
            PmKind::Conda => PmKindView::Conda,
            PmKind::Dnf => PmKindView::Dnf,
            PmKind::Emerge => PmKindView::Emerge,
            PmKind::Pip { cmd } => PmKindView::Pip(cmd@),
            PmKind::Pkcon => PmKindView::Pkcon,
            PmKind::Port => PmKindView::Port,
            PmKind::Scoop { shell } => PmKindView::Scoop(shell@),
            PmKind::Tlmgr => PmKindView::Tlmgr,
            PmKind::Winget => PmKindView::Winget,
            PmKind::Xbps => PmKindView::Xbps,
            PmKind::Zypper => PmKindView::Zypper,
            PmKind::Unknown { name } => PmKindView::Unknown(name@),
        }
    }
}

/// The package manager of the given name. MacPorts is only known on macOS;
/// Scoop runs through `pwsh` when it is found, otherwise through
/// `powershell`.
pub open spec fn spec_pm_kind(n: Seq<char>, is_macos: bool, pwsh: bool) -> PmKindView {
    if n == "choco"@ {
        PmKindView::Choco
    } else if n == "scoop"@ {
        PmKindView::Scoop(if pwsh { "pwsh"@ } else { "powershell"@ })
    } else if n == "winget"@ {
        PmKindView::Winget
    } else if n == "brew"@ {
        PmKindView::Brew
    } else if n == "port"@ && is_macos {
        PmKindView::Port
    } else if n == "apt"@ || n == "pkg"@ {
        PmKindView::Apt(n)
    } else if n == "apk"@ {
        PmKindView::Apk
    } else if n == "dnf"@ {
        PmKindView::Dnf
    } else if n == "emerge"@ {
        PmKindView::Emerge
    } else if n == "xbps"@ || n == "xbps-install"@ {
        PmKindView::Xbps
    } else if n == "zypper"@ {
        PmKindView::Zypper
    } else if n == "conda"@ {
        PmKindView::Conda
    } else if n == "pip"@ || n == "pip3"@ {
        PmKindView::Pip(n)
    } else if n == "pkcon"@ {
        PmKindView::Pkcon
    } else if n == "tlmgr"@ {
        PmKindView::Tlmgr
    } else {
        PmKindView::Unknown(n)
    }
}

/// Every package manager that detection can pick is known: each candidate
/// of each operating system, and `pkg`, which stands for `apt` on Termux,
/// names a package manager other than an unknown one. In particular
/// `zypper` is Zypper.
pub proof fn detected_names_are_known(os: Os, i: int, pwsh: bool)
    requires
        0 <= i < spec_candidates(os).len(),
    ensures
        !(spec_pm_kind(spec_candidates(os)[i].0@, is_macos(os), pwsh) is Unknown),
        !(spec_pm_kind("pkg"@, is_macos(os), pwsh) is Unknown),
        spec_pm_kind("zypper"@, is_macos(os), pwsh) == PmKindView::Zypper,
{
    reveal_strlit("zypper");
    reveal_strlit("choco");
    reveal_strlit("scoop");
    reveal_strlit("winget");
    reveal_strlit("brew");
    reveal_strlit("port");
    reveal_strlit("apt");
    reveal_strlit("pkg");
    reveal_strlit("apk");
    reveal_strlit("dnf");
    reveal_strlit("emerge");
    reveal_strlit("xbps");
    reveal_strlit("xbps-install");
    assert("zypper"@[0] != "choco"@[0]);
    assert("zypper"@[0] != "scoop"@[0]);
    assert("zypper"@[0] != "winget"@[0]);
    assert("zypper"@[0] != "brew"@[0]);
    assert("zypper"@[0] != "port"@[0]);
    assert("zypper"@[0] != "apt"@[0]);
    assert("zypper"@[0] != "pkg"@[0]);
    assert("zypper"@[0] != "apk"@[0]);
    assert("zypper"@[0] != "dnf"@[0]);
    assert("zypper"@[0] != "emerge"@[0]);
    assert("zypper"@[0] != "xbps"@[0]);
    assert("zypper"@[0] != "xbps-install"@[0]);
}

/// The package manager of the given name.
pub fn pm_kind_named(n: &str, is_macos: bool, pwsh: bool) -> (res: PmKind)
    ensures
        res@ == spec_pm_kind(n@, is_macos, pwsh),
{
    if str_eq(n, "choco") {
        PmKind::Choco
    } else if str_eq(n, "scoop") {
        PmKind::Scoop { shell: String::from_str(if pwsh { "pwsh" } else { "powershell" }) }
    } else if str_eq(n, "winget") {
        PmKind::Winget
    } else if str_eq(n, "brew") {
        PmKind::Brew
    } else if str_eq(n, "port") && is_macos {
        PmKind::Port
    } else if str_eq(n, "apt") || str_eq(n, "pkg") {
        PmKind::Apt { cmd: String::from_str(n) }
    } else if str_eq(n, "apk") {
        PmKind::Apk
    } else if str_eq(n, "dnf") {
        PmKind::Dnf
    } else if str_eq(n, "emerge") {
        PmKind::Emerge
    } else if str_eq(n, "xbps") || str_eq(n, "xbps-install") {
        PmKind::Xbps
    } else if str_eq(n, "zypper") {
        PmKind::Zypper
    } else if str_eq(n, "conda") {
        PmKind::Conda
    } else if str_eq(n, "pip") || str_eq(n, "pip3") {
        PmKind::Pip { cmd: String::from_str(n) }
    } else if str_eq(n, "pkcon") {
        PmKind::Pkcon
    } else if str_eq(n, "tlmgr") {
        PmKind::Tlmgr
    } else {
        PmKind::Unknown { name: String::from_str(n) }
    }
}

/// Whether `pwsh` is found on `$PATH`, in which case Scoop runs through it
/// rather than through `powershell`: the name `pwsh` is looked up, and no
/// path.
pub fn scoop_shell_found() -> (res: bool)
    ensures
        exe_check_gave("pwsh", "", res),
{
    is_exe("pwsh", "")
}

/// Whether `name` is the package manager that the configuration names, or,
/// when it names none, one that detection on the platform can give.
pub open spec fn names_or_detects(default_pm: Option<Seq<char>>, platform: Platform, name: Seq<char>) -> bool {
    match default_pm {
        Some(n) => name == n,
        None => exists|found: Seq<bool>|
            checks_gave(spec_candidates(platform.os), found)
            && name == #[trigger] spec_pick(spec_candidates(platform.os), found, platform.termux_apt),
    }
}

/// Whether `c` is the configuration carried by the package manager `kind`,
/// selected by `name` from the configuration `cfg`: the default one for an
/// unknown package manager, otherwise `cfg` with `name` written into it.
pub open spec fn carried_config(c: Config, cfg: Config, kind: PmKindView, name: Seq<char>) -> bool {
    if kind is Unknown {
        is_default(c)
    } else {
        &&& c.dry_run == cfg.dry_run && c.needed == cfg.needed
        &&& c.no_confirm == cfg.no_confirm && c.no_cache == cfg.no_cache
        &&& c.quiet == cfg.quiet
        &&& opt_str_view(c.default_pm) == Some(name)
    }
}

/// Chooses the package manager for the configuration: the one it names, or,
/// when it names none, the one detected on the platform. The configuration
/// it carries is the given one with its name written into it, except for an
/// unknown package manager, which carries the default configuration.
pub fn select_pm(cfg: Config, platform: Platform) -> (res: (Config, PmKind))
    ensures
        exists|name: Seq<char>, pwsh: bool|
            #![trigger names_or_detects(opt_str_view(cfg.default_pm), platform, name), spec_pm_kind(name, is_macos(platform.os), pwsh)]
            names_or_detects(opt_str_view(cfg.default_pm), platform, name)
            && (name == "scoop"@ ==> exe_check_gave("pwsh", "", pwsh))
            && res.1@ == spec_pm_kind(name, is_macos(platform.os), pwsh)
            && carried_config(res.0, cfg, res.1@, name),
{
    let name = match &cfg.default_pm {
        Some(n) => n.clone(),
        None => detect_pm_str(platform),
    };
    let macos = match platform.os {
        Os::MacOs => true,
        _ => false,
    };
    let pwsh = if str_eq(name.as_str(), "scoop") { scoop_shell_found() } else { false };
    let kind = pm_kind_named(name.as_str(), macos, pwsh);
    assert(kind@ == spec_pm_kind(name@, is_macos(platform.os), pwsh));
    assert(names_or_detects(opt_str_view(cfg.default_pm), platform, name@));
    if let PmKind::Unknown { .. } = kind {
        let res = (Config::default(), kind);
        assert(carried_config(res.0, cfg, res.1@, name@));
        return res;
    }
    let res = (Config { default_pm: Some(name), ..cfg }, kind);
    assert(carried_config(res.0, cfg, res.1@, name@));
    res
}

/// The package manager of the given name, as known by the `Opt` front end.
pub open spec fn spec_opt_pm_kind(n: Seq<char>, is_macos: bool) -> PmKindView {
    if n == "choco"@ {
        PmKindView::Choco
    } else if n == "brew"@ {
        PmKindView::Brew
    } else if n == "port"@ && is_macos {
        PmKindView::Port
    } else if n == "apk"@ {
        PmKindView::Apk
    } else if n == "apt"@ {
        PmKindView::Apt(n)
    } else if n == "dnf"@ {
        PmKindView::Dnf
    } else if n == "zypper"@ {
        PmKindView::Zypper
    } else if n == "conda"@ {
        PmKindView::Conda
    } else if n == "pip"@ || n == "pip3"@ {
        PmKindView::Pip(n)
    } else if n == "tlmgr"@ {
        PmKindView::Tlmgr
    } else {
        PmKindView::Unknown(n)
    }
}

/// The package manager of the given name, as known by the `Opt` front end.
pub fn opt_pm_kind_named(n: &str, is_macos: bool) -> (res: PmKind)
    ensures
        res@ == spec_opt_pm_kind(n@, is_macos),
{
    if str_eq(n, "choco") {
        PmKind::Choco
    } else if str_eq(n, "brew") {
        PmKind::Brew
    } else if str_eq(n, "port") && is_macos {
        PmKind::Port
    } else if str_eq(n, "apk") {
        PmKind::Apk
    } else if str_eq(n, "apt") {
        PmKind::Apt { cmd: String::from_str(n) }
    } else if str_eq(n, "dnf") {
        PmKind::Dnf
    } else if str_eq(n, "zypper") {
        PmKind::Zypper
    } else if str_eq(n, "conda") {
        PmKind::Conda
    } else if str_eq(n, "pip") || str_eq(n, "pip3") {
        PmKind::Pip { cmd: String::from_str(n) }
    } else if str_eq(n, "tlmgr") {
        PmKind::Tlmgr
    } else {
        PmKind::Unknown { name: String::from_str(n) }
    }
}

} // verus!
