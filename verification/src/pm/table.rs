//! The steps of every `pacman` method for every known package manager.

use vstd::prelude::*;

use crate::config::Config;
use crate::pm::step::{words_after, cleans_no_cache, is_cache_cleaning, passes_flags, reports_pm, unimplemented, Step, StepView, steps_view};
use crate::pm::{apk, apt, brew, choco, conda, dnf, emerge, pip, pkcon, port, scoop, tlmgr, winget, zypper};
use crate::pm::Method;
use crate::select::{spec_pm_kind, PmKind, PmKindView};
use crate::strings::str_views;

verus! {

/// The name of a package manager, as reported in errors.
pub open spec fn pm_name(k: PmKindView) -> Seq<char> {
    match k {
        PmKindView::Apk => "apk"@,
        PmKindView::Apt(_) => "apt"@,
        PmKindView::Brew => "brew"@,
        PmKindView::Choco => "choco"@,
        PmKindView::Conda => "conda"@,
        PmKindView::Dnf => "dnf"@,
        PmKindView::Emerge => "emerge"@,
        PmKindView::Pip(_) => "pip"@,
        PmKindView::Pkcon => "pkcon"@,
        PmKindView::Port => "port"@,
        PmKindView::Scoop(_) => "scoop"@,
        PmKindView::Tlmgr => "tlmgr"@,
        PmKindView::Winget => "winget"@,
        PmKindView::Xbps => "xbps"@,
        PmKindView::Zypper => "zypper"@,
        PmKindView::Unknown(name) => "unknown package manager: "@ + name,
    }
}

/// The steps of the `pacman` method `m` for the package manager `k`, with
/// the keywords and extra flags given, the configuration, whether the output
/// is to be quiet, and whether this is macOS.
///
/// The operations of `xbps` are not part of this library: each of them
/// reports that it is not implemented, as every operation of an unknown
/// package manager does.
pub open spec fn spec_pm_steps(
    k: PmKindView,
    m: Method,
    kws: Seq<Seq<char>>,
    flags: Seq<Seq<char>>,
    cfg: Config,
    quiet: bool,
    macos: bool,
) -> Seq<StepView> {
    match k {
        PmKindView::Apk => apk::spec_steps(m, kws, flags, cfg),
        PmKindView::Apt(cmd) => apt::spec_steps(cmd, m, kws, flags, cfg, quiet),
        PmKindView::Brew => brew::spec_steps(m, kws, flags, cfg, macos),
        PmKindView::Choco => choco::spec_steps(m, kws, flags, cfg),
        PmKindView::Conda => conda::spec_steps(m, kws, flags, cfg),
        PmKindView::Dnf => dnf::spec_steps(m, kws, flags, cfg),
        PmKindView::Emerge => emerge::spec_steps(m, kws, flags),
        PmKindView::Pip(cmd) => pip::spec_steps(cmd, m, kws, flags, cfg),
        PmKindView::Pkcon => pkcon::spec_steps(m, kws, flags, cfg, quiet),
        PmKindView::Port => port::spec_steps(m, kws, flags),
        PmKindView::Scoop(shell) => scoop::spec_steps(shell, m, kws, flags, cfg),
        PmKindView::Tlmgr => tlmgr::spec_steps(m, kws, flags),
        PmKindView::Winget => winget::spec_steps(m, kws, flags, cfg, quiet),
        PmKindView::Zypper => zypper::spec_steps(m, kws, flags, cfg),
        PmKindView::Xbps | PmKindView::Unknown(_) => seq![unimplemented(m, pm_name(k))],
    }
}

impl PmKind {
    /// The name of the package manager, as reported in errors.
    pub fn name(&self) -> (res: String)
        ensures
            res@ == pm_name(self@),
    {
        match self {
            PmKind::Apk => String::from_str("apk"),
            PmKind::Apt { .. } => String::from_str("apt"),
            PmKind::Brew => String::from_str("brew"),
            PmKind::Choco => String::from_str("choco"),
            PmKind::Conda => String::from_str("conda"),
            PmKind::Dnf => String::from_str("dnf"),
            PmKind::Emerge => String::from_str("emerge"),
            PmKind::Pip { .. } => String::from_str("pip"),
            PmKind::Pkcon => String::from_str("pkcon"),
            PmKind::Port => String::from_str("port"),
            PmKind::Scoop { .. } => String::from_str("scoop"),
            PmKind::Tlmgr => String::from_str("tlmgr"),
            PmKind::Winget => String::from_str("winget"),
            PmKind::Xbps => String::from_str("xbps"),
            PmKind::Zypper => String::from_str("zypper"),
            PmKind::Unknown { name } => String::from_str("unknown package manager: ").concat(name.as_str()),
        }
    }

    /// The steps of the `pacman` method `m` for this package manager, with
    /// the keywords and extra flags given, the configuration, whether the
    /// output is to be quiet, and whether this is macOS.
    pub fn steps(&self, m: Method, kws: &[&str], flags: &[&str], cfg: &Config, quiet: bool, macos: bool) -> (res: Vec<Step>)
        ensures
            steps_view(res@) =~~= spec_pm_steps(self@, m, str_views(kws@), str_views(flags@), *cfg, quiet, macos),
    {
        match self {
            PmKind::Apk => apk::steps(m, kws, flags, cfg),
            PmKind::Apt { cmd } => apt::steps(cmd.as_str(), m, kws, flags, cfg, quiet),
            PmKind::Brew => brew::steps(m, kws, flags, cfg, macos),
            PmKind::Choco => choco::steps(m, kws, flags, cfg),
            PmKind::Conda => conda::steps(m, kws, flags, cfg),
            PmKind::Dnf => dnf::steps(m, kws, flags, cfg),
            PmKind::Emerge => emerge::steps(m, kws, flags),
            PmKind::Pip { cmd } => pip::steps(cmd.as_str(), m, kws, flags, cfg),
            PmKind::Pkcon => pkcon::steps(m, kws, flags, cfg, quiet),
            PmKind::Port => port::steps(m, kws, flags),
            PmKind::Scoop { shell } => scoop::steps(shell.as_str(), m, kws, flags, cfg),
            PmKind::Tlmgr => tlmgr::steps(m, kws, flags),
            PmKind::Winget => winget::steps(m, kws, flags, cfg, quiet),
            PmKind::Zypper => zypper::steps(m, kws, flags, cfg),
            PmKind::Xbps | PmKind::Unknown { .. } => {
                let name = self.name();
                crate::pm::step::one(Step::unimplemented(m, name.as_str()))
            },
        }
    }
}

/// A package manager chosen by name reports that name in its errors (`pkg`
/// is `apt`, `xbps-install` is `xbps` and `pip3` is `pip`), and a name that
/// names no package manager is reported as unknown.
pub proof fn a_name_selects_the_package_manager_of_that_name(n: Seq<char>, macos: bool, pwsh: bool)
    ensures
        spec_pm_kind(n, macos, pwsh) is Unknown ==> pm_name(spec_pm_kind(n, macos, pwsh)) == "unknown package manager: "@ + n,
        !(spec_pm_kind(n, macos, pwsh) is Unknown) ==> {
            ||| pm_name(spec_pm_kind(n, macos, pwsh)) == n
            ||| n == "pkg"@ && pm_name(spec_pm_kind(n, macos, pwsh)) == "apt"@
            ||| n == "xbps-install"@ && pm_name(spec_pm_kind(n, macos, pwsh)) == "xbps"@
            ||| n == "pip3"@ && pm_name(spec_pm_kind(n, macos, pwsh)) == "pip"@
        },
{
}

/// Whether `s` is a single step that runs the command `words` on the
/// keywords `kws` with the extra flags `flags`.
pub open spec fn runs_once(s: Seq<StepView>, words: Seq<Seq<char>>, kws: Seq<Seq<char>>, flags: Seq<Seq<char>>) -> bool {
    &&& s.len() == 1
    &&& s[0] matches StepView::Run(c, _, _) && c.cmd == words && c.kws == kws && c.flags == flags
}

/// `-R` removes the packages named with the package manager's own removal
/// command, once for all the keywords (`pkcon` removes them one at a time).
pub proof fn removing_runs_the_native_removal(
    k: PmKindView,
    kws: Seq<Seq<char>>,
    flags: Seq<Seq<char>>,
    cfg: Config,
    quiet: bool,
    macos: bool,
)
    ensures
        k is Apk ==> runs_once(spec_pm_steps(k, Method::R, kws, flags, cfg, quiet, macos), seq!["apk"@, "del"@], kws, flags),
        k is Apt ==> runs_once(spec_pm_steps(k, Method::R, kws, flags, cfg, quiet, macos), seq!["apt"@, "remove"@], kws, flags),
        k is Brew ==> runs_once(spec_pm_steps(k, Method::R, kws, flags, cfg, quiet, macos), seq!["brew"@, "uninstall"@], kws, flags),
        k is Choco ==> runs_once(spec_pm_steps(k, Method::R, kws, flags, cfg, quiet, macos), seq!["choco"@, "uninstall"@], kws, flags),
        k is Conda ==> runs_once(spec_pm_steps(k, Method::R, kws, flags, cfg, quiet, macos), seq!["conda"@, "remove"@], kws, flags),
        k is Dnf ==> runs_once(spec_pm_steps(k, Method::R, kws, flags, cfg, quiet, macos), seq!["dnf"@, "remove"@], kws, flags),
        k is Emerge ==> runs_once(spec_pm_steps(k, Method::R, kws, flags, cfg, quiet, macos), seq!["emerge"@, "--unmerge"@], kws, flags),
        k is Port ==> runs_once(spec_pm_steps(k, Method::R, kws, flags, cfg, quiet, macos), seq!["port"@, "uninstall"@], kws, flags),
        k is Tlmgr ==> runs_once(spec_pm_steps(k, Method::R, kws, flags, cfg, quiet, macos), seq!["tlmgr"@, "remove"@], kws, flags),
        k is Winget ==> runs_once(spec_pm_steps(k, Method::R, kws, flags, cfg, quiet, macos), seq!["winget"@, "uninstall"@, "--accept-source-agreements"@], kws, flags),
        k is Zypper ==> runs_once(spec_pm_steps(k, Method::R, kws, flags, cfg, quiet, macos), seq!["zypper"@, "remove"@], kws, flags),
        k matches PmKindView::Pip(cmd) ==> runs_once(spec_pm_steps(k, Method::R, kws, flags, cfg, quiet, macos), seq![cmd, "uninstall"@], kws, flags),
        k matches PmKindView::Scoop(shell) ==> runs_once(spec_pm_steps(k, Method::R, kws, flags, cfg, quiet, macos), seq![shell, "-Command"@, "scoop"@, "uninstall"@], kws, flags),
        k is Pkcon ==> spec_pm_steps(k, Method::R, kws, flags, cfg, quiet, macos).len() == kws.len(),
        k is Pkcon ==> forall|i: int| 0 <= i < kws.len() ==> runs_once(
            seq![#[trigger] spec_pm_steps(k, Method::R, kws, flags, cfg, quiet, macos)[i]],
            seq!["pkcon"@, "remove"@],
            seq![kws[i]],
            flags,
        ),
{
    match k {
        PmKindView::Apk => {
            assert(str_views(seq!["apk", "del"]) =~= seq!["apk"@, "del"@]);
        },
        PmKindView::Apt(_) => {
            assert(str_views(seq!["apt", "remove"]) =~= seq!["apt"@, "remove"@]);
        },
        PmKindView::Brew => {
            assert(str_views(seq!["brew", "uninstall"]) =~= seq!["brew"@, "uninstall"@]);
        },
        PmKindView::Choco => {
            assert(str_views(seq!["choco", "uninstall"]) =~= seq!["choco"@, "uninstall"@]);
        },
        PmKindView::Conda => {
            assert(str_views(seq!["conda", "remove"]) =~= seq!["conda"@, "remove"@]);
        },
        PmKindView::Dnf => {
            assert(str_views(seq!["dnf", "remove"]) =~= seq!["dnf"@, "remove"@]);
        },
        PmKindView::Emerge => {
            assert(str_views(seq!["emerge", "--unmerge"]) =~= seq!["emerge"@, "--unmerge"@]);
        },
        PmKindView::Port => {
            assert(str_views(seq!["port", "uninstall"]) =~= seq!["port"@, "uninstall"@]);
        },
        PmKindView::Tlmgr => {
            assert(str_views(seq!["tlmgr", "remove"]) =~= seq!["tlmgr"@, "remove"@]);
        },
        PmKindView::Winget => {
            assert(str_views(seq!["winget", "uninstall", "--accept-source-agreements"]) =~= seq!["winget"@, "uninstall"@, "--accept-source-agreements"@]);
        },
        PmKindView::Zypper => {
            assert(str_views(seq!["zypper", "remove"]) =~= seq!["zypper"@, "remove"@]);
        },
        PmKindView::Pip(cmd) => {
            assert(words_after(cmd, seq!["uninstall"]) =~= seq![cmd, "uninstall"@]);
        },
        PmKindView::Scoop(shell) => {
            assert(words_after(shell, seq!["-Command", "scoop"] + seq!["uninstall"]) =~= seq![shell, "-Command"@, "scoop"@, "uninstall"@]);
        },
        PmKindView::Pkcon => {
            assert(str_views(seq!["pkcon", "remove"]) =~= seq!["pkcon"@, "remove"@]);
        },
        _ => {},
    }
}

/// `-S` installs the packages named with the package manager's own
/// installation command; where the package manager would otherwise skip a
/// package that is already installed, it is asked to reinstall it unless
/// `--needed` is given.
pub proof fn installing_runs_the_native_installation(
    k: PmKindView,
    kws: Seq<Seq<char>>,
    flags: Seq<Seq<char>>,
    cfg: Config,
    quiet: bool,
    macos: bool,
)
    ensures
        k is Apk ==> runs_once(spec_pm_steps(k, Method::S, kws, flags, cfg, quiet, macos), seq!["apk"@, "add"@], kws, flags),
        k is Conda ==> runs_once(spec_pm_steps(k, Method::S, kws, flags, cfg, quiet, macos), seq!["conda"@, "install"@], kws, flags),
        k is Dnf ==> runs_once(spec_pm_steps(k, Method::S, kws, flags, cfg, quiet, macos), seq!["dnf"@, "install"@], kws, flags),
        k is Emerge ==> runs_once(spec_pm_steps(k, Method::S, kws, flags, cfg, quiet, macos), seq!["emerge"@], kws, flags),
        k is Port ==> runs_once(spec_pm_steps(k, Method::S, kws, flags, cfg, quiet, macos), seq!["port"@, "install"@], kws, flags),
        k is Tlmgr ==> runs_once(spec_pm_steps(k, Method::S, kws, flags, cfg, quiet, macos), seq!["tlmgr"@, "install"@], kws, flags),
        k is Winget ==> runs_once(spec_pm_steps(k, Method::S, kws, flags, cfg, quiet, macos), seq!["winget"@, "install"@, "--accept-package-agreements"@, "--accept-source-agreements"@], kws, flags),
        k is Zypper ==> runs_once(spec_pm_steps(k, Method::S, kws, flags, cfg, quiet, macos), seq!["zypper"@, "install"@], kws, flags),
        k is Brew ==> runs_once(spec_pm_steps(k, Method::S, kws, flags, cfg, quiet, macos), if cfg.needed { seq!["brew"@, "install"@] } else { seq!["brew"@, "reinstall"@] }, kws, flags),
        k is Choco ==> runs_once(spec_pm_steps(k, Method::S, kws, flags, cfg, quiet, macos), if cfg.needed { seq!["choco"@, "install"@] } else { seq!["choco"@, "install"@, "--force"@] }, kws, flags),
        k is Pkcon ==> runs_once(spec_pm_steps(k, Method::S, kws, flags, cfg, quiet, macos), if cfg.needed { seq!["pkcon"@, "install"@] } else { seq!["pkcon"@, "install"@, "--allow-reinstall"@] }, kws, flags),
        k matches PmKindView::Apt(cmd) ==> runs_once(spec_pm_steps(k, Method::S, kws, flags, cfg, quiet, macos), if cfg.needed { seq![cmd, "install"@] } else { seq![cmd, "install"@, "--reinstall"@] }, kws, flags),
        k matches PmKindView::Pip(cmd) ==> runs_once(spec_pm_steps(k, Method::S, kws, flags, cfg, quiet, macos), seq![cmd, "install"@], kws, flags),
        k matches PmKindView::Scoop(shell) ==> runs_once(spec_pm_steps(k, Method::S, kws, flags, cfg, quiet, macos), seq![shell, "-Command"@, "scoop"@, "install"@], kws, flags),
{
    match k {
        PmKindView::Apk => {
            assert(str_views(seq!["apk", "add"]) =~= seq!["apk"@, "add"@]);
        },
        PmKindView::Conda => {
            assert(str_views(seq!["conda", "install"]) =~= seq!["conda"@, "install"@]);
        },
        PmKindView::Dnf => {
            assert(str_views(seq!["dnf", "install"]) =~= seq!["dnf"@, "install"@]);
        },
        PmKindView::Emerge => {
            assert(str_views(seq!["emerge"]) =~= seq!["emerge"@]);
        },
        PmKindView::Port => {
            assert(str_views(seq!["port", "install"]) =~= seq!["port"@, "install"@]);
        },
        PmKindView::Tlmgr => {
            assert(str_views(seq!["tlmgr", "install"]) =~= seq!["tlmgr"@, "install"@]);
        },
        PmKindView::Winget => {
            assert(str_views(seq!["winget", "install", "--accept-package-agreements", "--accept-source-agreements"]) =~= seq!["winget"@, "install"@, "--accept-package-agreements"@, "--accept-source-agreements"@]);
        },
        PmKindView::Zypper => {
            assert(str_views(seq!["zypper", "install"]) =~= seq!["zypper"@, "install"@]);
        },
        PmKindView::Brew => {
            assert(str_views(seq!["brew", "install"]) =~= seq!["brew"@, "install"@]);
            assert(str_views(seq!["brew", "reinstall"]) =~= seq!["brew"@, "reinstall"@]);
        },
        PmKindView::Choco => {
            assert(str_views(seq!["choco", "install"]) =~= seq!["choco"@, "install"@]);
            assert(str_views(seq!["choco", "install", "--force"]) =~= seq!["choco"@, "install"@, "--force"@]);
        },
        PmKindView::Pkcon => {
            assert(str_views(seq!["pkcon", "install"]) =~= seq!["pkcon"@, "install"@]);
            assert(str_views(seq!["pkcon", "install", "--allow-reinstall"]) =~= seq!["pkcon"@, "install"@, "--allow-reinstall"@]);
        },
        PmKindView::Apt(cmd) => {
            assert(words_after(cmd, seq!["install"]) =~= seq![cmd, "install"@]);
            assert(words_after(cmd, seq!["install", "--reinstall"]) =~= seq![cmd, "install"@, "--reinstall"@]);
        },
        PmKindView::Pip(cmd) => {
            assert(words_after(cmd, seq!["install"]) =~= seq![cmd, "install"@]);
        },
        PmKindView::Scoop(shell) => {
            assert(words_after(shell, seq!["-Command", "scoop"] + seq!["install"]) =~= seq![shell, "-Command"@, "scoop"@, "install"@]);
        },
        _ => {},
    }
}

proof fn lemma_shape(
    k: PmKindView,
    m: Method,
    kws: Seq<Seq<char>>,
    flags: Seq<Seq<char>>,
    cfg: Config,
    quiet: bool,
    macos: bool,
)
    ensures
        forall|i: int|
            0 <= i < spec_pm_steps(k, m, kws, flags, cfg, quiet, macos).len() ==> passes_flags(
                #[trigger] spec_pm_steps(k, m, kws, flags, cfg, quiet, macos)[i],
                flags,
            ),
        forall|i: int|
            0 <= i < spec_pm_steps(k, m, kws, flags, cfg, quiet, macos).len() ==> reports_pm(
                #[trigger] spec_pm_steps(k, m, kws, flags, cfg, quiet, macos)[i],
                pm_name(k),
            ),
        is_cache_cleaning(m) ==> forall|i: int|
            0 <= i < spec_pm_steps(k, m, kws, flags, cfg, quiet, macos).len() ==> cleans_no_cache(
                #[trigger] spec_pm_steps(k, m, kws, flags, cfg, quiet, macos)[i],
            ),
{
    match k {
        PmKindView::Apk => apk::lemma_steps_shape(m, kws, flags, cfg),
        PmKindView::Apt(cmd) => apt::lemma_steps_shape(cmd, m, kws, flags, cfg, quiet),
        PmKindView::Brew => brew::lemma_steps_shape(m, kws, flags, cfg, macos),
        PmKindView::Choco => choco::lemma_steps_shape(m, kws, flags, cfg),
        PmKindView::Conda => conda::lemma_steps_shape(m, kws, flags, cfg),
        PmKindView::Dnf => dnf::lemma_steps_shape(m, kws, flags, cfg),
        PmKindView::Emerge => emerge::lemma_steps_shape(m, kws, flags),
        PmKindView::Pip(cmd) => pip::lemma_steps_shape(cmd, m, kws, flags, cfg),
        PmKindView::Pkcon => pkcon::lemma_steps_shape(m, kws, flags, cfg, quiet),
        PmKindView::Port => port::lemma_steps_shape(m, kws, flags),
        PmKindView::Scoop(shell) => scoop::lemma_steps_shape(shell, m, kws, flags, cfg),
        PmKindView::Tlmgr => tlmgr::lemma_steps_shape(m, kws, flags),
        PmKindView::Winget => winget::lemma_steps_shape(m, kws, flags, cfg, quiet),
        PmKindView::Zypper => zypper::lemma_steps_shape(m, kws, flags, cfg),
        PmKindView::Xbps | PmKindView::Unknown(_) => {},
    }
}

/// The extra flags given on the command line reach every command that a
/// method runs, as they were given, whatever the package manager.
pub proof fn extra_flags_reach_every_command(
    k: PmKindView,
    m: Method,
    kws: Seq<Seq<char>>,
    flags: Seq<Seq<char>>,
    cfg: Config,
    quiet: bool,
    macos: bool,
)
    ensures
        forall|i: int|
            0 <= i < spec_pm_steps(k, m, kws, flags, cfg, quiet, macos).len() ==> passes_flags(
                #[trigger] spec_pm_steps(k, m, kws, flags, cfg, quiet, macos)[i],
                flags,
            ),
{
    lemma_shape(k, m, kws, flags, cfg, quiet, macos);
}

/// An operation that a package manager does not implement is reported as
/// not implemented by that package manager, under its name.
pub proof fn unimplemented_operations_name_their_package_manager(
    k: PmKindView,
    m: Method,
    kws: Seq<Seq<char>>,
    flags: Seq<Seq<char>>,
    cfg: Config,
    quiet: bool,
    macos: bool,
)
    ensures
        forall|i: int|
            0 <= i < spec_pm_steps(k, m, kws, flags, cfg, quiet, macos).len() ==> reports_pm(
                #[trigger] spec_pm_steps(k, m, kws, flags, cfg, quiet, macos)[i],
                pm_name(k),
            ),
{
    lemma_shape(k, m, kws, flags, cfg, quiet, macos);
}

/// The methods that clean the cache are never followed by more cache
/// cleaning, so that a cleanup after a command always comes to an end.
pub proof fn cache_cleaning_ends(
    k: PmKindView,
    m: Method,
    kws: Seq<Seq<char>>,
    flags: Seq<Seq<char>>,
    cfg: Config,
    quiet: bool,
    macos: bool,
)
    requires
        is_cache_cleaning(m),
    ensures
        forall|i: int|
            0 <= i < spec_pm_steps(k, m, kws, flags, cfg, quiet, macos).len() ==> cleans_no_cache(
                #[trigger] spec_pm_steps(k, m, kws, flags, cfg, quiet, macos)[i],
            ),
{
    lemma_shape(k, m, kws, flags, cfg, quiet, macos);
}

} // verus!
