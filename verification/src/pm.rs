//! Mapping from [`pacman`] commands to various operations of specific package
//! managers, and the strategies that say how a command is run.
//!
//! [`pacman`]: https://wiki.archlinux.org/index.php/Pacman

pub mod apk;
pub mod apt;
pub mod brew;
pub mod choco;
pub mod conda;
pub mod dnf;
pub mod emerge;
pub mod pip;
pub mod pkcon;
pub mod port;
pub mod scoop;
pub mod step;
pub mod table;
pub mod tlmgr;
pub mod winget;
pub mod zypper;

use vstd::prelude::*;

use crate::config::Config;
use crate::exec::{Cmd, CmdView, Mode};
use crate::strings::{clone_strings, str_views, to_strings, views};

verus! {

/// Different ways in which a command shall be dealt with.
///
/// This is a package-manager-level version of [`Mode`], intended to be used
/// along with [`Strategy`]. Default value: [`PmMode::CheckErr`].
#[derive(Copy, Clone, Debug, PartialEq, Eq, Structural)]
pub enum PmMode {
    /// Silently collects all the `stdout`/`stderr` combined. Prints nothing.
    Mute,
    /// Prints out the command which should be executed, runs it and collects
    /// its `stdout`/`stderr` combined.
    CheckAll,
    /// Prints out the command which should be executed, runs it and collects
    /// its `stderr`. This will work with a colored `stdout`.
    CheckErr,
}

/// The [`Mode`] that a [`PmMode`] stands for.
pub open spec fn spec_mode_of(m: PmMode) -> Mode {
    match m {
        PmMode::Mute => Mode::Mute,
        PmMode::CheckAll => Mode::CheckAll,
        PmMode::CheckErr => Mode::CheckErr,
    }
}

impl Default for PmMode {
    fn default() -> (res: Self)
        ensures
            res == PmMode::CheckErr,
    {
        PmMode::CheckErr
    }
}

impl PmMode {
    /// The [`Mode`] that this [`PmMode`] stands for.
    pub fn to_mode(self) -> (res: Mode)
        ensures
            res == spec_mode_of(self),
    {
        match self {
            PmMode::Mute => Mode::Mute,
            PmMode::CheckAll => Mode::CheckAll,
            PmMode::CheckErr => Mode::CheckErr,
        }
    }
}

/// How a dry run is dealt with. Default value: [`DryRunStrategy::PrintCmd`].
#[derive(Debug)]
pub enum DryRunStrategy {
    /// Prints the command to be run, and stops.
    PrintCmd,
    /// Invokes the corresponding package manager with the flags given.
    WithFlags(Vec<String>),
}

/// How the prompt is dealt with when running the package manager.
/// Default value: [`PromptStrategy::NoPrompt`].
#[derive(Debug)]
pub enum PromptStrategy {
    /// There is no prompt.
    NoPrompt,
    /// There is no prompt, but a custom prompt is added.
    CustomPrompt,
    /// There is a native prompt provided by the package manager that can be
    /// disabled with a flag.
    NativeNoConfirm(Vec<String>),
    /// There is a native prompt provided by the package manager that can be
    /// enabled with a flag.
    NativeConfirm(Vec<String>),
}

/// How the cache is cleaned when `no_cache` is set to `true`.
/// Default value: [`NoCacheStrategy::NoClean`].
#[derive(Debug)]
pub enum NoCacheStrategy {
    /// Does not clean cache. This variant must be used when implementing
    /// cache cleaning methods like `-Sc`.
    NoClean,
    /// Uses `-Sc` to clean the cache.
    Sc,
    /// Uses `-Scc`.
    Scc,
    /// Uses `-Sccc`.
    Sccc,
    /// Invokes the corresponding package manager with the flags given.
    WithFlags(Vec<String>),
}

/// A set of intrinsic properties of a command in the context of a specific
/// package manager, indicating how it is run.
#[derive(Debug)]
pub struct Strategy {
    /// How a dry run is dealt with.
    pub dry_run: DryRunStrategy,
    /// How the prompt is dealt with when running the package manager.
    pub prompt: PromptStrategy,
    /// How the cache is cleaned when `no_cache` is set to `true`.
    pub no_cache: NoCacheStrategy,
}

/// Another name of [`Strategy`].
pub type Strategies = Strategy;

#[verifier::ext_equal]
pub enum DryRunView {
    PrintCmd,
    WithFlags(Seq<Seq<char>>),
}

#[verifier::ext_equal]
pub enum PromptView {
    NoPrompt,
    CustomPrompt,
    NativeNoConfirm(Seq<Seq<char>>),
    NativeConfirm(Seq<Seq<char>>),
}

#[verifier::ext_equal]
pub enum NoCacheView {
    NoClean,
    Sc,
    Scc,
    Sccc,
    WithFlags(Seq<Seq<char>>),
}

#[verifier::ext_equal]
pub struct StrategyView {
    pub dry_run: DryRunView,
    pub prompt: PromptView,
    pub no_cache: NoCacheView,
}

impl View for DryRunStrategy {
    type V = DryRunView;

    open spec fn view(&self) -> DryRunView {
        match self {
            DryRunStrategy::PrintCmd => DryRunView::PrintCmd,
            DryRunStrategy::WithFlags(v) => DryRunView::WithFlags(views(v@)),
        }
    }
}

impl View for PromptStrategy {
    type V = PromptView;

    open spec fn view(&self) -> PromptView {
        match self {
            PromptStrategy::NoPrompt => PromptView::NoPrompt,
            PromptStrategy::CustomPrompt => PromptView::CustomPrompt,
            PromptStrategy::NativeNoConfirm(v) => PromptView::NativeNoConfirm(views(v@)),
            PromptStrategy::NativeConfirm(v) => PromptView::NativeConfirm(views(v@)),
        }
    }
}

impl View for NoCacheStrategy {
    type V = NoCacheView;

    open spec fn view(&self) -> NoCacheView {
        match self {
            NoCacheStrategy::NoClean => NoCacheView::NoClean,
            NoCacheStrategy::Sc => NoCacheView::Sc,
            NoCacheStrategy::Scc => NoCacheView::Scc,
            NoCacheStrategy::Sccc => NoCacheView::Sccc,
            NoCacheStrategy::WithFlags(v) => NoCacheView::WithFlags(views(v@)),
        }
    }
}

impl View for Strategy {
    type V = StrategyView;

    open spec fn view(&self) -> StrategyView {
        StrategyView { dry_run: self.dry_run@, prompt: self.prompt@, no_cache: self.no_cache@ }
    }
}

impl Default for DryRunStrategy {
    fn default() -> (res: Self)
        ensures
            res@ == DryRunView::PrintCmd,
    {
        DryRunStrategy::PrintCmd
    }
}

impl Default for PromptStrategy {
    fn default() -> (res: Self)
        ensures
            res@ == PromptView::NoPrompt,
    {
        PromptStrategy::NoPrompt
    }
}

impl Default for NoCacheStrategy {
    fn default() -> (res: Self)
        ensures
            res@ == NoCacheView::NoClean,
    {
        NoCacheStrategy::NoClean
    }
}

/// The default strategy: print the command on a dry run, no prompt, no
/// cache cleaning.
pub open spec fn default_strategy() -> StrategyView {
    StrategyView {
        dry_run: DryRunView::PrintCmd,
        prompt: PromptView::NoPrompt,
        no_cache: NoCacheView::NoClean,
    }
}

impl Default for Strategy {
    fn default() -> (res: Self)
        ensures
            res@ == default_strategy(),
    {
        Strategy {
            dry_run: DryRunStrategy::PrintCmd,
            prompt: PromptStrategy::NoPrompt,
            no_cache: NoCacheStrategy::NoClean,
        }
    }
}

impl DryRunStrategy {
    /// Invokes the corresponding package manager with the flags given.
    pub fn with_flags(flags: &[&str]) -> (res: Self)
        ensures
            res@ == DryRunView::WithFlags(str_views(flags@)),
    {
        DryRunStrategy::WithFlags(to_strings(flags))
    }
}

impl PromptStrategy {
    /// There is a native prompt provided by the package manager that can be
    /// disabled with a flag.
    pub fn native_no_confirm(no_confirm: &[&str]) -> (res: Self)
        ensures
            res@ == PromptView::NativeNoConfirm(str_views(no_confirm@)),
    {
        PromptStrategy::NativeNoConfirm(to_strings(no_confirm))
    }

    /// There is a native prompt provided by the package manager; the given
    /// flags are required to bypass it. This is the same as
    /// [`PromptStrategy::native_no_confirm`].
    pub fn native_prompt(no_confirm: &[&str]) -> (res: Self)
        ensures
            res@ == PromptView::NativeNoConfirm(str_views(no_confirm@)),
    {
        PromptStrategy::native_no_confirm(no_confirm)
    }

    /// There is a native prompt provided by the package manager that can be
    /// enabled with a flag.
    pub fn native_confirm(confirm: &[&str]) -> (res: Self)
        ensures
            res@ == PromptView::NativeConfirm(str_views(confirm@)),
    {
        PromptStrategy::NativeConfirm(to_strings(confirm))
    }
}

impl NoCacheStrategy {
    /// Invokes the corresponding package manager with the flags given.
    pub fn with_flags(flags: &[&str]) -> (res: Self)
        ensures
            res@ == NoCacheView::WithFlags(str_views(flags@)),
    {
        NoCacheStrategy::WithFlags(to_strings(flags))
    }
}

} // verus!

verus! {

/// The `pacman` methods supported by `pacaptr`, named after their flags in
/// ASCII order (eg. `Suy` rather than `Syu`).
#[derive(Copy, Clone, Debug, PartialEq, Eq, Structural)]
pub enum Method {
    /// Q generates a list of installed packages.
    Q,
    /// Qc shows the changelog of a package.
    Qc,
    /// Qe lists packages installed explicitly (not as dependencies).
    Qe,
    /// Qi displays local package information: name, version, description, etc.
    Qi,
    /// Qii displays local packages which require X to be installed, aka local
    /// reverse dependencies.
    Qii,
    /// Qk verifies one or more packages.
    Qk,
    /// Ql displays files provided by local package.
    Ql,
    /// Qm lists packages that are installed but are not available in any
    /// installation source (anymore).
    Qm,
    /// Qo queries the package which provides FILE.
    Qo,
    /// Qp queries a package supplied through a file supplied on the command
    /// line rather than an entry in the package management database.
    Qp,
    /// Qs searches locally installed package for names or descriptions.
    Qs,
    /// Qu lists packages which have an update available.
    Qu,
    /// R removes a single package, leaving all of its dependencies installed.
    R,
    /// Rn removes a package and skips the generation of configuration backup
    /// files.
    Rn,
    /// Rns removes a package and its dependencies which are not required by
    /// any other installed package, and skips the generation of configuration
    /// backup files.
    Rns,
    /// Rs removes a package and its dependencies which are not required by any
    /// other installed package, and not explicitly installed by the user.
    Rs,
    /// Rss removes a package and its dependencies which are not required by
    /// any other installed package.
    Rss,
    /// S installs one or more packages by name.
    S,
    /// Sc removes all the cached packages that are not currently installed,
    /// and the unused sync database.
    Sc,
    /// Scc removes all files from the cache.
    Scc,
    /// Sccc performs a deeper cleaning of the cache than `Scc` (if
    /// applicable).
    Sccc,
    /// Sg lists all packages belonging to the GROUP.
    Sg,
    /// Si displays remote package information: name, version, description,
    /// etc.
    Si,
    /// Sii displays packages which require X to be installed, aka reverse
    /// dependencies.
    Sii,
    /// Sl displays a list of all packages in all installation sources that are
    /// handled by the package management.
    Sl,
    /// Ss searches for package(s) by searching the expression in name,
    /// description, short description.
    Ss,
    /// Su updates outdated packages.
    Su,
    /// Suy refreshes the local package database, then updates outdated
    /// packages.
    Suy,
    /// Sw retrieves all packages from the server, but does not
    /// install/upgrade anything.
    Sw,
    /// Sy refreshes the local package database.
    Sy,
    /// U upgrades or adds package(s) to the system and installs the required
    /// dependencies from sync repositories.
    U,
}

/// The lowercase name of a method, eg. `suy`.
pub open spec fn method_name(m: Method) -> Seq<char> {
    match m {
        Method::Q => seq!['q'],
        Method::Qc => seq!['q', 'c'],
        Method::Qe => seq!['q', 'e'],
        Method::Qi => seq!['q', 'i'],
        Method::Qii => seq!['q', 'i', 'i'],
        Method::Qk => seq!['q', 'k'],
        Method::Ql => seq!['q', 'l'],
        Method::Qm => seq!['q', 'm'],
        Method::Qo => seq!['q', 'o'],
        Method::Qp => seq!['q', 'p'],
        Method::Qs => seq!['q', 's'],
        Method::Qu => seq!['q', 'u'],
        Method::R => seq!['r'],
        Method::Rn => seq!['r', 'n'],
        Method::Rns => seq!['r', 'n', 's'],
        Method::Rs => seq!['r', 's'],
        Method::Rss => seq!['r', 's', 's'],
        Method::S => seq!['s'],
        Method::Sc => seq!['s', 'c'],
        Method::Scc => seq!['s', 'c', 'c'],
        Method::Sccc => seq!['s', 'c', 'c', 'c'],
        Method::Sg => seq!['s', 'g'],
        Method::Si => seq!['s', 'i'],
        Method::Sii => seq!['s', 'i', 'i'],
        Method::Sl => seq!['s', 'l'],
        Method::Ss => seq!['s', 's'],
        Method::Su => seq!['s', 'u'],
        Method::Suy => seq!['s', 'u', 'y'],
        Method::Sw => seq!['s', 'w'],
        Method::Sy => seq!['s', 'y'],
        Method::U => seq!['u'],
    }
}

impl Method {
    /// The lowercase name of the method, eg. `suy`.
    pub fn name(self) -> (res: &'static str)
        ensures
            res@ == method_name(self),
    {
        match self {
            Method::Q => { proof { reveal_strlit("q"); } "q" },
            Method::Qc => { proof { reveal_strlit("qc"); } "qc" },
            Method::Qe => { proof { reveal_strlit("qe"); } "qe" },
            Method::Qi => { proof { reveal_strlit("qi"); } "qi" },
            Method::Qii => { proof { reveal_strlit("qii"); } "qii" },
            Method::Qk => { proof { reveal_strlit("qk"); } "qk" },
            Method::Ql => { proof { reveal_strlit("ql"); } "ql" },
            Method::Qm => { proof { reveal_strlit("qm"); } "qm" },
            Method::Qo => { proof { reveal_strlit("qo"); } "qo" },
            Method::Qp => { proof { reveal_strlit("qp"); } "qp" },
            Method::Qs => { proof { reveal_strlit("qs"); } "qs" },
            Method::Qu => { proof { reveal_strlit("qu"); } "qu" },
            Method::R => { proof { reveal_strlit("r"); } "r" },
            Method::Rn => { proof { reveal_strlit("rn"); } "rn" },
            Method::Rns => { proof { reveal_strlit("rns"); } "rns" },
            Method::Rs => { proof { reveal_strlit("rs"); } "rs" },
            Method::Rss => { proof { reveal_strlit("rss"); } "rss" },
            Method::S => { proof { reveal_strlit("s"); } "s" },
            Method::Sc => { proof { reveal_strlit("sc"); } "sc" },
            Method::Scc => { proof { reveal_strlit("scc"); } "scc" },
            Method::Sccc => { proof { reveal_strlit("sccc"); } "sccc" },
            Method::Sg => { proof { reveal_strlit("sg"); } "sg" },
            Method::Si => { proof { reveal_strlit("si"); } "si" },
            Method::Sii => { proof { reveal_strlit("sii"); } "sii" },
            Method::Sl => { proof { reveal_strlit("sl"); } "sl" },
            Method::Ss => { proof { reveal_strlit("ss"); } "ss" },
            Method::Su => { proof { reveal_strlit("su"); } "su" },
            Method::Suy => { proof { reveal_strlit("suy"); } "suy" },
            Method::Sw => { proof { reveal_strlit("sw"); } "sw" },
            Method::Sy => { proof { reveal_strlit("sy"); } "sy" },
            Method::U => { proof { reveal_strlit("u"); } "u" },
        }
    }
}

/// What becomes of a command once the configuration and the strategy have
/// been applied to it: the command that actually runs, how it runs, and the
/// cache cleaning that follows, if any.
#[derive(Debug)]
pub struct RunPlan {
    /// The command to execute.
    pub cmd: Cmd,
    /// How it is executed.
    pub mode: Mode,
    /// The cache cleaning method to call afterwards, without keywords.
    pub cleanup: Option<Method>,
    /// The flags handed to the cache cleaning method.
    pub cleanup_flags: Vec<String>,
}

/// The command with the given flags appended.
pub open spec fn with_more_flags(c: CmdView, more: Seq<Seq<char>>) -> CmdView {
    CmdView { flags: c.flags + more, ..c }
}

/// Applies the cache and prompt strategies to a command that is to run.
pub open spec fn spec_run(cfg: Config, cmd: CmdView, mode: PmMode, strat: StrategyView) -> (CmdView, Mode) {
    let c = match strat.no_cache {
        NoCacheView::WithFlags(v) => if cfg.no_cache { with_more_flags(cmd, v) } else { cmd },
        _ => cmd,
    };
    match strat.prompt {
        PromptView::NoPrompt => (c, spec_mode_of(mode)),
        PromptView::CustomPrompt => if cfg.no_confirm {
            (c, spec_mode_of(mode))
        } else {
            (c, Mode::Prompt)
        },
        PromptView::NativeNoConfirm(v) => if cfg.no_confirm {
            (with_more_flags(c, v), spec_mode_of(mode))
        } else {
            (c, spec_mode_of(mode))
        },
        PromptView::NativeConfirm(v) => if cfg.no_confirm {
            (c, spec_mode_of(mode))
        } else {
            (with_more_flags(c, v), spec_mode_of(mode))
        },
    }
}

/// The command after the dry run strategy has been applied: with the dry
/// run flags, and without `sudo`, on a dry run with flags.
pub open spec fn spec_dry_cmd(cfg: Config, cmd: CmdView, strat: StrategyView) -> CmdView {
    match strat.dry_run {
        DryRunView::WithFlags(v) => if cfg.dry_run {
            CmdView { sudo: false, ..with_more_flags(cmd, v) }
        } else {
            cmd
        },
        DryRunView::PrintCmd => cmd,
    }
}

/// The command that runs and how it runs.
pub open spec fn spec_main(cfg: Config, cmd: CmdView, mode: PmMode, strat: StrategyView) -> (CmdView, Mode) {
    if cfg.dry_run && strat.dry_run is PrintCmd {
        (cmd, Mode::PrintCmd)
    } else {
        spec_run(cfg, spec_dry_cmd(cfg, cmd, strat), mode, strat)
    }
}

/// The cache cleaning method that follows, if any.
pub open spec fn spec_cleanup(cfg: Config, strat: StrategyView) -> Option<Method> {
    if cfg.no_cache {
        match strat.no_cache {
            NoCacheView::Sc => Some(Method::Sc),
            NoCacheView::Scc => Some(Method::Scc),
            NoCacheView::Sccc => Some(Method::Sccc),
            _ => None,
        }
    } else {
        None
    }
}

/// With `--nocache`, the cleanup after a command is the cache cleaning method
/// that the package manager's no-cache strategy names (`-Sc`, `-Scc` or
/// `-Sccc`); a strategy that adds flags, or none, cleans nothing afterwards,
/// and without `--nocache` nothing is cleaned.
pub proof fn no_cache_strategy_names_the_cleanup(cfg: Config, strat: StrategyView)
    ensures
        !cfg.no_cache ==> spec_cleanup(cfg, strat) is None,
        cfg.no_cache && strat.no_cache is Sc ==> spec_cleanup(cfg, strat) == Some(Method::Sc),
        cfg.no_cache && strat.no_cache is Scc ==> spec_cleanup(cfg, strat) == Some(Method::Scc),
        cfg.no_cache && strat.no_cache is Sccc ==> spec_cleanup(cfg, strat) == Some(Method::Sccc),
        strat.no_cache is NoClean || strat.no_cache is WithFlags ==> spec_cleanup(cfg, strat) is None,
{
}

/// Appends a copy of `more` to the flags of `cmd`.
fn add_flags(cmd: &mut Cmd, more: &Vec<String>)
    ensures
        final(cmd)@ == with_more_flags(old(cmd)@, views(more@)),
{
    cmd.extend_flags(more);
}

/// Applies the cache and prompt strategies to a command that is to run.
fn run_with_strategy(cfg: &Config, cmd: &Cmd, mode: PmMode, strat: &Strategy) -> (res: (Cmd, Mode))
    ensures
        (res.0@, res.1) == spec_run(*cfg, cmd@, mode, strat@),
{
    let mut curr = cmd.clone();
    if cfg.no_cache {
        if let NoCacheStrategy::WithFlags(v) = &strat.no_cache {
            add_flags(&mut curr, v);
        }
    }
    match &strat.prompt {
        PromptStrategy::NoPrompt => (curr, mode.to_mode()),
        PromptStrategy::CustomPrompt => {
            if cfg.no_confirm {
                (curr, mode.to_mode())
            } else {
                (curr, Mode::Prompt)
            }
        },
        PromptStrategy::NativeNoConfirm(v) => {
            if cfg.no_confirm {
                add_flags(&mut curr, v);
            }
            (curr, mode.to_mode())
        },
        PromptStrategy::NativeConfirm(v) => {
            if !cfg.no_confirm {
                add_flags(&mut curr, v);
            }
            (curr, mode.to_mode())
        },
    }
}

/// Decides how a command runs in the context of a package manager with the
/// given configuration and strategy: which command actually runs, in which
/// [`Mode`], and which cache cleaning method follows with which flags.
///
/// A dry run applies to both the main command and the cleanup; a dry run
/// with extra flags does not need `sudo`.
pub fn plan_run(cfg: &Config, cmd: Cmd, mode: PmMode, strat: &Strategy) -> (res: RunPlan)
    ensures
        (res.cmd@, res.mode) == spec_main(*cfg, cmd@, mode, strat@),
        res.cleanup == spec_cleanup(*cfg, strat@),
        views(res.cleanup_flags@) == spec_dry_cmd(*cfg, cmd@, strat@).flags,
        // A dry run that prints the command runs nothing and shows the
        // command as it was given.
        cfg.dry_run && strat@.dry_run is PrintCmd ==> res.mode == Mode::PrintCmd && res.cmd@ == cmd@,
        // A dry run with extra flags does not need `sudo`.
        cfg.dry_run && strat@.dry_run is WithFlags ==> !res.cmd.sudo,
        // Only flags are added: the command part and the keywords stay.
        res.cmd@.cmd == cmd@.cmd,
        res.cmd@.kws == cmd@.kws,
        cmd@.flags.len() <= res.cmd@.flags.len(),
        res.cmd@.flags.subrange(0, cmd@.flags.len() as int) == cmd@.flags,
        // Answering yes to every question means no custom prompt.
        cfg.no_confirm ==> res.mode != Mode::Prompt,
        // Without a dry run, `sudo` is kept as it was.
        !cfg.dry_run ==> res.cmd.sudo == cmd.sudo,
        // Cache cleaning follows only when asked for, and then it is the
        // method that the no-cache strategy names.
        res.cleanup is Some ==> cfg.no_cache,
        !cfg.no_cache ==> res.cleanup is None,
        cfg.no_cache && strat@.no_cache is Sc ==> res.cleanup == Some(Method::Sc),
        cfg.no_cache && strat@.no_cache is Scc ==> res.cleanup == Some(Method::Scc),
        cfg.no_cache && strat@.no_cache is Sccc ==> res.cleanup == Some(Method::Sccc),
        strat@.no_cache is NoClean || strat@.no_cache is WithFlags ==> res.cleanup is None,
{
    let mut cmd = cmd;
    let main = match &strat.dry_run {
        DryRunStrategy::PrintCmd => {
            if cfg.dry_run {
                (cmd.clone(), Mode::PrintCmd)
            } else {
                run_with_strategy(cfg, &cmd, mode, strat)
            }
        },
        DryRunStrategy::WithFlags(v) => {
            if cfg.dry_run {
                add_flags(&mut cmd, v);
                cmd = cmd.sudo(false);
            }
            run_with_strategy(cfg, &cmd, mode, strat)
        },
    };
    let cleanup = if cfg.no_cache {
        match &strat.no_cache {
            NoCacheStrategy::Sc => Some(Method::Sc),
            NoCacheStrategy::Scc => Some(Method::Scc),
            NoCacheStrategy::Sccc => Some(Method::Sccc),
            _ => None,
        }
    } else {
        None
    };
    let (main_cmd, main_mode) = main;
    RunPlan { cmd: main_cmd, mode: main_mode, cleanup, cleanup_flags: clone_strings(&cmd.flags) }
}

} // verus!
