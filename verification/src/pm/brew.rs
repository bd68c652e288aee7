//! The [Homebrew Package Manager](https://brew.sh/).

use vstd::prelude::*;

use crate::config::Config;
use crate::exec::Cmd;
use crate::pm::step::{cleans_no_cache, is_cache_cleaning, passes_flags, reports_pm, cmd_of, one, run, run_with, search, then, two, unimplemented, Step, StepView, steps_view};
use crate::pm::{DryRunStrategy, DryRunView, Method, NoCacheStrategy, NoCacheView, PmMode, PromptStrategy, PromptView, Strategy, StrategyView};
use crate::strings::str_views;

verus! {

/// Asking before changing anything, with a prompt of `pacaptr`'s own.
pub open spec fn strat_prompt() -> StrategyView {
    StrategyView { dry_run: DryRunView::PrintCmd, prompt: PromptView::CustomPrompt, no_cache: NoCacheView::NoClean }
}

/// Installing: as [`strat_prompt`], and the cache is cleaned with `Scc`.
pub open spec fn strat_install() -> StrategyView {
    StrategyView { no_cache: NoCacheView::Scc, ..strat_prompt() }
}

/// Cleaning: as [`strat_prompt`], and a dry run passes `--dry-run`.
pub open spec fn strat_clean() -> StrategyView {
    StrategyView { dry_run: DryRunView::WithFlags(str_views(seq!["--dry-run"])), ..strat_prompt() }
}

fn make_strat_prompt() -> (res: Strategy)
    ensures
        res@ =~~= strat_prompt(),
{
    Strategy { prompt: PromptStrategy::CustomPrompt, ..Strategy::default() }
}

fn make_strat_install() -> (res: Strategy)
    ensures
        res@ =~~= strat_install(),
{
    Strategy { no_cache: NoCacheStrategy::Scc, ..make_strat_prompt() }
}

fn make_strat_clean() -> (res: Strategy)
    ensures
        res@ =~~= strat_clean(),
{
    Strategy { dry_run: DryRunStrategy::with_flags(&["--dry-run"]), ..make_strat_prompt() }
}

/// Searches the installed formulae, then, on macOS, the installed casks.
pub open spec fn spec_qs(kws: Seq<Seq<char>>, flags: Seq<Seq<char>>, cfg: Config, macos: bool) -> Seq<StepView> {
    seq![search(cmd_of(str_views(seq!["brew", "list", "--formula"]), false, Seq::empty(), flags), kws, 0, cfg)]
        + if macos {
        seq![search(cmd_of(str_views(seq!["brew", "list", "--cask"]), false, Seq::empty(), flags), kws, 0, cfg)]
    } else {
        Seq::empty()
    }
}

/// Installs the packages, reinstalling them unless `needed` is set.
pub open spec fn spec_s(kws: Seq<Seq<char>>, flags: Seq<Seq<char>>, cfg: Config) -> StepView {
    let words = if cfg.needed { str_views(seq!["brew", "install"]) } else { str_views(seq!["brew", "reinstall"]) };
    run_with(cmd_of(words, false, kws, flags), PmMode::CheckErr, strat_install())
}

/// Upgrades the packages named, or all of them.
pub open spec fn spec_su(kws: Seq<Seq<char>>, flags: Seq<Seq<char>>) -> StepView {
    run_with(cmd_of(str_views(seq!["brew", "upgrade"]), false, kws, flags), PmMode::CheckErr, strat_install())
}

/// Updates Homebrew, then installs the packages named, if any.
pub open spec fn spec_sy(kws: Seq<Seq<char>>, flags: Seq<Seq<char>>, cfg: Config) -> Seq<StepView> {
    seq![run(cmd_of(str_views(seq!["brew", "update"]), false, Seq::empty(), flags))]
        + if kws.len() == 0 { Seq::empty() } else { seq![spec_s(kws, flags, cfg)] }
}

/// Removes the packages named.
pub open spec fn spec_r(words: Seq<Seq<char>>, kws: Seq<Seq<char>>, flags: Seq<Seq<char>>) -> StepView {
    run_with(cmd_of(words, false, kws, flags), PmMode::CheckErr, strat_prompt())
}

/// Removes the dependencies that are no longer needed.
pub open spec fn spec_autoremove(flags: Seq<Seq<char>>) -> StepView {
    run_with(cmd_of(str_views(seq!["brew", "autoremove"]), false, Seq::empty(), flags), PmMode::CheckErr, strat_prompt())
}

/// The steps of each `pacman` method for `brew`; `macos` tells whether the
/// casks are searched too.
pub open spec fn spec_steps(m: Method, kws: Seq<Seq<char>>, flags: Seq<Seq<char>>, cfg: Config, macos: bool) -> Seq<StepView> {
    match m {
        Method::Q => if kws.len() == 0 {
            seq![run(cmd_of(str_views(seq!["brew", "list"]), false, Seq::empty(), flags))]
        } else {
            spec_qs(kws, flags, cfg, macos)
        },
        Method::Qc => seq![run(cmd_of(str_views(seq!["brew", "log"]), false, kws, flags))],
        Method::Qi | Method::Si => seq![run(cmd_of(str_views(seq!["brew", "info"]), false, kws, flags))],
        Method::Qii => seq![run(cmd_of(str_views(seq!["brew", "uses", "--installed"]), false, kws, flags))],
        Method::Ql => seq![run(cmd_of(str_views(seq!["brew", "list"]), false, kws, flags))],
        Method::Qs => spec_qs(kws, flags, cfg, macos),
        Method::Qu => seq![run(cmd_of(str_views(seq!["brew", "outdated"]), false, kws, flags))],
        Method::R => seq![spec_r(str_views(seq!["brew", "uninstall"]), kws, flags)],
        Method::Rn => seq![spec_r(str_views(seq!["brew", "uninstall", "--zap", "-f"]), kws, flags)],
        Method::Rns => seq![spec_r(str_views(seq!["brew", "uninstall", "--zap", "-f"]), kws, flags), spec_autoremove(flags)],
        Method::Rs => seq![spec_r(str_views(seq!["brew", "uninstall"]), kws, flags), spec_autoremove(flags)],
        Method::S => seq![spec_s(kws, flags, cfg)],
        Method::Sc => seq![run_with(cmd_of(str_views(seq!["brew", "cleanup"]), false, kws, flags), PmMode::CheckErr, strat_clean())],
        Method::Scc => seq![run_with(cmd_of(str_views(seq!["brew", "cleanup", "-s"]), false, kws, flags), PmMode::CheckErr, strat_clean())],
        Method::Sii => seq![run(cmd_of(str_views(seq!["brew", "uses", "--eval-all"]), false, kws, flags))],
        Method::Ss => seq![run(cmd_of(str_views(seq!["brew", "search"]), false, kws, flags))],
        Method::Su => seq![spec_su(kws, flags)],
        Method::Suy => spec_sy(Seq::empty(), flags, cfg).push(spec_su(kws, flags)),
        Method::Sw => seq![run_with(cmd_of(str_views(seq!["brew", "fetch"]), false, kws, flags), PmMode::CheckErr, strat_prompt())],
        Method::Sy => spec_sy(kws, flags, cfg),
        _ => seq![unimplemented(m, "brew"@)],
    }
}

fn qs(kws: &[&str], flags: &[&str], cfg: &Config, macos: bool) -> (res: Vec<Step>)
    ensures
        steps_view(res@) =~~= spec_qs(str_views(kws@), str_views(flags@), *cfg, macos),
{
    let formulae = one(Step::search(Cmd::new(&["brew", "list", "--formula"]).flags(flags), kws, 0, cfg));
    if macos {
        then(formulae, one(Step::search(Cmd::new(&["brew", "list", "--cask"]).flags(flags), kws, 0, cfg)))
    } else {
        assert(steps_view(formulae@) + Seq::<StepView>::empty() =~= steps_view(formulae@));
        formulae
    }
}

fn s(kws: &[&str], flags: &[&str], cfg: &Config) -> (res: Step)
    ensures
        res@ =~~= spec_s(str_views(kws@), str_views(flags@), *cfg),
{
    let c = if cfg.needed { Cmd::new(&["brew", "install"]) } else { Cmd::new(&["brew", "reinstall"]) };
    Step::run_with(c.kws(kws).flags(flags), PmMode::CheckErr, make_strat_install())
}

fn su(kws: &[&str], flags: &[&str]) -> (res: Step)
    ensures
        res@ =~~= spec_su(str_views(kws@), str_views(flags@)),
{
    Step::run_with(Cmd::new(&["brew", "upgrade"]).kws(kws).flags(flags), PmMode::CheckErr, make_strat_install())
}

fn sy(kws: &[&str], flags: &[&str], cfg: &Config) -> (res: Vec<Step>)
    ensures
        steps_view(res@) =~~= spec_sy(str_views(kws@), str_views(flags@), *cfg),
{
    let first = one(Step::run(Cmd::new(&["brew", "update"]).flags(flags)));
    if kws.len() == 0 {
        assert(steps_view(first@) + Seq::<StepView>::empty() =~= steps_view(first@));
        first
    } else {
        then(first, one(s(kws, flags, cfg)))
    }
}

fn autoremove(flags: &[&str]) -> (res: Step)
    ensures
        res@ =~~= spec_autoremove(str_views(flags@)),
{
    Step::run_with(Cmd::new(&["brew", "autoremove"]).flags(flags), PmMode::CheckErr, make_strat_prompt())
}

/// The steps of the `pacman` method `m` for `brew`, with the keywords and
/// the extra flags given; `macos` tells whether the casks are searched too.
pub fn steps(m: Method, kws: &[&str], flags: &[&str], cfg: &Config, macos: bool) -> (res: Vec<Step>)
    ensures
        steps_view(res@) =~~= spec_steps(m, str_views(kws@), str_views(flags@), *cfg, macos),
{
    match m {
        Method::Q => {
            if kws.len() == 0 {
                one(Step::run(Cmd::new(&["brew", "list"]).flags(flags)))
            } else {
                qs(kws, flags, cfg, macos)
            }
        },
        Method::Qc => one(Step::run(Cmd::new(&["brew", "log"]).kws(kws).flags(flags))),
        Method::Qi | Method::Si => one(Step::run(Cmd::new(&["brew", "info"]).kws(kws).flags(flags))),
        Method::Qii => one(Step::run(Cmd::new(&["brew", "uses", "--installed"]).kws(kws).flags(flags))),
        Method::Ql => one(Step::run(Cmd::new(&["brew", "list"]).kws(kws).flags(flags))),
        Method::Qs => qs(kws, flags, cfg, macos),
        Method::Qu => one(Step::run(Cmd::new(&["brew", "outdated"]).kws(kws).flags(flags))),
        Method::R => one(Step::run_with(Cmd::new(&["brew", "uninstall"]).kws(kws).flags(flags), PmMode::CheckErr, make_strat_prompt())),
        Method::Rn => one(Step::run_with(Cmd::new(&["brew", "uninstall", "--zap", "-f"]).kws(kws).flags(flags), PmMode::CheckErr, make_strat_prompt())),
        Method::Rns => two(
            Step::run_with(Cmd::new(&["brew", "uninstall", "--zap", "-f"]).kws(kws).flags(flags), PmMode::CheckErr, make_strat_prompt()),
            autoremove(flags),
        ),
        Method::Rs => two(
            Step::run_with(Cmd::new(&["brew", "uninstall"]).kws(kws).flags(flags), PmMode::CheckErr, make_strat_prompt()),
            autoremove(flags),
        ),
        Method::S => one(s(kws, flags, cfg)),
        Method::Sc => one(Step::run_with(Cmd::new(&["brew", "cleanup"]).kws(kws).flags(flags), PmMode::CheckErr, make_strat_clean())),
        Method::Scc => one(Step::run_with(Cmd::new(&["brew", "cleanup", "-s"]).kws(kws).flags(flags), PmMode::CheckErr, make_strat_clean())),
        Method::Sii => one(Step::run(Cmd::new(&["brew", "uses", "--eval-all"]).kws(kws).flags(flags))),
        Method::Ss => one(Step::run(Cmd::new(&["brew", "search"]).kws(kws).flags(flags))),
        Method::Su => one(su(kws, flags)),
        Method::Suy => {
            let none: &[&str] = &[];
            assert(str_views(none@) =~= Seq::<Seq<char>>::empty());
            let res = then(sy(none, flags, cfg), one(su(kws, flags)));
            res
        },
        Method::Sw => one(Step::run_with(Cmd::new(&["brew", "fetch"]).kws(kws).flags(flags), PmMode::CheckErr, make_strat_prompt())),
        Method::Sy => sy(kws, flags, cfg),
        _ => one(Step::unimplemented(m, "brew")),
    }
}

/// Every command run by a method of `brew` gets the extra flags given, and
/// every operation reported as not implemented is reported for `brew`;
/// cleaning the cache is never followed by more cache cleaning.
pub proof fn lemma_steps_shape(m: Method, kws: Seq<Seq<char>>, flags: Seq<Seq<char>>, cfg: Config, macos: bool)
    ensures
        forall|i: int| 0 <= i < spec_steps(m, kws, flags, cfg, macos).len() ==> passes_flags(#[trigger] spec_steps(m, kws, flags, cfg, macos)[i], flags),
        forall|i: int| 0 <= i < spec_steps(m, kws, flags, cfg, macos).len() ==> reports_pm(#[trigger] spec_steps(m, kws, flags, cfg, macos)[i], "brew"@),
        is_cache_cleaning(m) ==> forall|i: int| 0 <= i < spec_steps(m, kws, flags, cfg, macos).len() ==> cleans_no_cache(#[trigger] spec_steps(m, kws, flags, cfg, macos)[i]),
{
}

} // verus!
