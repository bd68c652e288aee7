//! The [Zypper Package Manager](https://en.opensuse.org/Portal:Zypper).

use vstd::prelude::*;

use crate::config::Config;
use crate::exec::Cmd;
use crate::pm::step::{cleans_no_cache, is_cache_cleaning, passes_flags, reports_pm, 
    cmd_of, one, run, run_with, search_unannounced, then, two, unimplemented, Step, StepView, steps_view,
};
use crate::pm::{
    DryRunStrategy, DryRunView, Method, NoCacheStrategy, NoCacheView, PmMode, PromptStrategy, PromptView, Strategy,
    StrategyView,
};
use crate::strings::str_views;

verus! {

/// Querying: a dry run passes `--dry-run`.
pub open spec fn strat_check_dry() -> StrategyView {
    StrategyView {
        dry_run: DryRunView::WithFlags(str_views(seq!["--dry-run"])),
        prompt: PromptView::NoPrompt,
        no_cache: NoCacheView::NoClean,
    }
}

/// Removing: as [`strat_check_dry`], and the native prompt is answered with
/// `-y`.
pub open spec fn strat_prompt() -> StrategyView {
    StrategyView { prompt: PromptView::NativeNoConfirm(str_views(seq!["-y"])), ..strat_check_dry() }
}

/// Installing: as [`strat_prompt`], and the cache is cleaned with `Scc`.
pub open spec fn strat_install() -> StrategyView {
    StrategyView { no_cache: NoCacheView::Scc, ..strat_prompt() }
}

/// Cleaning: asking with a prompt of `pacaptr`'s own.
pub open spec fn strat_clean() -> StrategyView {
    StrategyView { dry_run: DryRunView::PrintCmd, prompt: PromptView::CustomPrompt, no_cache: NoCacheView::NoClean }
}

fn make_strat_check_dry() -> (res: Strategy)
    ensures
        res@ =~~= strat_check_dry(),
{
    Strategy { dry_run: DryRunStrategy::with_flags(&["--dry-run"]), ..Strategy::default() }
}

fn make_strat_prompt() -> (res: Strategy)
    ensures
        res@ =~~= strat_prompt(),
{
    Strategy { prompt: PromptStrategy::native_prompt(&["-y"]), ..make_strat_check_dry() }
}

fn make_strat_install() -> (res: Strategy)
    ensures
        res@ =~~= strat_install(),
{
    Strategy { no_cache: NoCacheStrategy::Scc, ..make_strat_prompt() }
}

fn make_strat_clean() -> (res: Strategy)
    ensures
        res@ =~~= strat_clean(),
{
    Strategy { prompt: PromptStrategy::CustomPrompt, ..Strategy::default() }
}

/// A query that runs with `--dry-run` on a dry run.
pub open spec fn check_dry(c: crate::exec::CmdView) -> StepView {
    run_with(c, PmMode::CheckErr, strat_check_dry())
}

/// Installs the packages named.
pub open spec fn spec_s(kws: Seq<Seq<char>>, flags: Seq<Seq<char>>) -> StepView {
    run_with(cmd_of(str_views(seq!["zypper", "install"]), true, kws, flags), PmMode::CheckErr, strat_install())
}

/// Searches the installed packages for the keywords.
pub open spec fn spec_qs(kws: Seq<Seq<char>>, flags: Seq<Seq<char>>) -> StepView {
    check_dry(cmd_of(str_views(seq!["zypper", "search", "--installed-only"]), false, kws, flags))
}

/// The steps of each `pacman` method for `zypper`.
///
/// Upgrading without refreshing is followed, when the cache is to be
/// cleaned, by `Sccc`, which `zypper` does not implement.
pub open spec fn spec_steps(m: Method, kws: Seq<Seq<char>>, flags: Seq<Seq<char>>, cfg: Config) -> Seq<StepView> {
    match m {
        Method::Q => if kws.len() == 0 {
            seq![run(cmd_of(str_views(seq!["rpm", "-qa", "--qf", "%{NAME} %{VERSION}\\n"]), false, Seq::empty(), flags))]
        } else {
            seq![spec_qs(kws, flags)]
        },
        Method::Qc => seq![run(cmd_of(str_views(seq!["rpm", "-q", "changelog"]), false, kws, flags))],
        Method::Qi | Method::Si => seq![check_dry(cmd_of(str_views(seq!["zypper", "info", "--requires"]), false, kws, flags))],
        Method::Ql => seq![run(cmd_of(str_views(seq!["rpm", "-ql"]), false, kws, flags))],
        Method::Qm => seq![search_unannounced(cmd_of(str_views(seq!["zypper", "search", "-si"]), false, kws, flags), str_views(seq!["System Packages"]), 0)],
        Method::Qo => seq![run(cmd_of(str_views(seq!["rpm", "-qf"]), false, kws, flags))],
        Method::Qp => seq![run(cmd_of(str_views(seq!["rpm", "-qip"]), false, kws, flags))],
        Method::Qs => seq![spec_qs(kws, flags)],
        Method::Qu => seq![check_dry(cmd_of(str_views(seq!["zypper", "list-updates"]), false, kws, flags))],
        Method::R => seq![run_with(cmd_of(str_views(seq!["zypper", "remove"]), true, kws, flags), PmMode::CheckErr, strat_prompt())],
        Method::Rss => seq![run_with(cmd_of(str_views(seq!["zypper", "remove", "--clean-deps"]), true, kws, flags), PmMode::CheckErr, strat_prompt())],
        Method::S | Method::U => seq![spec_s(kws, flags)],
        Method::Sc | Method::Scc => seq![run_with(cmd_of(str_views(seq!["zypper", "clean"]), true, Seq::empty(), flags), PmMode::CheckErr, strat_clean())],
        Method::Sl => if kws.len() == 0 {
            seq![check_dry(cmd_of(str_views(seq!["zypper", "packages", "-R"]), false, kws, flags))]
        } else {
            seq![check_dry(cmd_of(str_views(seq!["zypper", "packages", "-r"]), false, kws, flags))]
        },
        Method::Ss => seq![check_dry(cmd_of(str_views(seq!["zypper", "search"]), false, kws, flags))],
        Method::Su => seq![check_dry(cmd_of(str_views(seq!["zypper", "--no-refresh", "dist-upgrade"]), true, Seq::empty(), flags))]
            + if cfg.no_cache { seq![unimplemented(Method::Sccc, "zypper"@)] } else { Seq::empty() },
        Method::Suy => seq![run_with(cmd_of(str_views(seq!["zypper", "dist-upgrade"]), true, Seq::empty(), flags), PmMode::CheckErr, strat_install())],
        Method::Sw => seq![run_with(cmd_of(str_views(seq!["zypper", "install", "--download-only"]), true, kws, flags), PmMode::CheckErr, strat_install())],
        Method::Sy => seq![check_dry(cmd_of(str_views(seq!["zypper", "refresh"]), true, Seq::empty(), flags))]
            + if kws.len() == 0 { Seq::empty() } else { seq![spec_s(kws, flags)] },
        _ => seq![unimplemented(m, "zypper"@)],
    }
}

fn check_dry_step(c: Cmd) -> (res: Step)
    ensures
        res@ =~~= check_dry(c@),
{
    Step::run_with(c, PmMode::CheckErr, make_strat_check_dry())
}

fn s(kws: &[&str], flags: &[&str]) -> (res: Step)
    ensures
        res@ =~~= spec_s(str_views(kws@), str_views(flags@)),
{
    Step::run_with(Cmd::with_sudo(&["zypper", "install"]).kws(kws).flags(flags), PmMode::CheckErr, make_strat_install())
}

/// The steps of the `pacman` method `m` for `zypper`, with the keywords and
/// the extra flags given.
pub fn steps(m: Method, kws: &[&str], flags: &[&str], cfg: &Config) -> (res: Vec<Step>)
    ensures
        steps_view(res@) =~~= spec_steps(m, str_views(kws@), str_views(flags@), *cfg),
{
    match m {
        Method::Q => {
            if kws.len() == 0 {
                one(Step::run(Cmd::new(&["rpm", "-qa", "--qf", "%{NAME} %{VERSION}\\n"]).flags(flags)))
            } else {
                one(check_dry_step(Cmd::new(&["zypper", "search", "--installed-only"]).kws(kws).flags(flags)))
            }
        },
        Method::Qc => one(Step::run(Cmd::new(&["rpm", "-q", "changelog"]).kws(kws).flags(flags))),
        Method::Qi | Method::Si => one(check_dry_step(Cmd::new(&["zypper", "info", "--requires"]).kws(kws).flags(flags))),
        Method::Ql => one(Step::run(Cmd::new(&["rpm", "-ql"]).kws(kws).flags(flags))),
        Method::Qm => one(Step::search_unannounced(Cmd::new(&["zypper", "search", "-si"]).kws(kws).flags(flags), &["System Packages"], 0)),
        Method::Qo => one(Step::run(Cmd::new(&["rpm", "-qf"]).kws(kws).flags(flags))),
        Method::Qp => one(Step::run(Cmd::new(&["rpm", "-qip"]).kws(kws).flags(flags))),
        Method::Qs => one(check_dry_step(Cmd::new(&["zypper", "search", "--installed-only"]).kws(kws).flags(flags))),
        Method::Qu => one(check_dry_step(Cmd::new(&["zypper", "list-updates"]).kws(kws).flags(flags))),
        Method::R => one(Step::run_with(Cmd::with_sudo(&["zypper", "remove"]).kws(kws).flags(flags), PmMode::CheckErr, make_strat_prompt())),
        Method::Rss => one(Step::run_with(Cmd::with_sudo(&["zypper", "remove", "--clean-deps"]).kws(kws).flags(flags), PmMode::CheckErr, make_strat_prompt())),
        Method::S | Method::U => one(s(kws, flags)),
        Method::Sc | Method::Scc => one(Step::run_with(Cmd::with_sudo(&["zypper", "clean"]).flags(flags), PmMode::CheckErr, make_strat_clean())),
        Method::Sl => {
            let c = if kws.len() == 0 { Cmd::new(&["zypper", "packages", "-R"]) } else { Cmd::new(&["zypper", "packages", "-r"]) };
            one(check_dry_step(c.kws(kws).flags(flags)))
        },
        Method::Ss => one(check_dry_step(Cmd::new(&["zypper", "search"]).kws(kws).flags(flags))),
        Method::Su => {
            let upgrade = check_dry_step(Cmd::with_sudo(&["zypper", "--no-refresh", "dist-upgrade"]).flags(flags));
            if cfg.no_cache {
                two(upgrade, Step::unimplemented(Method::Sccc, "zypper"))
            } else {
                let res = one(upgrade);
                assert(steps_view(res@) + Seq::<StepView>::empty() =~= steps_view(res@));
                res
            }
        },
        Method::Suy => one(Step::run_with(Cmd::with_sudo(&["zypper", "dist-upgrade"]).flags(flags), PmMode::CheckErr, make_strat_install())),
        Method::Sw => one(Step::run_with(Cmd::with_sudo(&["zypper", "install", "--download-only"]).kws(kws).flags(flags), PmMode::CheckErr, make_strat_install())),
        Method::Sy => {
            let first = one(check_dry_step(Cmd::with_sudo(&["zypper", "refresh"]).flags(flags)));
            if kws.len() == 0 {
                assert(steps_view(first@) + Seq::<StepView>::empty() =~= steps_view(first@));
                first
            } else {
                then(first, one(s(kws, flags)))
            }
        },
        _ => one(Step::unimplemented(m, "zypper")),
    }
}

/// Every command run by a method of `zypper` gets the extra flags given, and
/// every operation reported as not implemented is reported for `zypper`;
/// cleaning the cache is never followed by more cache cleaning.
pub proof fn lemma_steps_shape(m: Method, kws: Seq<Seq<char>>, flags: Seq<Seq<char>>, cfg: Config)
    ensures
        forall|i: int| 0 <= i < spec_steps(m, kws, flags, cfg).len() ==> passes_flags(#[trigger] spec_steps(m, kws, flags, cfg)[i], flags),
        forall|i: int| 0 <= i < spec_steps(m, kws, flags, cfg).len() ==> reports_pm(#[trigger] spec_steps(m, kws, flags, cfg)[i], "zypper"@),
        is_cache_cleaning(m) ==> forall|i: int| 0 <= i < spec_steps(m, kws, flags, cfg).len() ==> cleans_no_cache(#[trigger] spec_steps(m, kws, flags, cfg)[i]),
{
}

} // verus!
