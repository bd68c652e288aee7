//! The [Chocolatey Package Manager](https://chocolatey.org/).

use vstd::prelude::*;

use crate::config::Config;
use crate::exec::Cmd;
use crate::pm::step::{cleans_no_cache, is_cache_cleaning, passes_flags, reports_pm, cmd_of, one, run_with, unimplemented, Step, StepView, steps_view};
use crate::pm::{DryRunStrategy, DryRunView, Method, NoCacheView, PmMode, PromptStrategy, PromptView, Strategy, StrategyView};
use crate::strings::str_views;

verus! {

/// Querying: a dry run passes `--what-if`.
pub open spec fn strat_check_dry() -> StrategyView {
    StrategyView {
        dry_run: DryRunView::WithFlags(str_views(seq!["--what-if"])),
        prompt: PromptView::NoPrompt,
        no_cache: NoCacheView::NoClean,
    }
}

/// Changing: as [`strat_check_dry`], and the native prompt is answered
/// with `--yes`.
pub open spec fn strat_prompt() -> StrategyView {
    StrategyView { prompt: PromptView::NativeNoConfirm(str_views(seq!["--yes"])), ..strat_check_dry() }
}

fn make_strat_check_dry() -> (res: Strategy)
    ensures
        res@ =~~= strat_check_dry(),
{
    Strategy { dry_run: DryRunStrategy::with_flags(&["--what-if"]), ..Strategy::default() }
}

fn make_strat_prompt() -> (res: Strategy)
    ensures
        res@ =~~= strat_prompt(),
{
    Strategy { prompt: PromptStrategy::native_no_confirm(&["--yes"]), ..make_strat_check_dry() }
}

/// Upgrades the packages named, or all of them.
pub open spec fn spec_su(kws: Seq<Seq<char>>, flags: Seq<Seq<char>>) -> StepView {
    let words = if kws.len() == 0 {
        str_views(seq!["choco", "upgrade", "all"])
    } else {
        str_views(seq!["choco", "upgrade"])
    };
    run_with(cmd_of(words, false, kws, flags), PmMode::CheckErr, strat_prompt())
}

/// A query that runs with `--what-if` on a dry run.
pub open spec fn check_dry(words: Seq<Seq<char>>, kws: Seq<Seq<char>>, flags: Seq<Seq<char>>) -> StepView {
    run_with(cmd_of(words, false, kws, flags), PmMode::CheckErr, strat_check_dry())
}

/// The steps of each `pacman` method for `choco`.
pub open spec fn spec_steps(m: Method, kws: Seq<Seq<char>>, flags: Seq<Seq<char>>, cfg: Config) -> Seq<StepView> {
    match m {
        Method::Q => seq![check_dry(str_views(seq!["choco", "list", "--localonly"]), kws, flags)],
        Method::Qi | Method::Si => seq![check_dry(str_views(seq!["choco", "info"]), kws, flags)],
        Method::Qu => seq![check_dry(str_views(seq!["choco", "outdated"]), kws, flags)],
        Method::R => seq![run_with(cmd_of(str_views(seq!["choco", "uninstall"]), false, kws, flags), PmMode::CheckErr, strat_prompt())],
        Method::Rss => seq![run_with(cmd_of(str_views(seq!["choco", "uninstall", "--removedependencies"]), false, kws, flags), PmMode::CheckErr, strat_prompt())],
        Method::S => {
            let words = if cfg.needed {
                str_views(seq!["choco", "install"])
            } else {
                str_views(seq!["choco", "install", "--force"])
            };
            seq![run_with(cmd_of(words, false, kws, flags), PmMode::CheckErr, strat_prompt())]
        },
        Method::Ss => seq![check_dry(str_views(seq!["choco", "search"]), kws, flags)],
        Method::Su | Method::Suy => seq![spec_su(kws, flags)],
        _ => seq![unimplemented(m, "choco"@)],
    }
}

fn check_dry_step(c: Cmd) -> (res: Step)
    ensures
        res@ =~~= run_with(c@, PmMode::CheckErr, strat_check_dry()),
{
    Step::run_with(c, PmMode::CheckErr, make_strat_check_dry())
}

/// The steps of the `pacman` method `m` for `choco`, with the keywords and
/// the extra flags given.
pub fn steps(m: Method, kws: &[&str], flags: &[&str], cfg: &Config) -> (res: Vec<Step>)
    ensures
        steps_view(res@) =~~= spec_steps(m, str_views(kws@), str_views(flags@), *cfg),
{
    match m {
        Method::Q => one(check_dry_step(Cmd::new(&["choco", "list", "--localonly"]).kws(kws).flags(flags))),
        Method::Qi | Method::Si => one(check_dry_step(Cmd::new(&["choco", "info"]).kws(kws).flags(flags))),
        Method::Qu => one(check_dry_step(Cmd::new(&["choco", "outdated"]).kws(kws).flags(flags))),
        Method::R => one(Step::run_with(Cmd::new(&["choco", "uninstall"]).kws(kws).flags(flags), PmMode::CheckErr, make_strat_prompt())),
        Method::Rss => one(Step::run_with(Cmd::new(&["choco", "uninstall", "--removedependencies"]).kws(kws).flags(flags), PmMode::CheckErr, make_strat_prompt())),
        Method::S => {
            let c = if cfg.needed { Cmd::new(&["choco", "install"]) } else { Cmd::new(&["choco", "install", "--force"]) };
            one(Step::run_with(c.kws(kws).flags(flags), PmMode::CheckErr, make_strat_prompt()))
        },
        Method::Ss => one(check_dry_step(Cmd::new(&["choco", "search"]).kws(kws).flags(flags))),
        Method::Su | Method::Suy => {
            let c = if kws.len() == 0 { Cmd::new(&["choco", "upgrade", "all"]) } else { Cmd::new(&["choco", "upgrade"]) };
            one(Step::run_with(c.kws(kws).flags(flags), PmMode::CheckErr, make_strat_prompt()))
        },
        _ => one(Step::unimplemented(m, "choco")),
    }
}

/// Every command run by a method of `choco` gets the extra flags given, and
/// every operation reported as not implemented is reported for `choco`;
/// cleaning the cache is never followed by more cache cleaning.
pub proof fn lemma_steps_shape(m: Method, kws: Seq<Seq<char>>, flags: Seq<Seq<char>>, cfg: Config)
    ensures
        forall|i: int| 0 <= i < spec_steps(m, kws, flags, cfg).len() ==> passes_flags(#[trigger] spec_steps(m, kws, flags, cfg)[i], flags),
        forall|i: int| 0 <= i < spec_steps(m, kws, flags, cfg).len() ==> reports_pm(#[trigger] spec_steps(m, kws, flags, cfg)[i], "choco"@),
        is_cache_cleaning(m) ==> forall|i: int| 0 <= i < spec_steps(m, kws, flags, cfg).len() ==> cleans_no_cache(#[trigger] spec_steps(m, kws, flags, cfg)[i]),
{
}

} // verus!
