//! The [Python Package Installer](https://pip.pypa.io/).
//!
//! Every command goes through the command name that selected this package
//! manager (`pip` or `pip3`).

use vstd::prelude::*;

use crate::config::Config;
use crate::exec::Cmd;
use crate::pm::step::{cleans_no_cache, is_cache_cleaning, passes_flags, reports_pm, cmd_of, one, run, run_with, search, unimplemented, words_after, Step, StepView, steps_view};
use crate::pm::{DryRunView, Method, NoCacheView, PmMode, PromptStrategy, PromptView, Strategy, StrategyView};
use crate::strings::str_views;

verus! {

/// Installing: asking with a prompt of `pacaptr`'s own.
pub open spec fn strat_prompt() -> StrategyView {
    StrategyView { dry_run: DryRunView::PrintCmd, prompt: PromptView::CustomPrompt, no_cache: NoCacheView::NoClean }
}

/// Uninstalling: the native prompt is answered with `-y`.
pub open spec fn strat_uninstall() -> StrategyView {
    StrategyView { prompt: PromptView::NativeNoConfirm(str_views(seq!["-y"])), ..strat_prompt() }
}

fn make_strat_prompt() -> (res: Strategy)
    ensures
        res@ =~~= strat_prompt(),
{
    Strategy { prompt: PromptStrategy::CustomPrompt, ..Strategy::default() }
}

fn make_strat_uninstall() -> (res: Strategy)
    ensures
        res@ =~~= strat_uninstall(),
{
    Strategy { prompt: PromptStrategy::native_no_confirm(&["-y"]), ..Strategy::default() }
}

/// Searches the installed packages for the keywords.
pub open spec fn spec_qs(cmd: Seq<char>, kws: Seq<Seq<char>>, flags: Seq<Seq<char>>, cfg: Config) -> StepView {
    search(cmd_of(words_after(cmd, seq!["list"]), false, Seq::empty(), flags), kws, 0, cfg)
}

/// The steps of each `pacman` method for `pip`, invoked as `cmd`.
pub open spec fn spec_steps(cmd: Seq<char>, m: Method, kws: Seq<Seq<char>>, flags: Seq<Seq<char>>, cfg: Config) -> Seq<StepView> {
    match m {
        Method::Q => if kws.len() == 0 {
            seq![run(cmd_of(words_after(cmd, seq!["list"]), false, Seq::empty(), flags))]
        } else {
            seq![spec_qs(cmd, kws, flags, cfg)]
        },
        Method::Qi => seq![run(cmd_of(words_after(cmd, seq!["show"]), false, kws, flags))],
        Method::Qs => seq![spec_qs(cmd, kws, flags, cfg)],
        Method::Qu => seq![run(cmd_of(words_after(cmd, seq!["list", "--outdated"]), false, kws, flags))],
        Method::R => seq![run_with(cmd_of(words_after(cmd, seq!["uninstall"]), false, kws, flags), PmMode::CheckErr, strat_uninstall())],
        Method::S => seq![run_with(cmd_of(words_after(cmd, seq!["install"]), false, kws, flags), PmMode::CheckErr, strat_prompt())],
        Method::Sc => seq![run(cmd_of(words_after(cmd, seq!["cache", "purge"]), false, Seq::empty(), flags))],
        // Upgrading everything at once is not something `pip` can do.
        Method::Su => if kws.len() == 0 {
            seq![unimplemented(Method::Su, "pip"@)]
        } else {
            seq![run(cmd_of(words_after(cmd, seq!["install", "--upgrade"]), false, kws, flags))]
        },
        Method::Sw => seq![run(cmd_of(words_after(cmd, seq!["download"]), false, kws, flags))],
        _ => seq![unimplemented(m, "pip"@)],
    }
}

/// The steps of the `pacman` method `m` for `pip`, invoked as `cmd`, with
/// the keywords and the extra flags given.
pub fn steps(cmd: &str, m: Method, kws: &[&str], flags: &[&str], cfg: &Config) -> (res: Vec<Step>)
    ensures
        steps_view(res@) =~~= spec_steps(cmd@, m, str_views(kws@), str_views(flags@), *cfg),
{
    match m {
        Method::Q => {
            if kws.len() == 0 {
                one(Step::run(Cmd::prefixed(cmd, &["list"]).flags(flags)))
            } else {
                one(Step::search(Cmd::prefixed(cmd, &["list"]).flags(flags), kws, 0, cfg))
            }
        },
        Method::Qi => one(Step::run(Cmd::prefixed(cmd, &["show"]).kws(kws).flags(flags))),
        Method::Qs => one(Step::search(Cmd::prefixed(cmd, &["list"]).flags(flags), kws, 0, cfg)),
        Method::Qu => one(Step::run(Cmd::prefixed(cmd, &["list", "--outdated"]).kws(kws).flags(flags))),
        Method::R => one(Step::run_with(Cmd::prefixed(cmd, &["uninstall"]).kws(kws).flags(flags), PmMode::CheckErr, make_strat_uninstall())),
        Method::S => one(Step::run_with(Cmd::prefixed(cmd, &["install"]).kws(kws).flags(flags), PmMode::CheckErr, make_strat_prompt())),
        Method::Sc => one(Step::run(Cmd::prefixed(cmd, &["cache", "purge"]).flags(flags))),
        Method::Su => {
            if kws.len() == 0 {
                one(Step::unimplemented(Method::Su, "pip"))
            } else {
                one(Step::run(Cmd::prefixed(cmd, &["install", "--upgrade"]).kws(kws).flags(flags)))
            }
        },
        Method::Sw => one(Step::run(Cmd::prefixed(cmd, &["download"]).kws(kws).flags(flags))),
        _ => one(Step::unimplemented(m, "pip")),
    }
}

/// Every command run by a method of `pip` gets the extra flags given, and
/// every operation reported as not implemented is reported for `pip`;
/// cleaning the cache is never followed by more cache cleaning.
pub proof fn lemma_steps_shape(cmd: Seq<char>, m: Method, kws: Seq<Seq<char>>, flags: Seq<Seq<char>>, cfg: Config)
    ensures
        forall|i: int| 0 <= i < spec_steps(cmd, m, kws, flags, cfg).len() ==> passes_flags(#[trigger] spec_steps(cmd, m, kws, flags, cfg)[i], flags),
        forall|i: int| 0 <= i < spec_steps(cmd, m, kws, flags, cfg).len() ==> reports_pm(#[trigger] spec_steps(cmd, m, kws, flags, cfg)[i], "pip"@),
        is_cache_cleaning(m) ==> forall|i: int| 0 <= i < spec_steps(cmd, m, kws, flags, cfg).len() ==> cleans_no_cache(#[trigger] spec_steps(cmd, m, kws, flags, cfg)[i]),
{
}

} // verus!
