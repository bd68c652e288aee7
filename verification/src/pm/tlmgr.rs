//! The [TeX Live Package Manager](https://www.tug.org/texlive/tlmgr.html).

use vstd::prelude::*;

use crate::exec::Cmd;
use crate::pm::step::{cleans_no_cache, is_cache_cleaning, passes_flags, reports_pm, cmd_of, one, run, run_with, unimplemented, Step, StepView, steps_view};
use crate::pm::{DryRunStrategy, DryRunView, Method, NoCacheView, PmMode, PromptView, Strategy, StrategyView};
use crate::strings::str_views;

verus! {

/// Changing: a dry run passes `--dry-run`.
pub open spec fn strat_check_dry() -> StrategyView {
    StrategyView {
        dry_run: DryRunView::WithFlags(str_views(seq!["--dry-run"])),
        prompt: PromptView::NoPrompt,
        no_cache: NoCacheView::NoClean,
    }
}

fn make_strat_check_dry() -> (res: Strategy)
    ensures
        res@ =~~= strat_check_dry(),
{
    Strategy { dry_run: DryRunStrategy::with_flags(&["--dry-run"]), ..Strategy::default() }
}

/// A change that runs with `--dry-run` on a dry run.
pub open spec fn check_dry(words: Seq<Seq<char>>, kws: Seq<Seq<char>>, flags: Seq<Seq<char>>) -> StepView {
    run_with(cmd_of(words, false, kws, flags), PmMode::CheckErr, strat_check_dry())
}

/// The steps of each `pacman` method for `tlmgr`.
pub open spec fn spec_steps(m: Method, kws: Seq<Seq<char>>, flags: Seq<Seq<char>>) -> Seq<StepView> {
    match m {
        Method::Q | Method::Qi => seq![run(cmd_of(str_views(seq!["tlmgr", "info", "--only-installed"]), false, kws, flags))],
        Method::Qk => seq![run(cmd_of(str_views(seq!["tlmgr", "check", "files"]), false, Seq::empty(), flags))],
        Method::Ql => seq![run(cmd_of(str_views(seq!["tlmgr", "info", "--only-installed", "--list"]), false, kws, flags))],
        Method::R => seq![check_dry(str_views(seq!["tlmgr", "remove"]), kws, flags)],
        Method::S => seq![check_dry(str_views(seq!["tlmgr", "install"]), kws, flags)],
        Method::Si => seq![run(cmd_of(str_views(seq!["tlmgr", "info"]), false, kws, flags))],
        Method::Sl => seq![run(cmd_of(str_views(seq!["tlmgr", "info"]), false, Seq::empty(), flags))],
        Method::Ss => seq![run(cmd_of(str_views(seq!["tlmgr", "search", "--global"]), false, kws, flags))],
        Method::Su | Method::Suy => if kws.len() == 0 {
            seq![check_dry(str_views(seq!["tlmgr", "update", "--self", "--all"]), kws, flags)]
        } else {
            seq![check_dry(str_views(seq!["tlmgr", "update", "--self"]), kws, flags)]
        },
        Method::U => seq![check_dry(str_views(seq!["tlmgr", "install", "--file"]), kws, flags)],
        _ => seq![unimplemented(m, "tlmgr"@)],
    }
}

fn check_dry_step(c: Cmd) -> (res: Step)
    ensures
        res@ =~~= run_with(c@, PmMode::CheckErr, strat_check_dry()),
{
    Step::run_with(c, PmMode::CheckErr, make_strat_check_dry())
}

/// The steps of the `pacman` method `m` for `tlmgr`, with the keywords and
/// the extra flags given.
pub fn steps(m: Method, kws: &[&str], flags: &[&str]) -> (res: Vec<Step>)
    ensures
        steps_view(res@) =~~= spec_steps(m, str_views(kws@), str_views(flags@)),
{
    match m {
        Method::Q | Method::Qi => one(Step::run(Cmd::new(&["tlmgr", "info", "--only-installed"]).kws(kws).flags(flags))),
        Method::Qk => one(Step::run(Cmd::new(&["tlmgr", "check", "files"]).flags(flags))),
        Method::Ql => one(Step::run(Cmd::new(&["tlmgr", "info", "--only-installed", "--list"]).kws(kws).flags(flags))),
        Method::R => one(check_dry_step(Cmd::new(&["tlmgr", "remove"]).kws(kws).flags(flags))),
        Method::S => one(check_dry_step(Cmd::new(&["tlmgr", "install"]).kws(kws).flags(flags))),
        Method::Si => one(Step::run(Cmd::new(&["tlmgr", "info"]).kws(kws).flags(flags))),
        Method::Sl => one(Step::run(Cmd::new(&["tlmgr", "info"]).flags(flags))),
        Method::Ss => one(Step::run(Cmd::new(&["tlmgr", "search", "--global"]).kws(kws).flags(flags))),
        Method::Su | Method::Suy => {
            let c = if kws.len() == 0 {
                Cmd::new(&["tlmgr", "update", "--self", "--all"])
            } else {
                Cmd::new(&["tlmgr", "update", "--self"])
            };
            one(check_dry_step(c.kws(kws).flags(flags)))
        },
        Method::U => one(check_dry_step(Cmd::new(&["tlmgr", "install", "--file"]).kws(kws).flags(flags))),
        _ => one(Step::unimplemented(m, "tlmgr")),
    }
}

/// Every command run by a method of `tlmgr` gets the extra flags given, and
/// every operation reported as not implemented is reported for `tlmgr`;
/// cleaning the cache is never followed by more cache cleaning.
pub proof fn lemma_steps_shape(m: Method, kws: Seq<Seq<char>>, flags: Seq<Seq<char>>)
    ensures
        forall|i: int| 0 <= i < spec_steps(m, kws, flags).len() ==> passes_flags(#[trigger] spec_steps(m, kws, flags)[i], flags),
        forall|i: int| 0 <= i < spec_steps(m, kws, flags).len() ==> reports_pm(#[trigger] spec_steps(m, kws, flags)[i], "tlmgr"@),
        is_cache_cleaning(m) ==> forall|i: int| 0 <= i < spec_steps(m, kws, flags).len() ==> cleans_no_cache(#[trigger] spec_steps(m, kws, flags)[i]),
{
}

} // verus!
