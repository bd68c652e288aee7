//! The [Windows Package Manager CLI](https://github.com/microsoft/winget-cli).

use vstd::prelude::*;

use crate::config::Config;
use crate::exec::Cmd;
use crate::pm::step::{cleans_no_cache, is_cache_cleaning, passes_flags, reports_pm, 
    cmd_of, default_mode, one, run, run_with, search, spec_default_mode, then, unimplemented, Step, StepView,
    steps_view,
};
use crate::pm::{DryRunView, Method, NoCacheView, PromptStrategy, PromptView, Strategy, StrategyView};
use crate::strings::str_views;

verus! {

/// Changing: asking with a prompt of `pacaptr`'s own.
pub open spec fn strat_prompt() -> StrategyView {
    StrategyView { dry_run: DryRunView::PrintCmd, prompt: PromptView::CustomPrompt, no_cache: NoCacheView::NoClean }
}

fn make_strat_prompt() -> (res: Strategy)
    ensures
        res@ =~~= strat_prompt(),
{
    Strategy { prompt: PromptStrategy::CustomPrompt, ..Strategy::default() }
}

/// Installs the packages named.
pub open spec fn spec_s(kws: Seq<Seq<char>>, flags: Seq<Seq<char>>, quiet: bool) -> StepView {
    run_with(
        cmd_of(str_views(seq!["winget", "install", "--accept-package-agreements", "--accept-source-agreements"]), false, kws, flags),
        spec_default_mode(quiet),
        strat_prompt(),
    )
}

/// Upgrades the packages named, or all of them.
pub open spec fn spec_su(kws: Seq<Seq<char>>, flags: Seq<Seq<char>>, quiet: bool) -> StepView {
    let targets = if kws.len() == 0 { str_views(seq!["--all"]) } else { kws };
    run_with(
        cmd_of(str_views(seq!["winget", "upgrade", "--accept-package-agreements", "--accept-source-agreements"]), false, targets, flags),
        spec_default_mode(quiet),
        strat_prompt(),
    )
}

/// Updates the sources, then installs the packages named, if any.
pub open spec fn spec_sy(kws: Seq<Seq<char>>, flags: Seq<Seq<char>>, quiet: bool) -> Seq<StepView> {
    seq![run(cmd_of(str_views(seq!["winget", "source", "update", "--accept-source-agreements"]), false, Seq::empty(), flags))]
        + if kws.len() == 0 { Seq::empty() } else { seq![spec_s(kws, flags, quiet)] }
}

/// Searches the installed packages for the keywords.
pub open spec fn spec_qs(kws: Seq<Seq<char>>, flags: Seq<Seq<char>>, cfg: Config) -> StepView {
    search(cmd_of(str_views(seq!["winget", "list", "--accept-source-agreements"]), false, Seq::empty(), flags), kws, 0, cfg)
}

/// The steps of each `pacman` method for `winget`.
pub open spec fn spec_steps(m: Method, kws: Seq<Seq<char>>, flags: Seq<Seq<char>>, cfg: Config, quiet: bool) -> Seq<StepView> {
    match m {
        Method::Q => if kws.len() == 0 {
            seq![run(cmd_of(str_views(seq!["winget", "list", "--accept-source-agreements"]), false, Seq::empty(), flags))]
        } else {
            seq![spec_qs(kws, flags, cfg)]
        },
        Method::Qi | Method::Si => seq![run(cmd_of(str_views(seq!["winget", "show", "--accept-source-agreements"]), false, kws, flags))],
        Method::Qs => seq![spec_qs(kws, flags, cfg)],
        Method::R => seq![run_with(cmd_of(str_views(seq!["winget", "uninstall", "--accept-source-agreements"]), false, kws, flags), spec_default_mode(quiet), strat_prompt())],
        Method::Rn => seq![run_with(cmd_of(str_views(seq!["winget", "uninstall", "--accept-source-agreements", "--purge"]), false, kws, flags), spec_default_mode(quiet), strat_prompt())],
        Method::S => seq![spec_s(kws, flags, quiet)],
        Method::Ss => seq![run(cmd_of(str_views(seq!["winget", "search", "--accept-source-agreements"]), false, kws, flags))],
        Method::Su => seq![spec_su(kws, flags, quiet)],
        Method::Suy => spec_sy(Seq::empty(), flags, quiet).push(spec_su(kws, flags, quiet)),
        Method::Sy => spec_sy(kws, flags, quiet),
        _ => seq![unimplemented(m, "winget"@)],
    }
}

fn s(kws: &[&str], flags: &[&str], quiet: bool) -> (res: Step)
    ensures
        res@ =~~= spec_s(str_views(kws@), str_views(flags@), quiet),
{
    Step::run_with(
        Cmd::new(&["winget", "install", "--accept-package-agreements", "--accept-source-agreements"]).kws(kws).flags(flags),
        default_mode(quiet),
        make_strat_prompt(),
    )
}

fn su(kws: &[&str], flags: &[&str], quiet: bool) -> (res: Step)
    ensures
        res@ =~~= spec_su(str_views(kws@), str_views(flags@), quiet),
{
    let c = Cmd::new(&["winget", "upgrade", "--accept-package-agreements", "--accept-source-agreements"]);
    let c = if kws.len() == 0 { c.kws(&["--all"]) } else { c.kws(kws) };
    Step::run_with(c.flags(flags), default_mode(quiet), make_strat_prompt())
}

fn sy(kws: &[&str], flags: &[&str], quiet: bool) -> (res: Vec<Step>)
    ensures
        steps_view(res@) =~~= spec_sy(str_views(kws@), str_views(flags@), quiet),
{
    let first = one(Step::run(Cmd::new(&["winget", "source", "update", "--accept-source-agreements"]).flags(flags)));
    if kws.len() == 0 {
        assert(steps_view(first@) + Seq::<StepView>::empty() =~= steps_view(first@));
        first
    } else {
        then(first, one(s(kws, flags, quiet)))
    }
}

/// The steps of the `pacman` method `m` for `winget`, with the keywords and
/// the extra flags given.
pub fn steps(m: Method, kws: &[&str], flags: &[&str], cfg: &Config, quiet: bool) -> (res: Vec<Step>)
    ensures
        steps_view(res@) =~~= spec_steps(m, str_views(kws@), str_views(flags@), *cfg, quiet),
{
    match m {
        Method::Q => {
            if kws.len() == 0 {
                one(Step::run(Cmd::new(&["winget", "list", "--accept-source-agreements"]).flags(flags)))
            } else {
                one(Step::search(Cmd::new(&["winget", "list", "--accept-source-agreements"]).flags(flags), kws, 0, cfg))
            }
        },
        Method::Qi | Method::Si => one(Step::run(Cmd::new(&["winget", "show", "--accept-source-agreements"]).kws(kws).flags(flags))),
        Method::Qs => one(Step::search(Cmd::new(&["winget", "list", "--accept-source-agreements"]).flags(flags), kws, 0, cfg)),
        Method::R => one(Step::run_with(Cmd::new(&["winget", "uninstall", "--accept-source-agreements"]).kws(kws).flags(flags), default_mode(quiet), make_strat_prompt())),
        Method::Rn => one(Step::run_with(Cmd::new(&["winget", "uninstall", "--accept-source-agreements", "--purge"]).kws(kws).flags(flags), default_mode(quiet), make_strat_prompt())),
        Method::S => one(s(kws, flags, quiet)),
        Method::Ss => one(Step::run(Cmd::new(&["winget", "search", "--accept-source-agreements"]).kws(kws).flags(flags))),
        Method::Su => one(su(kws, flags, quiet)),
        Method::Suy => {
            let none: &[&str] = &[];
            assert(str_views(none@) =~= Seq::<Seq<char>>::empty());
            let res = then(sy(none, flags, quiet), one(su(kws, flags, quiet)));
            res
        },
        Method::Sy => sy(kws, flags, quiet),
        _ => one(Step::unimplemented(m, "winget")),
    }
}

/// Every command run by a method of `winget` gets the extra flags given, and
/// every operation reported as not implemented is reported for `winget`;
/// cleaning the cache is never followed by more cache cleaning.
pub proof fn lemma_steps_shape(m: Method, kws: Seq<Seq<char>>, flags: Seq<Seq<char>>, cfg: Config, quiet: bool)
    ensures
        forall|i: int| 0 <= i < spec_steps(m, kws, flags, cfg, quiet).len() ==> passes_flags(#[trigger] spec_steps(m, kws, flags, cfg, quiet)[i], flags),
        forall|i: int| 0 <= i < spec_steps(m, kws, flags, cfg, quiet).len() ==> reports_pm(#[trigger] spec_steps(m, kws, flags, cfg, quiet)[i], "winget"@),
        is_cache_cleaning(m) ==> forall|i: int| 0 <= i < spec_steps(m, kws, flags, cfg, quiet).len() ==> cleans_no_cache(#[trigger] spec_steps(m, kws, flags, cfg, quiet)[i]),
{
}

} // verus!
