//! The [MacPorts Package Manager](https://www.macports.org/).

use vstd::prelude::*;

use crate::exec::Cmd;
use crate::pm::step::{cleans_no_cache, is_cache_cleaning, passes_flags, reports_pm, cmd_of, one, run, run_with, then, unimplemented, Step, StepView, steps_view};
use crate::pm::{DryRunView, Method, NoCacheStrategy, NoCacheView, PmMode, PromptStrategy, PromptView, Strategy, StrategyView};
use crate::strings::str_views;

verus! {

/// Changing: asking with a prompt of `pacaptr`'s own.
pub open spec fn strat_prompt() -> StrategyView {
    StrategyView { dry_run: DryRunView::PrintCmd, prompt: PromptView::CustomPrompt, no_cache: NoCacheView::NoClean }
}

/// Installing: as [`strat_prompt`], and the cache is cleaned with `Scc`.
pub open spec fn strat_install() -> StrategyView {
    StrategyView { no_cache: NoCacheView::Scc, ..strat_prompt() }
}

fn make_strat_prompt() -> (res: Strategy)
    ensures
        res@ =~~= strat_prompt(),
{
    Strategy { prompt: PromptStrategy::CustomPrompt, ..Strategy::default() }
}

fn make_strat_install() -> (res: Strategy)
    ensures
        res@ =~~= strat_install(),
{
    Strategy { no_cache: NoCacheStrategy::Scc, ..make_strat_prompt() }
}

/// Installs the packages named.
pub open spec fn spec_s(kws: Seq<Seq<char>>, flags: Seq<Seq<char>>) -> StepView {
    run_with(cmd_of(str_views(seq!["port", "install"]), true, kws, flags), PmMode::CheckErr, strat_install())
}

/// Upgrades the packages named; without extra flags, only the outdated
/// ones are selected.
pub open spec fn spec_su(kws: Seq<Seq<char>>, flags: Seq<Seq<char>>) -> StepView {
    let words = if flags.len() == 0 {
        str_views(seq!["port", "upgrade", "outdated"])
    } else {
        str_views(seq!["port", "upgrade"])
    };
    run_with(cmd_of(words, true, kws, flags), PmMode::CheckErr, strat_install())
}

/// Updates MacPorts, then installs the packages named, if any.
pub open spec fn spec_sy(kws: Seq<Seq<char>>, flags: Seq<Seq<char>>) -> Seq<StepView> {
    seq![run(cmd_of(str_views(seq!["port", "selfupdate"]), false, Seq::empty(), flags))]
        + if kws.len() == 0 { Seq::empty() } else { seq![spec_s(kws, flags)] }
}

/// Cleans all the ports named; without extra flags, the ports in the
/// `which` set.
pub open spec fn spec_clean(which: &str, kws: Seq<Seq<char>>, flags: Seq<Seq<char>>) -> StepView {
    let words = if flags.len() == 0 {
        str_views(seq!["port", "clean", "--all", which])
    } else {
        str_views(seq!["port", "clean", "--all"])
    };
    run_with(cmd_of(words, true, kws, flags), PmMode::CheckErr, strat_prompt())
}

/// The steps of each `pacman` method for `port`.
pub open spec fn spec_steps(m: Method, kws: Seq<Seq<char>>, flags: Seq<Seq<char>>) -> Seq<StepView> {
    match m {
        Method::Q => seq![run(cmd_of(str_views(seq!["port", "installed"]), false, kws, flags))],
        Method::Qc => seq![run(cmd_of(str_views(seq!["port", "log"]), false, kws, flags))],
        Method::Qi | Method::Si => seq![run(cmd_of(str_views(seq!["port", "info"]), false, kws, flags))],
        Method::Ql => seq![run(cmd_of(str_views(seq!["port", "contents"]), false, kws, flags))],
        Method::Qo => seq![run(cmd_of(str_views(seq!["port", "provides"]), false, kws, flags))],
        Method::Qs => seq![run(cmd_of(str_views(seq!["port", "-v", "installed"]), false, kws, flags))],
        Method::Qu => seq![run(cmd_of(str_views(seq!["port", "outdated"]), false, kws, flags))],
        Method::R => seq![run_with(cmd_of(str_views(seq!["port", "uninstall"]), true, kws, flags), PmMode::CheckErr, strat_prompt())],
        Method::Rss => seq![run_with(cmd_of(str_views(seq!["port", "uninstall", "--follow-dependencies"]), true, kws, flags), PmMode::CheckErr, strat_prompt())],
        Method::S => seq![spec_s(kws, flags)],
        Method::Sc => seq![spec_clean("inactive", kws, flags)],
        Method::Scc => seq![spec_clean("installed", kws, flags)],
        Method::Ss => seq![run(cmd_of(str_views(seq!["port", "search"]), false, kws, flags))],
        Method::Su => seq![spec_su(kws, flags)],
        Method::Suy => spec_sy(Seq::empty(), flags).push(spec_su(kws, flags)),
        Method::Sy => spec_sy(kws, flags),
        _ => seq![unimplemented(m, "port"@)],
    }
}

fn s(kws: &[&str], flags: &[&str]) -> (res: Step)
    ensures
        res@ =~~= spec_s(str_views(kws@), str_views(flags@)),
{
    Step::run_with(Cmd::with_sudo(&["port", "install"]).kws(kws).flags(flags), PmMode::CheckErr, make_strat_install())
}

fn su(kws: &[&str], flags: &[&str]) -> (res: Step)
    ensures
        res@ =~~= spec_su(str_views(kws@), str_views(flags@)),
{
    let c = if flags.len() == 0 {
        Cmd::with_sudo(&["port", "upgrade", "outdated"])
    } else {
        Cmd::with_sudo(&["port", "upgrade"])
    };
    Step::run_with(c.kws(kws).flags(flags), PmMode::CheckErr, make_strat_install())
}

fn sy(kws: &[&str], flags: &[&str]) -> (res: Vec<Step>)
    ensures
        steps_view(res@) =~~= spec_sy(str_views(kws@), str_views(flags@)),
{
    let first = one(Step::run(Cmd::new(&["port", "selfupdate"]).flags(flags)));
    if kws.len() == 0 {
        assert(steps_view(first@) + Seq::<StepView>::empty() =~= steps_view(first@));
        first
    } else {
        then(first, one(s(kws, flags)))
    }
}

fn clean(which: &'static str, kws: &[&str], flags: &[&str]) -> (res: Step)
    ensures
        res@ =~~= spec_clean(which, str_views(kws@), str_views(flags@)),
{
    let c = if flags.len() == 0 {
        Cmd::with_sudo(&["port", "clean", "--all", which])
    } else {
        Cmd::with_sudo(&["port", "clean", "--all"])
    };
    Step::run_with(c.kws(kws).flags(flags), PmMode::CheckErr, make_strat_prompt())
}

/// The steps of the `pacman` method `m` for `port`, with the keywords and
/// the extra flags given.
pub fn steps(m: Method, kws: &[&str], flags: &[&str]) -> (res: Vec<Step>)
    ensures
        steps_view(res@) =~~= spec_steps(m, str_views(kws@), str_views(flags@)),
{
    match m {
        Method::Q => one(Step::run(Cmd::new(&["port", "installed"]).kws(kws).flags(flags))),
        Method::Qc => one(Step::run(Cmd::new(&["port", "log"]).kws(kws).flags(flags))),
        Method::Qi | Method::Si => one(Step::run(Cmd::new(&["port", "info"]).kws(kws).flags(flags))),
        Method::Ql => one(Step::run(Cmd::new(&["port", "contents"]).kws(kws).flags(flags))),
        Method::Qo => one(Step::run(Cmd::new(&["port", "provides"]).kws(kws).flags(flags))),
        Method::Qs => one(Step::run(Cmd::new(&["port", "-v", "installed"]).kws(kws).flags(flags))),
        Method::Qu => one(Step::run(Cmd::new(&["port", "outdated"]).kws(kws).flags(flags))),
        Method::R => one(Step::run_with(Cmd::with_sudo(&["port", "uninstall"]).kws(kws).flags(flags), PmMode::CheckErr, make_strat_prompt())),
        Method::Rss => one(Step::run_with(Cmd::with_sudo(&["port", "uninstall", "--follow-dependencies"]).kws(kws).flags(flags), PmMode::CheckErr, make_strat_prompt())),
        Method::S => one(s(kws, flags)),
        Method::Sc => one(clean("inactive", kws, flags)),
        Method::Scc => one(clean("installed", kws, flags)),
        Method::Ss => one(Step::run(Cmd::new(&["port", "search"]).kws(kws).flags(flags))),
        Method::Su => one(su(kws, flags)),
        Method::Suy => {
            let none: &[&str] = &[];
            assert(str_views(none@) =~= Seq::<Seq<char>>::empty());
            let res = then(sy(none, flags), one(su(kws, flags)));
            res
        },
        Method::Sy => sy(kws, flags),
        _ => one(Step::unimplemented(m, "port")),
    }
}

/// Every command run by a method of `port` gets the extra flags given, and
/// every operation reported as not implemented is reported for `port`;
/// cleaning the cache is never followed by more cache cleaning.
pub proof fn lemma_steps_shape(m: Method, kws: Seq<Seq<char>>, flags: Seq<Seq<char>>)
    ensures
        forall|i: int| 0 <= i < spec_steps(m, kws, flags).len() ==> passes_flags(#[trigger] spec_steps(m, kws, flags)[i], flags),
        forall|i: int| 0 <= i < spec_steps(m, kws, flags).len() ==> reports_pm(#[trigger] spec_steps(m, kws, flags)[i], "port"@),
        is_cache_cleaning(m) ==> forall|i: int| 0 <= i < spec_steps(m, kws, flags).len() ==> cleans_no_cache(#[trigger] spec_steps(m, kws, flags)[i]),
{
}

} // verus!
