//! The [Portage Package Manager](https://wiki.gentoo.org/wiki/Portage).

use vstd::prelude::*;

use crate::exec::Cmd;
use crate::pm::step::{cleans_no_cache, is_cache_cleaning, passes_flags, reports_pm, cmd_of, one, run, run_with, then, unimplemented, Step, StepView, steps_view};
use crate::pm::{DryRunView, Method, NoCacheStrategy, NoCacheView, PmMode, PromptStrategy, PromptView, Strategy, StrategyView};
use crate::strings::{lemma_views_push, str_views, views};

verus! {

/// Asking before changing anything, with `--ask` unless every question is
/// answered yes.
pub open spec fn strat_ask() -> StrategyView {
    StrategyView {
        dry_run: DryRunView::PrintCmd,
        prompt: PromptView::NativeConfirm(str_views(seq!["--ask"])),
        no_cache: NoCacheView::NoClean,
    }
}

/// Cleaning: asking with `--interactive` unless every question is answered
/// yes.
pub open spec fn strat_interactive() -> StrategyView {
    StrategyView { prompt: PromptView::NativeConfirm(str_views(seq!["--interactive"])), ..strat_ask() }
}

/// Installing: as [`strat_ask`], and the cache is cleaned with `Scc`.
pub open spec fn strat_install() -> StrategyView {
    StrategyView { no_cache: NoCacheView::Scc, ..strat_ask() }
}

fn make_strat_ask() -> (res: Strategy)
    ensures
        res@ =~~= strat_ask(),
{
    Strategy { prompt: PromptStrategy::native_confirm(&["--ask"]), ..Strategy::default() }
}

fn make_strat_interactive() -> (res: Strategy)
    ensures
        res@ =~~= strat_interactive(),
{
    Strategy { prompt: PromptStrategy::native_confirm(&["--interactive"]), ..Strategy::default() }
}

fn make_strat_install() -> (res: Strategy)
    ensures
        res@ =~~= strat_install(),
{
    Strategy { no_cache: NoCacheStrategy::Scc, ..make_strat_ask() }
}

/// The keyword as a regular expression that matches it exactly.
pub open spec fn exact(kw: Seq<char>) -> Seq<char> {
    "^"@ + kw + "$"@
}

/// Installs the packages named.
pub open spec fn spec_s(kws: Seq<Seq<char>>, flags: Seq<Seq<char>>) -> StepView {
    run_with(cmd_of(str_views(seq!["emerge"]), true, kws, flags), PmMode::CheckErr, strat_install())
}

/// Upgrades the packages named, or the whole world set.
pub open spec fn spec_su(kws: Seq<Seq<char>>, flags: Seq<Seq<char>>) -> StepView {
    let targets = if kws.len() == 0 { str_views(seq!["@world"]) } else { kws };
    run_with(cmd_of(str_views(seq!["emerge", "-uDN"]), true, targets, flags), PmMode::CheckErr, strat_install())
}

/// Syncs the repositories, then installs the packages named, if any.
pub open spec fn spec_sy(kws: Seq<Seq<char>>, flags: Seq<Seq<char>>) -> Seq<StepView> {
    seq![run(cmd_of(str_views(seq!["emerge", "--sync"]), true, Seq::empty(), flags))]
        + if kws.len() == 0 { Seq::empty() } else { seq![spec_s(kws, flags)] }
}

/// The steps of each `pacman` method for `emerge`.
pub open spec fn spec_steps(m: Method, kws: Seq<Seq<char>>, flags: Seq<Seq<char>>) -> Seq<StepView> {
    match m {
        Method::Q | Method::Qs => seq![run(cmd_of(str_views(seq!["qlist", "-I"]), false, kws, flags))],
        Method::Qi | Method::Si => seq![run(cmd_of(str_views(seq!["emerge", "-s"]), false, kws.map_values(|k: Seq<char>| exact(k)), flags))],
        Method::Ql => seq![run(cmd_of(str_views(seq!["qlist"]), false, kws, flags))],
        Method::Qo => seq![run(cmd_of(str_views(seq!["qfile"]), false, kws, flags))],
        Method::Qu => seq![run(cmd_of(str_views(seq!["emerge", "-uDNp", "@world"]), false, Seq::empty(), flags))],
        Method::R => seq![run_with(cmd_of(str_views(seq!["emerge", "--unmerge"]), true, kws, flags), PmMode::CheckErr, strat_ask())],
        Method::Rs => seq![run_with(cmd_of(str_views(seq!["emerge", "--depclean"]), true, kws, flags), PmMode::CheckErr, strat_ask())],
        Method::S => seq![spec_s(kws, flags)],
        Method::Sc | Method::Scc => seq![run_with(cmd_of(str_views(seq!["eclean-dist"]), true, kws, flags), PmMode::CheckErr, strat_interactive())],
        Method::Ss => seq![run(cmd_of(str_views(seq!["qsearch"]), false, kws, flags))],
        Method::Su => seq![spec_su(kws, flags)],
        Method::Suy => spec_sy(Seq::empty(), flags).push(spec_su(kws, flags)),
        Method::Sy => spec_sy(kws, flags),
        _ => seq![unimplemented(m, "emerge"@)],
    }
}

/// Each keyword as a regular expression that matches it exactly.
fn exact_all(kws: &[&str]) -> (res: Vec<String>)
    ensures
        views(res@) =~= str_views(kws@).map_values(|k: Seq<char>| exact(k)),
{
    let mut res: Vec<String> = Vec::new();
    let mut i: usize = 0;
    while i < kws.len()
        invariant
            i <= kws@.len(),
            views(res@) =~= str_views(kws@.take(i as int)).map_values(|k: Seq<char>| exact(k)),
        decreases kws@.len() - i,
    {
        let kw = String::from_str("^").concat(kws[i]).concat("$");
        let ghost r0 = res@;
        res.push(kw);
        proof {
            lemma_views_push(r0, kw);
            assert(kws@.take(i + 1) =~= kws@.take(i as int).push(kws@[i as int]));
            assert(str_views(kws@.take(i + 1)).map_values(|k: Seq<char>| exact(k))
                =~= str_views(kws@.take(i as int)).map_values(|k: Seq<char>| exact(k)).push(exact(kws@[i as int]@)));
        }
        i = i + 1;
    }
    assert(kws@.take(kws@.len() as int) =~= kws@);
    res
}

fn s(kws: &[&str], flags: &[&str]) -> (res: Step)
    ensures
        res@ =~~= spec_s(str_views(kws@), str_views(flags@)),
{
    Step::run_with(Cmd::with_sudo(&["emerge"]).kws(kws).flags(flags), PmMode::CheckErr, make_strat_install())
}

fn su(kws: &[&str], flags: &[&str]) -> (res: Step)
    ensures
        res@ =~~= spec_su(str_views(kws@), str_views(flags@)),
{
    let c = Cmd::with_sudo(&["emerge", "-uDN"]);
    let c = if kws.len() == 0 { c.kws(&["@world"]) } else { c.kws(kws) };
    Step::run_with(c.flags(flags), PmMode::CheckErr, make_strat_install())
}

fn sy(kws: &[&str], flags: &[&str]) -> (res: Vec<Step>)
    ensures
        steps_view(res@) =~~= spec_sy(str_views(kws@), str_views(flags@)),
{
    let first = one(Step::run(Cmd::with_sudo(&["emerge", "--sync"]).flags(flags)));
    if kws.len() == 0 {
        assert(steps_view(first@) + Seq::<StepView>::empty() =~= steps_view(first@));
        first
    } else {
        then(first, one(s(kws, flags)))
    }
}

/// The steps of the `pacman` method `m` for `emerge`, with the keywords and
/// the extra flags given.
pub fn steps(m: Method, kws: &[&str], flags: &[&str]) -> (res: Vec<Step>)
    ensures
        steps_view(res@) =~~= spec_steps(m, str_views(kws@), str_views(flags@)),
{
    match m {
        Method::Q | Method::Qs => one(Step::run(Cmd::new(&["qlist", "-I"]).kws(kws).flags(flags))),
        Method::Qi | Method::Si => one(Step::run(Cmd::new(&["emerge", "-s"]).kws_owned(exact_all(kws)).flags(flags))),
        Method::Ql => one(Step::run(Cmd::new(&["qlist"]).kws(kws).flags(flags))),
        Method::Qo => one(Step::run(Cmd::new(&["qfile"]).kws(kws).flags(flags))),
        Method::Qu => one(Step::run(Cmd::new(&["emerge", "-uDNp", "@world"]).flags(flags))),
        Method::R => one(Step::run_with(Cmd::with_sudo(&["emerge", "--unmerge"]).kws(kws).flags(flags), PmMode::CheckErr, make_strat_ask())),
        Method::Rs => one(Step::run_with(Cmd::with_sudo(&["emerge", "--depclean"]).kws(kws).flags(flags), PmMode::CheckErr, make_strat_ask())),
        Method::S => one(s(kws, flags)),
        Method::Sc | Method::Scc => one(Step::run_with(Cmd::with_sudo(&["eclean-dist"]).kws(kws).flags(flags), PmMode::CheckErr, make_strat_interactive())),
        Method::Ss => one(Step::run(Cmd::new(&["qsearch"]).kws(kws).flags(flags))),
        Method::Su => one(su(kws, flags)),
        Method::Suy => {
            let none: &[&str] = &[];
            assert(str_views(none@) =~= Seq::<Seq<char>>::empty());
            let res = then(sy(none, flags), one(su(kws, flags)));
            res
        },
        Method::Sy => sy(kws, flags),
        _ => one(Step::unimplemented(m, "emerge")),
    }
}

/// Every command run by a method of `emerge` gets the extra flags given, and
/// every operation reported as not implemented is reported for `emerge`;
/// cleaning the cache is never followed by more cache cleaning.
pub proof fn lemma_steps_shape(m: Method, kws: Seq<Seq<char>>, flags: Seq<Seq<char>>)
    ensures
        forall|i: int| 0 <= i < spec_steps(m, kws, flags).len() ==> passes_flags(#[trigger] spec_steps(m, kws, flags)[i], flags),
        forall|i: int| 0 <= i < spec_steps(m, kws, flags).len() ==> reports_pm(#[trigger] spec_steps(m, kws, flags)[i], "emerge"@),
        is_cache_cleaning(m) ==> forall|i: int| 0 <= i < spec_steps(m, kws, flags).len() ==> cleans_no_cache(#[trigger] spec_steps(m, kws, flags)[i]),
{
}

} // verus!
