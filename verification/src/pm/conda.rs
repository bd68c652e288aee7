//! The [Conda Package Manager](https://conda.io/).

use vstd::prelude::*;

use crate::config::Config;
use crate::exec::Cmd;
use crate::pm::step::{cleans_no_cache, is_cache_cleaning, passes_flags, reports_pm, cmd_of, one, run, run_with, search, unimplemented, Step, StepView, steps_view};
use crate::pm::{DryRunView, Method, NoCacheView, PmMode, PromptStrategy, PromptView, Strategy, StrategyView};
use crate::strings::{str_views, views};

verus! {

/// Changing: the native prompt is answered with `-y`.
pub open spec fn strat_prompt() -> StrategyView {
    StrategyView {
        dry_run: DryRunView::PrintCmd,
        prompt: PromptView::NativeNoConfirm(str_views(seq!["-y"])),
        no_cache: NoCacheView::NoClean,
    }
}

fn make_strat_prompt() -> (res: Strategy)
    ensures
        res@ =~~= strat_prompt(),
{
    Strategy { prompt: PromptStrategy::native_no_confirm(&["-y"]), ..Strategy::default() }
}

/// The keyword surrounded by wildcards.
pub open spec fn wildcard(kw: Seq<char>) -> Seq<char> {
    "*"@ + kw + "*"@
}

/// Searches the installed packages for the keywords.
pub open spec fn spec_qs(kws: Seq<Seq<char>>, flags: Seq<Seq<char>>, cfg: Config) -> StepView {
    search(cmd_of(str_views(seq!["conda", "list"]), false, Seq::empty(), flags), kws, 0, cfg)
}

/// One search of the repositories for each keyword, surrounded by
/// wildcards.
pub open spec fn spec_ss(kws: Seq<Seq<char>>, flags: Seq<Seq<char>>) -> Seq<StepView> {
    Seq::new(kws.len(), |i: int| run(cmd_of(str_views(seq!["conda", "search"]), false, seq![wildcard(kws[i])], flags)))
}

/// Changing the packages named with `conda` verb `words`.
pub open spec fn change(words: Seq<Seq<char>>, kws: Seq<Seq<char>>, flags: Seq<Seq<char>>) -> StepView {
    run_with(cmd_of(words, false, kws, flags), PmMode::CheckErr, strat_prompt())
}

/// The steps of each `pacman` method for `conda`.
pub open spec fn spec_steps(m: Method, kws: Seq<Seq<char>>, flags: Seq<Seq<char>>, cfg: Config) -> Seq<StepView> {
    match m {
        Method::Q => if kws.len() == 0 {
            seq![run(cmd_of(str_views(seq!["conda", "list"]), false, Seq::empty(), flags))]
        } else {
            seq![spec_qs(kws, flags, cfg)]
        },
        Method::Qo => seq![run(cmd_of(str_views(seq!["conda", "package", "--which"]), false, kws, flags))],
        Method::Qs => seq![spec_qs(kws, flags, cfg)],
        Method::R => seq![change(str_views(seq!["conda", "remove"]), kws, flags)],
        Method::S => seq![change(str_views(seq!["conda", "install"]), kws, flags)],
        Method::Sc => seq![change(str_views(seq!["conda", "clean", "--all"]), Seq::empty(), flags)],
        Method::Si => seq![run(cmd_of(str_views(seq!["conda", "search", "--info"]), false, kws, flags))],
        Method::Ss => spec_ss(kws, flags),
        Method::Su | Method::Suy => seq![change(str_views(seq!["conda", "update", "--all"]), kws, flags)],
        _ => seq![unimplemented(m, "conda"@)],
    }
}

fn ss(kws: &[&str], flags: &[&str]) -> (res: Vec<Step>)
    ensures
        steps_view(res@) =~~= spec_ss(str_views(kws@), str_views(flags@)),
{
    let mut res: Vec<Step> = Vec::new();
    let mut i: usize = 0;
    while i < kws.len()
        invariant
            i <= kws@.len(),
            res@.len() == i,
            forall|j: int| 0 <= j < i ==> (#[trigger] res@[j])@ =~~= run(
                cmd_of(str_views(seq!["conda", "search"]), false, seq![wildcard(kws@[j]@)], str_views(flags@)),
            ),
        decreases kws@.len() - i,
    {
        let kw = String::from_str("*").concat(kws[i]).concat("*");
        let mut one_kw: Vec<String> = Vec::new();
        one_kw.push(kw);
        assert(views(one_kw@) =~= seq![wildcard(kws@[i as int]@)]);
        res.push(Step::run(Cmd::new(&["conda", "search"]).kws_owned(one_kw).flags(flags)));
        i = i + 1;
    }
    res
}

/// The steps of the `pacman` method `m` for `conda`, with the keywords and
/// the extra flags given.
pub fn steps(m: Method, kws: &[&str], flags: &[&str], cfg: &Config) -> (res: Vec<Step>)
    ensures
        steps_view(res@) =~~= spec_steps(m, str_views(kws@), str_views(flags@), *cfg),
{
    match m {
        Method::Q => {
            if kws.len() == 0 {
                one(Step::run(Cmd::new(&["conda", "list"]).flags(flags)))
            } else {
                one(Step::search(Cmd::new(&["conda", "list"]).flags(flags), kws, 0, cfg))
            }
        },
        Method::Qo => one(Step::run(Cmd::new(&["conda", "package", "--which"]).kws(kws).flags(flags))),
        Method::Qs => one(Step::search(Cmd::new(&["conda", "list"]).flags(flags), kws, 0, cfg)),
        Method::R => one(Step::run_with(Cmd::new(&["conda", "remove"]).kws(kws).flags(flags), PmMode::CheckErr, make_strat_prompt())),
        Method::S => one(Step::run_with(Cmd::new(&["conda", "install"]).kws(kws).flags(flags), PmMode::CheckErr, make_strat_prompt())),
        Method::Sc => one(Step::run_with(Cmd::new(&["conda", "clean", "--all"]).flags(flags), PmMode::CheckErr, make_strat_prompt())),
        Method::Si => one(Step::run(Cmd::new(&["conda", "search", "--info"]).kws(kws).flags(flags))),
        Method::Ss => ss(kws, flags),
        Method::Su | Method::Suy => one(Step::run_with(Cmd::new(&["conda", "update", "--all"]).kws(kws).flags(flags), PmMode::CheckErr, make_strat_prompt())),
        _ => one(Step::unimplemented(m, "conda")),
    }
}

/// Every command run by a method of `conda` gets the extra flags given, and
/// every operation reported as not implemented is reported for `conda`;
/// cleaning the cache is never followed by more cache cleaning.
pub proof fn lemma_steps_shape(m: Method, kws: Seq<Seq<char>>, flags: Seq<Seq<char>>, cfg: Config)
    ensures
        forall|i: int| 0 <= i < spec_steps(m, kws, flags, cfg).len() ==> passes_flags(#[trigger] spec_steps(m, kws, flags, cfg)[i], flags),
        forall|i: int| 0 <= i < spec_steps(m, kws, flags, cfg).len() ==> reports_pm(#[trigger] spec_steps(m, kws, flags, cfg)[i], "conda"@),
        is_cache_cleaning(m) ==> forall|i: int| 0 <= i < spec_steps(m, kws, flags, cfg).len() ==> cleans_no_cache(#[trigger] spec_steps(m, kws, flags, cfg)[i]),
{
}

} // verus!
