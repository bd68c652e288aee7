//! The [Scoop CLI Installer](https://scoop.sh/).
//!
//! Every command goes through PowerShell: `shell -Command scoop ...`.

use vstd::prelude::*;

use crate::config::Config;
use crate::exec::Cmd;
use crate::pm::step::{cleans_no_cache, is_cache_cleaning, passes_flags, reports_pm, cmd_of, one, run, run_with, search, then, unimplemented, words_after, Step, StepView, steps_view};
use crate::pm::{DryRunView, Method, NoCacheStrategy, NoCacheView, PmMode, PromptStrategy, PromptView, Strategy, StrategyView};
use crate::strings::str_views;

verus! {

/// Changing: asking with a prompt of `pacaptr`'s own.
pub open spec fn strat_prompt() -> StrategyView {
    StrategyView { dry_run: DryRunView::PrintCmd, prompt: PromptView::CustomPrompt, no_cache: NoCacheView::NoClean }
}

/// Installing: as [`strat_prompt`], and the cache is cleaned with `Scc`.
pub open spec fn strat_install() -> StrategyView {
    StrategyView { no_cache: NoCacheView::Scc, ..strat_prompt() }
}

fn make_strat_prompt() -> (res: Strategy)
    ensures
        res@ =~~= strat_prompt(),
{
    Strategy { prompt: PromptStrategy::CustomPrompt, ..Strategy::default() }
}

fn make_strat_install() -> (res: Strategy)
    ensures
        res@ =~~= strat_install(),
{
    Strategy { no_cache: NoCacheStrategy::Scc, ..make_strat_prompt() }
}

/// The `scoop` command `rest`, run through `shell`.
pub open spec fn scoop_words(shell: Seq<char>, rest: Seq<&str>) -> Seq<Seq<char>> {
    words_after(shell, seq!["-Command", "scoop"] + rest)
}

/// The keywords given, or `*` for all the packages.
pub open spec fn all_if_none(kws: Seq<Seq<char>>) -> Seq<Seq<char>> {
    if kws.len() == 0 { str_views(seq!["*"]) } else { kws }
}

/// Installs the packages named.
pub open spec fn spec_s(shell: Seq<char>, kws: Seq<Seq<char>>, flags: Seq<Seq<char>>) -> StepView {
    run_with(cmd_of(scoop_words(shell, seq!["install"]), false, kws, flags), PmMode::CheckErr, strat_install())
}

/// Updates the packages named, or all of them.
pub open spec fn spec_su(shell: Seq<char>, kws: Seq<Seq<char>>, flags: Seq<Seq<char>>) -> StepView {
    run_with(cmd_of(scoop_words(shell, seq!["update"]), false, all_if_none(kws), flags), PmMode::CheckErr, strat_install())
}

/// Updates Scoop, then installs the packages named, if any.
pub open spec fn spec_sy(shell: Seq<char>, kws: Seq<Seq<char>>, flags: Seq<Seq<char>>) -> Seq<StepView> {
    seq![run(cmd_of(scoop_words(shell, seq!["update"]), false, Seq::empty(), flags))]
        + if kws.len() == 0 { Seq::empty() } else { seq![spec_s(shell, kws, flags)] }
}

/// The steps of each `pacman` method for `scoop`, run through `shell`.
pub open spec fn spec_steps(shell: Seq<char>, m: Method, kws: Seq<Seq<char>>, flags: Seq<Seq<char>>, cfg: Config) -> Seq<StepView> {
    match m {
        Method::Q => if kws.len() == 0 {
            seq![run(cmd_of(scoop_words(shell, seq!["list"]), false, Seq::empty(), flags))]
        } else {
            seq![search(cmd_of(scoop_words(shell, seq!["list"]), false, Seq::empty(), flags), kws, 4, cfg)]
        },
        Method::Qi | Method::Si => seq![run(cmd_of(scoop_words(shell, seq!["info"]), false, kws, flags))],
        Method::Qs => seq![search(cmd_of(scoop_words(shell, seq!["list"]), false, Seq::empty(), flags), kws, 4, cfg)],
        Method::Qu => seq![run(cmd_of(scoop_words(shell, seq!["status"]), false, kws, flags))],
        Method::R => seq![run_with(cmd_of(scoop_words(shell, seq!["uninstall"]), false, kws, flags), PmMode::CheckErr, strat_prompt())],
        Method::Rn => seq![run_with(cmd_of(scoop_words(shell, seq!["uninstall", "--purge"]), false, kws, flags), PmMode::CheckErr, strat_prompt())],
        Method::S => seq![spec_s(shell, kws, flags)],
        Method::Sc | Method::Scc => seq![run_with(cmd_of(scoop_words(shell, seq!["cache", "rm"]), false, all_if_none(kws), flags), PmMode::CheckErr, strat_prompt())],
        Method::Ss => seq![run(cmd_of(scoop_words(shell, seq!["search"]), false, kws, flags))],
        Method::Su => seq![spec_su(shell, kws, flags)],
        Method::Suy => spec_sy(shell, Seq::empty(), flags).push(spec_su(shell, kws, flags)),
        Method::Sy => spec_sy(shell, kws, flags),
        _ => seq![unimplemented(m, "scoop"@)],
    }
}

/// The `scoop` command `rest`, run through `shell`.
fn scoop(shell: &str, rest: &[&str]) -> (res: Cmd)
    ensures
        res@ =~~= cmd_of(scoop_words(shell@, rest@), false, Seq::empty(), Seq::empty()),
{
    let mut words: Vec<&str> = Vec::new();
    words.push("-Command");
    words.push("scoop");
    let mut i: usize = 0;
    while i < rest.len()
        invariant
            i <= rest@.len(),
            words@ =~= seq!["-Command", "scoop"] + rest@.take(i as int),
        decreases rest@.len() - i,
    {
        words.push(rest[i]);
        assert(rest@.take(i + 1) =~= rest@.take(i as int).push(rest@[i as int]));
        i = i + 1;
    }
    assert(rest@.take(rest@.len() as int) =~= rest@);
    Cmd::prefixed(shell, words.as_slice())
}

fn all_or(kws: &[&str], run_on: Cmd) -> (res: Cmd)
    ensures
        res@ =~~= (crate::exec::CmdView { kws: all_if_none(str_views(kws@)), ..run_on@ }),
{
    if kws.len() == 0 {
        run_on.kws(&["*"])
    } else {
        run_on.kws(kws)
    }
}

fn s(shell: &str, kws: &[&str], flags: &[&str]) -> (res: Step)
    ensures
        res@ =~~= spec_s(shell@, str_views(kws@), str_views(flags@)),
{
    Step::run_with(scoop(shell, &["install"]).kws(kws).flags(flags), PmMode::CheckErr, make_strat_install())
}

fn su(shell: &str, kws: &[&str], flags: &[&str]) -> (res: Step)
    ensures
        res@ =~~= spec_su(shell@, str_views(kws@), str_views(flags@)),
{
    Step::run_with(all_or(kws, scoop(shell, &["update"])).flags(flags), PmMode::CheckErr, make_strat_install())
}

fn sy(shell: &str, kws: &[&str], flags: &[&str]) -> (res: Vec<Step>)
    ensures
        steps_view(res@) =~~= spec_sy(shell@, str_views(kws@), str_views(flags@)),
{
    let first = one(Step::run(scoop(shell, &["update"]).flags(flags)));
    if kws.len() == 0 {
        assert(steps_view(first@) + Seq::<StepView>::empty() =~= steps_view(first@));
        first
    } else {
        then(first, one(s(shell, kws, flags)))
    }
}

/// The steps of the `pacman` method `m` for `scoop`, run through `shell`,
/// with the keywords and the extra flags given.
pub fn steps(shell: &str, m: Method, kws: &[&str], flags: &[&str], cfg: &Config) -> (res: Vec<Step>)
    ensures
        steps_view(res@) =~~= spec_steps(shell@, m, str_views(kws@), str_views(flags@), *cfg),
{
    match m {
        Method::Q => {
            if kws.len() == 0 {
                one(Step::run(scoop(shell, &["list"]).flags(flags)))
            } else {
                one(Step::search(scoop(shell, &["list"]).flags(flags), kws, 4, cfg))
            }
        },
        Method::Qi | Method::Si => one(Step::run(scoop(shell, &["info"]).kws(kws).flags(flags))),
        Method::Qs => one(Step::search(scoop(shell, &["list"]).flags(flags), kws, 4, cfg)),
        Method::Qu => one(Step::run(scoop(shell, &["status"]).kws(kws).flags(flags))),
        Method::R => one(Step::run_with(scoop(shell, &["uninstall"]).kws(kws).flags(flags), PmMode::CheckErr, make_strat_prompt())),
        Method::Rn => one(Step::run_with(scoop(shell, &["uninstall", "--purge"]).kws(kws).flags(flags), PmMode::CheckErr, make_strat_prompt())),
        Method::S => one(s(shell, kws, flags)),
        Method::Sc | Method::Scc => one(Step::run_with(all_or(kws, scoop(shell, &["cache", "rm"])).flags(flags), PmMode::CheckErr, make_strat_prompt())),
        Method::Ss => one(Step::run(scoop(shell, &["search"]).kws(kws).flags(flags))),
        Method::Su => one(su(shell, kws, flags)),
        Method::Suy => {
            let none: &[&str] = &[];
            assert(str_views(none@) =~= Seq::<Seq<char>>::empty());
            let res = then(sy(shell, none, flags), one(su(shell, kws, flags)));
            res
        },
        Method::Sy => sy(shell, kws, flags),
        _ => one(Step::unimplemented(m, "scoop")),
    }
}

/// Every command run by a method of `scoop` gets the extra flags given, and
/// every operation reported as not implemented is reported for `scoop`;
/// cleaning the cache is never followed by more cache cleaning.
pub proof fn lemma_steps_shape(shell: Seq<char>, m: Method, kws: Seq<Seq<char>>, flags: Seq<Seq<char>>, cfg: Config)
    ensures
        forall|i: int| 0 <= i < spec_steps(shell, m, kws, flags, cfg).len() ==> passes_flags(#[trigger] spec_steps(shell, m, kws, flags, cfg)[i], flags),
        forall|i: int| 0 <= i < spec_steps(shell, m, kws, flags, cfg).len() ==> reports_pm(#[trigger] spec_steps(shell, m, kws, flags, cfg)[i], "scoop"@),
        is_cache_cleaning(m) ==> forall|i: int| 0 <= i < spec_steps(shell, m, kws, flags, cfg).len() ==> cleans_no_cache(#[trigger] spec_steps(shell, m, kws, flags, cfg)[i]),
{
}

} // verus!
