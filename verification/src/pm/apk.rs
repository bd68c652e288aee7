//! The [Alpine Package Keeper](https://wiki.alpinelinux.org/wiki/Package_management).

use vstd::prelude::*;

use crate::config::Config;
use crate::exec::Cmd;
use crate::pm::step::{cleans_no_cache, is_cache_cleaning, passes_flags, reports_pm, cmd_of, one, run, run_with, search, then, unimplemented, Step, StepView, steps_view};
use crate::pm::{DryRunView, Method, NoCacheStrategy, NoCacheView, PmMode, PromptStrategy, PromptView, Strategy, StrategyView};
use crate::strings::str_views;

verus! {

/// Changing: asking with a prompt of `pacaptr`'s own.
pub open spec fn strat_prompt() -> StrategyView {
    StrategyView { dry_run: DryRunView::PrintCmd, prompt: PromptView::CustomPrompt, no_cache: NoCacheView::NoClean }
}

/// Installing: as [`strat_prompt`], and no cache is kept: `--no-cache` is
/// passed.
pub open spec fn strat_install() -> StrategyView {
    StrategyView { no_cache: NoCacheView::WithFlags(str_views(seq!["--no-cache"])), ..strat_prompt() }
}

fn make_strat_prompt() -> (res: Strategy)
    ensures
        res@ =~~= strat_prompt(),
{
    Strategy { prompt: PromptStrategy::CustomPrompt, ..Strategy::default() }
}

fn make_strat_install() -> (res: Strategy)
    ensures
        res@ =~~= strat_install(),
{
    Strategy { no_cache: NoCacheStrategy::with_flags(&["--no-cache"]), ..make_strat_prompt() }
}

/// Searches the descriptions of the installed packages for the keywords.
pub open spec fn spec_qs(kws: Seq<Seq<char>>, flags: Seq<Seq<char>>, cfg: Config) -> StepView {
    search(cmd_of(str_views(seq!["apk", "info", "-d"]), false, Seq::empty(), flags), kws, 0, cfg)
}

/// Installs the packages named.
pub open spec fn spec_s(kws: Seq<Seq<char>>, flags: Seq<Seq<char>>) -> StepView {
    run_with(cmd_of(str_views(seq!["apk", "add"]), true, kws, flags), PmMode::CheckErr, strat_install())
}

/// Changing the packages named with the `apk` command `words`.
pub open spec fn change(words: Seq<Seq<char>>, kws: Seq<Seq<char>>, flags: Seq<Seq<char>>) -> StepView {
    run_with(cmd_of(words, true, kws, flags), PmMode::CheckErr, strat_prompt())
}

/// Upgrades everything, or the packages named; with `refresh`, the
/// package database is refreshed first.
pub open spec fn upgrade(refresh: bool, kws: Seq<Seq<char>>, flags: Seq<Seq<char>>) -> StepView {
    let words = if kws.len() == 0 {
        if refresh { str_views(seq!["apk", "upgrade", "-U", "-a"]) } else { str_views(seq!["apk", "upgrade"]) }
    } else {
        if refresh { str_views(seq!["apk", "add", "-U", "-u"]) } else { str_views(seq!["apk", "add", "-u"]) }
    };
    run_with(cmd_of(words, true, kws, flags), PmMode::CheckErr, strat_install())
}

/// The steps of each `pacman` method for `apk`.
pub open spec fn spec_steps(m: Method, kws: Seq<Seq<char>>, flags: Seq<Seq<char>>, cfg: Config) -> Seq<StepView> {
    match m {
        Method::Q => if kws.len() == 0 {
            seq![run(cmd_of(str_views(seq!["apk", "info"]), false, Seq::empty(), flags))]
        } else {
            seq![spec_qs(kws, flags, cfg)]
        },
        Method::Qi | Method::Si => seq![run(cmd_of(str_views(seq!["apk", "info", "-a"]), false, kws, flags))],
        Method::Ql => seq![run(cmd_of(str_views(seq!["apk", "info", "-L"]), false, kws, flags))],
        Method::Qo => seq![run(cmd_of(str_views(seq!["apk", "info", "--who-owns"]), false, kws, flags))],
        Method::Qs => seq![spec_qs(kws, flags, cfg)],
        Method::Qu => seq![run(cmd_of(str_views(seq!["apk", "version", "-l", "<"]), false, Seq::empty(), flags))],
        Method::R | Method::Rs => seq![change(str_views(seq!["apk", "del"]), kws, flags)],
        Method::Rn => seq![change(str_views(seq!["apk", "del", "--purge"]), kws, flags)],
        Method::Rns => seq![change(str_views(seq!["apk", "del", "--purge", "-r"]), kws, flags)],
        Method::S => seq![spec_s(kws, flags)],
        Method::Sc => seq![change(str_views(seq!["apk", "cache", "-v", "clean"]), Seq::empty(), flags)],
        Method::Scc => seq![change(str_views(seq!["rm", "-vrf", "/var/cache/apk/*"]), Seq::empty(), flags)],
        Method::Sii => seq![run(cmd_of(str_views(seq!["apk", "info", "-r"]), false, kws, flags))],
        Method::Sl => seq![run(cmd_of(str_views(seq!["apk", "search"]), false, kws, flags))],
        Method::Ss => seq![run(cmd_of(str_views(seq!["apk", "search", "-v"]), false, kws, flags))],
        Method::Su => seq![upgrade(false, kws, flags)],
        Method::Suy => seq![upgrade(true, kws, flags)],
        Method::Sw => seq![run_with(cmd_of(str_views(seq!["apk", "fetch"]), false, kws, flags), PmMode::CheckErr, strat_prompt())],
        Method::Sy => seq![run(cmd_of(str_views(seq!["apk", "update"]), true, kws, flags))]
            + if kws.len() == 0 { Seq::empty() } else { seq![spec_s(kws, flags)] },
        Method::U => seq![run_with(cmd_of(str_views(seq!["apk", "add", "--allow-untrusted"]), true, kws, flags), PmMode::CheckErr, strat_install())],
        _ => seq![unimplemented(m, "apk"@)],
    }
}

fn s(kws: &[&str], flags: &[&str]) -> (res: Step)
    ensures
        res@ =~~= spec_s(str_views(kws@), str_views(flags@)),
{
    Step::run_with(Cmd::with_sudo(&["apk", "add"]).kws(kws).flags(flags), PmMode::CheckErr, make_strat_install())
}

fn change_step(c: Cmd) -> (res: Step)
    ensures
        res@ =~~= run_with(c@, PmMode::CheckErr, strat_prompt()),
{
    Step::run_with(c, PmMode::CheckErr, make_strat_prompt())
}

fn upgrade_step(refresh: bool, kws: &[&str], flags: &[&str]) -> (res: Step)
    ensures
        res@ =~~= upgrade(refresh, str_views(kws@), str_views(flags@)),
{
    let c = if kws.len() == 0 {
        if refresh { Cmd::with_sudo(&["apk", "upgrade", "-U", "-a"]) } else { Cmd::with_sudo(&["apk", "upgrade"]) }
    } else {
        if refresh { Cmd::with_sudo(&["apk", "add", "-U", "-u"]) } else { Cmd::with_sudo(&["apk", "add", "-u"]) }
    };
    Step::run_with(c.kws(kws).flags(flags), PmMode::CheckErr, make_strat_install())
}

/// The steps of the `pacman` method `m` for `apk`, with the keywords and
/// the extra flags given.
pub fn steps(m: Method, kws: &[&str], flags: &[&str], cfg: &Config) -> (res: Vec<Step>)
    ensures
        steps_view(res@) =~~= spec_steps(m, str_views(kws@), str_views(flags@), *cfg),
{
    match m {
        Method::Q => {
            if kws.len() == 0 {
                one(Step::run(Cmd::new(&["apk", "info"]).flags(flags)))
            } else {
                one(Step::search(Cmd::new(&["apk", "info", "-d"]).flags(flags), kws, 0, cfg))
            }
        },
        Method::Qi | Method::Si => one(Step::run(Cmd::new(&["apk", "info", "-a"]).kws(kws).flags(flags))),
        Method::Ql => one(Step::run(Cmd::new(&["apk", "info", "-L"]).kws(kws).flags(flags))),
        Method::Qo => one(Step::run(Cmd::new(&["apk", "info", "--who-owns"]).kws(kws).flags(flags))),
        Method::Qs => one(Step::search(Cmd::new(&["apk", "info", "-d"]).flags(flags), kws, 0, cfg)),
        Method::Qu => one(Step::run(Cmd::new(&["apk", "version", "-l", "<"]).flags(flags))),
        Method::R | Method::Rs => one(change_step(Cmd::with_sudo(&["apk", "del"]).kws(kws).flags(flags))),
        Method::Rn => one(change_step(Cmd::with_sudo(&["apk", "del", "--purge"]).kws(kws).flags(flags))),
        Method::Rns => one(change_step(Cmd::with_sudo(&["apk", "del", "--purge", "-r"]).kws(kws).flags(flags))),
        Method::S => one(s(kws, flags)),
        Method::Sc => one(change_step(Cmd::with_sudo(&["apk", "cache", "-v", "clean"]).flags(flags))),
        Method::Scc => one(change_step(Cmd::with_sudo(&["rm", "-vrf", "/var/cache/apk/*"]).flags(flags))),
        Method::Sii => one(Step::run(Cmd::new(&["apk", "info", "-r"]).kws(kws).flags(flags))),
        Method::Sl => one(Step::run(Cmd::new(&["apk", "search"]).kws(kws).flags(flags))),
        Method::Ss => one(Step::run(Cmd::new(&["apk", "search", "-v"]).kws(kws).flags(flags))),
        Method::Su => one(upgrade_step(false, kws, flags)),
        Method::Suy => one(upgrade_step(true, kws, flags)),
        Method::Sw => one(Step::run_with(Cmd::new(&["apk", "fetch"]).kws(kws).flags(flags), PmMode::CheckErr, make_strat_prompt())),
        Method::Sy => {
            let first = one(Step::run(Cmd::with_sudo(&["apk", "update"]).kws(kws).flags(flags)));
            if kws.len() == 0 {
                assert(steps_view(first@) + Seq::<StepView>::empty() =~= steps_view(first@));
                first
            } else {
                then(first, one(s(kws, flags)))
            }
        },
        Method::U => one(Step::run_with(Cmd::with_sudo(&["apk", "add", "--allow-untrusted"]).kws(kws).flags(flags), PmMode::CheckErr, make_strat_install())),
        _ => one(Step::unimplemented(m, "apk")),
    }
}

/// Every command run by a method of `apk` gets the extra flags given, and
/// every operation reported as not implemented is reported for `apk`;
/// cleaning the cache is never followed by more cache cleaning.
pub proof fn lemma_steps_shape(m: Method, kws: Seq<Seq<char>>, flags: Seq<Seq<char>>, cfg: Config)
    ensures
        forall|i: int| 0 <= i < spec_steps(m, kws, flags, cfg).len() ==> passes_flags(#[trigger] spec_steps(m, kws, flags, cfg)[i], flags),
        forall|i: int| 0 <= i < spec_steps(m, kws, flags, cfg).len() ==> reports_pm(#[trigger] spec_steps(m, kws, flags, cfg)[i], "apk"@),
        is_cache_cleaning(m) ==> forall|i: int| 0 <= i < spec_steps(m, kws, flags, cfg).len() ==> cleans_no_cache(#[trigger] spec_steps(m, kws, flags, cfg)[i]),
{
}

} // verus!
