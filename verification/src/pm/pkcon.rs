//! The [PackageKit Console Client](https://www.freedesktop.org/software/PackageKit).

use vstd::prelude::*;

use crate::config::Config;
use crate::exec::Cmd;
use crate::pm::step::{cleans_no_cache, is_cache_cleaning, passes_flags, reports_pm, 
    cmd_of, default_mode, one, run, run_with, search, spec_default_mode, then, unimplemented, Step, StepView,
    steps_view,
};
use crate::pm::{DryRunView, Method, NoCacheView, PromptStrategy, PromptView, Strategy, StrategyView};
use crate::strings::str_views;

verus! {

/// Changing: the native prompt is answered with `-y`.
pub open spec fn strat_prompt() -> StrategyView {
    StrategyView {
        dry_run: DryRunView::PrintCmd,
        prompt: PromptView::NativeNoConfirm(str_views(seq!["-y"])),
        no_cache: NoCacheView::NoClean,
    }
}

fn make_strat_prompt() -> (res: Strategy)
    ensures
        res@ =~~= strat_prompt(),
{
    Strategy { prompt: PromptStrategy::native_no_confirm(&["-y"]), ..Strategy::default() }
}

/// Searches the installed packages for the keywords.
pub open spec fn spec_qs(kws: Seq<Seq<char>>, flags: Seq<Seq<char>>, cfg: Config) -> StepView {
    search(cmd_of(str_views(seq!["pkcon", "get-packages", "--filter", "installed"]), false, Seq::empty(), flags), kws, 0, cfg)
}

/// One removal per package named, with the command part `words`.
pub open spec fn spec_remove_each(words: Seq<Seq<char>>, kws: Seq<Seq<char>>, flags: Seq<Seq<char>>, quiet: bool) -> Seq<StepView> {
    Seq::new(kws.len(), |i: int| run_with(cmd_of(words, true, seq![kws[i]], flags), spec_default_mode(quiet), strat_prompt()))
}

/// Installs the packages, allowing reinstalls unless `needed` is set.
pub open spec fn spec_s(kws: Seq<Seq<char>>, flags: Seq<Seq<char>>, cfg: Config, quiet: bool) -> StepView {
    let words = if cfg.needed {
        str_views(seq!["pkcon", "install"])
    } else {
        str_views(seq!["pkcon", "install", "--allow-reinstall"])
    };
    run_with(cmd_of(words, true, kws, flags), spec_default_mode(quiet), strat_prompt())
}

/// Updates the packages named, or all of them.
pub open spec fn spec_su(kws: Seq<Seq<char>>, flags: Seq<Seq<char>>, quiet: bool) -> StepView {
    run_with(cmd_of(str_views(seq!["pkcon", "update"]), true, kws, flags), spec_default_mode(quiet), strat_prompt())
}

/// Refreshes the package database, then installs the packages named, if
/// any.
pub open spec fn spec_sy(kws: Seq<Seq<char>>, flags: Seq<Seq<char>>, cfg: Config, quiet: bool) -> Seq<StepView> {
    seq![run(cmd_of(str_views(seq!["pkcon", "refresh"]), true, Seq::empty(), flags))]
        + if kws.len() == 0 { Seq::empty() } else { seq![spec_s(kws, flags, cfg, quiet)] }
}

/// The steps of each `pacman` method for `pkcon`.
pub open spec fn spec_steps(m: Method, kws: Seq<Seq<char>>, flags: Seq<Seq<char>>, cfg: Config, quiet: bool) -> Seq<StepView> {
    match m {
        Method::Q => if kws.len() == 0 {
            seq![run(cmd_of(str_views(seq!["pkcon", "get-packages", "--filter", "installed"]), false, kws, flags))]
        } else {
            seq![spec_qs(kws, flags, cfg)]
        },
        Method::Qc => seq![run(cmd_of(str_views(seq!["pkcon", "get-update-detail"]), false, kws, flags))],
        Method::Qi | Method::Si => seq![run(cmd_of(str_views(seq!["pkcon", "get-details"]), false, kws, flags))],
        Method::Qii | Method::Sii => seq![run(cmd_of(str_views(seq!["pkcon", "required-by"]), false, kws, flags))],
        Method::Ql => seq![run(cmd_of(str_views(seq!["pkcon", "get-files"]), false, kws, flags))],
        Method::Qo => seq![run(cmd_of(str_views(seq!["pkcon", "what-provides"]), false, kws, flags))],
        Method::Qs => seq![spec_qs(kws, flags, cfg)],
        Method::Qu => seq![run(cmd_of(str_views(seq!["pkcon", "get-updates"]), true, kws, flags))],
        Method::R => spec_remove_each(str_views(seq!["pkcon", "remove"]), kws, flags, quiet),
        Method::Rs => spec_remove_each(str_views(seq!["pkcon", "remove", "--autoremove"]), kws, flags, quiet),
        Method::S => seq![spec_s(kws, flags, cfg, quiet)],
        Method::Ss => seq![run(cmd_of(str_views(seq!["pkcon", "search", "name"]), false, kws, flags))],
        Method::Su => seq![spec_su(kws, flags, quiet)],
        Method::Suy => spec_sy(Seq::empty(), flags, cfg, quiet).push(spec_su(kws, flags, quiet)),
        Method::Sw => seq![run_with(cmd_of(str_views(seq!["pkcon", "install", "--only-download"]), true, kws, flags), spec_default_mode(quiet), strat_prompt())],
        Method::Sy => spec_sy(kws, flags, cfg, quiet),
        _ => seq![unimplemented(m, "pkcon"@)],
    }
}

fn remove_each(words: &[&str], kws: &[&str], flags: &[&str], quiet: bool) -> (res: Vec<Step>)
    ensures
        steps_view(res@) =~~= spec_remove_each(str_views(words@), str_views(kws@), str_views(flags@), quiet),
{
    let mut res: Vec<Step> = Vec::new();
    let mut i: usize = 0;
    while i < kws.len()
        invariant
            i <= kws@.len(),
            res@.len() == i,
            forall|j: int| 0 <= j < i ==> (#[trigger] res@[j])@ =~~= run_with(
                cmd_of(str_views(words@), true, seq![kws@[j]@], str_views(flags@)),
                spec_default_mode(quiet),
                strat_prompt(),
            ),
        decreases kws@.len() - i,
    {
        let kw: &[&str] = &[kws[i]];
        assert(str_views(kw@) =~= seq![kws@[i as int]@]);
        res.push(Step::run_with(Cmd::with_sudo(words).kws(kw).flags(flags), default_mode(quiet), make_strat_prompt()));
        i = i + 1;
    }
    res
}

fn s(kws: &[&str], flags: &[&str], cfg: &Config, quiet: bool) -> (res: Step)
    ensures
        res@ =~~= spec_s(str_views(kws@), str_views(flags@), *cfg, quiet),
{
    let c = if cfg.needed {
        Cmd::with_sudo(&["pkcon", "install"])
    } else {
        Cmd::with_sudo(&["pkcon", "install", "--allow-reinstall"])
    };
    Step::run_with(c.kws(kws).flags(flags), default_mode(quiet), make_strat_prompt())
}

fn su(kws: &[&str], flags: &[&str], quiet: bool) -> (res: Step)
    ensures
        res@ =~~= spec_su(str_views(kws@), str_views(flags@), quiet),
{
    Step::run_with(Cmd::with_sudo(&["pkcon", "update"]).kws(kws).flags(flags), default_mode(quiet), make_strat_prompt())
}

fn sy(kws: &[&str], flags: &[&str], cfg: &Config, quiet: bool) -> (res: Vec<Step>)
    ensures
        steps_view(res@) =~~= spec_sy(str_views(kws@), str_views(flags@), *cfg, quiet),
{
    let first = one(Step::run(Cmd::with_sudo(&["pkcon", "refresh"]).flags(flags)));
    if kws.len() == 0 {
        assert(steps_view(first@) + Seq::<StepView>::empty() =~= steps_view(first@));
        first
    } else {
        then(first, one(s(kws, flags, cfg, quiet)))
    }
}

/// The steps of the `pacman` method `m` for `pkcon`, with the keywords and
/// the extra flags given.
pub fn steps(m: Method, kws: &[&str], flags: &[&str], cfg: &Config, quiet: bool) -> (res: Vec<Step>)
    ensures
        steps_view(res@) =~~= spec_steps(m, str_views(kws@), str_views(flags@), *cfg, quiet),
{
    match m {
        Method::Q => {
            if kws.len() == 0 {
                one(Step::run(Cmd::new(&["pkcon", "get-packages", "--filter", "installed"]).kws(kws).flags(flags)))
            } else {
                one(Step::search(Cmd::new(&["pkcon", "get-packages", "--filter", "installed"]).flags(flags), kws, 0, cfg))
            }
        },
        Method::Qc => one(Step::run(Cmd::new(&["pkcon", "get-update-detail"]).kws(kws).flags(flags))),
        Method::Qi | Method::Si => one(Step::run(Cmd::new(&["pkcon", "get-details"]).kws(kws).flags(flags))),
        Method::Qii | Method::Sii => one(Step::run(Cmd::new(&["pkcon", "required-by"]).kws(kws).flags(flags))),
        Method::Ql => one(Step::run(Cmd::new(&["pkcon", "get-files"]).kws(kws).flags(flags))),
        Method::Qo => one(Step::run(Cmd::new(&["pkcon", "what-provides"]).kws(kws).flags(flags))),
        Method::Qs => one(Step::search(Cmd::new(&["pkcon", "get-packages", "--filter", "installed"]).flags(flags), kws, 0, cfg)),
        Method::Qu => one(Step::run(Cmd::with_sudo(&["pkcon", "get-updates"]).kws(kws).flags(flags))),
        Method::R => remove_each(&["pkcon", "remove"], kws, flags, quiet),
        Method::Rs => remove_each(&["pkcon", "remove", "--autoremove"], kws, flags, quiet),
        Method::S => one(s(kws, flags, cfg, quiet)),
        Method::Ss => one(Step::run(Cmd::new(&["pkcon", "search", "name"]).kws(kws).flags(flags))),
        Method::Su => one(su(kws, flags, quiet)),
        Method::Suy => {
            let none: &[&str] = &[];
            assert(str_views(none@) =~= Seq::<Seq<char>>::empty());
            let res = then(sy(none, flags, cfg, quiet), one(su(kws, flags, quiet)));
            res
        },
        Method::Sw => one(Step::run_with(Cmd::with_sudo(&["pkcon", "install", "--only-download"]).kws(kws).flags(flags), default_mode(quiet), make_strat_prompt())),
        Method::Sy => sy(kws, flags, cfg, quiet),
        _ => one(Step::unimplemented(m, "pkcon")),
    }
}

/// Every command run by a method of `pkcon` gets the extra flags given, and
/// every operation reported as not implemented is reported for `pkcon`;
/// cleaning the cache is never followed by more cache cleaning.
pub proof fn lemma_steps_shape(m: Method, kws: Seq<Seq<char>>, flags: Seq<Seq<char>>, cfg: Config, quiet: bool)
    ensures
        forall|i: int| 0 <= i < spec_steps(m, kws, flags, cfg, quiet).len() ==> passes_flags(#[trigger] spec_steps(m, kws, flags, cfg, quiet)[i], flags),
        forall|i: int| 0 <= i < spec_steps(m, kws, flags, cfg, quiet).len() ==> reports_pm(#[trigger] spec_steps(m, kws, flags, cfg, quiet)[i], "pkcon"@),
        is_cache_cleaning(m) ==> forall|i: int| 0 <= i < spec_steps(m, kws, flags, cfg, quiet).len() ==> cleans_no_cache(#[trigger] spec_steps(m, kws, flags, cfg, quiet)[i]),
{
}

} // verus!
