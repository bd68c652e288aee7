//! [Dandified YUM](https://github.com/rpm-software-management/dnf).

use vstd::prelude::*;

use crate::config::Config;
use crate::exec::Cmd;
use crate::pm::step::{cleans_no_cache, is_cache_cleaning, passes_flags, reports_pm, cmd_of, one, run, run_with, search, then, unimplemented, Step, StepView, steps_view};
use crate::pm::{DryRunView, Method, NoCacheStrategy, NoCacheView, PmMode, PromptStrategy, PromptView, Strategy, StrategyView};
use crate::strings::str_views;

verus! {

/// Removing: the native prompt is answered with `-y`.
pub open spec fn strat_prompt() -> StrategyView {
    StrategyView {
        dry_run: DryRunView::PrintCmd,
        prompt: PromptView::NativeNoConfirm(str_views(seq!["-y"])),
        no_cache: NoCacheView::NoClean,
    }
}

/// Cleaning: asking with a prompt of `pacaptr`'s own.
pub open spec fn strat_prompt_custom() -> StrategyView {
    StrategyView { prompt: PromptView::CustomPrompt, ..strat_prompt() }
}

/// Installing: as [`strat_prompt`], and the cache is cleaned with `Sccc`.
pub open spec fn strat_install() -> StrategyView {
    StrategyView { no_cache: NoCacheView::Sccc, ..strat_prompt() }
}

fn make_strat_prompt() -> (res: Strategy)
    ensures
        res@ =~~= strat_prompt(),
{
    Strategy { prompt: PromptStrategy::native_no_confirm(&["-y"]), ..Strategy::default() }
}

fn make_strat_prompt_custom() -> (res: Strategy)
    ensures
        res@ =~~= strat_prompt_custom(),
{
    Strategy { prompt: PromptStrategy::CustomPrompt, ..Strategy::default() }
}

fn make_strat_install() -> (res: Strategy)
    ensures
        res@ =~~= strat_install(),
{
    Strategy { no_cache: NoCacheStrategy::Sccc, ..make_strat_prompt() }
}

/// Searches the installed packages for the keywords.
pub open spec fn spec_qs(kws: Seq<Seq<char>>, flags: Seq<Seq<char>>, cfg: Config) -> StepView {
    search(cmd_of(str_views(seq!["rpm", "-qa"]), false, Seq::empty(), flags), kws, 0, cfg)
}

/// Installs the packages named.
pub open spec fn spec_s(kws: Seq<Seq<char>>, flags: Seq<Seq<char>>) -> StepView {
    run_with(cmd_of(str_views(seq!["dnf", "install"]), true, kws, flags), PmMode::CheckErr, strat_install())
}

/// Cleans with `dnf clean` and the given argument.
pub open spec fn clean(arg: &str, flags: Seq<Seq<char>>) -> StepView {
    run_with(cmd_of(str_views(seq!["dnf", "clean", arg]), false, Seq::empty(), flags), PmMode::CheckErr, strat_prompt_custom())
}

/// The steps of each `pacman` method for `dnf`.
pub open spec fn spec_steps(m: Method, kws: Seq<Seq<char>>, flags: Seq<Seq<char>>, cfg: Config) -> Seq<StepView> {
    match m {
        Method::Q => if kws.len() == 0 {
            seq![run(cmd_of(str_views(seq!["rpm", "-qa", "--qf", "%{NAME} %{VERSION}\\n"]), false, Seq::empty(), flags))]
        } else {
            seq![spec_qs(kws, flags, cfg)]
        },
        Method::Qc => seq![run(cmd_of(str_views(seq!["rpm", "-q", "--changelog"]), false, kws, flags))],
        Method::Qe => seq![run(cmd_of(str_views(seq!["dnf", "repoquery", "--userinstalled"]), false, kws, flags))],
        Method::Qi => seq![run(cmd_of(str_views(seq!["dnf", "info", "--installed"]), false, kws, flags))],
        Method::Qii => seq![run(cmd_of(str_views(seq!["dnf", "repoquery", "--installed", "--whatdepends"]), false, kws, flags))],
        Method::Ql => seq![run(cmd_of(str_views(seq!["rpm", "-ql"]), false, kws, flags))],
        Method::Qm => seq![run(cmd_of(str_views(seq!["dnf", "list", "--extras"]), false, Seq::empty(), flags))],
        Method::Qo => seq![run(cmd_of(str_views(seq!["rpm", "-qf"]), false, kws, flags))],
        Method::Qp => seq![run(cmd_of(str_views(seq!["rpm", "-qip"]), false, kws, flags))],
        Method::Qs => seq![spec_qs(kws, flags, cfg)],
        Method::Qu => seq![run(cmd_of(str_views(seq!["dnf", "list", "updates"]), false, kws, flags))],
        Method::R => seq![run_with(cmd_of(str_views(seq!["dnf", "remove"]), true, kws, flags), PmMode::CheckErr, strat_prompt())],
        Method::S | Method::U => seq![spec_s(kws, flags)],
        Method::Sc => seq![clean("expire-cache", flags)],
        Method::Scc => seq![clean("packages", flags)],
        Method::Sccc => seq![clean("all", flags)],
        Method::Si => seq![run(cmd_of(str_views(seq!["dnf", "info"]), false, kws, flags))],
        Method::Sii => seq![run(cmd_of(str_views(seq!["dnf", "repoquery", "--whatdepends"]), false, kws, flags))],
        Method::Sg => if kws.len() == 0 {
            seq![run(cmd_of(str_views(seq!["dnf", "group", "list"]), false, kws, flags))]
        } else {
            seq![run(cmd_of(str_views(seq!["dnf", "group", "info"]), false, kws, flags))]
        },
        Method::Sl => seq![run(cmd_of(str_views(seq!["dnf", "list", "--available"]), false, kws, flags))],
        Method::Ss => seq![run(cmd_of(str_views(seq!["dnf", "search"]), false, kws, flags))],
        Method::Su | Method::Suy => seq![run_with(cmd_of(str_views(seq!["dnf", "upgrade"]), true, kws, flags), PmMode::CheckErr, strat_install())],
        Method::Sw => seq![run_with(cmd_of(str_views(seq!["dnf", "install", "--downloadonly"]), true, kws, flags), PmMode::CheckErr, strat_install())],
        Method::Sy => seq![
            clean("expire-cache", flags),
            run(cmd_of(str_views(seq!["dnf", "check-update"]), false, Seq::empty(), flags)),
        ] + if kws.len() == 0 { Seq::empty() } else { seq![spec_s(kws, flags)] },
        _ => seq![unimplemented(m, "dnf"@)],
    }
}

fn s(kws: &[&str], flags: &[&str]) -> (res: Step)
    ensures
        res@ =~~= spec_s(str_views(kws@), str_views(flags@)),
{
    Step::run_with(Cmd::with_sudo(&["dnf", "install"]).kws(kws).flags(flags), PmMode::CheckErr, make_strat_install())
}

fn clean_step(arg: &'static str, flags: &[&str]) -> (res: Step)
    ensures
        res@ =~~= clean(arg, str_views(flags@)),
{
    Step::run_with(Cmd::new(&["dnf", "clean", arg]).flags(flags), PmMode::CheckErr, make_strat_prompt_custom())
}

/// The steps of the `pacman` method `m` for `dnf`, with the keywords and
/// the extra flags given.
pub fn steps(m: Method, kws: &[&str], flags: &[&str], cfg: &Config) -> (res: Vec<Step>)
    ensures
        steps_view(res@) =~~= spec_steps(m, str_views(kws@), str_views(flags@), *cfg),
{
    match m {
        Method::Q => {
            if kws.len() == 0 {
                one(Step::run(Cmd::new(&["rpm", "-qa", "--qf", "%{NAME} %{VERSION}\\n"]).flags(flags)))
            } else {
                one(Step::search(Cmd::new(&["rpm", "-qa"]).flags(flags), kws, 0, cfg))
            }
        },
        Method::Qc => one(Step::run(Cmd::new(&["rpm", "-q", "--changelog"]).kws(kws).flags(flags))),
        Method::Qe => one(Step::run(Cmd::new(&["dnf", "repoquery", "--userinstalled"]).kws(kws).flags(flags))),
        Method::Qi => one(Step::run(Cmd::new(&["dnf", "info", "--installed"]).kws(kws).flags(flags))),
        Method::Qii => one(Step::run(Cmd::new(&["dnf", "repoquery", "--installed", "--whatdepends"]).kws(kws).flags(flags))),
        Method::Ql => one(Step::run(Cmd::new(&["rpm", "-ql"]).kws(kws).flags(flags))),
        Method::Qm => one(Step::run(Cmd::new(&["dnf", "list", "--extras"]).flags(flags))),
        Method::Qo => one(Step::run(Cmd::new(&["rpm", "-qf"]).kws(kws).flags(flags))),
        Method::Qp => one(Step::run(Cmd::new(&["rpm", "-qip"]).kws(kws).flags(flags))),
        Method::Qs => one(Step::search(Cmd::new(&["rpm", "-qa"]).flags(flags), kws, 0, cfg)),
        Method::Qu => one(Step::run(Cmd::new(&["dnf", "list", "updates"]).kws(kws).flags(flags))),
        Method::R => one(Step::run_with(Cmd::with_sudo(&["dnf", "remove"]).kws(kws).flags(flags), PmMode::CheckErr, make_strat_prompt())),
        Method::S | Method::U => one(s(kws, flags)),
        Method::Sc => one(clean_step("expire-cache", flags)),
        Method::Scc => one(clean_step("packages", flags)),
        Method::Sccc => one(clean_step("all", flags)),
        Method::Si => one(Step::run(Cmd::new(&["dnf", "info"]).kws(kws).flags(flags))),
        Method::Sii => one(Step::run(Cmd::new(&["dnf", "repoquery", "--whatdepends"]).kws(kws).flags(flags))),
        Method::Sg => {
            if kws.len() == 0 {
                one(Step::run(Cmd::new(&["dnf", "group", "list"]).kws(kws).flags(flags)))
            } else {
                one(Step::run(Cmd::new(&["dnf", "group", "info"]).kws(kws).flags(flags)))
            }
        },
        Method::Sl => one(Step::run(Cmd::new(&["dnf", "list", "--available"]).kws(kws).flags(flags))),
        Method::Ss => one(Step::run(Cmd::new(&["dnf", "search"]).kws(kws).flags(flags))),
        Method::Su | Method::Suy => one(Step::run_with(Cmd::with_sudo(&["dnf", "upgrade"]).kws(kws).flags(flags), PmMode::CheckErr, make_strat_install())),
        Method::Sw => one(Step::run_with(Cmd::with_sudo(&["dnf", "install", "--downloadonly"]).kws(kws).flags(flags), PmMode::CheckErr, make_strat_install())),
        Method::Sy => {
            let mut first = one(clean_step("expire-cache", flags));
            let ghost f0 = first@;
            first.push(Step::run(Cmd::new(&["dnf", "check-update"]).flags(flags)));
            proof {
                assert(steps_view(first@) =~= steps_view(f0).push(first@[1]@));
            }
            if kws.len() == 0 {
                assert(steps_view(first@) + Seq::<StepView>::empty() =~= steps_view(first@));
                first
            } else {
                then(first, one(s(kws, flags)))
            }
        },
        _ => one(Step::unimplemented(m, "dnf")),
    }
}

/// Every command run by a method of `dnf` gets the extra flags given, and
/// every operation reported as not implemented is reported for `dnf`;
/// cleaning the cache is never followed by more cache cleaning.
pub proof fn lemma_steps_shape(m: Method, kws: Seq<Seq<char>>, flags: Seq<Seq<char>>, cfg: Config)
    ensures
        forall|i: int| 0 <= i < spec_steps(m, kws, flags, cfg).len() ==> passes_flags(#[trigger] spec_steps(m, kws, flags, cfg)[i], flags),
        forall|i: int| 0 <= i < spec_steps(m, kws, flags, cfg).len() ==> reports_pm(#[trigger] spec_steps(m, kws, flags, cfg)[i], "dnf"@),
        is_cache_cleaning(m) ==> forall|i: int| 0 <= i < spec_steps(m, kws, flags, cfg).len() ==> cleans_no_cache(#[trigger] spec_steps(m, kws, flags, cfg)[i]),
{
}

} // verus!
