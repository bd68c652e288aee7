//! The [Advanced Package Tool](https://salsa.debian.org/apt-team/apt).
//!
//! Installing, searching, downloading and refreshing go through the command
//! name that selected this package manager (`apt`, or `pkg` on Termux).

use vstd::prelude::*;

use crate::config::Config;
use crate::exec::Cmd;
use crate::pm::step::{cleans_no_cache, is_cache_cleaning, passes_flags, reports_pm, 
    cmd_of, default_mode, one, run, run_with, search, spec_default_mode, then, two, unimplemented,
    words_after, Step, StepView, steps_view,
};
use crate::pm::{
    DryRunView, Method, NoCacheStrategy, NoCacheView, PromptStrategy, PromptView, Strategy,
    StrategyView,
};
use crate::strings::str_views;

verus! {

/// Removing: the native prompt is answered with `--yes`.
pub open spec fn strat_prompt() -> StrategyView {
    StrategyView {
        dry_run: DryRunView::PrintCmd,
        prompt: PromptView::NativeNoConfirm(str_views(seq!["--yes"])),
        no_cache: NoCacheView::NoClean,
    }
}

/// Installing: as [`strat_prompt`], and the cache is cleaned with `Scc`.
pub open spec fn strat_install() -> StrategyView {
    StrategyView { no_cache: NoCacheView::Scc, ..strat_prompt() }
}

fn make_strat_prompt() -> (res: Strategy)
    ensures
        res@ =~~= strat_prompt(),
{
    Strategy { prompt: PromptStrategy::native_no_confirm(&["--yes"]), ..Strategy::default() }
}

fn make_strat_install() -> (res: Strategy)
    ensures
        res@ =~~= strat_install(),
{
    Strategy { no_cache: NoCacheStrategy::Scc, ..make_strat_prompt() }
}

/// Installs the packages, reinstalling them unless `needed` is set.
pub open spec fn spec_s(cmd: Seq<char>, kws: Seq<Seq<char>>, flags: Seq<Seq<char>>, cfg: Config, quiet: bool) -> StepView {
    let words = if cfg.needed {
        words_after(cmd, seq!["install"])
    } else {
        words_after(cmd, seq!["install", "--reinstall"])
    };
    run_with(cmd_of(words, true, kws, flags), spec_default_mode(quiet), strat_install())
}

/// Upgrades everything (`upgrade`, then `dist-upgrade`), or installs the
/// packages named.
pub open spec fn spec_su(cmd: Seq<char>, kws: Seq<Seq<char>>, flags: Seq<Seq<char>>, cfg: Config, quiet: bool) -> Seq<StepView> {
    if kws.len() == 0 {
        seq![
            run_with(cmd_of(str_views(seq!["apt", "upgrade"]), true, Seq::empty(), flags), spec_default_mode(quiet), strat_prompt()),
            run_with(cmd_of(str_views(seq!["apt", "dist-upgrade"]), true, Seq::empty(), flags), spec_default_mode(quiet), strat_install()),
        ]
    } else {
        seq![spec_s(cmd, kws, flags, cfg, quiet)]
    }
}

/// Refreshes the package database, then installs the packages named, if
/// any.
pub open spec fn spec_sy(cmd: Seq<char>, kws: Seq<Seq<char>>, flags: Seq<Seq<char>>, cfg: Config, quiet: bool) -> Seq<StepView> {
    seq![run(cmd_of(words_after(cmd, seq!["update"]), true, Seq::empty(), flags))] + if kws.len() == 0 {
        Seq::empty()
    } else {
        seq![spec_s(cmd, kws, flags, cfg, quiet)]
    }
}

/// `-R` runs `sudo apt remove` on the keywords with the extra flags, which
/// keeps the configuration files; `-Rn` runs `apt purge`, which deletes
/// them too, so the two differ.
pub proof fn apt_remove_keeps_configuration(
    cmd: Seq<char>,
    kws: Seq<Seq<char>>,
    flags: Seq<Seq<char>>,
    cfg: Config,
    quiet: bool,
)
    ensures
        spec_steps(cmd, Method::R, kws, flags, cfg, quiet).len() == 1,
        spec_steps(cmd, Method::R, kws, flags, cfg, quiet)[0] matches StepView::Run(c, _, _)
            && c.cmd == seq!["apt"@, "remove"@] && c.sudo && c.kws == kws && c.flags == flags,
        spec_steps(cmd, Method::Rn, kws, flags, cfg, quiet).len() == 1,
        spec_steps(cmd, Method::Rn, kws, flags, cfg, quiet)[0] matches StepView::Run(c, _, _)
            && c.cmd == seq!["apt"@, "purge"@] && c.sudo && c.kws == kws && c.flags == flags,
        spec_steps(cmd, Method::R, kws, flags, cfg, quiet) != spec_steps(cmd, Method::Rn, kws, flags, cfg, quiet),
{
    reveal_strlit("remove");
    reveal_strlit("purge");
    assert(str_views(seq!["apt", "remove"]) =~= seq!["apt"@, "remove"@]);
    assert(str_views(seq!["apt", "purge"]) =~= seq!["apt"@, "purge"@]);
    assert("remove"@[0] != "purge"@[0]);
    let r = spec_steps(cmd, Method::R, kws, flags, cfg, quiet);
    let rn = spec_steps(cmd, Method::Rn, kws, flags, cfg, quiet);
    assert(r[0] != rn[0]);
}

/// The steps of each `pacman` method for `apt`, invoked as `cmd`.
pub open spec fn spec_steps(
    cmd: Seq<char>,
    m: Method,
    kws: Seq<Seq<char>>,
    flags: Seq<Seq<char>>,
    cfg: Config,
    quiet: bool,
) -> Seq<StepView> {
    let mode = spec_default_mode(quiet);
    match m {
        Method::Q => seq![run(cmd_of(str_views(seq!["apt", "list", "--installed"]), false, kws, flags))],
        Method::Qc => seq![run(cmd_of(str_views(seq!["apt", "changelog"]), false, kws, flags))],
        Method::Qe => seq![run(cmd_of(str_views(seq!["apt-mark", "showmanual"]), false, kws, flags))],
        Method::Qi => seq![run(cmd_of(str_views(seq!["dpkg-query", "-s"]), false, kws, flags))],
        Method::Qii | Method::Sii => seq![run(cmd_of(str_views(seq!["apt", "rdepends"]), false, kws, flags))],
        Method::Qo => seq![run(cmd_of(str_views(seq!["dpkg-query", "-S"]), false, kws, flags))],
        Method::Qp => seq![run(cmd_of(str_views(seq!["dpkg-deb", "-I"]), false, kws, flags))],
        Method::Qs => seq![search(cmd_of(str_views(seq!["dpkg-query", "-l"]), false, Seq::empty(), flags), kws, 4, cfg)],
        Method::Qu => seq![run(cmd_of(str_views(seq!["apt", "upgrade", "--trivial-only"]), true, kws, flags))],
        Method::R => seq![run_with(cmd_of(str_views(seq!["apt", "remove"]), true, kws, flags), mode, strat_prompt())],
        Method::Rn => seq![run_with(cmd_of(str_views(seq!["apt", "purge"]), true, kws, flags), mode, strat_prompt())],
        Method::Rns => seq![run_with(cmd_of(str_views(seq!["apt", "autoremove", "--purge"]), true, kws, flags), mode, strat_prompt())],
        Method::Rs => seq![run_with(cmd_of(str_views(seq!["apt", "autoremove"]), true, kws, flags), mode, strat_prompt())],
        Method::S => seq![spec_s(cmd, kws, flags, cfg, quiet)],
        Method::Sc => seq![run_with(cmd_of(str_views(seq!["apt", "clean"]), true, kws, flags), mode, strat_prompt())],
        Method::Scc => seq![run_with(cmd_of(str_views(seq!["apt", "autoclean"]), true, kws, flags), mode, strat_prompt())],
        Method::Sg => if kws.len() == 0 {
            seq![run(cmd_of(str_views(seq!["tasksel", "--list-task"]), false, kws, flags))]
        } else {
            seq![run(cmd_of(str_views(seq!["tasksel", "--task-packages"]), false, kws, flags))]
        },
        Method::Si => seq![run(cmd_of(str_views(seq!["apt", "show"]), false, kws, flags))],
        Method::Ss => seq![run(cmd_of(words_after(cmd, seq!["search"]), false, kws, flags))],
        Method::Su => spec_su(cmd, kws, flags, cfg, quiet),
        Method::Suy => spec_sy(cmd, Seq::empty(), flags, cfg, quiet) + spec_su(cmd, kws, flags, cfg, quiet),
        Method::Sw => seq![run_with(cmd_of(words_after(cmd, seq!["install", "--download-only"]), true, kws, flags), mode, strat_install())],
        Method::Sy => spec_sy(cmd, kws, flags, cfg, quiet),
        _ => seq![unimplemented(m, "apt"@)],
    }
}

fn s(cmd: &str, kws: &[&str], flags: &[&str], cfg: &Config, quiet: bool) -> (res: Step)
    ensures
        res@ =~~= spec_s(cmd@, str_views(kws@), str_views(flags@), *cfg, quiet),
{
    let c = if cfg.needed {
        Cmd::prefixed(cmd, &["install"])
    } else {
        Cmd::prefixed(cmd, &["install", "--reinstall"])
    };
    Step::run_with(c.sudo(true).kws(kws).flags(flags), default_mode(quiet), make_strat_install())
}

fn su(cmd: &str, kws: &[&str], flags: &[&str], cfg: &Config, quiet: bool) -> (res: Vec<Step>)
    ensures
        steps_view(res@) =~~= spec_su(cmd@, str_views(kws@), str_views(flags@), *cfg, quiet),
{
    if kws.len() == 0 {
        two(
            Step::run_with(Cmd::with_sudo(&["apt", "upgrade"]).flags(flags), default_mode(quiet), make_strat_prompt()),
            Step::run_with(Cmd::with_sudo(&["apt", "dist-upgrade"]).flags(flags), default_mode(quiet), make_strat_install()),
        )
    } else {
        one(s(cmd, kws, flags, cfg, quiet))
    }
}

fn sy(cmd: &str, kws: &[&str], flags: &[&str], cfg: &Config, quiet: bool) -> (res: Vec<Step>)
    ensures
        steps_view(res@) =~~= spec_sy(cmd@, str_views(kws@), str_views(flags@), *cfg, quiet),
{
    let first = one(Step::run(Cmd::prefixed(cmd, &["update"]).sudo(true).flags(flags)));
    if kws.len() == 0 {
        assert(steps_view(first@) + Seq::<StepView>::empty() =~= steps_view(first@));
        first
    } else {
        then(first, one(s(cmd, kws, flags, cfg, quiet)))
    }
}

/// The steps of the `pacman` method `m` for `apt`, invoked as `cmd`, with
/// the keywords and the extra flags given.
pub fn steps(cmd: &str, m: Method, kws: &[&str], flags: &[&str], cfg: &Config, quiet: bool) -> (res: Vec<Step>)
    ensures
        steps_view(res@) =~~= spec_steps(cmd@, m, str_views(kws@), str_views(flags@), *cfg, quiet),
{
    let mode = default_mode(quiet);
    match m {
        Method::Q => one(Step::run(Cmd::new(&["apt", "list", "--installed"]).kws(kws).flags(flags))),
        Method::Qc => one(Step::run(Cmd::new(&["apt", "changelog"]).kws(kws).flags(flags))),
        Method::Qe => one(Step::run(Cmd::new(&["apt-mark", "showmanual"]).kws(kws).flags(flags))),
        Method::Qi => one(Step::run(Cmd::new(&["dpkg-query", "-s"]).kws(kws).flags(flags))),
        Method::Qii | Method::Sii => one(Step::run(Cmd::new(&["apt", "rdepends"]).kws(kws).flags(flags))),
        Method::Qo => one(Step::run(Cmd::new(&["dpkg-query", "-S"]).kws(kws).flags(flags))),
        Method::Qp => one(Step::run(Cmd::new(&["dpkg-deb", "-I"]).kws(kws).flags(flags))),
        Method::Qs => one(Step::search(Cmd::new(&["dpkg-query", "-l"]).flags(flags), kws, 4, cfg)),
        Method::Qu => one(Step::run(Cmd::with_sudo(&["apt", "upgrade", "--trivial-only"]).kws(kws).flags(flags))),
        Method::R => one(Step::run_with(Cmd::with_sudo(&["apt", "remove"]).kws(kws).flags(flags), mode, make_strat_prompt())),
        Method::Rn => one(Step::run_with(Cmd::with_sudo(&["apt", "purge"]).kws(kws).flags(flags), mode, make_strat_prompt())),
        Method::Rns => one(Step::run_with(Cmd::with_sudo(&["apt", "autoremove", "--purge"]).kws(kws).flags(flags), mode, make_strat_prompt())),
        Method::Rs => one(Step::run_with(Cmd::with_sudo(&["apt", "autoremove"]).kws(kws).flags(flags), mode, make_strat_prompt())),
        Method::S => one(s(cmd, kws, flags, cfg, quiet)),
        Method::Sc => one(Step::run_with(Cmd::with_sudo(&["apt", "clean"]).kws(kws).flags(flags), mode, make_strat_prompt())),
        Method::Scc => one(Step::run_with(Cmd::with_sudo(&["apt", "autoclean"]).kws(kws).flags(flags), mode, make_strat_prompt())),
        Method::Sg => {
            if kws.len() == 0 {
                one(Step::run(Cmd::new(&["tasksel", "--list-task"]).kws(kws).flags(flags)))
            } else {
                one(Step::run(Cmd::new(&["tasksel", "--task-packages"]).kws(kws).flags(flags)))
            }
        },
        Method::Si => one(Step::run(Cmd::new(&["apt", "show"]).kws(kws).flags(flags))),
        Method::Ss => one(Step::run(Cmd::prefixed(cmd, &["search"]).kws(kws).flags(flags))),
        Method::Su => su(cmd, kws, flags, cfg, quiet),
        Method::Suy => {
            let none: &[&str] = &[];
            proof {
                assert(str_views(none@) =~= Seq::<Seq<char>>::empty());
            }
            then(sy(cmd, none, flags, cfg, quiet), su(cmd, kws, flags, cfg, quiet))
        },
        Method::Sw => one(Step::run_with(Cmd::prefixed(cmd, &["install", "--download-only"]).sudo(true).kws(kws).flags(flags), mode, make_strat_install())),
        Method::Sy => sy(cmd, kws, flags, cfg, quiet),
        _ => one(Step::unimplemented(m, "apt")),
    }
}

/// Every command run by a method of `apt` gets the extra flags given, and
/// every operation reported as not implemented is reported for `apt`;
/// cleaning the cache is never followed by more cache cleaning.
pub proof fn lemma_steps_shape(cmd: Seq<char>, m: Method, kws: Seq<Seq<char>>, flags: Seq<Seq<char>>, cfg: Config, quiet: bool)
    ensures
        forall|i: int| 0 <= i < spec_steps(cmd, m, kws, flags, cfg, quiet).len() ==> passes_flags(#[trigger] spec_steps(cmd, m, kws, flags, cfg, quiet)[i], flags),
        forall|i: int| 0 <= i < spec_steps(cmd, m, kws, flags, cfg, quiet).len() ==> reports_pm(#[trigger] spec_steps(cmd, m, kws, flags, cfg, quiet)[i], "apt"@),
        is_cache_cleaning(m) ==> forall|i: int| 0 <= i < spec_steps(cmd, m, kws, flags, cfg, quiet).len() ==> cleans_no_cache(#[trigger] spec_steps(cmd, m, kws, flags, cfg, quiet)[i]),
{
}

} // verus!
