//! The steps that a package manager operation is made of.
//!
//! Each `pacman` method of a package manager is a short list of [`Step`]s,
//! run in order until one of them fails: a command to run, a command whose
//! output is searched, or the report that the operation is not implemented.

use vstd::prelude::*;

use crate::config::Config;
use crate::exec::{Cmd, CmdView};
use crate::pm::{default_strategy, Method, method_name, PmMode, Strategy, StrategyView};
use crate::strings::{str_views, to_strings, views};

verus! {

/// One step of a package manager operation.
#[derive(Debug)]
pub enum Step {
    /// Runs a command in the given mode and with the given strategy.
    Run { cmd: Cmd, mode: PmMode, strat: Strategy },
    /// Runs a command silently with the default strategy, then prints the
    /// first `header_lines` lines of its output followed by the other lines
    /// that match all the `patterns`. When `announce` holds, the command is
    /// shown before it runs.
    Search { cmd: Cmd, patterns: Vec<String>, header_lines: usize, announce: bool },
    /// The operation `op` is not implemented by the package manager `pm`.
    Unimplemented { op: String, pm: String },
}

/// The mathematical content of a [`Step`].
#[verifier::ext_equal]
pub enum StepView {
    Run(CmdView, PmMode, StrategyView),
    Search(CmdView, Seq<Seq<char>>, nat, bool),
    Unimplemented(Seq<char>, Seq<char>),
}

impl View for Step {
    type V = StepView;

    open spec fn view(&self) -> StepView {
        match self {
            Step::Run { cmd, mode, strat } => StepView::Run(cmd@, *mode, strat@),
            Step::Search { cmd, patterns, header_lines, announce } => StepView::Search(
                cmd@,
                views(patterns@),
                *header_lines as nat,
                *announce,
            ),
            Step::Unimplemented { op, pm } => StepView::Unimplemented(op@, pm@),
        }
    }
}

/// The contents of a list of steps.
pub open spec fn steps_view(s: Seq<Step>) -> Seq<StepView> {
    s.map_values(|x: Step| x@)
}

/// A command, with the words of its command part, whether it needs `sudo`,
/// its keywords and its flags.
pub open spec fn cmd_of(
    words: Seq<Seq<char>>,
    sudo: bool,
    kws: Seq<Seq<char>>,
    flags: Seq<Seq<char>>,
) -> CmdView {
    CmdView { sudo, cmd: words, flags, kws }
}

/// Running a command in the default mode with the default strategy.
pub open spec fn run(c: CmdView) -> StepView {
    StepView::Run(c, PmMode::CheckErr, default_strategy())
}

/// Running a command in the given mode with the given strategy.
pub open spec fn run_with(c: CmdView, mode: PmMode, strat: StrategyView) -> StepView {
    StepView::Run(c, mode, strat)
}

/// Searching the output of a command, announced unless on a dry run.
pub open spec fn search(c: CmdView, patterns: Seq<Seq<char>>, header_lines: nat, cfg: Config) -> StepView {
    StepView::Search(c, patterns, header_lines, !cfg.dry_run)
}

/// Searching the output of a command without announcing it.
pub open spec fn search_unannounced(c: CmdView, patterns: Seq<Seq<char>>, header_lines: nat) -> StepView {
    StepView::Search(c, patterns, header_lines, false)
}

/// The report that method `m` is not implemented by the package manager
/// named `pm`.
pub open spec fn unimplemented(m: Method, pm: Seq<char>) -> StepView {
    StepView::Unimplemented(method_name(m), pm)
}

/// Whether a step that runs a command passes it exactly the given extra
/// flags.
pub open spec fn passes_flags(s: StepView, flags: Seq<Seq<char>>) -> bool {
    match s {
        StepView::Run(c, _, _) => c.flags == flags,
        StepView::Search(c, _, _, _) => c.flags == flags,
        StepView::Unimplemented(_, _) => true,
    }
}

/// Whether a step that reports an operation as not implemented reports it
/// for the package manager named `pm`.
pub open spec fn reports_pm(s: StepView, pm: Seq<char>) -> bool {
    match s {
        StepView::Unimplemented(_, name) => name == pm,
        _ => true,
    }
}

/// Whether the method is one of those that clean the cache.
pub open spec fn is_cache_cleaning(m: Method) -> bool {
    m == Method::Sc || m == Method::Scc || m == Method::Sccc
}

/// Whether a step that runs a command cleans no cache afterwards.
pub open spec fn cleans_no_cache(s: StepView) -> bool {
    match s {
        StepView::Run(_, _, strat) => !(strat.no_cache is Sc || strat.no_cache is Scc || strat.no_cache is Sccc),
        _ => true,
    }
}

/// The mode of the commands that follow the `quiet` setting: silent when
/// quiet, otherwise showing the command and its errors.
pub open spec fn spec_default_mode(quiet: bool) -> PmMode {
    if quiet {
        PmMode::Mute
    } else {
        PmMode::CheckErr
    }
}

/// The mode of the commands that follow the `quiet` setting.
pub fn default_mode(quiet: bool) -> (res: PmMode)
    ensures
        res == spec_default_mode(quiet),
{
    if quiet {
        PmMode::Mute
    } else {
        PmMode::CheckErr
    }
}

/// The words `first` then `rest`.
pub open spec fn words_after(first: Seq<char>, rest: Seq<&str>) -> Seq<Seq<char>> {
    seq![first] + str_views(rest)
}

impl Cmd {
    /// Makes a new [`Cmd`] whose command part is `first` followed by `rest`.
    pub fn prefixed(first: &str, rest: &[&str]) -> (res: Self)
        ensures
            res@ == cmd_of(words_after(first@, rest@), false, Seq::empty(), Seq::empty()),
    {
        let mut words: Vec<String> = Vec::new();
        let f = String::from_str(first);
        let ghost w0 = words@;
        words.push(f);
        proof {
            crate::strings::lemma_views_push(w0, f);
            assert(views(w0) =~= Seq::<Seq<char>>::empty());
            assert(views(words@) =~= seq![first@]);
        }
        let more = to_strings(rest);
        crate::strings::extend_strings(&mut words, &more);
        let res = Cmd::from_words(words);
        res
    }
}

impl Step {
    /// Runs the command in the default mode with the default strategy.
    pub fn run(cmd: Cmd) -> (res: Step)
        ensures
            res@ == run(cmd@),
    {
        Step::Run { cmd, mode: PmMode::CheckErr, strat: Strategy::default() }
    }

    /// Runs the command in the given mode with the given strategy.
    pub fn run_with(cmd: Cmd, mode: PmMode, strat: Strategy) -> (res: Step)
        ensures
            res@ == run_with(cmd@, mode, strat@),
    {
        Step::Run { cmd, mode, strat }
    }

    /// Searches the output of the command for the lines that match all the
    /// patterns, after `header_lines` lines of header; the command is
    /// announced unless on a dry run.
    pub fn search(cmd: Cmd, patterns: &[&str], header_lines: usize, cfg: &Config) -> (res: Step)
        ensures
            res@ == search(cmd@, str_views(patterns@), header_lines as nat, *cfg),
    {
        Step::Search { cmd, patterns: to_strings(patterns), header_lines, announce: !cfg.dry_run }
    }

    /// Searches the output of the command for the lines that match all the
    /// patterns, after `header_lines` lines of header, without announcing
    /// the command.
    pub fn search_unannounced(cmd: Cmd, patterns: &[&str], header_lines: usize) -> (res: Step)
        ensures
            res@ == search_unannounced(cmd@, str_views(patterns@), header_lines as nat),
    {
        Step::Search { cmd, patterns: to_strings(patterns), header_lines, announce: false }
    }

    /// Reports that method `m` is not implemented by the package manager
    /// named `pm`.
    pub fn unimplemented(m: Method, pm: &str) -> (res: Step)
        ensures
            res@ == unimplemented(m, pm@),
    {
        Step::Unimplemented { op: String::from_str(m.name()), pm: String::from_str(pm) }
    }
}

/// The list made of one step.
pub fn one(s: Step) -> (res: Vec<Step>)
    ensures
        steps_view(res@) == seq![s@],
{
    let mut res: Vec<Step> = Vec::new();
    res.push(s);
    assert(steps_view(res@) =~= seq![s@]);
    res
}

/// The list made of two steps.
pub fn two(a: Step, b: Step) -> (res: Vec<Step>)
    ensures
        steps_view(res@) == seq![a@, b@],
{
    let mut res: Vec<Step> = Vec::new();
    res.push(a);
    res.push(b);
    assert(steps_view(res@) =~= seq![a@, b@]);
    res
}

/// The steps of `a` followed by those of `b`.
pub fn then(a: Vec<Step>, b: Vec<Step>) -> (res: Vec<Step>)
    ensures
        steps_view(res@) == steps_view(a@) + steps_view(b@),
{
    let mut res = a;
    let mut rest = b;
    let ghost (a0, b0) = (res@, rest@);
    res.append(&mut rest);
    assert(steps_view(res@) =~= steps_view(a0) + steps_view(b0));
    res
}

} // verus!
