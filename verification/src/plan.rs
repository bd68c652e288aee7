//! What a command line asks for, from the flags to the steps to run.

use vstd::prelude::*;

use crate::config::Config;
use crate::dispatch::{invalid_combination_msg, lower_seq, method_named, spec_options, spec_print_only, Pacaptr};
use crate::error::{Error, Result};
use crate::pm::step::{Step, steps_view};
use crate::pm::table::spec_pm_steps;
use crate::config::opt_str_view;
use crate::select::{carried_config, exe_check_gave, is_macos, names_or_detects, select_pm, spec_pm_kind, Os, Platform, PmKind};
use crate::strings::{as_strs, str_views, views};
use crate::exec::Output;
use crate::pm::RunPlan;

verus! {

impl Pacaptr {
    /// Resolves the command line against the configuration merged so far:
    /// the package manager it selects (the one named, or the one detected on
    /// the platform), the configuration that package manager carries (with a
    /// dry run when the operation's `p` flag asks for it; the default one
    /// for an unknown package manager), and the steps of the method named by
    /// the flags, with the keywords and the extra flags given; or an
    /// [`Error::ArgParseError`] when the flags name no method.
    ///
    /// `quiet` tells whether the output is to be quiet, as
    /// [`Config::quiet`] reports it.
    pub fn plan(&self, cfg: Config, platform: Platform, quiet: bool) -> (res: (Config, PmKind, Result<Vec<Step>>))
        ensures
            exists|name: Seq<char>, pwsh: bool|
                #![trigger names_or_detects(opt_str_view(cfg.default_pm), platform, name), spec_pm_kind(name, is_macos(platform.os), pwsh)]
                names_or_detects(opt_str_view(cfg.default_pm), platform, name)
                && (name == "scoop"@ ==> exe_check_gave("pwsh", "", pwsh))
                && res.1@ == spec_pm_kind(name, is_macos(platform.os), pwsh)
                && carried_config(res.0, Config { dry_run: cfg.dry_run || spec_print_only(self.ops), ..cfg }, res.1@, name),
            method_named(lower_seq(spec_options(self.ops))) matches Some(m) ==> (res.2 matches Ok(steps)
                && steps_view(steps@) =~~= spec_pm_steps(res.1@, m, views(self.keywords@), views(self.extra_flags@), res.0, quiet, is_macos(platform.os))),
            method_named(lower_seq(spec_options(self.ops))) is None ==> (res.2 matches Err(Error::ArgParseError { msg })
                && msg@ == invalid_combination_msg(spec_options(self.ops))),
    {
        let (cfg, method) = self.dispatch_from(cfg);
        let (cfg, kind) = select_pm(cfg, platform);
        let macos = match platform.os {
            Os::MacOs => true,
            _ => false,
        };
        let steps = match method {
            Ok(m) => {
                let kws = as_strs(&self.keywords);
                let flags = as_strs(&self.extra_flags);
                Ok(kind.steps(m, kws.as_slice(), flags.as_slice(), &cfg, quiet, macos))
            },
            Err(e) => Err(e),
        };
        (cfg, kind, steps)
    }
}

/// What comes after the main command of a run has finished.
pub enum AfterRun {
    /// The run is over, with this result.
    Finished(Result<Output>),
    /// The cache cleaning steps are to run next; when they succeed, the
    /// run gives `output`, the output of the main command.
    CleanUp { steps: Vec<Step>, output: Output },
}

/// Decides what comes after the main command of a run, given how it went:
/// a failure ends the run with that failure, and nothing else runs; a
/// success ends it with the output, unless the plan calls for cache
/// cleaning, whose steps then follow, without keywords and with the
/// cleanup flags of the plan.
pub fn after_run(
    plan: &RunPlan,
    main: Result<Output>,
    kind: &PmKind,
    cfg: &Config,
    quiet: bool,
    macos: bool,
) -> (res: AfterRun)
    ensures
        main is Err ==> (res matches AfterRun::Finished(Err(e)) && e == main->Err_0),
        (main is Ok && plan.cleanup is None) ==> (res matches AfterRun::Finished(Ok(o)) && o@ == main->Ok_0@),
        main is Ok ==> (plan.cleanup matches Some(m) ==> (res matches AfterRun::CleanUp { steps, output }
            && output@ == main->Ok_0@
            && steps_view(steps@) =~~= spec_pm_steps(kind@, m, Seq::empty(), views(plan.cleanup_flags@), *cfg, quiet, macos))),
{
    match main {
        Err(e) => AfterRun::Finished(Err(e)),
        Ok(output) => match plan.cleanup {
            None => AfterRun::Finished(Ok(output)),
            Some(m) => {
                let flags = as_strs(&plan.cleanup_flags);
                let none: &[&str] = &[];
                assert(str_views(none@) =~= Seq::<Seq<char>>::empty());
                let steps = kind.steps(m, none, flags.as_slice(), cfg, quiet, macos);
                AfterRun::CleanUp { steps, output }
            },
        },
    }
}

/// The result of a run once its cache cleaning steps have finished: the
/// output of the main command when they succeeded, otherwise their error.
pub fn after_cleanup(output: Output, cleanup: Result<()>) -> (res: Result<Output>)
    ensures
        cleanup is Ok ==> (res matches Ok(o) && o@ == output@),
        cleanup is Err ==> (res matches Err(e) && e == cleanup->Err_0),
{
    match cleanup {
        Ok(()) => Ok(output),
        Err(e) => Err(e),
    }
}

} // verus!
