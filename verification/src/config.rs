//! Configurations that may vary when running the package manager.

use vstd::prelude::*;

verus! {

/// Configurations that may vary when running the package manager.
#[derive(Debug)]
pub struct Config {
    /// Perform a dry run.
    pub dry_run: bool,
    /// Prevent reinstalling previously installed packages.
    pub needed: bool,
    /// Answer yes to every question.
    pub no_confirm: bool,
    /// Remove cache after installation.
    pub no_cache: bool,
    /// Suppress log output.
    pub quiet: Option<bool>,
    /// The default package manager to be invoked.
    pub default_pm: Option<String>,
}

/// The `default_pm` field seen through the view of its string.
pub open spec fn opt_str_view(o: Option<String>) -> Option<Seq<char>> {
    match o {
        Some(s) => Some(s@),
        None => None,
    }
}

impl Clone for Config {
    fn clone(&self) -> (res: Self)
        ensures
            res.dry_run == self.dry_run,
            res.needed == self.needed,
            res.no_confirm == self.no_confirm,
            res.no_cache == self.no_cache,
            res.quiet == self.quiet,
            opt_str_view(res.default_pm) == opt_str_view(self.default_pm),
    {
        Config {
            dry_run: self.dry_run,
            needed: self.needed,
            no_confirm: self.no_confirm,
            no_cache: self.no_cache,
            quiet: self.quiet,
            default_pm: match &self.default_pm {
                Some(s) => Some(s.clone()),
                None => None,
            },
        }
    }
}

/// Whether the configuration is the default one: every flag unset, and
/// neither `quiet` nor a package manager given.
pub open spec fn is_default(c: Config) -> bool {
    !c.dry_run && !c.needed && !c.no_confirm && !c.no_cache && c.quiet is None && c.default_pm is None
}

impl Default for Config {
    /// Every flag unset, and neither `quiet` nor a package manager given.
    fn default() -> (res: Self)
        ensures
            is_default(res),
    {
        Config {
            dry_run: false,
            needed: false,
            no_confirm: false,
            no_cache: false,
            quiet: None,
            default_pm: None,
        }
    }
}

/// Reports whether the standard output of this process is a terminal.
///
/// Calls `console::Term::is_term` on `console::Term::stdout()`. The answer
/// depends on how the process was started, so nothing is stated of it.
#[verifier::external_body]
fn stdout_is_term() -> bool {
    console::Term::stdout().is_term()
}

/// The value of the `quiet` flag: the one given, otherwise whether the
/// standard output is **not** a terminal.
pub open spec fn spec_quiet(quiet: Option<bool>, stdout_is_term: bool) -> bool {
    match quiet {
        Some(q) => q,
        None => !stdout_is_term,
    }
}

impl Config {
    /// Returns the value of the `quiet` flag if it is present, otherwise
    /// whether the standard output, as reported by `stdout_is_term`, is
    /// **not** a terminal.
    pub fn quiet_given(&self, stdout_is_term: bool) -> (res: bool)
        ensures
            res == spec_quiet(self.quiet, stdout_is_term),
    {
        match self.quiet {
            Some(q) => q,
            None => !stdout_is_term,
        }
    }

    /// Returns the value of the `quiet` flag if it is present, otherwise
    /// whether the current standard output is **not** a terminal.
    pub fn quiet(&self) -> (res: bool)
        ensures
            exists|is_term: bool| res == spec_quiet(self.quiet, is_term),
    {
        let is_term = stdout_is_term();
        let res = self.quiet_given(is_term);
        assert(res == spec_quiet(self.quiet, is_term));
        res
    }

    /// Performs a left-biased join of two `Config`s: every flag is set if it
    /// is set on either side, and each optional item is taken from `self`
    /// when present there, otherwise from `other`.
    pub fn join(&self, other: Self) -> (res: Self)
        ensures
            res.dry_run == (self.dry_run || other.dry_run),
            res.needed == (self.needed || other.needed),
            res.no_confirm == (self.no_confirm || other.no_confirm),
            res.no_cache == (self.no_cache || other.no_cache),
            res.quiet == (if self.quiet is Some { self.quiet } else { other.quiet }),
            opt_str_view(res.default_pm) == (if self.default_pm is Some {
                opt_str_view(self.default_pm)
            } else {
                opt_str_view(other.default_pm)
            }),
    {
        let default_pm = match &self.default_pm {
            Some(s) => Some(s.clone()),
            None => other.default_pm,
        };
        Config {
            dry_run: self.dry_run || other.dry_run,
            needed: self.needed || other.needed,
            no_confirm: self.no_confirm || other.no_confirm,
            no_cache: self.no_cache || other.no_cache,
            quiet: match self.quiet {
                Some(q) => Some(q),
                None => other.quiet,
            },
            default_pm,
        }
    }
}

/// The parts of the path of the configuration file: the file named by
/// `$PACAPTR_CONFIG` when it is set (`custom`); otherwise
/// `pacaptr/pacaptr.toml` under `$XDG_CONFIG_HOME` when that is set to an
/// absolute path (`xdg`, with `xdg_absolute` telling whether it is
/// absolute), else under `.config` in the home directory (`home`); and none
/// when neither is known.
pub open spec fn spec_config_file_parts(
    custom: Option<Seq<char>>,
    xdg: Option<Seq<char>>,
    xdg_absolute: bool,
    home: Option<Seq<char>>,
) -> Option<Seq<Seq<char>>> {
    match custom {
        Some(c) => Some(seq![c]),
        None => match xdg {
            Some(x) if xdg_absolute => Some(seq![x, "pacaptr"@, "pacaptr.toml"@]),
            _ => match home {
                Some(h) => Some(seq![h, ".config"@, "pacaptr"@, "pacaptr.toml"@]),
                None => None,
            },
        },
    }
}

/// The parts of the path of the configuration file, to be joined in order,
/// given the values that the environment and the platform give; see
/// [`spec_config_file_parts`].
pub fn config_file_parts(
    custom: Option<String>,
    xdg: Option<String>,
    xdg_absolute: bool,
    home: Option<String>,
) -> (res: Option<Vec<String>>)
    ensures
        (match res {
            Some(v) => Some(crate::strings::views(v@)),
            None => None::<Seq<Seq<char>>>,
        }) == spec_config_file_parts(opt_str_view(custom), opt_str_view(xdg), xdg_absolute, opt_str_view(home)),
{
    let base_and_config: Option<(String, bool)> = match custom {
        Some(c) => {
            let mut v: Vec<String> = Vec::new();
            v.push(c);
            proof {
                assert(crate::strings::views(v@) =~= seq![v@[0]@]);
            }
            return Some(v);
        },
        None => match xdg {
            Some(x) if xdg_absolute => Some((x, false)),
            _ => match home {
                Some(h) => Some((h, true)),
                None => None,
            },
        },
    };
    match base_and_config {
        Some((base, dot_config)) => {
            let mut v: Vec<String> = Vec::new();
            v.push(base);
            if dot_config {
                v.push(String::from_str(".config"));
            }
            v.push(String::from_str("pacaptr"));
            v.push(String::from_str("pacaptr.toml"));
            proof {
                if dot_config {
                    assert(crate::strings::views(v@) =~= seq![v@[0]@, ".config"@, "pacaptr"@, "pacaptr.toml"@]);
                } else {
                    assert(crate::strings::views(v@) =~= seq![v@[0]@, "pacaptr"@, "pacaptr.toml"@]);
                }
            }
            Some(v)
        },
        None => None,
    }
}

} // verus!
