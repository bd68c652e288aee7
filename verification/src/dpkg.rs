//! The Debian package tools (`dpkg`, `apt-get`, `apt-cache`), driven
//! directly: every command runs as it is, or is only shown on a dry run.

use vstd::prelude::*;

use crate::exec::{Cmd, CmdView, Mode};
use crate::pm::step::{cmd_of, words_after};
use crate::pm::Method;
use crate::strings::str_views;

verus! {

/// The Debian package tools, with the two settings they depend on.
pub struct Dpkg {
    /// Only show the commands.
    pub dry_run: bool,
    /// Answer yes to every question.
    pub no_confirm: bool,
}

/// A command together with the mode in which it runs.
pub struct Invocation {
    pub cmd: Cmd,
    pub mode: Mode,
}

/// The contents of a list of invocations.
pub open spec fn invocations_view(v: Seq<Invocation>) -> Seq<(CmdView, Mode)> {
    v.map_values(|x: Invocation| (x.cmd@, x.mode))
}

/// The mode of every command: shown only on a dry run, otherwise run with
/// its errors shown.
pub open spec fn spec_mode(dry_run: bool) -> Mode {
    if dry_run {
        Mode::PrintCmd
    } else {
        Mode::CheckErr
    }
}

/// Running `cmd subcmd kws`.
pub open spec fn spec_just_run(d: Dpkg, cmd: Seq<char>, subcmd: Seq<Seq<char>>, kws: Seq<Seq<char>>) -> (CmdView, Mode) {
    (cmd_of(seq![cmd] + subcmd, false, kws, Seq::empty()), spec_mode(d.dry_run))
}

/// Running `cmd subcmd kws`, with `--yes` after `subcmd` when every
/// question is to be answered yes.
pub open spec fn spec_check_no_confirm(d: Dpkg, cmd: Seq<char>, subcmd: Seq<Seq<char>>, kws: Seq<Seq<char>>) -> (CmdView, Mode) {
    spec_just_run(d, cmd, if d.no_confirm { subcmd.push("--yes"@) } else { subcmd }, kws)
}

/// Installs the packages named.
pub open spec fn spec_s(d: Dpkg, kws: Seq<Seq<char>>) -> (CmdView, Mode) {
    spec_check_no_confirm(d, "apt-get"@, str_views(seq!["install"]), kws)
}

/// Upgrades everything (`upgrade`, then `dist-upgrade`), or installs the
/// packages named.
pub open spec fn spec_su(d: Dpkg, kws: Seq<Seq<char>>) -> Seq<(CmdView, Mode)> {
    if kws.len() == 0 {
        seq![
            spec_check_no_confirm(d, "apt-get"@, str_views(seq!["upgrade"]), Seq::empty()),
            spec_check_no_confirm(d, "apt-get"@, str_views(seq!["dist-upgrade"]), Seq::empty()),
        ]
    } else {
        seq![spec_s(d, kws)]
    }
}

/// Refreshes the package database.
pub open spec fn spec_sy(d: Dpkg) -> (CmdView, Mode) {
    spec_just_run(d, "apt-get"@, str_views(seq!["update"]), Seq::empty())
}

/// The commands of each `pacman` method, or `None` for the methods that are
/// not implemented.
pub open spec fn spec_plan(d: Dpkg, m: Method, kws: Seq<Seq<char>>) -> Option<Seq<(CmdView, Mode)>> {
    match m {
        Method::Q => Some(seq![spec_just_run(d, "dpkg"@, str_views(seq!["-l"]), kws)]),
        Method::Qi => Some(seq![spec_just_run(d, "dpkg-query"@, str_views(seq!["-s"]), kws)]),
        Method::Qo => Some(seq![spec_just_run(d, "dpkg-query"@, str_views(seq!["-S"]), kws)]),
        Method::Qp => Some(seq![spec_just_run(d, "dpkg-deb"@, str_views(seq!["-I"]), kws)]),
        Method::Qu => Some(seq![spec_just_run(d, "apt-get"@, str_views(seq!["upgrade", "--trivial-only"]), kws)]),
        Method::R => Some(seq![spec_check_no_confirm(d, "apt-get"@, str_views(seq!["remove"]), kws)]),
        Method::Rn => Some(seq![spec_check_no_confirm(d, "apt-get"@, str_views(seq!["purge"]), kws)]),
        Method::Rns => Some(seq![spec_check_no_confirm(d, "apt-get"@, str_views(seq!["autoremove", "--purge"]), kws)]),
        Method::Rs => Some(seq![spec_check_no_confirm(d, "apt-get"@, str_views(seq!["autoremove"]), kws)]),
        Method::S => Some(seq![spec_s(d, kws)]),
        Method::Sc => Some(seq![spec_check_no_confirm(d, "apt-get"@, str_views(seq!["clean"]), kws)]),
        Method::Scc => Some(seq![spec_check_no_confirm(d, "apt-get"@, str_views(seq!["autoclean"]), kws)]),
        Method::Si => Some(seq![spec_just_run(d, "apt-cache"@, str_views(seq!["show"]), kws)]),
        Method::Sii => Some(seq![spec_just_run(d, "apt-cache"@, str_views(seq!["rdepends"]), kws)]),
        Method::Ss => Some(seq![spec_just_run(d, "apt-cache"@, str_views(seq!["search"]), kws)]),
        Method::Su => Some(spec_su(d, kws)),
        Method::Suy => Some(seq![spec_sy(d)] + spec_su(d, kws)),
        Method::Sw => Some(seq![spec_check_no_confirm(d, "apt-get"@, str_views(seq!["install", "--download-only"]), kws)]),
        Method::Sy => Some(seq![spec_sy(d)]),
        _ => None,
    }
}

/// `-R` is one `apt-get remove` on the keywords (with `--yes` when every
/// question is answered yes), shown only on a dry run; `-Rs`, which also
/// removes the dependencies no longer needed, is another command.
pub proof fn dpkg_remove_is_apt_get_remove(d: Dpkg, kws: Seq<Seq<char>>)
    ensures
        spec_plan(d, Method::R, kws) == Some(seq![(
            CmdView {
                sudo: false,
                cmd: seq!["apt-get"@, "remove"@] + (if d.no_confirm { seq!["--yes"@] } else { Seq::empty() }),
                flags: Seq::empty(),
                kws,
            },
            if d.dry_run { Mode::PrintCmd } else { Mode::CheckErr },
        )]),
        spec_plan(d, Method::R, kws) != spec_plan(d, Method::Rs, kws),
{
    reveal_strlit("remove");
    reveal_strlit("autoremove");
    assert(str_views(seq!["remove"]) =~= seq!["remove"@]);
    assert(str_views(seq!["autoremove"]) =~= seq!["autoremove"@]);
    let words = seq!["apt-get"@, "remove"@] + (if d.no_confirm { seq!["--yes"@] } else { Seq::<Seq<char>>::empty() });
    let sub = if d.no_confirm { seq!["remove"@].push("--yes"@) } else { seq!["remove"@] };
    assert(seq!["apt-get"@] + sub =~= words);
    let sub_rs = if d.no_confirm { seq!["autoremove"@].push("--yes"@) } else { seq!["autoremove"@] };
    let rs = spec_plan(d, Method::Rs, kws).unwrap();
    assert(rs[0].0.cmd == seq!["apt-get"@] + sub_rs);
    assert(rs[0].0.cmd[1] == "autoremove"@);
    assert(words[1] == "remove"@);
    assert("remove"@.len() != "autoremove"@.len());
}

/// `-S` is one `apt-get install` on the keywords (with `--yes` when every
/// question is answered yes), and `-Sy` one `apt-get update`, which asks
/// nothing; each is shown only on a dry run.
pub proof fn dpkg_install_is_apt_get_install(d: Dpkg, kws: Seq<Seq<char>>)
    ensures
        spec_plan(d, Method::S, kws) == Some(seq![(
            CmdView {
                sudo: false,
                cmd: seq!["apt-get"@, "install"@] + (if d.no_confirm { seq!["--yes"@] } else { Seq::empty() }),
                flags: Seq::empty(),
                kws,
            },
            if d.dry_run { Mode::PrintCmd } else { Mode::CheckErr },
        )]),
        spec_plan(d, Method::Sy, kws) == Some(seq![(
            CmdView { sudo: false, cmd: seq!["apt-get"@, "update"@], flags: Seq::empty(), kws: Seq::empty() },
            if d.dry_run { Mode::PrintCmd } else { Mode::CheckErr },
        )]),
{
    assert(str_views(seq!["install"]) =~= seq!["install"@]);
    assert(str_views(seq!["update"]) =~= seq!["update"@]);
    let words = seq!["apt-get"@, "install"@] + (if d.no_confirm { seq!["--yes"@] } else { Seq::<Seq<char>>::empty() });
    let sub = if d.no_confirm { seq!["install"@].push("--yes"@) } else { seq!["install"@] };
    assert(seq!["apt-get"@] + sub =~= words);
    assert(seq!["apt-get"@] + seq!["update"@] =~= seq!["apt-get"@, "update"@]);
}

impl Dpkg {
    /// Runs `cmd subcmd kws`: shown only on a dry run, otherwise run with
    /// its errors shown.
    pub fn just_run(&self, cmd: &str, subcmd: &[&str], kws: &[&str]) -> (res: Invocation)
        ensures
            (res.cmd@, res.mode) =~~= spec_just_run(*self, cmd@, str_views(subcmd@), str_views(kws@)),
    {
        let c = Cmd::prefixed(cmd, subcmd).kws(kws);
        let mode = if self.dry_run { Mode::PrintCmd } else { Mode::CheckErr };
        proof {
            assert(words_after(cmd@, subcmd@) =~= seq![cmd@] + str_views(subcmd@));
        }
        Invocation { cmd: c, mode }
    }

    /// Runs `cmd subcmd kws`, passing `--yes` after `subcmd` when every
    /// question is to be answered yes.
    pub fn check_no_confirm(&self, cmd: &str, subcmd: &[&str], kws: &[&str]) -> (res: Invocation)
        ensures
            (res.cmd@, res.mode) =~~= spec_check_no_confirm(*self, cmd@, str_views(subcmd@), str_views(kws@)),
    {
        let mut words: Vec<&str> = Vec::new();
        let mut i: usize = 0;
        while i < subcmd.len()
            invariant
                i <= subcmd@.len(),
                words@ =~= subcmd@.take(i as int),
            decreases subcmd@.len() - i,
        {
            words.push(subcmd[i]);
            assert(subcmd@.take(i + 1) =~= subcmd@.take(i as int).push(subcmd@[i as int]));
            i = i + 1;
        }
        assert(subcmd@.take(subcmd@.len() as int) =~= subcmd@);
        if self.no_confirm {
            words.push("--yes");
            assert(str_views(words@) =~= str_views(subcmd@).push("--yes"@));
        }
        self.just_run(cmd, words.as_slice(), kws)
    }

    fn s(&self, kws: &[&str]) -> (res: Invocation)
        ensures
            (res.cmd@, res.mode) =~~= spec_s(*self, str_views(kws@)),
    {
        self.check_no_confirm("apt-get", &["install"], kws)
    }

    fn su(&self, kws: &[&str]) -> (res: Vec<Invocation>)
        ensures
            invocations_view(res@) =~~= spec_su(*self, str_views(kws@)),
    {
        let mut res: Vec<Invocation> = Vec::new();
        if kws.len() == 0 {
            let none: &[&str] = &[];
            assert(str_views(none@) =~= Seq::<Seq<char>>::empty());
            res.push(self.check_no_confirm("apt-get", &["upgrade"], none));
            res.push(self.check_no_confirm("apt-get", &["dist-upgrade"], none));
        } else {
            res.push(self.s(kws));
        }
        res
    }

    fn sy(&self) -> (res: Invocation)
        ensures
            (res.cmd@, res.mode) =~~= spec_sy(*self),
    {
        let none: &[&str] = &[];
        assert(str_views(none@) =~= Seq::<Seq<char>>::empty());
        self.just_run("apt-get", &["update"], none)
    }

    /// The commands of the `pacman` method `m` with the keywords given, or
    /// `None` when the method is not implemented.
    pub fn plan(&self, m: Method, kws: &[&str]) -> (res: Option<Vec<Invocation>>)
        ensures
            res is None == spec_plan(*self, m, str_views(kws@)) is None,
            res matches Some(v) ==> invocations_view(v@) =~~= spec_plan(*self, m, str_views(kws@))->0,
    {
        let single = match m {
            Method::Q => self.just_run("dpkg", &["-l"], kws),
            Method::Qi => self.just_run("dpkg-query", &["-s"], kws),
            Method::Qo => self.just_run("dpkg-query", &["-S"], kws),
            Method::Qp => self.just_run("dpkg-deb", &["-I"], kws),
            Method::Qu => self.just_run("apt-get", &["upgrade", "--trivial-only"], kws),
            Method::R => self.check_no_confirm("apt-get", &["remove"], kws),
            Method::Rn => self.check_no_confirm("apt-get", &["purge"], kws),
            Method::Rns => self.check_no_confirm("apt-get", &["autoremove", "--purge"], kws),
            Method::Rs => self.check_no_confirm("apt-get", &["autoremove"], kws),
            Method::S => self.s(kws),
            Method::Sc => self.check_no_confirm("apt-get", &["clean"], kws),
            Method::Scc => self.check_no_confirm("apt-get", &["autoclean"], kws),
            Method::Si => self.just_run("apt-cache", &["show"], kws),
            Method::Sii => self.just_run("apt-cache", &["rdepends"], kws),
            Method::Ss => self.just_run("apt-cache", &["search"], kws),
            Method::Sw => self.check_no_confirm("apt-get", &["install", "--download-only"], kws),
            Method::Sy => self.sy(),
            Method::Su => return Some(self.su(kws)),
            Method::Suy => {
                let mut res: Vec<Invocation> = Vec::new();
                res.push(self.sy());
                let mut rest = self.su(kws);
                let ghost (a0, b0) = (res@, rest@);
                res.append(&mut rest);
                assert(invocations_view(res@) =~= invocations_view(a0) + invocations_view(b0));
                return Some(res);
            },
            _ => return None,
        };
        let mut res: Vec<Invocation> = Vec::new();
        res.push(single);
        Some(res)
    }
}

} // verus!
