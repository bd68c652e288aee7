use pacaptr::config::Config;
use pacaptr::dispatch::{Operations, Pacaptr};
use pacaptr::error::Error;
use pacaptr::exec::{Cmd, Mode};
use pacaptr::pm::step::Step;
use pacaptr::pm::{DryRunStrategy, Method, NoCacheStrategy, PmMode, PromptStrategy, Strategy};
use pacaptr::select::{Os, Platform, PmKind};

fn words(c: &Cmd) -> Vec<&str> {
    c.cmd.iter().map(|s| s.as_str()).collect()
}

fn strs(v: &[String]) -> Vec<&str> {
    v.iter().map(|s| s.as_str()).collect()
}

/// The command, mode and strategy of a step that runs a command.
fn run_of(s: &Step) -> (&Cmd, PmMode, &Strategy) {
    match s {
        Step::Run { cmd, mode, strat } => (cmd, *mode, strat),
        other => panic!("not a run step: {other:?}"),
    }
}

fn apt(cmd: &str) -> PmKind {
    PmKind::Apt { cmd: cmd.to_string() }
}

#[test]
fn apt_install_reinstalls_unless_needed() {
    let steps = apt("apt").steps(Method::S, &["curl"], &["-q"], &Config::default(), false, false);
    assert_eq!(steps.len(), 1);
    let (cmd, mode, strat) = run_of(&steps[0]);
    assert_eq!(words(cmd), ["apt", "install", "--reinstall"]);
    assert!(cmd.sudo);
    assert_eq!(strs(&cmd.kws), ["curl"]);
    assert_eq!(strs(&cmd.flags), ["-q"]);
    assert_eq!(mode, PmMode::CheckErr);
    assert!(matches!(&strat.prompt, PromptStrategy::NativeNoConfirm(v) if v == &["--yes"]));
    assert!(matches!(strat.no_cache, NoCacheStrategy::Scc));
    assert!(matches!(strat.dry_run, DryRunStrategy::PrintCmd));

    let needed = Config { needed: true, ..Config::default() };
    let steps = apt("pkg").steps(Method::S, &["curl"], &[], &needed, true, false);
    let (cmd, mode, _) = run_of(&steps[0]);
    assert_eq!(words(cmd), ["pkg", "install"]);
    assert_eq!(mode, PmMode::Mute);
}

#[test]
fn apt_suy_refreshes_then_upgrades_everything() {
    let steps = apt("apt").steps(Method::Suy, &[], &[], &Config::default(), false, false);
    assert_eq!(steps.len(), 3);
    assert_eq!(words(run_of(&steps[0]).0), ["apt", "update"]);
    assert_eq!(words(run_of(&steps[1]).0), ["apt", "upgrade"]);
    assert_eq!(words(run_of(&steps[2]).0), ["apt", "dist-upgrade"]);
    assert!(matches!(run_of(&steps[2]).2.no_cache, NoCacheStrategy::Scc));

    // With keywords, the refresh installs nothing and the upgrade installs them.
    let steps = apt("apt").steps(Method::Suy, &["curl"], &[], &Config::default(), false, false);
    assert_eq!(steps.len(), 2);
    assert!(run_of(&steps[0]).0.kws.is_empty());
    assert_eq!(words(run_of(&steps[1]).0), ["apt", "install", "--reinstall"]);
    assert_eq!(strs(&run_of(&steps[1]).0.kws), ["curl"]);
}

#[test]
fn apt_qs_searches_with_a_header() {
    let cfg = Config::default();
    let steps = apt("apt").steps(Method::Qs, &["^curl"], &[], &cfg, false, false);
    match &steps[0] {
        Step::Search { cmd, patterns, header_lines, announce } => {
            assert_eq!(words(cmd), ["dpkg-query", "-l"]);
            assert!(cmd.kws.is_empty());
            assert_eq!(strs(patterns), ["^curl"]);
            assert_eq!(*header_lines, 4);
            assert!(*announce);
        },
        other => panic!("unexpected {other:?}"),
    }
    let dry = Config { dry_run: true, ..Config::default() };
    let steps = apt("apt").steps(Method::Qs, &["curl"], &[], &dry, false, false);
    assert!(matches!(&steps[0], Step::Search { announce: false, .. }));
}

#[test]
fn unimplemented_methods_are_reported() {
    let steps = apt("apt").steps(Method::Qk, &[], &[], &Config::default(), false, false);
    assert!(matches!(&steps[0], Step::Unimplemented { op, pm } if op == "qk" && pm == "apt"));
    let unknown = PmKind::Unknown { name: "foo".to_string() };
    assert_eq!(unknown.name(), "unknown package manager: foo");
    let steps = unknown.steps(Method::S, &["curl"], &[], &Config::default(), false, false);
    assert_eq!(steps.len(), 1);
    assert!(matches!(&steps[0], Step::Unimplemented { op, pm } if op == "s" && pm == "unknown package manager: foo"));
}

#[test]
fn pip_cannot_upgrade_everything() {
    let pip = PmKind::Pip { cmd: "pip3".to_string() };
    let steps = pip.steps(Method::Su, &[], &[], &Config::default(), false, false);
    assert!(matches!(&steps[0], Step::Unimplemented { op, pm } if op == "su" && pm == "pip"));
    let steps = pip.steps(Method::Su, &["requests"], &[], &Config::default(), false, false);
    assert_eq!(words(run_of(&steps[0]).0), ["pip3", "install", "--upgrade"]);
}

#[test]
fn brew_searches_casks_on_macos_only() {
    let linux = PmKind::Brew.steps(Method::Qs, &["git"], &[], &Config::default(), false, false);
    assert_eq!(linux.len(), 1);
    let macos = PmKind::Brew.steps(Method::Qs, &["git"], &[], &Config::default(), false, true);
    assert_eq!(macos.len(), 2);
    match &macos[1] {
        Step::Search { cmd, .. } => assert_eq!(words(cmd), ["brew", "list", "--cask"]),
        other => panic!("unexpected {other:?}"),
    }
    // Removing with its dependencies autoremoves afterwards, with the same flags.
    let rs = PmKind::Brew.steps(Method::Rs, &["git"], &["-v"], &Config::default(), false, false);
    assert_eq!(rs.len(), 2);
    assert_eq!(words(run_of(&rs[1]).0), ["brew", "autoremove"]);
    assert_eq!(strs(&run_of(&rs[1]).0.flags), ["-v"]);
    assert!(matches!(&run_of(&rs[1]).2.prompt, PromptStrategy::CustomPrompt));
}

#[test]
fn conda_searches_each_keyword_with_wildcards() {
    let steps = PmKind::Conda.steps(Method::Ss, &["numpy", "scipy"], &["-c"], &Config::default(), false, false);
    assert_eq!(steps.len(), 2);
    assert_eq!(strs(&run_of(&steps[0]).0.kws), ["*numpy*"]);
    assert_eq!(strs(&run_of(&steps[1]).0.kws), ["*scipy*"]);
    assert_eq!(strs(&run_of(&steps[1]).0.flags), ["-c"]);
}

#[test]
fn emerge_looks_up_exact_names() {
    let steps = PmKind::Emerge.steps(Method::Si, &["vim", "git"], &[], &Config::default(), false, false);
    let (cmd, _, _) = run_of(&steps[0]);
    assert_eq!(words(cmd), ["emerge", "-s"]);
    assert_eq!(strs(&cmd.kws), ["^vim$", "^git$"]);
    let su = PmKind::Emerge.steps(Method::Su, &[], &[], &Config::default(), false, false);
    assert_eq!(strs(&run_of(&su[0]).0.kws), ["@world"]);
    assert!(matches!(&run_of(&su[0]).2.prompt, PromptStrategy::NativeConfirm(v) if v == &["--ask"]));
}

#[test]
fn pkcon_removes_each_package_on_its_own() {
    let steps = PmKind::Pkcon.steps(Method::R, &["a", "b", "c"], &[], &Config::default(), true, false);
    assert_eq!(steps.len(), 3);
    for (s, kw) in steps.iter().zip(["a", "b", "c"]) {
        let (cmd, mode, _) = run_of(s);
        assert_eq!(words(cmd), ["pkcon", "remove"]);
        assert_eq!(strs(&cmd.kws), [kw]);
        assert!(cmd.sudo);
        assert_eq!(mode, PmMode::Mute);
    }
}

#[test]
fn scoop_runs_through_powershell() {
    let scoop = PmKind::Scoop { shell: "pwsh".to_string() };
    let steps = scoop.steps(Method::Su, &[], &[], &Config::default(), false, false);
    let (cmd, _, _) = run_of(&steps[0]);
    assert_eq!(words(cmd), ["pwsh", "-Command", "scoop", "update"]);
    assert_eq!(strs(&cmd.kws), ["*"]);
}

#[test]
fn port_cleans_inactive_ports_without_flags() {
    let sc = PmKind::Port.steps(Method::Sc, &[], &[], &Config::default(), false, true);
    assert_eq!(words(run_of(&sc[0]).0), ["port", "clean", "--all", "inactive"]);
    let sc = PmKind::Port.steps(Method::Sc, &[], &["-v"], &Config::default(), false, true);
    assert_eq!(words(run_of(&sc[0]).0), ["port", "clean", "--all"]);
}

#[test]
fn zypper_upgrade_without_refresh_then_cache_cleaning_is_unsupported() {
    let no_cache = Config { no_cache: true, ..Config::default() };
    let steps = PmKind::Zypper.steps(Method::Su, &[], &[], &no_cache, false, false);
    assert_eq!(steps.len(), 2);
    assert!(matches!(&run_of(&steps[0]).2.dry_run, DryRunStrategy::WithFlags(v) if v == &["--dry-run"]));
    assert!(matches!(&steps[1], Step::Unimplemented { op, pm } if op == "sccc" && pm == "zypper"));
    let qm = PmKind::Zypper.steps(Method::Qm, &[], &[], &Config::default(), false, false);
    assert!(matches!(&qm[0], Step::Search { patterns, announce: false, header_lines: 0, .. } if patterns == &["System Packages"]));
}

#[test]
fn dnf_refresh_expires_the_cache_first() {
    let steps = PmKind::Dnf.steps(Method::Sy, &["vim"], &[], &Config::default(), false, false);
    assert_eq!(steps.len(), 3);
    assert_eq!(words(run_of(&steps[0]).0), ["dnf", "clean", "expire-cache"]);
    assert_eq!(words(run_of(&steps[1]).0), ["dnf", "check-update"]);
    assert_eq!(words(run_of(&steps[2]).0), ["dnf", "install"]);
    assert!(matches!(run_of(&steps[2]).2.no_cache, NoCacheStrategy::Sccc));
}

#[test]
fn apk_install_skips_the_cache_with_a_flag() {
    let steps = PmKind::Apk.steps(Method::S, &["curl"], &[], &Config::default(), false, false);
    let (cmd, _, strat) = run_of(&steps[0]);
    assert_eq!(words(cmd), ["apk", "add"]);
    assert!(matches!(&strat.no_cache, NoCacheStrategy::WithFlags(v) if v == &["--no-cache"]));
}

#[test]
fn choco_and_tlmgr_dry_runs_use_native_flags() {
    let q = PmKind::Choco.steps(Method::Q, &[], &[], &Config::default(), false, false);
    assert!(matches!(&run_of(&q[0]).2.dry_run, DryRunStrategy::WithFlags(v) if v == &["--what-if"]));
    let su = PmKind::Choco.steps(Method::Su, &[], &[], &Config::default(), false, false);
    assert_eq!(words(run_of(&su[0]).0), ["choco", "upgrade", "all"]);
    let u = PmKind::Tlmgr.steps(Method::U, &["a.tar.xz"], &[], &Config::default(), false, false);
    assert_eq!(words(run_of(&u[0]).0), ["tlmgr", "install", "--file"]);
    assert!(matches!(&run_of(&u[0]).2.dry_run, DryRunStrategy::WithFlags(v) if v == &["--dry-run"]));
}

#[test]
fn winget_upgrades_all_without_keywords() {
    let steps = PmKind::Winget.steps(Method::Suy, &[], &[], &Config::default(), false, false);
    assert_eq!(steps.len(), 2);
    assert_eq!(words(run_of(&steps[0]).0), ["winget", "source", "update", "--accept-source-agreements"]);
    assert_eq!(strs(&run_of(&steps[1]).0.kws), ["--all"]);
}

#[test]
fn extra_flags_reach_every_command() {
    let flags = ["--proxy=localhost:1234"];
    let kinds = [
        PmKind::Apk,
        apt("apt"),
        PmKind::Brew,
        PmKind::Choco,
        PmKind::Conda,
        PmKind::Dnf,
        PmKind::Emerge,
        PmKind::Pip { cmd: "pip".to_string() },
        PmKind::Pkcon,
        PmKind::Port,
        PmKind::Scoop { shell: "powershell".to_string() },
        PmKind::Tlmgr,
        PmKind::Winget,
        PmKind::Zypper,
    ];
    let methods = [Method::Q, Method::Qs, Method::R, Method::Rs, Method::S, Method::Sc, Method::Su, Method::Suy, Method::Sy];
    for k in &kinds {
        for m in methods {
            for kws in [&[][..], &["x", "y"][..]] {
                for s in k.steps(m, kws, &flags, &Config::default(), false, true) {
                    match s {
                        Step::Run { cmd, .. } | Step::Search { cmd, .. } => assert_eq!(strs(&cmd.flags), flags),
                        Step::Unimplemented { pm, .. } => assert_eq!(pm, k.name()),
                    }
                }
            }
        }
    }
}

#[test]
fn plan_resolves_the_command_line() {
    let p = Pacaptr {
        ops: Operations::Sync { c: 0, g: false, i: 0, l: false, p: false, s: false, u: false, w: false, y: false },
        using: None,
        dry_run: false,
        needed: false,
        no_confirm: false,
        no_cache: false,
        quiet: false,
        keywords: vec!["curl".to_string()],
        extra_flags: vec!["--proxy=localhost:1234".to_string()],
    };
    let cfg = Config { default_pm: Some("dnf".to_string()), ..Config::default() };
    let platform = Platform { os: Os::Linux, termux_apt: false };
    let (cfg, kind, steps) = p.plan(cfg, platform, false);
    assert_eq!(cfg.default_pm.as_deref(), Some("dnf"));
    assert!(matches!(kind, PmKind::Dnf));
    let steps = steps.unwrap();
    let (cmd, _, _) = run_of(&steps[0]);
    assert_eq!(words(cmd), ["dnf", "install"]);
    assert_eq!(strs(&cmd.kws), ["curl"]);
    assert_eq!(strs(&cmd.flags), ["--proxy=localhost:1234"]);

    let bad = Pacaptr { ops: Operations::Sync { c: 0, g: true, i: 0, l: false, p: false, s: false, u: false, w: true, y: false }, ..p };
    let cfg = Config { default_pm: Some("dnf".to_string()), ..Config::default() };
    let (_, _, steps) = bad.plan(cfg, platform, false);
    assert!(matches!(steps, Err(Error::ArgParseError { msg }) if msg == "invalid flag combination `-Sgw`"));
}

#[test]
fn run_plan_applies_the_strategy() {
    let strat = Strategy {
        dry_run: DryRunStrategy::with_flags(&["--dry-run"]),
        prompt: PromptStrategy::native_no_confirm(&["-y"]),
        no_cache: NoCacheStrategy::Scc,
    };
    let cmd = Cmd::with_sudo(&["zypper", "install"]).kws(&["curl"]).flags(&["-v"]);

    // A plain run asks natively, and needs `sudo`.
    let plan = pacaptr::pm::plan_run(&Config::default(), cmd.clone(), PmMode::CheckErr, &strat);
    assert_eq!(strs(&plan.cmd.flags), ["-v"]);
    assert!(plan.cmd.sudo);
    assert_eq!(plan.mode, Mode::CheckErr);
    assert!(plan.cleanup.is_none());

    // Answering yes to everything passes the native flag; cleaning the cache follows.
    let cfg = Config { no_confirm: true, no_cache: true, ..Config::default() };
    let plan = pacaptr::pm::plan_run(&cfg, cmd.clone(), PmMode::Mute, &strat);
    assert_eq!(strs(&plan.cmd.flags), ["-v", "-y"]);
    assert_eq!(plan.mode, Mode::Mute);
    assert_eq!(plan.cleanup, Some(Method::Scc));
    assert_eq!(strs(&plan.cleanup_flags), ["-v"]);

    // A dry run with flags runs without `sudo`, and so does its cleanup.
    let cfg = Config { dry_run: true, no_cache: true, ..Config::default() };
    let plan = pacaptr::pm::plan_run(&cfg, cmd.clone(), PmMode::CheckErr, &strat);
    assert_eq!(strs(&plan.cmd.flags), ["-v", "--dry-run"]);
    assert!(!plan.cmd.sudo);
    assert_eq!(strs(&plan.cleanup_flags), ["-v", "--dry-run"]);

    // A dry run that prints the command shows it unchanged.
    let print = Strategy { prompt: PromptStrategy::CustomPrompt, ..Strategy::default() };
    let cfg = Config { dry_run: true, ..Config::default() };
    let plan = pacaptr::pm::plan_run(&cfg, cmd.clone(), PmMode::CheckErr, &print);
    assert_eq!(plan.mode, Mode::PrintCmd);
    assert_eq!(strs(&plan.cmd.flags), ["-v"]);
    assert!(plan.cmd.sudo);

    // A custom prompt asks, unless every question is answered yes.
    let plan = pacaptr::pm::plan_run(&Config::default(), cmd.clone(), PmMode::CheckErr, &print);
    assert_eq!(plan.mode, Mode::Prompt);
    let yes = Config { no_confirm: true, ..Config::default() };
    let plan = pacaptr::pm::plan_run(&yes, cmd.clone(), PmMode::CheckAll, &print);
    assert_eq!(plan.mode, Mode::CheckAll);

    // A native confirmation flag is passed unless every question is answered yes.
    let confirm = Strategy { prompt: PromptStrategy::native_confirm(&["--ask"]), ..Strategy::default() };
    let plan = pacaptr::pm::plan_run(&Config::default(), cmd.clone(), PmMode::CheckErr, &confirm);
    assert_eq!(strs(&plan.cmd.flags), ["-v", "--ask"]);
    let plan = pacaptr::pm::plan_run(&yes, cmd, PmMode::CheckErr, &confirm);
    assert_eq!(strs(&plan.cmd.flags), ["-v"]);
}

#[test]
fn no_cache_flags_are_added_only_when_asked() {
    let strat = Strategy { no_cache: NoCacheStrategy::with_flags(&["--no-cache"]), ..Strategy::default() };
    let cmd = Cmd::new(&["apk", "add"]);
    let plan = pacaptr::pm::plan_run(&Config::default(), cmd.clone(), PmMode::CheckErr, &strat);
    assert!(plan.cmd.flags.is_empty());
    let cfg = Config { no_cache: true, ..Config::default() };
    let plan = pacaptr::pm::plan_run(&cfg, cmd, PmMode::CheckErr, &strat);
    assert_eq!(strs(&plan.cmd.flags), ["--no-cache"]);
    assert!(plan.cleanup.is_none());
}

#[test]
fn cache_cleaning_ends() {
    let kinds = [
        PmKind::Apk,
        apt("apt"),
        PmKind::Brew,
        PmKind::Choco,
        PmKind::Conda,
        PmKind::Dnf,
        PmKind::Emerge,
        PmKind::Pip { cmd: "pip".to_string() },
        PmKind::Pkcon,
        PmKind::Port,
        PmKind::Scoop { shell: "pwsh".to_string() },
        PmKind::Tlmgr,
        PmKind::Winget,
        PmKind::Zypper,
    ];
    let cfg = Config { no_cache: true, ..Config::default() };
    for k in &kinds {
        for m in [Method::Sc, Method::Scc, Method::Sccc] {
            for s in k.steps(m, &[], &[], &cfg, false, false) {
                if let Step::Run { mode, strat, .. } = s {
                    let plan = pacaptr::pm::plan_run(&cfg, Cmd::new(&["x"]), mode, &strat);
                    assert!(plan.cleanup.is_none(), "{} {:?}", k.name(), m);
                }
            }
        }
    }
}
