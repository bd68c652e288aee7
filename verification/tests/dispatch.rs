use pacaptr::config::Config;
use pacaptr::dispatch::{OpFlags, Operations, Opt, Opts, Pacaptr};
use pacaptr::error::Error;
use pacaptr::pm::Method;
use pacaptr::select::{Os, Platform, PmKind};

/// A configuration that names the mock package manager.
fn mock_cfg() -> Config {
    Config { default_pm: Some("mockpm".to_string()), ..Config::default() }
}

/// What the mock package manager does for every method: it reports the
/// method with the keywords and the extra flags it was given.
fn mock_run(m: Method, kws: &[String], flags: &[String]) {
    panic!("{}", mock_message(m, kws, flags))
}

fn mock_message(m: Method, kws: &[String], flags: &[String]) -> String {
    let all: Vec<&String> = kws.iter().chain(flags.iter()).collect();
    format!("should run: {} {:?}", m.name(), all)
}

fn strings(v: &[&str]) -> Vec<String> {
    v.iter().map(|s| s.to_string()).collect()
}

/// `-S` with the given `i`, `u`, `w` and `y` flags.
fn sync(i: u8, u: bool, w: bool, y: bool) -> Operations {
    Operations::Sync { c: 0, g: false, i, l: false, p: false, s: false, u, w, y }
}

fn pacaptr(ops: Operations, keywords: &[&str], extra_flags: &[&str]) -> Pacaptr {
    Pacaptr {
        ops,
        using: None,
        dry_run: false,
        needed: false,
        no_confirm: false,
        no_cache: false,
        quiet: false,
        keywords: strings(keywords),
        extra_flags: strings(extra_flags),
    }
}

fn no_flags() -> OpFlags {
    OpFlags {
        query: false,
        remove: false,
        sync: false,
        update: false,
        c: 0,
        e: false,
        g: false,
        i: 0,
        k: false,
        l: false,
        m: false,
        n: false,
        o: false,
        p: false,
        s: 0,
        u: false,
        w: false,
        y: false,
    }
}

/// `-S` with the given `u`, `w` and `y` switches.
fn sync_flags(u: bool, w: bool, y: bool) -> OpFlags {
    OpFlags { sync: true, u, w, y, ..no_flags() }
}

fn opt(flags: OpFlags, keywords: &[&str], extra_flags: &[&str]) -> Opt {
    Opt {
        flags,
        using: None,
        dry_run: false,
        needed: false,
        no_confirm: false,
        no_cache: false,
        keywords: strings(keywords),
        extra_flags: strings(extra_flags),
    }
}

fn opts(flags: OpFlags, keywords: &[&str], extra_flags: &[&str]) -> Opts {
    Opts {
        flags,
        using: None,
        dry_run: false,
        needed: false,
        no_confirm: false,
        no_cache: false,
        keywords: strings(keywords),
        extra_flags: strings(extra_flags),
    }
}

// `pacaptr -Syu`
#[test]
#[should_panic(expected = "should run: suy")]
fn cmd_simple_syu() {
    let opt = pacaptr(sync(0, true, false, true), &[], &[]);
    assert!(matches!(opt.ops, Operations::Sync { u, y, .. } if y && u));
    assert!(opt.keywords.is_empty());
    let (_, method) = opt.dispatch_from(mock_cfg());
    mock_run(method.unwrap(), &opt.keywords, &opt.extra_flags);
}

// `pacaptr --sync --refresh --sysupgrade`
#[test]
#[should_panic(expected = "should run: suy")]
fn cmd_long_syu() {
    let opt = pacaptr(sync(0, true, false, true), &[], &[]);
    assert!(matches!(opt.ops, Operations::Sync { u, y, .. } if y && u));
    assert!(opt.keywords.is_empty());
    let (_, method) = opt.dispatch_from(mock_cfg());
    mock_run(method.unwrap(), &opt.keywords, &opt.extra_flags);
}

// `pacaptr -Sw curl wget`
#[test]
#[should_panic(expected = r#"should run: sw ["curl", "wget"]"#)]
fn simple_sw() {
    let opt = pacaptr(sync(0, false, true, false), &["curl", "wget"], &[]);
    assert!(matches!(opt.ops, Operations::Sync { w, .. } if w));
    assert_eq!(opt.keywords, &["curl", "wget"]);
    let (_, method) = opt.dispatch_from(mock_cfg());
    mock_run(method.unwrap(), &opt.keywords, &opt.extra_flags);
}

// `pacaptr -S --dryrun --yes docker`
#[test]
#[should_panic(expected = r#"should run: s ["docker"]"#)]
fn cmd_other_flags() {
    let opt = Pacaptr { dry_run: true, no_confirm: true, ..pacaptr(sync(0, false, false, false), &["docker"], &[]) };
    assert!(opt.dry_run);
    assert!(opt.no_confirm);
    assert!(matches!(opt.ops, Operations::Sync { .. }));
    assert_eq!(opt.keywords, &["docker"]);
    let (_, method) = opt.dispatch_from(mock_cfg());
    mock_run(method.unwrap(), &opt.keywords, &opt.extra_flags);
}

// `pacaptr -S --yes docker -- --proxy=localhost:1234`
#[test]
#[should_panic(expected = r#"should run: s ["docker", "--proxy=localhost:1234"]"#)]
fn cmd_extra_flags() {
    let opt = Pacaptr { no_confirm: true, ..pacaptr(sync(0, false, false, false), &["docker"], &["--proxy=localhost:1234"]) };
    assert!(opt.no_confirm);
    assert!(matches!(opt.ops, Operations::Sync { .. }));
    assert_eq!(opt.keywords, &["docker"]);
    assert_eq!(opt.extra_flags, &["--proxy=localhost:1234"]);
    let (_, method) = opt.dispatch_from(mock_cfg());
    mock_run(method.unwrap(), &opt.keywords, &opt.extra_flags);
}

// `pacaptr --pm mockpm -Si --yes docker -- --proxy=localhost:1234`
#[test]
#[should_panic(expected = r#"should run: si ["docker", "--proxy=localhost:1234"]"#)]
fn using() {
    let opt = Pacaptr {
        using: Some("mockpm".to_string()),
        no_confirm: true,
        ..pacaptr(sync(1, false, false, false), &["docker"], &["--proxy=localhost:1234"])
    };
    assert!(opt.no_confirm);
    assert!(matches!(opt.ops, Operations::Sync { i, .. } if i == 1));
    assert_eq!(opt.keywords, &["docker"]);
    assert_eq!(opt.extra_flags, &["--proxy=localhost:1234"]);
    let (_, method) = opt.dispatch_from(mock_cfg());
    mock_run(method.unwrap(), &opt.keywords, &opt.extra_flags);
}

// `pacaptr -Sw curl wget`, read by the `Opts` front end.
#[test]
#[should_panic(expected = r#"should run: sw ["curl", "wget"]"#)]
fn cmd_simple_si() {
    let opt = opts(sync_flags(false, true, false), &["curl", "wget"], &[]);
    assert!(opt.flags.sync);
    assert!(opt.flags.w);
    mock_run(opt.dispatch_from().unwrap(), &opt.keywords, &opt.extra_flags);
}

// `pacaptr -Syu`, read by the `Opts` front end.
#[test]
fn opts_simple_syu() {
    let opt = opts(sync_flags(true, false, true), &[], &[]);
    assert!(opt.keywords.is_empty());
    assert!(opt.flags.sync && opt.flags.y && opt.flags.u);
    assert_eq!(mock_message(opt.dispatch_from().unwrap(), &opt.keywords, &opt.extra_flags), "should run: suy []");
}

// `pacaptr -S --yes docker -- --proxy=localhost:1234`, read by `Opts`.
#[test]
fn opts_extra_flags() {
    let opt = Opts { no_confirm: true, ..opts(sync_flags(false, false, false), &["docker"], &["--proxy=localhost:1234"]) };
    assert!(opt.flags.sync);
    assert!(opt.no_confirm);
    let mut flags = opt.extra_flags.iter();
    assert_eq!(flags.next(), Some(&String::from("--proxy=localhost:1234")));
    assert_eq!(flags.next(), None);
    assert_eq!(
        mock_message(opt.dispatch_from().unwrap(), &opt.keywords, &opt.extra_flags),
        r#"should run: s ["docker", "--proxy=localhost:1234"]"#
    );
}

// `pacaptr -Syu`, read by the `Opt` front end.
#[test]
#[should_panic(expected = "should run: suy")]
fn opt_simple_syu() {
    let opt = opt(sync_flags(true, false, true), &[], &[]);
    assert!(opt.keywords.is_empty());
    assert!(opt.flags.sync);
    assert!(opt.flags.y);
    assert!(opt.flags.u);
    mock_run(opt.dispatch_from().unwrap(), &opt.keywords, &opt.extra_flags);
}

// `pacaptr --sync --refresh --sysupgrade`, read by the `Opt` front end.
#[test]
#[should_panic(expected = "should run: suy")]
fn opt_long_syu() {
    let opt = opt(sync_flags(true, false, true), &[], &[]);
    assert!(opt.keywords.is_empty());
    assert!(opt.flags.sync);
    assert!(opt.flags.y);
    assert!(opt.flags.u);
    mock_run(opt.dispatch_from().unwrap(), &opt.keywords, &opt.extra_flags);
}

// `pacaptr -Sw curl wget`, read by the `Opt` front end.
#[test]
#[should_panic(expected = r#"should run: sw ["curl", "wget"]"#)]
fn opt_simple_si() {
    let opt = opt(sync_flags(false, true, false), &["curl", "wget"], &[]);
    assert!(opt.flags.sync);
    assert!(opt.flags.w);
    mock_run(opt.dispatch_from().unwrap(), &opt.keywords, &opt.extra_flags);
}

// `pacaptr -S --dryrun --yes docker`, read by the `Opt` front end.
#[test]
#[should_panic(expected = r#"should run: s ["docker"]"#)]
fn opt_other_flags() {
    let opt = Opt { dry_run: true, no_confirm: true, ..opt(sync_flags(false, false, false), &["docker"], &[]) };
    assert!(opt.flags.sync);
    assert!(opt.dry_run);
    assert!(opt.no_confirm);
    mock_run(opt.dispatch_from().unwrap(), &opt.keywords, &opt.extra_flags);
}

// `pacaptr -S --yes docker -- --proxy=localhost:1234`, read by `Opt`.
#[test]
#[should_panic(expected = r#"should run: s ["docker", "--proxy=localhost:1234"]"#)]
fn opt_extra_flags() {
    let opt = Opt { no_confirm: true, ..opt(sync_flags(false, false, false), &["docker"], &["--proxy=localhost:1234"]) };
    assert!(opt.flags.sync);
    assert!(opt.no_confirm);
    let mut flags = opt.extra_flags.iter();
    assert_eq!(flags.next(), Some(&String::from("--proxy=localhost:1234")));
    assert_eq!(flags.next(), None);
    mock_run(opt.dispatch_from().unwrap(), &opt.keywords, &opt.extra_flags);
}

// `pacaptr -SQns docker`, read by the `Opt` front end.
#[test]
#[should_panic(expected = "exactly 1 operation expected")]
fn too_many_ops() {
    let opt = opt(OpFlags { sync: true, query: true, n: true, s: 1, ..no_flags() }, &["docker"], &[]);
    assert!(opt.flags.sync);
    assert!(opt.flags.query);
    assert!(opt.flags.n);
    assert_eq!(opt.flags.s, 1);
    mock_run(opt.dispatch_from().unwrap(), &opt.keywords, &opt.extra_flags);
}

#[test]
fn options_are_collected_in_ascii_order() {
    // `-S -y -u -c -c` gives `Sccuy`.
    let opt = pacaptr(Operations::Sync { c: 2, g: false, i: 0, l: false, p: false, s: false, u: true, w: false, y: true }, &[], &[]);
    let (options, name) = opt.options();
    assert_eq!(options, "Sccuy");
    assert_eq!(name.iter().collect::<String>(), "sccuy");
}

#[test]
fn invalid_flag_combination_is_reported() {
    // `-Sgw` names no method.
    let opt = pacaptr(Operations::Sync { c: 0, g: true, i: 0, l: false, p: false, s: false, u: false, w: true, y: false }, &[], &[]);
    let (_, method) = opt.dispatch_from(Config::default());
    match method {
        Err(Error::ArgParseError { msg }) => assert_eq!(msg, "invalid flag combination `-Sgw`"),
        other => panic!("unexpected {other:?}"),
    }
}

#[test]
fn print_flag_asks_for_a_dry_run() {
    // `-Sp docker` only prints what `-S docker` would run.
    let opt = pacaptr(Operations::Sync { c: 0, g: false, i: 0, l: false, p: true, s: false, u: false, w: false, y: false }, &["docker"], &[]);
    let (cfg, method) = opt.dispatch_from(Config::default());
    assert!(cfg.dry_run);
    assert_eq!(method.unwrap(), Method::S);
    // The query operation has no such flag.
    let q = pacaptr(Operations::Query { c: false, e: false, i: 0, k: false, l: false, m: false, o: false, p: true, s: false, u: false }, &[], &[]);
    let (cfg, method) = q.dispatch_from(Config::default());
    assert!(!cfg.dry_run);
    assert_eq!(method.unwrap(), Method::Qp);
}

#[test]
fn counted_flags_name_their_methods() {
    let qii = pacaptr(Operations::Query { c: false, e: false, i: 2, k: false, l: false, m: false, o: false, p: false, s: false, u: false }, &[], &[]);
    assert_eq!(qii.dispatch_from(Config::default()).1.unwrap(), Method::Qii);
    let rns = pacaptr(Operations::Remove { n: true, p: false, s: 1 }, &[], &[]);
    assert_eq!(rns.dispatch_from(Config::default()).1.unwrap(), Method::Rns);
    let rss = pacaptr(Operations::Remove { n: false, p: false, s: 2 }, &[], &[]);
    assert_eq!(rss.dispatch_from(Config::default()).1.unwrap(), Method::Rss);
    let sccc = pacaptr(sync_with_c(3), &[], &[]);
    assert_eq!(sccc.dispatch_from(Config::default()).1.unwrap(), Method::Sccc);
    let u = pacaptr(Operations::Update { p: false }, &[], &[]);
    assert_eq!(u.dispatch_from(Config::default()).1.unwrap(), Method::U);
}

fn sync_with_c(c: u8) -> Operations {
    Operations::Sync { c, g: false, i: 0, l: false, p: false, s: false, u: false, w: false, y: false }
}

#[test]
fn opt_front_ends_reject_qii_and_unknown_flags() {
    let qii = opt(OpFlags { query: true, i: 2, ..no_flags() }, &[], &[]);
    match qii.dispatch_from() {
        Err(Error::ArgParseError { msg }) => assert_eq!(msg, "Invalid flag"),
        other => panic!("unexpected {other:?}"),
    }
    let none = opt(no_flags(), &[], &[]);
    match none.check() {
        Err(Error::ArgParseError { msg }) => assert_eq!(msg, "exactly 1 operation expected"),
        other => panic!("unexpected {other:?}"),
    }
    let sy = opts(OpFlags { sync: true, y: true, ..no_flags() }, &[], &[]);
    assert_eq!(sy.dispatch_from().unwrap(), Method::Sy);
}

#[test]
fn opts_merge_cfg_prefers_the_command_line() {
    let o = Opts { using: Some("apt".to_string()), needed: true, ..opts(sync_flags(false, false, false), &[], &[]) };
    let dotfile = Config { dry_run: true, quiet: Some(true), default_pm: Some("dnf".to_string()), ..Config::default() };
    let cfg = o.merge_cfg(dotfile);
    assert!(cfg.dry_run && cfg.needed && !cfg.no_confirm && !cfg.no_cache);
    assert_eq!(cfg.quiet, Some(true));
    assert_eq!(cfg.default_pm.as_deref(), Some("apt"));
}

#[test]
fn pacaptr_cfg_reflects_the_command_line() {
    let p = Pacaptr { quiet: true, using: Some("brew".to_string()), no_cache: true, ..pacaptr(sync(0, false, false, false), &[], &[]) };
    let cfg = p.cfg();
    assert!(cfg.no_cache && !cfg.dry_run);
    assert_eq!(cfg.quiet, Some(true));
    assert_eq!(cfg.default_pm.as_deref(), Some("brew"));
    let q = pacaptr(sync(0, false, false, false), &[], &[]);
    assert_eq!(q.cfg().quiet, None);
}

#[test]
fn every_method_is_reachable() {
    let q = |i: u8, c: bool, e: bool, k: bool, l: bool, m: bool, o: bool, p: bool, s: bool, u: bool| {
        Operations::Query { c, e, i, k, l, m, o, p, s, u }
    };
    let s = |c: u8, g: bool, i: u8, l: bool, s: bool, u: bool, w: bool, y: bool| {
        Operations::Sync { c, g, i, l, p: false, s, u, w, y }
    };
    let f = false;
    let cases = [
        (q(0, f, f, f, f, f, f, f, f, f), Method::Q),
        (q(0, true, f, f, f, f, f, f, f, f), Method::Qc),
        (q(0, f, true, f, f, f, f, f, f, f), Method::Qe),
        (q(1, f, f, f, f, f, f, f, f, f), Method::Qi),
        (q(2, f, f, f, f, f, f, f, f, f), Method::Qii),
        (q(0, f, f, true, f, f, f, f, f, f), Method::Qk),
        (q(0, f, f, f, true, f, f, f, f, f), Method::Ql),
        (q(0, f, f, f, f, true, f, f, f, f), Method::Qm),
        (q(0, f, f, f, f, f, true, f, f, f), Method::Qo),
        (q(0, f, f, f, f, f, f, true, f, f), Method::Qp),
        (q(0, f, f, f, f, f, f, f, true, f), Method::Qs),
        (q(0, f, f, f, f, f, f, f, f, true), Method::Qu),
        (Operations::Remove { n: f, p: f, s: 0 }, Method::R),
        (Operations::Remove { n: true, p: f, s: 0 }, Method::Rn),
        (Operations::Remove { n: true, p: f, s: 1 }, Method::Rns),
        (Operations::Remove { n: f, p: f, s: 1 }, Method::Rs),
        (Operations::Remove { n: f, p: f, s: 2 }, Method::Rss),
        (s(0, f, 0, f, f, f, f, f), Method::S),
        (s(1, f, 0, f, f, f, f, f), Method::Sc),
        (s(2, f, 0, f, f, f, f, f), Method::Scc),
        (s(3, f, 0, f, f, f, f, f), Method::Sccc),
        (s(0, true, 0, f, f, f, f, f), Method::Sg),
        (s(0, f, 1, f, f, f, f, f), Method::Si),
        (s(0, f, 2, f, f, f, f, f), Method::Sii),
        (s(0, f, 0, true, f, f, f, f), Method::Sl),
        (s(0, f, 0, f, true, f, f, f), Method::Ss),
        (s(0, f, 0, f, f, true, f, f), Method::Su),
        (s(0, f, 0, f, f, true, f, true), Method::Suy),
        (s(0, f, 0, f, f, f, true, f), Method::Sw),
        (s(0, f, 0, f, f, f, f, true), Method::Sy),
        (Operations::Update { p: f }, Method::U),
    ];
    for (ops, m) in cases {
        let p = pacaptr(ops, &[], &[]);
        assert_eq!(p.dispatch_from(Config::default()).1.unwrap(), m);
    }
}

#[test]
fn unknown_package_manager_carries_the_default_config() {
    // `pacaptr --using foo -S --dryrun`
    let o = Opt { using: Some("foo".to_string()), dry_run: true, ..opt(sync_flags(false, false, false), &[], &[]) };
    let (cfg, kind) = o.make_pm(Config::default(), Platform { os: Os::Linux, termux_apt: false });
    assert!(matches!(&kind, PmKind::Unknown { name } if name == "foo"));
    assert_eq!(kind.name(), "unknown package manager: foo");
    assert!(!cfg.dry_run && !cfg.no_confirm && !cfg.needed && !cfg.no_cache);
    assert_eq!(cfg.default_pm, None);
    // A known one carries the merged configuration.
    let o = Opt { using: Some("apt".to_string()), dry_run: true, ..opt(sync_flags(false, false, false), &[], &[]) };
    let (cfg, kind) = o.make_pm(Config { no_confirm: true, ..Config::default() }, Platform { os: Os::Linux, termux_apt: false });
    assert!(matches!(kind, PmKind::Apt { .. }));
    assert!(cfg.dry_run && cfg.no_confirm);
    // The same holds for the selection of the `pacaptr` command line.
    let p = Pacaptr { dry_run: true, ..pacaptr(sync(0, false, false, false), &["x"], &[]) };
    let (cfg, kind, steps) = p.plan(Config { dry_run: true, default_pm: Some("foo".to_string()), ..Config::default() }, Platform { os: Os::Linux, termux_apt: false }, false);
    assert!(matches!(kind, PmKind::Unknown { .. }));
    assert!(!cfg.dry_run && cfg.default_pm.is_none());
    assert!(steps.is_ok());
}
