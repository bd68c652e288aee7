use pacaptr::config::{config_file_parts, Config};
use pacaptr::plan::{after_cleanup, after_run, AfterRun};
use pacaptr::pm::RunPlan;
use pacaptr::select::{exe_answer, is_exe};
use pacaptr::strings::decimal;
use pacaptr::dpkg::Dpkg;
use pacaptr::error::{exit_result, Error, MainError};
use pacaptr::exec::{execution, Cmd, Execution, Mode, Outcome, Questions, ANSWERS};
use pacaptr::pm::Method;
use pacaptr::print::{plain_line, quoted_line, write_err, PROMPT_INDENT};
use pacaptr::select::{candidates, pick, pm_kind_named, Os, PmKind};
use pacaptr::text::{grep, grep_with_header, lines};

fn strs(v: &[String]) -> Vec<&str> {
    v.iter().map(|s| s.as_str()).collect()
}

#[test]
fn lines_split_like_str_lines() {
    let text = "a\r\nb\n\nc\rd\n";
    assert_eq!(lines(text), text.lines().collect::<Vec<_>>());
    assert_eq!(lines("no newline"), ["no newline"]);
    assert!(lines("").is_empty());
    assert_eq!(lines("\n"), [""]);
    assert_eq!(lines("x\n\r\n"), ["x", ""]);
}

#[test]
fn grep_keeps_the_lines_matching_every_pattern() {
    let text = "curl 7.0\nwget 1.0\nlibcurl 7.0\n";
    assert_eq!(grep(text, &["curl"]).unwrap(), ["curl 7.0", "libcurl 7.0"]);
    assert_eq!(grep(text, &["curl", "^lib"]).unwrap(), ["libcurl 7.0"]);
    assert_eq!(grep(text, &[]).unwrap(), ["curl 7.0", "wget 1.0", "libcurl 7.0"]);
    assert!(grep(text, &["^zsh"]).unwrap().is_empty());
}

#[test]
fn grep_reports_the_first_ill_formed_pattern() {
    match grep("a\n", &["a", "(", "["]) {
        Err(Error::OtherError(msg)) => assert_eq!(msg, "Pattern `(` is ill-formed"),
        other => panic!("unexpected {other:?}"),
    }
}

#[test]
fn grep_with_header_keeps_the_header() {
    let text = "Desired=Unknown\n| Status\n|/ Err\n+++-====\nii curl 7.0\nii wget 1.0\n";
    assert_eq!(
        grep_with_header(text, &["curl"], 4).unwrap(),
        ["Desired=Unknown", "| Status", "|/ Err", "+++-====", "ii curl 7.0"]
    );
    // With no more lines than the header, the lines are given unchanged,
    // and the patterns are not even compiled.
    assert_eq!(grep_with_header("a\nb\n", &["("], 2).unwrap(), ["a", "b"]);
    assert!(matches!(grep_with_header("a\nb\nc\n", &["("], 2), Err(Error::OtherError(_))));
}

#[test]
fn messages_are_right_aligned_after_their_prompt() {
    assert_eq!(PROMPT_INDENT, 9);
    assert_eq!(write_err("Error", "CmdInterruptedError"), "    Error CmdInterruptedError");
    assert_eq!(plain_line("Info", "hello"), "     Info hello");
    assert_eq!(quoted_line("Running", "apt install curl"), "  Running `apt install curl`");
    assert_eq!(plain_line("Canceled", "x"), format!("{:>9} {}", "Canceled", "x"));
    assert_eq!(plain_line("LongerThanNine", "x"), "LongerThanNine x");
}

#[test]
fn commands_render_with_flags_before_keywords() {
    let cmd = Cmd::with_sudo(&["zypper", "install"]).kws(&["curl"]).flags(&["-y"]);
    assert_eq!(cmd.render(false), "sudo -S zypper install -y curl");
    assert_eq!(cmd.render(true), "zypper install -y curl");
    assert_eq!(strs(&cmd.argv(false)), ["sudo", "-S", "zypper", "install", "-y", "curl"]);
    assert_eq!(strs(&cmd.argv(true)), ["zypper", "install", "-y", "curl"]);
    assert!(cmd.should_sudo_as(false));
    assert!(!Cmd::new(&["ls"]).should_sudo_as(false));
    assert_eq!(cmd.render(false), cmd.argv(false).join(" "));
}

#[test]
fn modes_decide_what_is_shown_and_run() {
    assert!(matches!(execution(Mode::PrintCmd), Execution::ShowOnly));
    assert!(matches!(execution(Mode::Mute), Execution::Run { announce: false, merge: true, mute: true }));
    assert!(matches!(execution(Mode::CheckAll), Execution::Run { announce: true, merge: true, mute: false }));
    assert!(matches!(execution(Mode::CheckErr), Execution::Run { announce: true, merge: false, mute: false }));
    assert!(matches!(execution(Mode::Prompt), Execution::Ask));
}

#[test]
fn answering_all_stops_the_questions() {
    assert_eq!(ANSWERS, ["Yes", "All", "No"]);
    let mut q = Questions::new();
    assert!(q.asks());
    assert!(q.answer(0));
    assert!(q.asks());
    assert!(!q.answer(2));
    assert!(q.asks());
    assert!(q.answer(1));
    assert!(!q.asks());
}

#[test]
fn exit_codes_follow_the_command() {
    assert_eq!(exit_result(Some(0), vec![1, 2]).unwrap(), [1, 2]);
    match exit_result(Some(3), vec![7]) {
        Err(Error::CmdStatusCodeError { code, output }) => {
            assert_eq!(code, 3);
            assert_eq!(output, [7]);
        },
        other => panic!("unexpected {other:?}"),
    }
    assert!(matches!(exit_result(None, vec![]), Err(Error::CmdInterruptedError)));
    assert_eq!(MainError::from_error(Error::CmdStatusCodeError { code: 100, output: vec![] }).report(), 100);
    assert_eq!(MainError::from_error(Error::CmdStatusCodeError { code: 256, output: vec![] }).report(), 0);
    assert_eq!(MainError::from_error(Error::CmdStatusCodeError { code: -1, output: vec![] }).report(), 255);
    assert_eq!(MainError::from_error(Error::OtherError("x".to_string())).report(), 1);
}

#[test]
fn config_join_is_left_biased() {
    let cli = Config { dry_run: true, quiet: Some(false), ..Config::default() };
    let file = Config { needed: true, quiet: Some(true), default_pm: Some("apt".to_string()), ..Config::default() };
    let cfg = cli.join(file);
    assert!(cfg.dry_run && cfg.needed && !cfg.no_confirm && !cfg.no_cache);
    assert_eq!(cfg.quiet, Some(false));
    assert_eq!(cfg.default_pm.as_deref(), Some("apt"));
    let named = Config { default_pm: Some("dnf".to_string()), ..Config::default() };
    assert_eq!(named.join(Config { default_pm: Some("apt".to_string()), ..Config::default() }).default_pm.as_deref(), Some("dnf"));
}

#[test]
fn quiet_follows_the_terminal_unless_given() {
    let cfg = Config::default();
    assert!(cfg.quiet_given(false));
    assert!(!cfg.quiet_given(true));
    let loud = Config { quiet: Some(false), ..Config::default() };
    assert!(!loud.quiet_given(false));
    assert!(!loud.quiet());
}

#[test]
fn package_managers_are_known_by_name() {
    assert!(matches!(pm_kind_named("pkg", false, false), PmKind::Apt { cmd } if cmd == "pkg"));
    assert!(matches!(pm_kind_named("pip3", false, false), PmKind::Pip { cmd } if cmd == "pip3"));
    assert!(matches!(pm_kind_named("port", true, false), PmKind::Port));
    assert!(matches!(pm_kind_named("port", false, false), PmKind::Unknown { name } if name == "port"));
    assert!(matches!(pm_kind_named("scoop", false, true), PmKind::Scoop { shell } if shell == "pwsh"));
    assert!(matches!(pm_kind_named("scoop", false, false), PmKind::Scoop { shell } if shell == "powershell"));
    assert!(matches!(pm_kind_named("xbps-install", false, false), PmKind::Xbps));
}

#[test]
fn detection_picks_the_first_found_candidate() {
    let linux = candidates(Os::Linux);
    assert_eq!(linux[0], ("apk", "/sbin/apk"));
    assert_eq!(pick(&linux, &vec![false, true, true, false, false, false], false), "apt");
    assert_eq!(pick(&linux, &vec![false, true, true, false, false, false], true), "pkg");
    assert_eq!(pick(&linux, &vec![false, false, true, false, false, false], true), "dnf");
    assert_eq!(pick(&linux, &vec![false; 6], false), "unknown");
    assert_eq!(pick(&candidates(Os::Windows), &vec![false, true, true], false), "choco");
    assert!(candidates(Os::Other).is_empty());
}

#[test]
fn dpkg_answers_yes_when_asked_to() {
    let d = Dpkg { dry_run: false, no_confirm: true };
    let r = d.check_no_confirm("apt-get", &["remove"], &["curl"]);
    assert_eq!(strs(&r.cmd.cmd), ["apt-get", "remove", "--yes"]);
    assert_eq!(strs(&r.cmd.kws), ["curl"]);
    assert_eq!(r.mode, Mode::CheckErr);
    let dry = Dpkg { dry_run: true, no_confirm: false };
    let r = dry.just_run("dpkg", &["-l"], &[]);
    assert_eq!(strs(&r.cmd.cmd), ["dpkg", "-l"]);
    assert_eq!(r.mode, Mode::PrintCmd);
    let suy = d.plan(Method::Suy, &[]).unwrap();
    assert_eq!(suy.len(), 3);
    assert_eq!(strs(&suy[0].cmd.cmd), ["apt-get", "update"]);
    assert_eq!(strs(&suy[1].cmd.cmd), ["apt-get", "upgrade", "--yes"]);
    assert_eq!(strs(&suy[2].cmd.cmd), ["apt-get", "dist-upgrade", "--yes"]);
    assert!(d.plan(Method::Qk, &[]).is_none());
}

#[test]
fn method_names_are_lowercase_flags() {
    assert_eq!(Method::Suy.name(), "suy");
    assert_eq!(Method::Qii.name(), "qii");
    assert_eq!(pacaptr::dispatch::method_from_name(&"sccc".chars().collect::<Vec<char>>()), Some(Method::Sccc));
    assert_eq!(pacaptr::dispatch::method_from_name(&"syu".chars().collect::<Vec<char>>()), None);
}

#[test]
fn lines_matching_every_pattern_are_all_kept() {
    let text = "curl-7\ncurl-8\n";
    assert_eq!(grep(text, &["curl", "-"]).unwrap(), ["curl-7", "curl-8"]);
}

#[test]
fn error_messages_read_as_documented() {
    assert_eq!(Error::ArgParseError { msg: "x".to_string() }.message(), "failed to parse arguments: x");
    assert_eq!(Error::ConfigError("bad toml".to_string()).message(), "failed to parse config");
    assert_eq!(Error::CmdJoinError("j".to_string()).message(), "failed to get exit code of subprocess");
    assert_eq!(Error::CmdSpawnError("s".to_string()).message(), "failed to spawn subprocess");
    assert_eq!(Error::CmdNoHandleError { handle: "stderr".to_string() }.message(), "subprocess didn't have a handle to stderr");
    assert_eq!(Error::CmdWaitError("w".to_string()).message(), "subprocess failed while running");
    assert_eq!(Error::CmdStatusCodeError { code: 100, output: vec![] }.message(), "subprocess exited with code 100");
    assert_eq!(Error::CmdStatusCodeError { code: -2, output: vec![] }.message(), "subprocess exited with code -2");
    assert_eq!(Error::CmdInterruptedError.message(), "subprocess interrupted by signal");
    assert_eq!(Error::IoError("broken pipe".to_string()).message(), "broken pipe");
    assert_eq!(
        Error::OperationUnimplementedError { op: "q".to_string(), pm: "unknown package manager: foo".to_string() }.message(),
        "operation `q` is unimplemented for `unknown package manager: foo`"
    );
    assert_eq!(Error::OtherError("other".to_string()).message(), "other");
}

#[test]
fn main_error_shows_the_message_after_the_prompt() {
    let e = MainError::from_error(Error::ArgParseError { msg: "x".to_string() });
    assert_eq!(e.render(), "\r    Error failed to parse arguments: x");
}

#[test]
fn decimal_notation() {
    for i in [0, 7, 10, 42, 1234567890, -1, -90, i32::MAX, i32::MIN] {
        assert_eq!(decimal(i), format!("{i}"));
    }
}

#[test]
fn executables_are_looked_up_only_by_non_empty_names() {
    assert!(!is_exe("", ""));
    assert!(exe_answer("x", "/p", true, false));
    assert!(exe_answer("x", "/p", false, true));
    assert!(!exe_answer("x", "/p", false, false));
    assert!(!exe_answer("", "", true, true));
    assert!(!exe_answer("", "/p", false, true));
    assert!(exe_answer("x", "", true, true));
}

#[test]
fn argv_is_never_empty() {
    let sudo_only = Cmd::with_sudo(&[]);
    assert_eq!(strs(&sudo_only.argv(false)), ["sudo", "-S"]);
}

#[test]
fn cleanup_follows_only_a_successful_main_command() {
    let plan = RunPlan { cmd: Cmd::new(&["apt", "install"]), mode: Mode::CheckErr, cleanup: Some(Method::Scc), cleanup_flags: vec!["-q".to_string()] };
    let kind = PmKind::Apt { cmd: "apt".to_string() };
    let cfg = Config { no_cache: true, ..Config::default() };
    match after_run(&plan, Err(Error::CmdInterruptedError), &kind, &cfg, false, false) {
        AfterRun::Finished(Err(Error::CmdInterruptedError)) => {},
        _ => panic!("a failed main command ends the run"),
    }
    match after_run(&plan, Ok(vec![1]), &kind, &cfg, false, false) {
        AfterRun::CleanUp { steps, output } => {
            assert_eq!(output, [1]);
            assert_eq!(steps.len(), 1);
            match &steps[0] {
                pacaptr::pm::step::Step::Run { cmd, .. } => {
                    assert_eq!(strs(&cmd.cmd), ["apt", "autoclean"]);
                    assert!(cmd.kws.is_empty());
                    assert_eq!(strs(&cmd.flags), ["-q"]);
                },
                other => panic!("unexpected {other:?}"),
            }
        },
        _ => panic!("a successful main command is followed by the cleanup"),
    }
    let plain = RunPlan { cleanup: None, ..plan };
    assert!(matches!(after_run(&plain, Ok(vec![2]), &kind, &cfg, false, false), AfterRun::Finished(Ok(o)) if o == [2]));
    assert_eq!(after_cleanup(vec![3], Ok(())).unwrap(), [3]);
    assert!(matches!(after_cleanup(vec![3], Err(Error::OtherError("c".to_string()))), Err(Error::OtherError(m)) if m == "c"));
}

#[test]
fn a_declined_or_shown_command_gives_no_output() {
    let mut q = Questions::new();
    assert!(matches!(q.outcome(Mode::PrintCmd, None), Outcome::NotRun(o) if o.is_empty()));
    assert!(matches!(q.outcome(Mode::Mute, None), Outcome::Spawn { announce: false, merge: true, mute: true }));
    assert!(matches!(q.outcome(Mode::CheckErr, None), Outcome::Spawn { announce: true, merge: false, mute: false }));
    assert!(matches!(q.outcome(Mode::Prompt, Some(2)), Outcome::NotRun(o) if o.is_empty()));
    assert!(q.asks());
    assert!(matches!(q.outcome(Mode::Prompt, Some(0)), Outcome::Spawn { announce: true, merge: false, mute: false }));
    assert!(q.asks());
    assert!(matches!(q.outcome(Mode::Prompt, Some(1)), Outcome::Spawn { announce: true, merge: false, mute: false }));
    assert!(!q.asks());
    assert!(matches!(q.outcome(Mode::Prompt, None), Outcome::Spawn { announce: true, merge: false, mute: false }));
}

#[test]
fn the_configuration_file_is_found_by_precedence() {
    let s = |v: &str| Some(v.to_string());
    assert_eq!(config_file_parts(s("/etc/p.toml"), s("/x"), true, s("/home/u")).unwrap(), ["/etc/p.toml"]);
    assert_eq!(config_file_parts(None, s("/x"), true, s("/home/u")).unwrap(), ["/x", "pacaptr", "pacaptr.toml"]);
    assert_eq!(config_file_parts(None, s("x"), false, s("/home/u")).unwrap(), ["/home/u", ".config", "pacaptr", "pacaptr.toml"]);
    assert_eq!(config_file_parts(None, None, false, None), None);
}
