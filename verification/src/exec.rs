//! Commands to be run, in `command-flags-keywords` form, and what becomes of
//! them before and after they run.

use vstd::prelude::*;

use crate::strings::{
    clone_strings, extend_strings, join, join_strings, lemma_join_append, str_views, to_strings, views,
};

verus! {

/// Different ways in which a [`Cmd`] shall be dealt with.
#[derive(Copy, Clone, Debug, PartialEq, Eq, Structural)]
pub enum Mode {
    /// Solely prints out the command that should be executed and stops.
    PrintCmd,
    /// Silently collects all the `stdout`/`stderr` combined. Prints nothing.
    Mute,
    /// Prints out the command which should be executed, runs it and collects
    /// its `stdout`/`stderr` combined.
    CheckAll,
    /// Prints out the command which should be executed, runs it and collects
    /// its `stderr`.
    CheckErr,
    /// Like [`Mode::CheckErr`], but asks for confirmation before proceeding.
    Prompt,
}

/// The status code type returned by a [`Cmd`].
pub type StatusCode = i32;

/// The captured output of a [`Cmd`].
pub type Output = Vec<u8>;

/// A command to be executed, provided in `command-flags-keywords` form.
#[derive(Debug)]
pub struct Cmd {
    /// Whether a **normal admin** needs to run this command with `sudo`.
    pub sudo: bool,
    /// The "command" part of the command string, eg. `brew install`.
    pub cmd: Vec<String>,
    /// The "flags" part of the command string, eg. `--dry-run`.
    pub flags: Vec<String>,
    /// The "keywords" part of the command string, eg. `curl fish`.
    pub kws: Vec<String>,
}

/// The mathematical content of a [`Cmd`].
#[verifier::ext_equal]
pub struct CmdView {
    pub sudo: bool,
    pub cmd: Seq<Seq<char>>,
    pub flags: Seq<Seq<char>>,
    pub kws: Seq<Seq<char>>,
}

impl View for Cmd {
    type V = CmdView;

    open spec fn view(&self) -> CmdView {
        CmdView {
            sudo: self.sudo,
            cmd: views(self.cmd@),
            flags: views(self.flags@),
            kws: views(self.kws@),
        }
    }
}

/// The words of a command: the command part, then the flags, then the
/// keywords. Flags come before keywords because some package managers (eg.
/// `zypper`) accept `install -y curl` but not `install curl -y`.
pub open spec fn cmd_words(c: CmdView) -> Seq<Seq<char>> {
    c.cmd + c.flags + c.kws
}

/// Whether the command actually needs `sudo -S`: a normal admin needs `sudo`
/// for it, and the current user is not root.
pub open spec fn needs_sudo(c: CmdView, root: bool) -> bool {
    c.sudo && !root
}

/// The program and its arguments, as handed to the operating system.
pub open spec fn cmd_argv(c: CmdView, root: bool) -> Seq<Seq<char>> {
    if needs_sudo(c, root) {
        seq!["sudo"@, "-S"@] + cmd_words(c)
    } else {
        cmd_words(c)
    }
}

/// The command as shown to the user.
pub open spec fn cmd_display(c: CmdView, root: bool) -> Seq<char> {
    (if needs_sudo(c, root) { "sudo -S "@ } else { Seq::empty() }) + join(cmd_words(c), " "@)
}

/// Reports whether the current user is root.
///
/// Calls `is_root::is_root`, which compares the current user id with 0 on
/// Unix and asks for the process token elevation on Windows. The answer
/// depends on the running process, so nothing is stated of it.
#[verifier::external_body]
fn running_as_root() -> bool {
    is_root::is_root()
}

/// What the user is shown of a command is its program and arguments, joined
/// by single spaces: showing a command and running it agree.
pub proof fn rendered_command_is_joined_argv(c: CmdView, root: bool)
    requires
        cmd_words(c).len() > 0,
    ensures
        cmd_display(c, root) == join(cmd_argv(c, root), " "@),
{
    if needs_sudo(c, root) {
        let pre = seq!["sudo"@, "-S"@];
        lemma_join_append(pre, cmd_words(c), " "@);
        reveal_strlit("sudo");
        reveal_strlit("-S");
        reveal_strlit(" ");
        reveal_strlit("sudo -S ");
        assert(pre.drop_last() =~= seq!["sudo"@]);
        assert(join(seq!["sudo"@], " "@) == "sudo"@);
        assert(pre.last() == "-S"@);
        assert(join(pre, " "@) =~= "sudo"@ + " "@ + "-S"@);
        assert("sudo -S "@ =~= join(pre, " "@) + " "@);
    } else {
        assert(Seq::<char>::empty() + join(cmd_words(c), " "@) =~= join(cmd_words(c), " "@));
    }
}

impl Clone for Cmd {
    fn clone(&self) -> (res: Self)
        ensures
            res@ == self@,
    {
        Cmd {
            sudo: self.sudo,
            cmd: clone_strings(&self.cmd),
            flags: clone_strings(&self.flags),
            kws: clone_strings(&self.kws),
        }
    }
}

impl Cmd {
    /// Makes a new [`Cmd`] instance with the given command part.
    pub fn new(cmd: &[&str]) -> (res: Self)
        ensures
            res@.cmd == str_views(cmd@),
            res@.flags == Seq::<Seq<char>>::empty(),
            res@.kws == Seq::<Seq<char>>::empty(),
            !res.sudo,
    {
        let res = Cmd { sudo: false, cmd: to_strings(cmd), flags: Vec::new(), kws: Vec::new() };
        assert(views(res.flags@) =~= Seq::<Seq<char>>::empty());
        assert(views(res.kws@) =~= Seq::<Seq<char>>::empty());
        res
    }

    /// Makes a new [`Cmd`] instance with the given command part, setting
    /// `sudo` to `true`.
    pub fn with_sudo(cmd: &[&str]) -> (res: Self)
        ensures
            res@.cmd == str_views(cmd@),
            res@.flags == Seq::<Seq<char>>::empty(),
            res@.kws == Seq::<Seq<char>>::empty(),
            res.sudo,
    {
        Cmd::new(cmd).sudo(true)
    }

    /// Makes a new [`Cmd`] instance whose command part is given as owned
    /// strings.
    pub fn from_words(cmd: Vec<String>) -> (res: Self)
        ensures
            res@.cmd == views(cmd@),
            res@.flags == Seq::<Seq<char>>::empty(),
            res@.kws == Seq::<Seq<char>>::empty(),
            !res.sudo,
    {
        let res = Cmd { sudo: false, cmd, flags: Vec::new(), kws: Vec::new() };
        assert(views(res.flags@) =~= Seq::<Seq<char>>::empty());
        assert(views(res.kws@) =~= Seq::<Seq<char>>::empty());
        res
    }

    /// Overrides the flags.
    pub fn flags(self, flags: &[&str]) -> (res: Self)
        ensures
            res@ == (CmdView { flags: str_views(flags@), ..self@ }),
    {
        Cmd { flags: to_strings(flags), ..self }
    }

    /// Overrides the keywords.
    pub fn kws(self, kws: &[&str]) -> (res: Self)
        ensures
            res@ == (CmdView { kws: str_views(kws@), ..self@ }),
    {
        Cmd { kws: to_strings(kws), ..self }
    }

    /// Overrides the keywords with owned strings.
    pub fn kws_owned(self, kws: Vec<String>) -> (res: Self)
        ensures
            res@ == (CmdView { kws: views(kws@), ..self@ }),
    {
        Cmd { kws, ..self }
    }

    /// Overrides the value of `sudo`.
    pub fn sudo(self, sudo: bool) -> (res: Self)
        ensures
            res@ == (CmdView { sudo, ..self@ }),
    {
        Cmd { sudo, ..self }
    }

    /// Appends more flags after the current ones.
    pub fn extend_flags(&mut self, more: &Vec<String>)
        ensures
            final(self)@ == (CmdView { flags: old(self)@.flags + views(more@), ..old(self)@ }),
    {
        extend_strings(&mut self.flags, more);
    }

    /// Determines if this command actually needs to run with `sudo -S`, given
    /// whether the current user is root.
    pub fn should_sudo_as(&self, root: bool) -> (res: bool)
        ensures
            res == needs_sudo(self@, root),
    {
        self.sudo && !root
    }

    /// Determines if this command actually needs to run with `sudo -S`: if a
    /// **normal admin** needs to run it with `sudo`, and we are not `root`.
    pub fn should_sudo(&self) -> (res: bool)
        ensures
            res ==> self.sudo,
    {
        let root = running_as_root();
        self.should_sudo_as(root)
    }

    /// All the words of the command: command part, flags, then keywords.
    pub fn words(&self) -> (res: Vec<String>)
        ensures
            views(res@) == cmd_words(self@),
    {
        let mut res = clone_strings(&self.cmd);
        extend_strings(&mut res, &self.flags);
        extend_strings(&mut res, &self.kws);
        res
    }

    /// The program and its arguments to hand to the operating system, given
    /// whether the current user is root: with `sudo -S` in front when
    /// [`Cmd::should_sudo_as`] holds. Without `sudo`, the first word of the
    /// command part is the program, so that part may not be empty.
    pub fn argv(&self, root: bool) -> (res: Vec<String>)
        requires
            needs_sudo(self@, root) || self@.cmd.len() > 0,
        ensures
            res@.len() > 0,
            views(res@) == cmd_argv(self@, root),
    {
        let words = self.words();
        let res = if self.should_sudo_as(root) {
            let mut res = to_strings(&["sudo", "-S"]);
            extend_strings(&mut res, &words);
            proof {
                assert(str_views(seq!["sudo", "-S"]) =~= seq!["sudo"@, "-S"@]);
            }
            res
        } else {
            words
        };
        proof {
            assert(views(res@).len() == res@.len());
            assert(cmd_argv(self@, root).len() > 0);
        }
        res
    }

    /// The command as shown to the user, given whether the current user is
    /// root.
    pub fn render(&self, root: bool) -> (res: String)
        ensures
            res@ == cmd_display(self@, root),
    {
        let words = self.words();
        let joined = join_strings(&words, " ");
        if self.should_sudo_as(root) {
            let res = String::from_str("sudo -S ").concat(joined.as_str());
            res
        } else {
            assert(Seq::<char>::empty() + joined@ =~= joined@);
            joined
        }
    }
}

/// What executing a command in a [`Mode`] amounts to.
pub enum Execution {
    /// The command is shown after the `Canceled` prompt and does not run.
    ShowOnly,
    /// The command runs. When `announce` holds, it is first shown after the
    /// `Running` prompt. Its output is collected from both `stdout` and
    /// `stderr` when `merge` holds, otherwise from `stderr` alone, and it is
    /// echoed unless `mute` holds.
    Run { announce: bool, merge: bool, mute: bool },
    /// The user is asked whether to run the command first.
    Ask,
}

/// What executing a command in the given mode amounts to.
pub open spec fn spec_execution(mode: Mode) -> Execution {
    match mode {
        Mode::PrintCmd => Execution::ShowOnly,
        Mode::Mute => Execution::Run { announce: false, merge: true, mute: true },
        Mode::CheckAll => Execution::Run { announce: true, merge: true, mute: false },
        Mode::CheckErr => Execution::Run { announce: true, merge: false, mute: false },
        Mode::Prompt => Execution::Ask,
    }
}

/// What executing a command in the given mode amounts to.
pub fn execution(mode: Mode) -> (res: Execution)
    ensures
        res == spec_execution(mode),
{
    match mode {
        Mode::PrintCmd => Execution::ShowOnly,
        Mode::Mute => Execution::Run { announce: false, merge: true, mute: true },
        Mode::CheckAll => Execution::Run { announce: true, merge: true, mute: false },
        Mode::CheckErr => Execution::Run { announce: true, merge: false, mute: false },
        Mode::Prompt => Execution::Ask,
    }
}

/// The choices offered when asking whether to run a command, in order.
pub const ANSWERS: [&'static str; 3] = ["Yes", "All", "No"];

/// The state of the questions asked before commands run: whether the user
/// has answered `All`, that is, yes to every question that follows.
pub struct Questions {
    pub all: bool,
}

impl Questions {
    /// No question answered yet.
    pub fn new() -> (res: Self)
        ensures
            !res.all,
    {
        Questions { all: false }
    }

    /// Whether the user is to be asked before the next command runs: only
    /// while `All` has not been answered.
    pub fn asks(&self) -> (res: bool)
        ensures
            res == !self.all,
    {
        !self.all
    }

    /// Takes the index of the answer chosen among [`ANSWERS`] and tells
    /// whether the command runs: `Yes` (the default) and `All` run it, `No`
    /// does not; `All` also answers yes to every question that follows.
    pub fn answer(&mut self, choice: usize) -> (proceed: bool)
        requires
            choice < 3,
        ensures
            proceed == (choice != 2),
            final(self).all == (old(self).all || choice == 1),
    {
        if choice == 1 {
            self.all = true;
        }
        choice != 2
    }
}

/// What executing a command comes to, once the question asked before it,
/// if any, is answered.
pub enum Outcome {
    /// The command does not run, and this is its output.
    NotRun(Output),
    /// The command runs. When `announce` holds, it is first shown after the
    /// `Running` prompt. Its output is collected from both `stdout` and
    /// `stderr` when `merge` holds, otherwise from `stderr` alone, and it is
    /// echoed unless `mute` holds.
    Spawn { announce: bool, merge: bool, mute: bool },
}

impl Questions {
    /// What executing a command in `mode` comes to. `choice` is the index,
    /// among [`ANSWERS`], of the answer to the question asked before a
    /// prompted command, which is asked only while [`Questions::asks`]
    /// holds.
    ///
    /// A command that is only shown (a dry run) does not run, and its output
    /// is empty. A prompted command runs, shown and with its errors
    /// collected, unless the question was asked and answered `No`: then it
    /// does not run, and its output is empty. `All` answers yes to every
    /// question that follows. The other modes run the command as
    /// [`execution`] says: silently, or shown first with both streams or
    /// its errors alone collected.
    pub fn outcome(&mut self, mode: Mode, choice: Option<usize>) -> (res: Outcome)
        requires
            choice matches Some(c) ==> c < 3,
            mode == Mode::Prompt && !old(self).all ==> choice is Some,
        ensures
            mode == Mode::PrintCmd ==> (res matches Outcome::NotRun(o) && o@ == Seq::<u8>::empty()),
            mode == Mode::Mute ==> res == (Outcome::Spawn { announce: false, merge: true, mute: true }),
            mode == Mode::CheckAll ==> res == (Outcome::Spawn { announce: true, merge: true, mute: false }),
            mode == Mode::CheckErr ==> res == (Outcome::Spawn { announce: true, merge: false, mute: false }),
            mode == Mode::Prompt && old(self).all ==> res == (Outcome::Spawn { announce: true, merge: false, mute: false }),
            mode == Mode::Prompt && !old(self).all ==> (choice == Some(2usize) ==> (res matches Outcome::NotRun(o) && o@ == Seq::<u8>::empty())),
            mode == Mode::Prompt && !old(self).all ==> (choice != Some(2usize) ==> res == (Outcome::Spawn { announce: true, merge: false, mute: false })),
            final(self).all == (old(self).all || (mode == Mode::Prompt && !old(self).all && choice == Some(1usize))),
    {
        match execution(mode) {
            Execution::ShowOnly => Outcome::NotRun(Vec::new()),
            Execution::Run { announce, merge, mute } => Outcome::Spawn { announce, merge, mute },
            Execution::Ask => {
                let proceed = if self.asks() {
                    match choice {
                        Some(c) => self.answer(c),
                        None => true,
                    }
                } else {
                    true
                };
                if proceed {
                    Outcome::Spawn { announce: true, merge: false, mute: false }
                } else {
                    Outcome::NotRun(Vec::new())
                }
            },
        }
    }
}

} // verus!
