//! Command line options and how they select a `pacman` method.
//!
//! The options collected from the command line become a string of flags in
//! ASCII order, eg. `-S -y -u` becomes `Suy`, whose lowercase form names the
//! method to call, eg. `suy`.

use vstd::prelude::*;

use crate::config::{is_default, opt_str_view, Config};
use crate::error::{Error, Result};
use crate::pm::{method_name, Method};
use crate::select::{
    checks_gave, detect_among, is_macos, opt_candidates, opt_pm_kind_named, spec_opt_candidates,
    spec_opt_pm_kind, spec_pick, Os, Platform, PmKind,
};
use crate::strings::push_char;

verus! {

/// `n` copies of the character `c`.
pub open spec fn repeat(c: char, n: nat) -> Seq<char>
    decreases n,
{
    if n == 0 {
        Seq::empty()
    } else {
        repeat(c, (n - 1) as nat).push(c)
    }
}

/// `c` once if `b` holds, otherwise nothing.
pub open spec fn flag(c: char, b: bool) -> Seq<char> {
    if b { seq![c] } else { Seq::empty() }
}

/// The ASCII lowercase form of a character.
pub open spec fn lower(c: char) -> char {
    if 'A' <= c && c <= 'Z' { ((c as u32) + 32) as char } else { c }
}

/// The ASCII lowercase form of each character.
pub open spec fn lower_seq(s: Seq<char>) -> Seq<char> {
    s.map_values(|c: char| lower(c))
}

/// Characters in ASCII order.
pub open spec fn is_sorted(s: Seq<char>) -> bool {
    forall|i: int, j: int| 0 <= i <= j < s.len() ==> (s[i] as u32) <= (s[j] as u32)
}

/// The method whose name is `name`, if any.
pub open spec fn method_named(n: Seq<char>) -> Option<Method> {
    if n.len() == 1 {
        if n[0] == 'q' {
            Some(Method::Q)
        } else if n[0] == 'r' {
            Some(Method::R)
        } else if n[0] == 's' {
            Some(Method::S)
        } else if n[0] == 'u' {
            Some(Method::U)
        } else {
            None
        }
    } else if n.len() == 2 && n[0] == 'q' {
        if n[1] == 'c' {
            Some(Method::Qc)
        } else if n[1] == 'e' {
            Some(Method::Qe)
        } else if n[1] == 'i' {
            Some(Method::Qi)
        } else if n[1] == 'k' {
            Some(Method::Qk)
        } else if n[1] == 'l' {
            Some(Method::Ql)
        } else if n[1] == 'm' {
            Some(Method::Qm)
        } else if n[1] == 'o' {
            Some(Method::Qo)
        } else if n[1] == 'p' {
            Some(Method::Qp)
        } else if n[1] == 's' {
            Some(Method::Qs)
        } else if n[1] == 'u' {
            Some(Method::Qu)
        } else {
            None
        }
    } else if n.len() == 2 && n[0] == 'r' {
        if n[1] == 'n' {
            Some(Method::Rn)
        } else if n[1] == 's' {
            Some(Method::Rs)
        } else {
            None
        }
    } else if n.len() == 2 && n[0] == 's' {
        if n[1] == 'c' {
            Some(Method::Sc)
        } else if n[1] == 'g' {
            Some(Method::Sg)
        } else if n[1] == 'i' {
            Some(Method::Si)
        } else if n[1] == 'l' {
            Some(Method::Sl)
        } else if n[1] == 's' {
            Some(Method::Ss)
        } else if n[1] == 'u' {
            Some(Method::Su)
        } else if n[1] == 'w' {
            Some(Method::Sw)
        } else if n[1] == 'y' {
            Some(Method::Sy)
        } else {
            None
        }
    } else if n.len() == 3 {
        if n[0] == 'q' && n[1] == 'i' && n[2] == 'i' {
            Some(Method::Qii)
        } else if n[0] == 'r' && n[1] == 'n' && n[2] == 's' {
            Some(Method::Rns)
        } else if n[0] == 'r' && n[1] == 's' && n[2] == 's' {
            Some(Method::Rss)
        } else if n[0] == 's' && n[1] == 'c' && n[2] == 'c' {
            Some(Method::Scc)
        } else if n[0] == 's' && n[1] == 'i' && n[2] == 'i' {
            Some(Method::Sii)
        } else if n[0] == 's' && n[1] == 'u' && n[2] == 'y' {
            Some(Method::Suy)
        } else {
            None
        }
    } else if n.len() == 4 && n[0] == 's' && n[1] == 'c' && n[2] == 'c' && n[3] == 'c' {
        Some(Method::Sccc)
    } else {
        None
    }
}

/// Each method is found by its name, and only by it: [`method_named`] is
/// the inverse of [`method_name`].
pub proof fn method_named_inverts_method_name(m: Method, n: Seq<char>)
    ensures
        method_named(method_name(m)) == Some(m),
        method_named(n) == Some(m) ==> n == method_name(m),
{
    if method_named(n) == Some(m) {
        assert(n =~= method_name(m));
    }
}

/// The method whose name is exactly the given characters, if any.
pub fn method_from_name(n: &Vec<char>) -> (res: Option<Method>)
    ensures
        res == method_named(n@),
{
    let len = n.len();
    if len == 1 {
        let a = n[0];
        if a == 'q' {
            Some(Method::Q)
        } else if a == 'r' {
            Some(Method::R)
        } else if a == 's' {
            Some(Method::S)
        } else if a == 'u' {
            Some(Method::U)
        } else {
            None
        }
    } else if len == 2 && n[0] == 'q' {
        let b = n[1];
        if b == 'c' {
            Some(Method::Qc)
        } else if b == 'e' {
            Some(Method::Qe)
        } else if b == 'i' {
            Some(Method::Qi)
        } else if b == 'k' {
            Some(Method::Qk)
        } else if b == 'l' {
            Some(Method::Ql)
        } else if b == 'm' {
            Some(Method::Qm)
        } else if b == 'o' {
            Some(Method::Qo)
        } else if b == 'p' {
            Some(Method::Qp)
        } else if b == 's' {
            Some(Method::Qs)
        } else if b == 'u' {
            Some(Method::Qu)
        } else {
            None
        }
    } else if len == 2 && n[0] == 'r' {
        let b = n[1];
        if b == 'n' {
            Some(Method::Rn)
        } else if b == 's' {
            Some(Method::Rs)
        } else {
            None
        }
    } else if len == 2 && n[0] == 's' {
        let b = n[1];
        if b == 'c' {
            Some(Method::Sc)
        } else if b == 'g' {
            Some(Method::Sg)
        } else if b == 'i' {
            Some(Method::Si)
        } else if b == 'l' {
            Some(Method::Sl)
        } else if b == 's' {
            Some(Method::Ss)
        } else if b == 'u' {
            Some(Method::Su)
        } else if b == 'w' {
            Some(Method::Sw)
        } else if b == 'y' {
            Some(Method::Sy)
        } else {
            None
        }
    } else if len == 3 {
        let (a, b, c) = (n[0], n[1], n[2]);
        if a == 'q' && b == 'i' && c == 'i' {
            Some(Method::Qii)
        } else if a == 'r' && b == 'n' && c == 's' {
            Some(Method::Rns)
        } else if a == 'r' && b == 's' && c == 's' {
            Some(Method::Rss)
        } else if a == 's' && b == 'c' && c == 'c' {
            Some(Method::Scc)
        } else if a == 's' && b == 'i' && c == 'i' {
            Some(Method::Sii)
        } else if a == 's' && b == 'u' && c == 'y' {
            Some(Method::Suy)
        } else {
            None
        }
    } else if len == 4 && n[0] == 's' && n[1] == 'c' && n[2] == 'c' && n[3] == 'c' {
        Some(Method::Sccc)
    } else {
        None
    }
}

/// `1` if `b` holds, otherwise `0`.
pub open spec fn count(b: bool) -> u32 {
    if b { 1 } else { 0 }
}

/// `1` if `b` holds, otherwise `0`.
fn count_of(b: bool) -> (res: u32)
    ensures
        res == count(b),
{
    if b { 1 } else { 0 }
}

/// The flag letters, each repeated as many times as it was given, in the
/// order of the list.
pub open spec fn expand(pairs: Seq<(char, u32)>) -> Seq<char>
    decreases pairs.len(),
{
    if pairs.len() == 0 {
        Seq::empty()
    } else {
        expand(pairs.drop_last()) + repeat(pairs.last().0, pairs.last().1 as nat)
    }
}

/// Appends the flags of each pair to both the string and the character list.
fn push_flags(s: &mut String, v: &mut Vec<char>, pairs: &Vec<(char, u32)>)
    ensures
        final(s)@ == old(s)@ + expand(pairs@),
        final(v)@ == old(v)@ + expand(pairs@),
{
    let ghost s0 = s@;
    let ghost v0 = v@;
    let mut i: usize = 0;
    while i < pairs.len()
        invariant
            i <= pairs@.len(),
            s@ == s0 + expand(pairs@.take(i as int)),
            v@ == v0 + expand(pairs@.take(i as int)),
        decreases pairs@.len() - i,
    {
        let (c, n) = pairs[i];
        let ghost s1 = s@;
        let ghost v1 = v@;
        let mut k: u32 = 0;
        while k < n
            invariant
                k <= n,
                s@ == s1 + repeat(c, k as nat),
                v@ == v1 + repeat(c, k as nat),
            decreases n - k,
        {
            push_char(s, c);
            v.push(c);
            proof {
                assert(s1 + repeat(c, (k + 1) as nat) =~= (s1 + repeat(c, k as nat)).push(c));
                assert(v1 + repeat(c, (k + 1) as nat) =~= (v1 + repeat(c, k as nat)).push(c));
            }
            k = k + 1;
        }
        proof {
            assert(pairs@.take(i + 1).drop_last() =~= pairs@.take(i as int));
            assert(pairs@.take(i + 1).last() == (c, n));
            assert(s0 + expand(pairs@.take(i + 1)) =~= s0 + expand(pairs@.take(i as int)) + repeat(c, n as nat));
            assert(v0 + expand(pairs@.take(i + 1)) =~= v0 + expand(pairs@.take(i as int)) + repeat(c, n as nat));
        }
        i = i + 1;
    }
    proof {
        assert(pairs@.take(pairs@.len() as int) =~= pairs@);
    }
}

/// The operations of `pacman`, with their flags and flag counters.
///
/// For details on operations, flags and flag counters, see:
/// <https://www.archlinux.org/pacman/pacman.8.html>
#[derive(Debug)]
pub enum Operations {
    /// Query the package database.
    Query { c: bool, e: bool, i: u8, k: bool, l: bool, m: bool, o: bool, p: bool, s: bool, u: bool },
    /// Remove package(s) from the system.
    Remove { n: bool, p: bool, s: u8 },
    /// Synchronize packages.
    Sync { c: u8, g: bool, i: u8, l: bool, p: bool, s: bool, u: bool, w: bool, y: bool },
    /// Upgrade or add package(s) to the system.
    Update { p: bool },
}

/// The flag letters of an operation with the number of times each was
/// given, in ASCII order. The `p` (print) flag of `-R`, `-S` and `-U` is not
/// among them: it asks for a dry run instead.
pub open spec fn spec_flag_counts(ops: Operations) -> Seq<(char, u32)> {
    match ops {
        Operations::Query { c, e, i, k, l, m, o, p, s, u } => Seq::empty().push(('c', count(c))).push(('e', count(e))).push(('i', i as u32)).push(('k', count(k))).push(('l', count(l))).push(('m', count(m))).push(('o', count(o))).push(('p', count(p))).push(('s', count(s))).push(('u', count(u))),
        Operations::Remove { n, p, s } => Seq::empty().push(('n', count(n))).push(('s', s as u32)),
        Operations::Sync { c, g, i, l, p, s, u, w, y } => Seq::empty().push(('c', c as u32)).push(('g', count(g))).push(('i', i as u32)).push(('l', count(l))).push(('s', count(s))).push(('u', count(u))).push(('w', count(w))).push(('y', count(y))),
        Operations::Update { p } => Seq::empty(),
    }
}

/// The flags of an operation after its letter, in ASCII order.
pub open spec fn spec_flags(ops: Operations) -> Seq<char> {
    expand(spec_flag_counts(ops))
}

/// The letter of an operation, eg. `S` for `-S`.
pub open spec fn spec_op_letter(ops: Operations) -> char {
    match ops {
        Operations::Query { .. } => 'Q',
        Operations::Remove { .. } => 'R',
        Operations::Sync { .. } => 'S',
        Operations::Update { .. } => 'U',
    }
}

/// The options collected as a string in ASCII order, eg. `-S -y -u` gives
/// `Suy`: the uppercase operation letter comes before the lowercase flags.
pub open spec fn spec_options(ops: Operations) -> Seq<char> {
    seq![spec_op_letter(ops)] + spec_flags(ops)
}

/// Whether the operation asks for a dry run with its `p` (print) flag.
pub open spec fn spec_print_only(ops: Operations) -> bool {
    match ops {
        Operations::Query { .. } => false,
        Operations::Remove { p, .. } => p,
        Operations::Sync { p, .. } => p,
        Operations::Update { p } => p,
    }
}

/// The command line options to be collected.
#[derive(Debug)]
pub struct Pacaptr {
    /// The `pacman` operation and its flags.
    pub ops: Operations,
    /// Specify the package manager to be invoked.
    pub using: Option<String>,
    /// Perform a dry run.
    pub dry_run: bool,
    /// Prevent reinstalling previously installed packages.
    pub needed: bool,
    /// Answer yes to every question.
    pub no_confirm: bool,
    /// Remove cache after installation.
    pub no_cache: bool,
    /// Suppress log output.
    pub quiet: bool,
    /// Package name or (sometimes) regex.
    pub keywords: Vec<String>,
    /// Extra flags passed directly to backend.
    pub extra_flags: Vec<String>,
}

/// The message of the error for a flag combination that names no method.
pub open spec fn invalid_combination_msg(options: Seq<char>) -> Seq<char> {
    "invalid flag combination `-"@ + options + "`"@
}

impl Pacaptr {
    /// The [`Config`] given by the current command line arguments.
    pub fn cfg(&self) -> (res: Config)
        ensures
            res.dry_run == self.dry_run,
            res.needed == self.needed,
            res.no_confirm == self.no_confirm,
            res.no_cache == self.no_cache,
            res.quiet == (if self.quiet { Some(true) } else { None::<bool> }),
            opt_str_view(res.default_pm) == opt_str_view(self.using),
    {
        Config {
            dry_run: self.dry_run,
            needed: self.needed,
            no_confirm: self.no_confirm,
            no_cache: self.no_cache,
            quiet: if self.quiet { Some(true) } else { None },
            default_pm: match &self.using {
                Some(s) => Some(s.clone()),
                None => None,
            },
        }
    }

    /// The flag letters of the operation with the number of times each was
    /// given, in ASCII order.
    pub fn flag_counts(&self) -> (res: Vec<(char, u32)>)
        ensures
            res@ == spec_flag_counts(self.ops),
    {
        let b = |x: bool| -> (r: u32)
            ensures
                r == count(x),
            { if x { 1u32 } else { 0u32 } };
        let res = match &self.ops {
            Operations::Query { c, e, i, k, l, m, o, p, s, u } => vec![
                ('c', b(*c)),
                ('e', b(*e)),
                ('i', *i as u32),
                ('k', b(*k)),
                ('l', b(*l)),
                ('m', b(*m)),
                ('o', b(*o)),
                ('p', b(*p)),
                ('s', b(*s)),
                ('u', b(*u)),
            ],
            Operations::Remove { n, p, s } => vec![('n', b(*n)), ('s', *s as u32)],
            Operations::Sync { c, g, i, l, p, s, u, w, y } => vec![
                ('c', *c as u32),
                ('g', b(*g)),
                ('i', *i as u32),
                ('l', b(*l)),
                ('s', b(*s)),
                ('u', b(*u)),
                ('w', b(*w)),
                ('y', b(*y)),
            ],
            Operations::Update { p } => Vec::new(),
        };
        assert(res@ =~= spec_flag_counts(self.ops));
        res
    }

    /// The options collected as a string in ASCII order (eg. `Suy`), and the
    /// same with the operation letter in lowercase (eg. `suy`), which is the
    /// name of the method to call.
    pub fn options(&self) -> (res: (String, Vec<char>))
        ensures
            res.0@ == spec_options(self.ops),
            res.1@ == seq![lower(spec_op_letter(self.ops))] + spec_flags(self.ops),
    {
        let mut s = String::new();
        let mut v: Vec<char> = Vec::new();
        let (upper, low) = match &self.ops {
            Operations::Query { .. } => ('Q', 'q'),
            Operations::Remove { .. } => ('R', 'r'),
            Operations::Sync { .. } => ('S', 's'),
            Operations::Update { .. } => ('U', 'u'),
        };
        push_char(&mut s, upper);
        v.push(low);
        let pairs = self.flag_counts();
        push_flags(&mut s, &mut v, &pairs);
        proof {
            assert(seq![upper] =~= Seq::<char>::empty().push(upper));
            assert(seq![low] =~= Seq::<char>::empty().push(low));
        }
        (s, v)
    }

    /// Decides what the current command line asks for, given the
    /// configuration merged so far: the configuration to run with (with a dry
    /// run when the operation's `p` flag asks for it) and the method to call,
    /// or an [`Error::ArgParseError`] when the flags name no method.
    pub fn dispatch_from(&self, cfg: Config) -> (res: (Config, Result<Method>))
        ensures
            res.0 == (Config { dry_run: cfg.dry_run || spec_print_only(self.ops), ..cfg }),
            self.ops matches Operations::Remove { p, .. } ==> res.0.dry_run == (cfg.dry_run || p),
            self.ops matches Operations::Sync { p, .. } ==> res.0.dry_run == (cfg.dry_run || p),
            self.ops matches Operations::Update { p } ==> res.0.dry_run == (cfg.dry_run || p),
            self.ops is Query ==> res.0.dry_run == cfg.dry_run,
            method_named(lower_seq(spec_options(self.ops))) matches Some(m) ==> res.1 == Ok::<Method, Error>(m),
            method_named(lower_seq(spec_options(self.ops))) is None ==> (res.1 matches Err(Error::ArgParseError { msg }) && msg@ == invalid_combination_msg(spec_options(self.ops))),
    {
        let print_only = match &self.ops {
            Operations::Query { .. } => false,
            Operations::Remove { p, .. } => *p,
            Operations::Sync { p, .. } => *p,
            Operations::Update { p } => *p,
        };
        let cfg = Config { dry_run: cfg.dry_run || print_only, ..cfg };
        let (options, name) = self.options();
        proof {
            lemma_lower_options(self.ops);
        }
        match method_from_name(&name) {
            Some(m) => (cfg, Ok(m)),
            None => {
                let msg = String::from_str("invalid flag combination `-").concat(options.as_str()).concat("`");
                (cfg, Err(Error::ArgParseError { msg }))
            },
        }
    }
}

/// The `p` (print) flag of `-R`, `-S` and `-U` asks for a dry run, and
/// nothing else does: `-Q` has no such meaning for its `p`.
pub proof fn print_flag_asks_for_a_dry_run(ops: Operations)
    ensures
        spec_print_only(ops) <==> (
            (ops matches Operations::Remove { p, .. } && p)
            || (ops matches Operations::Sync { p, .. } && p)
            || (ops matches Operations::Update { p } && p)
        ),
        ops is Query ==> !spec_print_only(ops),
{
}

/// Lowercase letters stay as they are.
proof fn lemma_lower_expand(pairs: Seq<(char, u32)>)
    requires
        forall|k: int| 0 <= k < pairs.len() ==> 'a' <= #[trigger] pairs[k].0 <= 'z',
    ensures
        lower_seq(expand(pairs)) == expand(pairs),
    decreases pairs.len(),
{
    if pairs.len() > 0 {
        let init = pairs.drop_last();
        assert forall|k: int| 0 <= k < init.len() implies 'a' <= #[trigger] init[k].0 <= 'z' by {
            assert(init[k] == pairs[k]);
        }
        lemma_lower_expand(init);
        let (c, n) = pairs.last();
        assert forall|j: int| 0 <= j < repeat(c, n as nat).len() implies lower(repeat(c, n as nat)[j]) == repeat(c, n as nat)[j] by {
            lemma_repeat_index(c, n as nat, j);
        }
        assert(lower_seq(expand(pairs)) =~= expand(pairs));
    }
}

/// The lowercase form of the options is the lowercase operation letter
/// followed by the flags.
pub proof fn lemma_lower_options(ops: Operations)
    ensures
        lower_seq(spec_options(ops)) == seq![lower(spec_op_letter(ops))] + spec_flags(ops),
{
    let pairs = spec_flag_counts(ops);
    assert forall|k: int| 0 <= k < pairs.len() implies 'a' <= #[trigger] pairs[k].0 <= 'z' by {}
    lemma_lower_expand(pairs);
    assert(lower_seq(spec_options(ops)) =~= seq![lower(spec_op_letter(ops))] + spec_flags(ops));
}

/// Every character of `repeat(c, n)` is `c`, and there are `n` of them.
pub proof fn lemma_repeat_index(c: char, n: nat, j: int)
    ensures
        repeat(c, n).len() == n,
        0 <= j < n ==> repeat(c, n)[j] == c,
    decreases n,
{
    if n > 0 {
        lemma_repeat_index(c, (n - 1) as nat, j);
    }
}

/// The letters of `expand(pairs)` are among the letters of the pairs, and
/// they come in ASCII order when the letters of the pairs do.
proof fn lemma_expand_sorted(pairs: Seq<(char, u32)>)
    requires
        forall|i: int, j: int| 0 <= i < j < pairs.len() ==> (pairs[i].0 as u32) < (pairs[j].0 as u32),
    ensures
        is_sorted(expand(pairs)),
        forall|k: int| 0 <= k < expand(pairs).len() ==> exists|t: int| 0 <= t < pairs.len() && #[trigger] expand(pairs)[k] == pairs[t].0,
    decreases pairs.len(),
{
    if pairs.len() > 0 {
        let init = pairs.drop_last();
        lemma_expand_sorted(init);
        let (c, n) = pairs.last();
        let e0 = expand(init);
        let r = repeat(c, n as nat);
        let e = expand(pairs);
        assert(e == e0 + r);
        assert forall|j: int| 0 <= j < r.len() implies #[trigger] r[j] == c by {
            lemma_repeat_index(c, n as nat, j);
        }
        assert forall|k: int| 0 <= k < e0.len() implies (#[trigger] e0[k] as u32) < (c as u32) by {
            let t = choose|t: int| 0 <= t < init.len() && e0[k] == init[t].0;
            assert(init[t] == pairs[t]);
        }
        assert forall|i: int, j: int| 0 <= i <= j < e.len() implies (e[i] as u32) <= (e[j] as u32) by {
            if j < e0.len() {
            } else if i < e0.len() {
                assert(e[i] == e0[i]);
                assert(e[j] == r[j - e0.len()]);
            } else {
                assert(e[i] == r[i - e0.len()]);
                assert(e[j] == r[j - e0.len()]);
            }
        }
        assert forall|k: int| 0 <= k < e.len() implies exists|t: int| 0 <= t < pairs.len() && #[trigger] e[k] == pairs[t].0 by {
            if k < e0.len() {
                let t = choose|t: int| 0 <= t < init.len() && e0[k] == init[t].0;
                assert(init[t] == pairs[t]);
                assert(e[k] == pairs[t].0);
            } else {
                assert(e[k] == r[k - e0.len()]);
                assert(e[k] == pairs[pairs.len() - 1].0);
            }
        }
    }
}

/// The collected options come in ASCII order: the operation letter, then
/// the flags. This is the order in which the methods are named, eg. `Suy`
/// for `-Syu`.
pub proof fn options_are_in_ascii_order(ops: Operations)
    ensures
        is_sorted(spec_options(ops)),
{
    let pairs = spec_flag_counts(ops);
    lemma_expand_sorted(pairs);
    let f = spec_flags(ops);
    let o = spec_options(ops);
    assert forall|k: int| 0 <= k < f.len() implies (spec_op_letter(ops) as u32) < (#[trigger] f[k] as u32) by {
        let t = choose|t: int| 0 <= t < pairs.len() && f[k] == pairs[t].0;
    }
    assert forall|i: int, j: int| 0 <= i <= j < o.len() implies (o[i] as u32) <= (o[j] as u32) by {
        if i == 0 {
            if j > 0 {
                assert(o[j] == f[j - 1]);
            }
        } else {
            assert(o[i] == f[i - 1]);
            assert(o[j] == f[j - 1]);
        }
    }
}

/// The flags that select a method, eg. `-Syu` for `suy`.
pub open spec fn operation_for(m: Method) -> Operations {
    match m {
        Method::Q => Operations::Query { c: false, e: false, i: 0, k: false, l: false, m: false, o: false, p: false, s: false, u: false },
        Method::Qc => Operations::Query { c: true, e: false, i: 0, k: false, l: false, m: false, o: false, p: false, s: false, u: false },
        Method::Qe => Operations::Query { c: false, e: true, i: 0, k: false, l: false, m: false, o: false, p: false, s: false, u: false },
        Method::Qi => Operations::Query { c: false, e: false, i: 1, k: false, l: false, m: false, o: false, p: false, s: false, u: false },
        Method::Qii => Operations::Query { c: false, e: false, i: 2, k: false, l: false, m: false, o: false, p: false, s: false, u: false },
        Method::Qk => Operations::Query { c: false, e: false, i: 0, k: true, l: false, m: false, o: false, p: false, s: false, u: false },
        Method::Ql => Operations::Query { c: false, e: false, i: 0, k: false, l: true, m: false, o: false, p: false, s: false, u: false },
        Method::Qm => Operations::Query { c: false, e: false, i: 0, k: false, l: false, m: true, o: false, p: false, s: false, u: false },
        Method::Qo => Operations::Query { c: false, e: false, i: 0, k: false, l: false, m: false, o: true, p: false, s: false, u: false },
        Method::Qp => Operations::Query { c: false, e: false, i: 0, k: false, l: false, m: false, o: false, p: true, s: false, u: false },
        Method::Qs => Operations::Query { c: false, e: false, i: 0, k: false, l: false, m: false, o: false, p: false, s: true, u: false },
        Method::Qu => Operations::Query { c: false, e: false, i: 0, k: false, l: false, m: false, o: false, p: false, s: false, u: true },
        Method::R => Operations::Remove { n: false, p: false, s: 0 },
        Method::Rn => Operations::Remove { n: true, p: false, s: 0 },
        Method::Rns => Operations::Remove { n: true, p: false, s: 1 },
        Method::Rs => Operations::Remove { n: false, p: false, s: 1 },
        Method::Rss => Operations::Remove { n: false, p: false, s: 2 },
        Method::S => Operations::Sync { c: 0, g: false, i: 0, l: false, p: false, s: false, u: false, w: false, y: false },
        Method::Sc => Operations::Sync { c: 1, g: false, i: 0, l: false, p: false, s: false, u: false, w: false, y: false },
        Method::Scc => Operations::Sync { c: 2, g: false, i: 0, l: false, p: false, s: false, u: false, w: false, y: false },
        Method::Sccc => Operations::Sync { c: 3, g: false, i: 0, l: false, p: false, s: false, u: false, w: false, y: false },
        Method::Sg => Operations::Sync { c: 0, g: true, i: 0, l: false, p: false, s: false, u: false, w: false, y: false },
        Method::Si => Operations::Sync { c: 0, g: false, i: 1, l: false, p: false, s: false, u: false, w: false, y: false },
        Method::Sii => Operations::Sync { c: 0, g: false, i: 2, l: false, p: false, s: false, u: false, w: false, y: false },
        Method::Sl => Operations::Sync { c: 0, g: false, i: 0, l: true, p: false, s: false, u: false, w: false, y: false },
        Method::Ss => Operations::Sync { c: 0, g: false, i: 0, l: false, p: false, s: true, u: false, w: false, y: false },
        Method::Su => Operations::Sync { c: 0, g: false, i: 0, l: false, p: false, s: false, u: true, w: false, y: false },
        Method::Suy => Operations::Sync { c: 0, g: false, i: 0, l: false, p: false, s: false, u: true, w: false, y: true },
        Method::Sw => Operations::Sync { c: 0, g: false, i: 0, l: false, p: false, s: false, u: false, w: true, y: false },
        Method::Sy => Operations::Sync { c: 0, g: false, i: 0, l: false, p: false, s: false, u: false, w: false, y: true },
        Method::U => Operations::Update { p: false },
    }
}

proof fn lemma_expand_push(p: Seq<(char, u32)>, c: char, n: u32)
    ensures
        n == 0 ==> expand(p.push((c, n))) == expand(p),
        n == 1 ==> expand(p.push((c, n))) == expand(p).push(c),
        n == 2 ==> expand(p.push((c, n))) == expand(p).push(c).push(c),
        n == 3 ==> expand(p.push((c, n))) == expand(p).push(c).push(c).push(c),
{
    assert(p.push((c, n)).drop_last() == p);
    reveal_with_fuel(repeat, 4);
    assert(expand(p) + Seq::<char>::empty() =~= expand(p));
    assert(expand(p) + seq![c] =~= expand(p).push(c));
    assert(expand(p) + seq![c].push(c) =~= expand(p).push(c).push(c));
    assert(expand(p) + seq![c].push(c).push(c) =~= expand(p).push(c).push(c).push(c));
}

/// Every method can be reached from the command line: the flags of
/// [`operation_for`] select it, and they ask for no dry run.
pub proof fn every_method_is_reachable(m: Method)
    ensures
        method_named(lower_seq(spec_options(operation_for(m)))) == Some(m),
        !spec_print_only(operation_for(m)),
{
    let ops = operation_for(m);
    lemma_lower_options(ops);
    match ops {
        Operations::Query { .. } => lemma_reach_query(m),
        Operations::Remove { .. } => lemma_reach_remove(m),
        Operations::Sync { .. } => lemma_reach_sync(m),
        Operations::Update { .. } => lemma_reach_update(m),
    }
    let n = seq![lower(spec_op_letter(ops))] + spec_flags(ops);
    assert(n =~= method_name(m));
    method_named_inverts_method_name(m, n);
}

/// The flags of the methods of `-Q` spelled out.
proof fn lemma_reach_query(m: Method)
    requires
        operation_for(m) is Query,
    ensures
        spec_flags(operation_for(m)) == method_name(m).drop_first(),
        spec_op_letter(operation_for(m)) == 'Q',
{
    match m {
        Method::Q => {
            let p0 = Seq::<(char, u32)>::empty();
            lemma_expand_push(p0, 'c', 0);
            let p1 = p0.push(('c', 0u32));
            lemma_expand_push(p1, 'e', 0);
            let p2 = p1.push(('e', 0u32));
            lemma_expand_push(p2, 'i', 0);
            let p3 = p2.push(('i', 0u32));
            lemma_expand_push(p3, 'k', 0);
            let p4 = p3.push(('k', 0u32));
            lemma_expand_push(p4, 'l', 0);
            let p5 = p4.push(('l', 0u32));
            lemma_expand_push(p5, 'm', 0);
            let p6 = p5.push(('m', 0u32));
            lemma_expand_push(p6, 'o', 0);
            let p7 = p6.push(('o', 0u32));
            lemma_expand_push(p7, 'p', 0);
            let p8 = p7.push(('p', 0u32));
            lemma_expand_push(p8, 's', 0);
            let p9 = p8.push(('s', 0u32));
            lemma_expand_push(p9, 'u', 0);
            let p10 = p9.push(('u', 0u32));
        },
        Method::Qc => {
            let p0 = Seq::<(char, u32)>::empty();
            lemma_expand_push(p0, 'c', 1);
            let p1 = p0.push(('c', 1u32));
            lemma_expand_push(p1, 'e', 0);
            let p2 = p1.push(('e', 0u32));
            lemma_expand_push(p2, 'i', 0);
            let p3 = p2.push(('i', 0u32));
            lemma_expand_push(p3, 'k', 0);
            let p4 = p3.push(('k', 0u32));
            lemma_expand_push(p4, 'l', 0);
            let p5 = p4.push(('l', 0u32));
            lemma_expand_push(p5, 'm', 0);
            let p6 = p5.push(('m', 0u32));
            lemma_expand_push(p6, 'o', 0);
            let p7 = p6.push(('o', 0u32));
            lemma_expand_push(p7, 'p', 0);
            let p8 = p7.push(('p', 0u32));
            lemma_expand_push(p8, 's', 0);
            let p9 = p8.push(('s', 0u32));
            lemma_expand_push(p9, 'u', 0);
            let p10 = p9.push(('u', 0u32));
        },
        Method::Qe => {
            let p0 = Seq::<(char, u32)>::empty();
            lemma_expand_push(p0, 'c', 0);
            let p1 = p0.push(('c', 0u32));
            lemma_expand_push(p1, 'e', 1);
            let p2 = p1.push(('e', 1u32));
            lemma_expand_push(p2, 'i', 0);
            let p3 = p2.push(('i', 0u32));
            lemma_expand_push(p3, 'k', 0);
            let p4 = p3.push(('k', 0u32));
            lemma_expand_push(p4, 'l', 0);
            let p5 = p4.push(('l', 0u32));
            lemma_expand_push(p5, 'm', 0);
            let p6 = p5.push(('m', 0u32));
            lemma_expand_push(p6, 'o', 0);
            let p7 = p6.push(('o', 0u32));
            lemma_expand_push(p7, 'p', 0);
            let p8 = p7.push(('p', 0u32));
            lemma_expand_push(p8, 's', 0);
            let p9 = p8.push(('s', 0u32));
            lemma_expand_push(p9, 'u', 0);
            let p10 = p9.push(('u', 0u32));
        },
        Method::Qi => {
            let p0 = Seq::<(char, u32)>::empty();
            lemma_expand_push(p0, 'c', 0);
            let p1 = p0.push(('c', 0u32));
            lemma_expand_push(p1, 'e', 0);
            let p2 = p1.push(('e', 0u32));
            lemma_expand_push(p2, 'i', 1);
            let p3 = p2.push(('i', 1u32));
            lemma_expand_push(p3, 'k', 0);
            let p4 = p3.push(('k', 0u32));
            lemma_expand_push(p4, 'l', 0);
            let p5 = p4.push(('l', 0u32));
            lemma_expand_push(p5, 'm', 0);
            let p6 = p5.push(('m', 0u32));
            lemma_expand_push(p6, 'o', 0);
            let p7 = p6.push(('o', 0u32));
            lemma_expand_push(p7, 'p', 0);
            let p8 = p7.push(('p', 0u32));
            lemma_expand_push(p8, 's', 0);
            let p9 = p8.push(('s', 0u32));
            lemma_expand_push(p9, 'u', 0);
            let p10 = p9.push(('u', 0u32));
        },
        Method::Qii => {
            let p0 = Seq::<(char, u32)>::empty();
            lemma_expand_push(p0, 'c', 0);
            let p1 = p0.push(('c', 0u32));
            lemma_expand_push(p1, 'e', 0);
            let p2 = p1.push(('e', 0u32));
            lemma_expand_push(p2, 'i', 2);
            let p3 = p2.push(('i', 2u32));
            lemma_expand_push(p3, 'k', 0);
            let p4 = p3.push(('k', 0u32));
            lemma_expand_push(p4, 'l', 0);
            let p5 = p4.push(('l', 0u32));
            lemma_expand_push(p5, 'm', 0);
            let p6 = p5.push(('m', 0u32));
            lemma_expand_push(p6, 'o', 0);
            let p7 = p6.push(('o', 0u32));
            lemma_expand_push(p7, 'p', 0);
            let p8 = p7.push(('p', 0u32));
            lemma_expand_push(p8, 's', 0);
            let p9 = p8.push(('s', 0u32));
            lemma_expand_push(p9, 'u', 0);
            let p10 = p9.push(('u', 0u32));
        },
        Method::Qk => {
            let p0 = Seq::<(char, u32)>::empty();
            lemma_expand_push(p0, 'c', 0);
            let p1 = p0.push(('c', 0u32));
            lemma_expand_push(p1, 'e', 0);
            let p2 = p1.push(('e', 0u32));
            lemma_expand_push(p2, 'i', 0);
            let p3 = p2.push(('i', 0u32));
            lemma_expand_push(p3, 'k', 1);
            let p4 = p3.push(('k', 1u32));
            lemma_expand_push(p4, 'l', 0);
            let p5 = p4.push(('l', 0u32));
            lemma_expand_push(p5, 'm', 0);
            let p6 = p5.push(('m', 0u32));
            lemma_expand_push(p6, 'o', 0);
            let p7 = p6.push(('o', 0u32));
            lemma_expand_push(p7, 'p', 0);
            let p8 = p7.push(('p', 0u32));
            lemma_expand_push(p8, 's', 0);
            let p9 = p8.push(('s', 0u32));
            lemma_expand_push(p9, 'u', 0);
            let p10 = p9.push(('u', 0u32));
        },
        Method::Ql => {
            let p0 = Seq::<(char, u32)>::empty();
            lemma_expand_push(p0, 'c', 0);
            let p1 = p0.push(('c', 0u32));
            lemma_expand_push(p1, 'e', 0);
            let p2 = p1.push(('e', 0u32));
            lemma_expand_push(p2, 'i', 0);
            let p3 = p2.push(('i', 0u32));
            lemma_expand_push(p3, 'k', 0);
            let p4 = p3.push(('k', 0u32));
            lemma_expand_push(p4, 'l', 1);
            let p5 = p4.push(('l', 1u32));
            lemma_expand_push(p5, 'm', 0);
            let p6 = p5.push(('m', 0u32));
            lemma_expand_push(p6, 'o', 0);
            let p7 = p6.push(('o', 0u32));
            lemma_expand_push(p7, 'p', 0);
            let p8 = p7.push(('p', 0u32));
            lemma_expand_push(p8, 's', 0);
            let p9 = p8.push(('s', 0u32));
            lemma_expand_push(p9, 'u', 0);
            let p10 = p9.push(('u', 0u32));
        },
        Method::Qm => {
            let p0 = Seq::<(char, u32)>::empty();
            lemma_expand_push(p0, 'c', 0);
            let p1 = p0.push(('c', 0u32));
            lemma_expand_push(p1, 'e', 0);
            let p2 = p1.push(('e', 0u32));
            lemma_expand_push(p2, 'i', 0);
            let p3 = p2.push(('i', 0u32));
            lemma_expand_push(p3, 'k', 0);
            let p4 = p3.push(('k', 0u32));
            lemma_expand_push(p4, 'l', 0);
            let p5 = p4.push(('l', 0u32));
            lemma_expand_push(p5, 'm', 1);
            let p6 = p5.push(('m', 1u32));
            lemma_expand_push(p6, 'o', 0);
            let p7 = p6.push(('o', 0u32));
            lemma_expand_push(p7, 'p', 0);
            let p8 = p7.push(('p', 0u32));
            lemma_expand_push(p8, 's', 0);
            let p9 = p8.push(('s', 0u32));
            lemma_expand_push(p9, 'u', 0);
            let p10 = p9.push(('u', 0u32));
        },
        Method::Qo => {
            let p0 = Seq::<(char, u32)>::empty();
            lemma_expand_push(p0, 'c', 0);
            let p1 = p0.push(('c', 0u32));
            lemma_expand_push(p1, 'e', 0);
            let p2 = p1.push(('e', 0u32));
            lemma_expand_push(p2, 'i', 0);
            let p3 = p2.push(('i', 0u32));
            lemma_expand_push(p3, 'k', 0);
            let p4 = p3.push(('k', 0u32));
            lemma_expand_push(p4, 'l', 0);
            let p5 = p4.push(('l', 0u32));
            lemma_expand_push(p5, 'm', 0);
            let p6 = p5.push(('m', 0u32));
            lemma_expand_push(p6, 'o', 1);
            let p7 = p6.push(('o', 1u32));
            lemma_expand_push(p7, 'p', 0);
            let p8 = p7.push(('p', 0u32));
            lemma_expand_push(p8, 's', 0);
            let p9 = p8.push(('s', 0u32));
            lemma_expand_push(p9, 'u', 0);
            let p10 = p9.push(('u', 0u32));
        },
        Method::Qp => {
            let p0 = Seq::<(char, u32)>::empty();
            lemma_expand_push(p0, 'c', 0);
            let p1 = p0.push(('c', 0u32));
            lemma_expand_push(p1, 'e', 0);
            let p2 = p1.push(('e', 0u32));
            lemma_expand_push(p2, 'i', 0);
            let p3 = p2.push(('i', 0u32));
            lemma_expand_push(p3, 'k', 0);
            let p4 = p3.push(('k', 0u32));
            lemma_expand_push(p4, 'l', 0);
            let p5 = p4.push(('l', 0u32));
            lemma_expand_push(p5, 'm', 0);
            let p6 = p5.push(('m', 0u32));
            lemma_expand_push(p6, 'o', 0);
            let p7 = p6.push(('o', 0u32));
            lemma_expand_push(p7, 'p', 1);
            let p8 = p7.push(('p', 1u32));
            lemma_expand_push(p8, 's', 0);
            let p9 = p8.push(('s', 0u32));
            lemma_expand_push(p9, 'u', 0);
            let p10 = p9.push(('u', 0u32));
        },
        Method::Qs => {
            let p0 = Seq::<(char, u32)>::empty();
            lemma_expand_push(p0, 'c', 0);
            let p1 = p0.push(('c', 0u32));
            lemma_expand_push(p1, 'e', 0);
            let p2 = p1.push(('e', 0u32));
            lemma_expand_push(p2, 'i', 0);
            let p3 = p2.push(('i', 0u32));
            lemma_expand_push(p3, 'k', 0);
            let p4 = p3.push(('k', 0u32));
            lemma_expand_push(p4, 'l', 0);
            let p5 = p4.push(('l', 0u32));
            lemma_expand_push(p5, 'm', 0);
            let p6 = p5.push(('m', 0u32));
            lemma_expand_push(p6, 'o', 0);
            let p7 = p6.push(('o', 0u32));
            lemma_expand_push(p7, 'p', 0);
            let p8 = p7.push(('p', 0u32));
            lemma_expand_push(p8, 's', 1);
            let p9 = p8.push(('s', 1u32));
            lemma_expand_push(p9, 'u', 0);
            let p10 = p9.push(('u', 0u32));
        },
        Method::Qu => {
            let p0 = Seq::<(char, u32)>::empty();
            lemma_expand_push(p0, 'c', 0);
            let p1 = p0.push(('c', 0u32));
            lemma_expand_push(p1, 'e', 0);
            let p2 = p1.push(('e', 0u32));
            lemma_expand_push(p2, 'i', 0);
            let p3 = p2.push(('i', 0u32));
            lemma_expand_push(p3, 'k', 0);
            let p4 = p3.push(('k', 0u32));
            lemma_expand_push(p4, 'l', 0);
            let p5 = p4.push(('l', 0u32));
            lemma_expand_push(p5, 'm', 0);
            let p6 = p5.push(('m', 0u32));
            lemma_expand_push(p6, 'o', 0);
            let p7 = p6.push(('o', 0u32));
            lemma_expand_push(p7, 'p', 0);
            let p8 = p7.push(('p', 0u32));
            lemma_expand_push(p8, 's', 0);
            let p9 = p8.push(('s', 0u32));
            lemma_expand_push(p9, 'u', 1);
            let p10 = p9.push(('u', 1u32));
        },
        _ => {},
    }
    assert(spec_flags(operation_for(m)) =~= method_name(m).drop_first());
}

/// The flags of the methods of `-R` spelled out.
proof fn lemma_reach_remove(m: Method)
    requires
        operation_for(m) is Remove,
    ensures
        spec_flags(operation_for(m)) == method_name(m).drop_first(),
        spec_op_letter(operation_for(m)) == 'R',
{
    match m {
        Method::R => {
            let p0 = Seq::<(char, u32)>::empty();
            lemma_expand_push(p0, 'n', 0);
            let p1 = p0.push(('n', 0u32));
            lemma_expand_push(p1, 's', 0);
            let p2 = p1.push(('s', 0u32));
        },
        Method::Rn => {
            let p0 = Seq::<(char, u32)>::empty();
            lemma_expand_push(p0, 'n', 1);
            let p1 = p0.push(('n', 1u32));
            lemma_expand_push(p1, 's', 0);
            let p2 = p1.push(('s', 0u32));
        },
        Method::Rns => {
            let p0 = Seq::<(char, u32)>::empty();
            lemma_expand_push(p0, 'n', 1);
            let p1 = p0.push(('n', 1u32));
            lemma_expand_push(p1, 's', 1);
            let p2 = p1.push(('s', 1u32));
        },
        Method::Rs => {
            let p0 = Seq::<(char, u32)>::empty();
            lemma_expand_push(p0, 'n', 0);
            let p1 = p0.push(('n', 0u32));
            lemma_expand_push(p1, 's', 1);
            let p2 = p1.push(('s', 1u32));
        },
        Method::Rss => {
            let p0 = Seq::<(char, u32)>::empty();
            lemma_expand_push(p0, 'n', 0);
            let p1 = p0.push(('n', 0u32));
            lemma_expand_push(p1, 's', 2);
            let p2 = p1.push(('s', 2u32));
        },
        _ => {},
    }
    assert(spec_flags(operation_for(m)) =~= method_name(m).drop_first());
}

/// The flags of the methods of `-S` spelled out.
proof fn lemma_reach_sync(m: Method)
    requires
        operation_for(m) is Sync,
    ensures
        spec_flags(operation_for(m)) == method_name(m).drop_first(),
        spec_op_letter(operation_for(m)) == 'S',
{
    match m {
        Method::S => {
            let p0 = Seq::<(char, u32)>::empty();
            lemma_expand_push(p0, 'c', 0);
            let p1 = p0.push(('c', 0u32));
            lemma_expand_push(p1, 'g', 0);
            let p2 = p1.push(('g', 0u32));
            lemma_expand_push(p2, 'i', 0);
            let p3 = p2.push(('i', 0u32));
            lemma_expand_push(p3, 'l', 0);
            let p4 = p3.push(('l', 0u32));
            lemma_expand_push(p4, 's', 0);
            let p5 = p4.push(('s', 0u32));
            lemma_expand_push(p5, 'u', 0);
            let p6 = p5.push(('u', 0u32));
            lemma_expand_push(p6, 'w', 0);
            let p7 = p6.push(('w', 0u32));
            lemma_expand_push(p7, 'y', 0);
            let p8 = p7.push(('y', 0u32));
        },
        Method::Sc => {
            let p0 = Seq::<(char, u32)>::empty();
            lemma_expand_push(p0, 'c', 1);
            let p1 = p0.push(('c', 1u32));
            lemma_expand_push(p1, 'g', 0);
            let p2 = p1.push(('g', 0u32));
            lemma_expand_push(p2, 'i', 0);
            let p3 = p2.push(('i', 0u32));
            lemma_expand_push(p3, 'l', 0);
            let p4 = p3.push(('l', 0u32));
            lemma_expand_push(p4, 's', 0);
            let p5 = p4.push(('s', 0u32));
            lemma_expand_push(p5, 'u', 0);
            let p6 = p5.push(('u', 0u32));
            lemma_expand_push(p6, 'w', 0);
            let p7 = p6.push(('w', 0u32));
            lemma_expand_push(p7, 'y', 0);
            let p8 = p7.push(('y', 0u32));
        },
        Method::Scc => {
            let p0 = Seq::<(char, u32)>::empty();
            lemma_expand_push(p0, 'c', 2);
            let p1 = p0.push(('c', 2u32));
            lemma_expand_push(p1, 'g', 0);
            let p2 = p1.push(('g', 0u32));
            lemma_expand_push(p2, 'i', 0);
            let p3 = p2.push(('i', 0u32));
            lemma_expand_push(p3, 'l', 0);
            let p4 = p3.push(('l', 0u32));
            lemma_expand_push(p4, 's', 0);
            let p5 = p4.push(('s', 0u32));
            lemma_expand_push(p5, 'u', 0);
            let p6 = p5.push(('u', 0u32));
            lemma_expand_push(p6, 'w', 0);
            let p7 = p6.push(('w', 0u32));
            lemma_expand_push(p7, 'y', 0);
            let p8 = p7.push(('y', 0u32));
        },
        Method::Sccc => {
            let p0 = Seq::<(char, u32)>::empty();
            lemma_expand_push(p0, 'c', 3);
            let p1 = p0.push(('c', 3u32));
            lemma_expand_push(p1, 'g', 0);
            let p2 = p1.push(('g', 0u32));
            lemma_expand_push(p2, 'i', 0);
            let p3 = p2.push(('i', 0u32));
            lemma_expand_push(p3, 'l', 0);
            let p4 = p3.push(('l', 0u32));
            lemma_expand_push(p4, 's', 0);
            let p5 = p4.push(('s', 0u32));
            lemma_expand_push(p5, 'u', 0);
            let p6 = p5.push(('u', 0u32));
            lemma_expand_push(p6, 'w', 0);
            let p7 = p6.push(('w', 0u32));
            lemma_expand_push(p7, 'y', 0);
            let p8 = p7.push(('y', 0u32));
        },
        Method::Sg => {
            let p0 = Seq::<(char, u32)>::empty();
            lemma_expand_push(p0, 'c', 0);
            let p1 = p0.push(('c', 0u32));
            lemma_expand_push(p1, 'g', 1);
            let p2 = p1.push(('g', 1u32));
            lemma_expand_push(p2, 'i', 0);
            let p3 = p2.push(('i', 0u32));
            lemma_expand_push(p3, 'l', 0);
            let p4 = p3.push(('l', 0u32));
            lemma_expand_push(p4, 's', 0);
            let p5 = p4.push(('s', 0u32));
            lemma_expand_push(p5, 'u', 0);
            let p6 = p5.push(('u', 0u32));
            lemma_expand_push(p6, 'w', 0);
            let p7 = p6.push(('w', 0u32));
            lemma_expand_push(p7, 'y', 0);
            let p8 = p7.push(('y', 0u32));
        },
        Method::Si => {
            let p0 = Seq::<(char, u32)>::empty();
            lemma_expand_push(p0, 'c', 0);
            let p1 = p0.push(('c', 0u32));
            lemma_expand_push(p1, 'g', 0);
            let p2 = p1.push(('g', 0u32));
            lemma_expand_push(p2, 'i', 1);
            let p3 = p2.push(('i', 1u32));
            lemma_expand_push(p3, 'l', 0);
            let p4 = p3.push(('l', 0u32));
            lemma_expand_push(p4, 's', 0);
            let p5 = p4.push(('s', 0u32));
            lemma_expand_push(p5, 'u', 0);
            let p6 = p5.push(('u', 0u32));
            lemma_expand_push(p6, 'w', 0);
            let p7 = p6.push(('w', 0u32));
            lemma_expand_push(p7, 'y', 0);
            let p8 = p7.push(('y', 0u32));
        },
        Method::Sii => {
            let p0 = Seq::<(char, u32)>::empty();
            lemma_expand_push(p0, 'c', 0);
            let p1 = p0.push(('c', 0u32));
            lemma_expand_push(p1, 'g', 0);
            let p2 = p1.push(('g', 0u32));
            lemma_expand_push(p2, 'i', 2);
            let p3 = p2.push(('i', 2u32));
            lemma_expand_push(p3, 'l', 0);
            let p4 = p3.push(('l', 0u32));
            lemma_expand_push(p4, 's', 0);
            let p5 = p4.push(('s', 0u32));
            lemma_expand_push(p5, 'u', 0);
            let p6 = p5.push(('u', 0u32));
            lemma_expand_push(p6, 'w', 0);
            let p7 = p6.push(('w', 0u32));
            lemma_expand_push(p7, 'y', 0);
            let p8 = p7.push(('y', 0u32));
        },
        Method::Sl => {
            let p0 = Seq::<(char, u32)>::empty();
            lemma_expand_push(p0, 'c', 0);
            let p1 = p0.push(('c', 0u32));
            lemma_expand_push(p1, 'g', 0);
            let p2 = p1.push(('g', 0u32));
            lemma_expand_push(p2, 'i', 0);
            let p3 = p2.push(('i', 0u32));
            lemma_expand_push(p3, 'l', 1);
            let p4 = p3.push(('l', 1u32));
            lemma_expand_push(p4, 's', 0);
            let p5 = p4.push(('s', 0u32));
            lemma_expand_push(p5, 'u', 0);
            let p6 = p5.push(('u', 0u32));
            lemma_expand_push(p6, 'w', 0);
            let p7 = p6.push(('w', 0u32));
            lemma_expand_push(p7, 'y', 0);
            let p8 = p7.push(('y', 0u32));
        },
        Method::Ss => {
            let p0 = Seq::<(char, u32)>::empty();
            lemma_expand_push(p0, 'c', 0);
            let p1 = p0.push(('c', 0u32));
            lemma_expand_push(p1, 'g', 0);
            let p2 = p1.push(('g', 0u32));
            lemma_expand_push(p2, 'i', 0);
            let p3 = p2.push(('i', 0u32));
            lemma_expand_push(p3, 'l', 0);
            let p4 = p3.push(('l', 0u32));
            lemma_expand_push(p4, 's', 1);
            let p5 = p4.push(('s', 1u32));
            lemma_expand_push(p5, 'u', 0);
            let p6 = p5.push(('u', 0u32));
            lemma_expand_push(p6, 'w', 0);
            let p7 = p6.push(('w', 0u32));
            lemma_expand_push(p7, 'y', 0);
            let p8 = p7.push(('y', 0u32));
        },
        Method::Su => {
            let p0 = Seq::<(char, u32)>::empty();
            lemma_expand_push(p0, 'c', 0);
            let p1 = p0.push(('c', 0u32));
            lemma_expand_push(p1, 'g', 0);
            let p2 = p1.push(('g', 0u32));
            lemma_expand_push(p2, 'i', 0);
            let p3 = p2.push(('i', 0u32));
            lemma_expand_push(p3, 'l', 0);
            let p4 = p3.push(('l', 0u32));
            lemma_expand_push(p4, 's', 0);
            let p5 = p4.push(('s', 0u32));
            lemma_expand_push(p5, 'u', 1);
            let p6 = p5.push(('u', 1u32));
            lemma_expand_push(p6, 'w', 0);
            let p7 = p6.push(('w', 0u32));
            lemma_expand_push(p7, 'y', 0);
            let p8 = p7.push(('y', 0u32));
        },
        Method::Suy => {
            let p0 = Seq::<(char, u32)>::empty();
            lemma_expand_push(p0, 'c', 0);
            let p1 = p0.push(('c', 0u32));
            lemma_expand_push(p1, 'g', 0);
            let p2 = p1.push(('g', 0u32));
            lemma_expand_push(p2, 'i', 0);
            let p3 = p2.push(('i', 0u32));
            lemma_expand_push(p3, 'l', 0);
            let p4 = p3.push(('l', 0u32));
            lemma_expand_push(p4, 's', 0);
            let p5 = p4.push(('s', 0u32));
            lemma_expand_push(p5, 'u', 1);
            let p6 = p5.push(('u', 1u32));
            lemma_expand_push(p6, 'w', 0);
            let p7 = p6.push(('w', 0u32));
            lemma_expand_push(p7, 'y', 1);
            let p8 = p7.push(('y', 1u32));
        },
        Method::Sw => {
            let p0 = Seq::<(char, u32)>::empty();
            lemma_expand_push(p0, 'c', 0);
            let p1 = p0.push(('c', 0u32));
            lemma_expand_push(p1, 'g', 0);
            let p2 = p1.push(('g', 0u32));
            lemma_expand_push(p2, 'i', 0);
            let p3 = p2.push(('i', 0u32));
            lemma_expand_push(p3, 'l', 0);
            let p4 = p3.push(('l', 0u32));
            lemma_expand_push(p4, 's', 0);
            let p5 = p4.push(('s', 0u32));
            lemma_expand_push(p5, 'u', 0);
            let p6 = p5.push(('u', 0u32));
            lemma_expand_push(p6, 'w', 1);
            let p7 = p6.push(('w', 1u32));
            lemma_expand_push(p7, 'y', 0);
            let p8 = p7.push(('y', 0u32));
        },
        Method::Sy => {
            let p0 = Seq::<(char, u32)>::empty();
            lemma_expand_push(p0, 'c', 0);
            let p1 = p0.push(('c', 0u32));
            lemma_expand_push(p1, 'g', 0);
            let p2 = p1.push(('g', 0u32));
            lemma_expand_push(p2, 'i', 0);
            let p3 = p2.push(('i', 0u32));
            lemma_expand_push(p3, 'l', 0);
            let p4 = p3.push(('l', 0u32));
            lemma_expand_push(p4, 's', 0);
            let p5 = p4.push(('s', 0u32));
            lemma_expand_push(p5, 'u', 0);
            let p6 = p5.push(('u', 0u32));
            lemma_expand_push(p6, 'w', 0);
            let p7 = p6.push(('w', 0u32));
            lemma_expand_push(p7, 'y', 1);
            let p8 = p7.push(('y', 1u32));
        },
        _ => {},
    }
    assert(spec_flags(operation_for(m)) =~= method_name(m).drop_first());
}

/// The flags of the methods of `-U` spelled out.
proof fn lemma_reach_update(m: Method)
    requires
        operation_for(m) is Update,
    ensures
        spec_flags(operation_for(m)) == method_name(m).drop_first(),
        spec_op_letter(operation_for(m)) == 'U',
{
    match m {
        Method::U => {
            let p0 = Seq::<(char, u32)>::empty();
        },
        _ => {},
    }
    assert(spec_flags(operation_for(m)) =~= method_name(m).drop_first());
}

/// Lowercasing the expansion of the pairs gives the expansion of the
/// lowercased pairs.
proof fn lemma_lower_expand_pairs(p1: Seq<(char, u32)>, p2: Seq<(char, u32)>)
    requires
        p1.len() == p2.len(),
        forall|k: int| 0 <= k < p1.len() ==> #[trigger] p2[k] == (lower(p1[k].0), p1[k].1),
    ensures
        lower_seq(expand(p1)) == expand(p2),
    decreases p1.len(),
{
    if p1.len() > 0 {
        let i1 = p1.drop_last();
        let i2 = p2.drop_last();
        assert forall|k: int| 0 <= k < i1.len() implies #[trigger] i2[k] == (lower(i1[k].0), i1[k].1) by {
            assert(i2[k] == p2[k]);
        }
        lemma_lower_expand_pairs(i1, i2);
        let (c, n) = p1.last();
        assert(p2.last() == (lower(c), n));
        assert forall|j: int| 0 <= j < repeat(c, n as nat).len() implies lower(repeat(c, n as nat)[j]) == repeat(lower(c), n as nat)[j] by {
            lemma_repeat_index(c, n as nat, j);
            lemma_repeat_index(lower(c), n as nat, j);
        }
        lemma_repeat_index(c, n as nat, 0);
        lemma_repeat_index(lower(c), n as nat, 0);
        assert(lower_seq(expand(p1)) =~= expand(p2));
    }
}

/// The operation and flag switches of the command line, as collected by
/// the `Opt` and `Opts` front ends, where several operations may be given
/// at once.
#[derive(Debug)]
pub struct OpFlags {
    pub query: bool,
    pub remove: bool,
    pub sync: bool,
    pub update: bool,
    pub c: u32,
    pub e: bool,
    pub g: bool,
    pub i: u32,
    pub k: bool,
    pub l: bool,
    pub m: bool,
    pub n: bool,
    pub o: bool,
    pub p: bool,
    pub s: u32,
    pub u: bool,
    pub w: bool,
    pub y: bool,
}

/// The letters of the switches with their counts, in ASCII order: the
/// operation letters in uppercase (or lowercase, for the method name), then
/// the flags.
pub open spec fn spec_switch_counts(f: OpFlags, upper: bool) -> Seq<(char, u32)> {
    Seq::empty()
        .push((if upper { 'Q' } else { 'q' }, count(f.query)))
        .push((if upper { 'R' } else { 'r' }, count(f.remove)))
        .push((if upper { 'S' } else { 's' }, count(f.sync)))
        .push((if upper { 'U' } else { 'u' }, count(f.update)))
        .push(('c', f.c))
        .push(('e', count(f.e)))
        .push(('g', count(f.g)))
        .push(('i', f.i))
        .push(('k', count(f.k)))
        .push(('l', count(f.l)))
        .push(('m', count(f.m)))
        .push(('n', count(f.n)))
        .push(('o', count(f.o)))
        .push(('p', count(f.p)))
        .push(('s', f.s))
        .push(('u', count(f.u)))
        .push(('w', count(f.w)))
        .push(('y', count(f.y)))
}

/// The collected options in ASCII order, eg. `Suy`.
pub open spec fn spec_switch_options(f: OpFlags) -> Seq<char> {
    expand(spec_switch_counts(f, true))
}

/// The number of operations given.
pub open spec fn spec_op_count(f: OpFlags) -> nat {
    (count(f.query) + count(f.remove) + count(f.sync) + count(f.update)) as nat
}

/// The methods known to the `Opt` and `Opts` front ends: all but `qii`.
pub open spec fn opt_method_named(n: Seq<char>) -> Option<Method> {
    match method_named(n) {
        Some(Method::Qii) => None,
        other => other,
    }
}

impl OpFlags {
    /// The letters of the switches with their counts.
    pub fn switch_counts(&self, upper: bool) -> (res: Vec<(char, u32)>)
        ensures
            res@ == spec_switch_counts(*self, upper),
    {
        let (q, r, s, u) = if upper { ('Q', 'R', 'S', 'U') } else { ('q', 'r', 's', 'u') };
        let mut res: Vec<(char, u32)> = Vec::new();
        res.push((q, count_of(self.query)));
        res.push((r, count_of(self.remove)));
        res.push((s, count_of(self.sync)));
        res.push((u, count_of(self.update)));
        res.push(('c', self.c));
        res.push(('e', count_of(self.e)));
        res.push(('g', count_of(self.g)));
        res.push(('i', self.i));
        res.push(('k', count_of(self.k)));
        res.push(('l', count_of(self.l)));
        res.push(('m', count_of(self.m)));
        res.push(('n', count_of(self.n)));
        res.push(('o', count_of(self.o)));
        res.push(('p', count_of(self.p)));
        res.push(('s', self.s));
        res.push(('u', count_of(self.u)));
        res.push(('w', count_of(self.w)));
        res.push(('y', count_of(self.y)));
        res
    }

    /// The number of operations given.
    pub fn op_count(&self) -> (res: u32)
        ensures
            res == spec_op_count(*self),
    {
        let mut n: u32 = 0;
        if self.query {
            n = n + 1;
        }
        if self.remove {
            n = n + 1;
        }
        if self.sync {
            n = n + 1;
        }
        if self.update {
            n = n + 1;
        }
        n
    }

    /// The options collected as a string in ASCII order, and their lowercase
    /// form, which names the method to call.
    pub fn options(&self) -> (res: (String, Vec<char>))
        ensures
            res.0@ == spec_switch_options(*self),
            res.1@ == lower_seq(spec_switch_options(*self)),
    {
        let upper = self.switch_counts(true);
        let lower_pairs = self.switch_counts(false);
        let mut s = String::new();
        let mut scratch: Vec<char> = Vec::new();
        push_flags(&mut s, &mut scratch, &upper);
        let mut scratch_s = String::new();
        let mut v: Vec<char> = Vec::new();
        push_flags(&mut scratch_s, &mut v, &lower_pairs);
        proof {
            assert(Seq::<char>::empty() + expand(upper@) =~= expand(upper@));
            assert(Seq::<char>::empty() + expand(lower_pairs@) =~= expand(lower_pairs@));
            lemma_lower_expand_pairs(upper@, lower_pairs@);
        }
        (s, v)
    }

    /// The method named by the options, or an [`Error::ArgParseError`] saying
    /// `Invalid flag` when they name none.
    pub fn method(&self) -> (res: Result<Method>)
        ensures
            opt_method_named(lower_seq(spec_switch_options(*self))) matches Some(m) ==> res == Ok::<Method, Error>(m),
            opt_method_named(lower_seq(spec_switch_options(*self))) is None ==> (res matches Err(Error::ArgParseError { msg }) && msg@ == "Invalid flag"@),
    {
        let (_options, name) = self.options();
        match method_from_name(&name) {
            Some(Method::Qii) | None => Err(Error::ArgParseError { msg: String::from_str("Invalid flag") }),
            Some(m) => Ok(m),
        }
    }
}

/// The command line options of the `Opt` front end.
#[derive(Debug)]
pub struct Opt {
    /// The operation and flag switches.
    pub flags: OpFlags,
    /// Specify the package manager to be invoked.
    pub using: Option<String>,
    /// Perform a dry run.
    pub dry_run: bool,
    /// Prevent reinstalling installed packages.
    pub needed: bool,
    /// Answer yes to every question.
    pub no_confirm: bool,
    /// Remove cache after installation.
    pub no_cache: bool,
    /// Package name or (sometimes) regex.
    pub keywords: Vec<String>,
    /// Extra flags passed directly to backend.
    pub extra_flags: Vec<String>,
}

impl Opt {
    /// Automatically detects the name of the package manager in question,
    /// among those known to this front end.
    pub fn detect_pm_str(platform: Platform) -> (res: String)
        ensures
            exists|found: Seq<bool>|
                checks_gave(spec_opt_candidates(platform.os), found)
                && res@ == #[trigger] spec_pick(spec_opt_candidates(platform.os), found, false),
    {
        let cands = opt_candidates(platform.os);
        detect_among(&cands)
    }

    /// Generates the package manager to use, with the configuration it
    /// carries. The package manager is the one given with `--using`, else
    /// the one of the dotfile, else the one detected. Its configuration is
    /// merged from the command line and the dotfile (a flag is set when
    /// either sets it, and the rest comes from the dotfile), except for an
    /// unknown package manager, which carries the default configuration.
    pub fn make_pm(&self, cfg: Config, platform: Platform) -> (res: (Config, PmKind))
        ensures
            !(res.1 is Unknown) ==> {
                &&& res.0.dry_run == (self.dry_run || cfg.dry_run)
                &&& res.0.needed == (self.needed || cfg.needed)
                &&& res.0.no_confirm == (self.no_confirm || cfg.no_confirm)
                &&& res.0.no_cache == (self.no_cache || cfg.no_cache)
                &&& res.0.quiet == cfg.quiet
                &&& opt_str_view(res.0.default_pm) == opt_str_view(cfg.default_pm)
            },
            res.1 is Unknown ==> is_default(res.0),
            self.using matches Some(u) ==> res.1@ == spec_opt_pm_kind(u@, is_macos(platform.os)),
            self.using is None && cfg.default_pm is Some ==> res.1@ == spec_opt_pm_kind(cfg.default_pm->0@, is_macos(platform.os)),
            self.using is None && cfg.default_pm is None ==> exists|found: Seq<bool>|
                checks_gave(spec_opt_candidates(platform.os), found)
                && res.1@ == #[trigger] spec_opt_pm_kind(spec_pick(spec_opt_candidates(platform.os), found, false), is_macos(platform.os)),
    {
        let macos = match platform.os {
            Os::MacOs => true,
            _ => false,
        };
        let kind = match &self.using {
            Some(u) => opt_pm_kind_named(u.as_str(), macos),
            None => match &cfg.default_pm {
                Some(d) => opt_pm_kind_named(d.as_str(), macos),
                None => {
                    let name = Opt::detect_pm_str(platform);
                    let kind = opt_pm_kind_named(name.as_str(), macos);
                    let ghost found = choose|found: Seq<bool>|
                        checks_gave(spec_opt_candidates(platform.os), found)
                        && name@ == #[trigger] spec_pick(spec_opt_candidates(platform.os), found, false);
                    assert(kind@ == spec_opt_pm_kind(spec_pick(spec_opt_candidates(platform.os), found, false), is_macos(platform.os)));
                    kind
                },
            },
        };
        if let PmKind::Unknown { .. } = kind {
            return (Config::default(), kind);
        }
        let merged = Config {
            dry_run: self.dry_run || cfg.dry_run,
            needed: self.needed || cfg.needed,
            no_confirm: self.no_confirm || cfg.no_confirm,
            no_cache: self.no_cache || cfg.no_cache,
            quiet: cfg.quiet,
            default_pm: cfg.default_pm,
        };
        (merged, kind)
    }

    /// Checks that exactly one operation is given.
    pub fn check(&self) -> (res: Result<()>)
        ensures
            spec_op_count(self.flags) == 1 ==> res is Ok,
            spec_op_count(self.flags) != 1 ==> (res matches Err(Error::ArgParseError { msg }) && msg@ == "exactly 1 operation expected"@),
    {
        if self.flags.op_count() != 1 {
            Err(Error::ArgParseError { msg: String::from_str("exactly 1 operation expected") })
        } else {
            Ok(())
        }
    }

    /// The method to call for the flags received: an error when not exactly
    /// one operation is given, or when the flags name no method.
    pub fn dispatch_from(&self) -> (res: Result<Method>)
        ensures
            spec_op_count(self.flags) != 1 ==> (res matches Err(Error::ArgParseError { msg }) && msg@ == "exactly 1 operation expected"@),
            spec_op_count(self.flags) == 1 ==> (opt_method_named(lower_seq(spec_switch_options(self.flags))) matches Some(m) ==> res == Ok::<Method, Error>(m)),
            spec_op_count(self.flags) == 1 ==> (opt_method_named(lower_seq(spec_switch_options(self.flags))) is None ==> (res matches Err(Error::ArgParseError { msg }) && msg@ == "Invalid flag"@)),
    {
        self.check()?;
        self.flags.method()
    }
}

/// The command line options of the `Opts` front end, whose parser requires
/// exactly one operation.
#[derive(Debug)]
pub struct Opts {
    /// The operation and flag switches.
    pub flags: OpFlags,
    /// Specify the package manager to be invoked.
    pub using: Option<String>,
    /// Perform a dry run.
    pub dry_run: bool,
    /// Prevent reinstalling installed packages.
    pub needed: bool,
    /// Answer yes to every question.
    pub no_confirm: bool,
    /// Remove cache after installation.
    pub no_cache: bool,
    /// Package name or (sometimes) regex.
    pub keywords: Vec<String>,
    /// Extra flags passed directly to backend.
    pub extra_flags: Vec<String>,
}

impl Opts {
    /// Generates the current config by merging the current CLI flags with the
    /// dotfile. The CLI flags take precedence over the dotfile.
    pub fn merge_cfg(&self, dotfile: Config) -> (res: Config)
        ensures
            res.dry_run == (self.dry_run || dotfile.dry_run),
            res.needed == (self.needed || dotfile.needed),
            res.no_confirm == (self.no_confirm || dotfile.no_confirm),
            res.no_cache == (self.no_cache || dotfile.no_cache),
            res.quiet == dotfile.quiet,
            opt_str_view(res.default_pm) == (if self.using is Some {
                opt_str_view(self.using)
            } else {
                opt_str_view(dotfile.default_pm)
            }),
    {
        Config {
            dry_run: self.dry_run || dotfile.dry_run,
            needed: self.needed || dotfile.needed,
            no_confirm: self.no_confirm || dotfile.no_confirm,
            no_cache: self.no_cache || dotfile.no_cache,
            quiet: dotfile.quiet,
            default_pm: match &self.using {
                Some(s) => Some(s.clone()),
                None => dotfile.default_pm,
            },
        }
    }

    /// The method to call for the flags received, or an error when they name
    /// no method.
    pub fn dispatch_from(&self) -> (res: Result<Method>)
        ensures
            opt_method_named(lower_seq(spec_switch_options(self.flags))) matches Some(m) ==> res == Ok::<Method, Error>(m),
            opt_method_named(lower_seq(spec_switch_options(self.flags))) is None ==> (res matches Err(Error::ArgParseError { msg }) && msg@ == "Invalid flag"@),
    {
        self.flags.method()
    }
}

} // verus!
