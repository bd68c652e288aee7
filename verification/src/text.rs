//! Splitting command output into lines and selecting the lines that match
//! regular expressions.

use vstd::prelude::*;

use crate::strings::{lemma_views_push, push_char, views};

verus! {

broadcast use vstd::string::group_string_axioms;

/// The pieces of `s` between newlines: one more piece than there are
/// newlines.
pub open spec fn spec_split(s: Seq<char>) -> Seq<Seq<char>>
    decreases s.len(),
{
    if s.len() == 0 {
        seq![Seq::empty()]
    } else {
        let prev = spec_split(s.drop_last());
        if s.last() == '\n' {
            prev.push(Seq::empty())
        } else {
            prev.update(prev.len() - 1, prev.last().push(s.last()))
        }
    }
}

/// A line ended by a newline, without the carriage return before the
/// newline, if any.
pub open spec fn strip_cr(l: Seq<char>) -> Seq<char> {
    if l.len() > 0 && l.last() == '\r' { l.drop_last() } else { l }
}

/// The lines of `s`, as `str::lines` gives them: split at `\n` or `\r\n`,
/// where the final line ending is optional and an empty final piece is not
/// a line. A carriage return not followed by a newline stays in its line.
pub open spec fn spec_lines(s: Seq<char>) -> Seq<Seq<char>> {
    let pieces = spec_split(s);
    pieces.drop_last().map_values(|l: Seq<char>| strip_cr(l)) + (if pieces.last().len() > 0 {
        seq![pieces.last()]
    } else {
        Seq::empty()
    })
}

proof fn lemma_split_nonempty(s: Seq<char>)
    ensures
        spec_split(s).len() >= 1,
    decreases s.len(),
{
    if s.len() > 0 {
        lemma_split_nonempty(s.drop_last());
    }
}

/// The line without its carriage return at the end, if any.
fn strip_carriage_return(l: String) -> (res: String)
    ensures
        res@ == strip_cr(l@),
{
    let n = l.as_str().unicode_len();
    if n > 0 && l.as_str().get_char(n - 1) == '\r' {
        let s = l.as_str().substring_char(0, n - 1);
        let res = String::from_str(s);
        assert(res@ =~= l@.drop_last());
        res
    } else {
        l
    }
}

/// The lines of `text`, as `str::lines` gives them.
pub fn lines(text: &str) -> (res: Vec<String>)
    ensures
        views(res@) == spec_lines(text@),
{
    let mut done: Vec<String> = Vec::new();
    let mut cur = String::new();
    let ghost mut seen: Seq<char> = Seq::empty();
    proof {
        lemma_split_nonempty(seen);
        assert(views(done@).map_values(|l: Seq<char>| l) =~= Seq::<Seq<char>>::empty());
    }
    for c in it: text.chars()
        invariant
            it.seq() == text@,
            seen == text@.take(it.index()),
            views(done@) == spec_split(seen).drop_last().map_values(|l: Seq<char>| strip_cr(l)),
            cur@ == spec_split(seen).last(),
            spec_split(seen).len() >= 1,
    {
        let ghost before = seen;
        proof {
            seen = seen.push(c);
            assert(seen.drop_last() =~= before);
            assert(seen == text@.take(it.index() + 1));
        }
        if c == '\n' {
            let ghost done_before = views(done@);
            let ghost cur_before = cur@;
            let finished = strip_carriage_return(cur);
            done.push(finished);
            cur = String::new();
            proof {
                let pb = spec_split(before);
                assert(spec_split(seen) == pb.push(Seq::empty()));
                assert(spec_split(seen).drop_last() =~= pb);
                assert(views(done@) =~= done_before.push(strip_cr(cur_before)));
                assert(pb.map_values(|l: Seq<char>| strip_cr(l)) =~= pb.drop_last().map_values(|l: Seq<char>| strip_cr(l)).push(strip_cr(pb.last())));
            }
        } else {
            push_char(&mut cur, c);
            proof {
                let prev = spec_split(before);
                assert(spec_split(seen) == prev.update(prev.len() - 1, prev.last().push(c)));
                assert(spec_split(seen).drop_last() =~= prev.drop_last());
            }
        }
    }
    proof {
        assert(seen =~= text@);
    }
    let mut res = done;
    if cur.as_str().unicode_len() > 0 {
        let ghost before = views(res@);
        res.push(cur);
        proof {
            assert(views(res@) =~= before + seq![spec_split(text@).last()]);
        }
    } else {
        proof {
            assert(views(res@) =~= views(res@) + Seq::<Seq<char>>::empty());
        }
    }
    res
}

} // verus!

verus! {

#[verifier::external_type_specification]
#[verifier::external_body]
pub struct ExRegex(regex::Regex);

/// Whether `regex::Regex::new` accepts the pattern.
pub uninterp spec fn regex_compiles(pattern: Seq<char>) -> bool;

/// Whether the regular expression compiled from `pattern` matches anywhere
/// in `haystack`.
pub uninterp spec fn regex_matches(pattern: Seq<char>, haystack: Seq<char>) -> bool;

/// Compiles a regular expression.
///
/// Calls `regex::Regex::new`, which returns an error exactly when the
/// pattern is not a valid regular expression (or is too large to compile).
/// Which patterns those are is named by [`regex_compiles`]; nothing more is
/// stated of them.
#[verifier::external_body]
fn compile_regex(pattern: &str) -> (res: Option<regex::Regex>)
    ensures
        res is Some == regex_compiles(pattern@),
{
    regex::Regex::new(pattern).ok()
}

/// A compiled regular expression together with the pattern it was compiled
/// from.
pub struct Pattern {
    re: regex::Regex,
    source: Ghost<Seq<char>>,
}

impl View for Pattern {
    type V = Seq<char>;

    /// The pattern that the regular expression was compiled from.
    closed spec fn view(&self) -> Seq<char> {
        self.source@
    }
}

impl Pattern {
    /// Compiles a pattern, or gives `None` when it is ill-formed.
    pub fn new(pattern: &str) -> (res: Option<Pattern>)
        ensures
            res is Some == regex_compiles(pattern@),
            res matches Some(p) ==> p@ == pattern@,
    {
        match compile_regex(pattern) {
            Some(re) => Some(Pattern { re, source: Ghost(pattern@) }),
            None => None,
        }
    }
}

/// Tests a line against a compiled pattern.
///
/// Calls `regex::Regex::is_match`, which reports whether the regular
/// expression matches anywhere in the haystack. A [`Pattern`] is only ever
/// built by [`Pattern::new`] from the pattern it records as its view, so the
/// answer is [`regex_matches`] of that pattern and the line.
#[verifier::external_body]
fn pattern_matches(p: &Pattern, haystack: &str) -> (res: bool)
    ensures
        res == regex_matches(p@, haystack@),
{
    p.re.is_match(haystack)
}

/// Whether every pattern matches the line.
pub open spec fn matches_all(patterns: Seq<Seq<char>>, line: Seq<char>) -> bool {
    forall|i: int| 0 <= i < patterns.len() ==> #[trigger] regex_matches(patterns[i], line)
}

/// The lines that every pattern matches, in their order.
pub open spec fn spec_keep(lines: Seq<Seq<char>>, patterns: Seq<Seq<char>>) -> Seq<Seq<char>>
    decreases lines.len(),
{
    if lines.len() == 0 {
        Seq::empty()
    } else {
        spec_keep(lines.drop_last(), patterns) + (if matches_all(patterns, lines.last()) {
            seq![lines.last()]
        } else {
            Seq::empty()
        })
    }
}

/// The index of the first ill-formed pattern, if any.
pub open spec fn first_ill_formed(patterns: Seq<Seq<char>>) -> Option<int> {
    if exists|i: int| is_first_ill_formed(patterns, i) {
        Some(choose|i: int| is_first_ill_formed(patterns, i))
    } else {
        None
    }
}

/// Whether `i` indexes an ill-formed pattern with only well-formed ones
/// before it.
pub open spec fn is_first_ill_formed(patterns: Seq<Seq<char>>, i: int) -> bool {
    &&& 0 <= i < patterns.len()
    &&& !regex_compiles(patterns[i])
    &&& forall|j: int| 0 <= j < i ==> regex_compiles(#[trigger] patterns[j])
}

/// The message of the error for an ill-formed pattern.
pub open spec fn ill_formed_msg(pattern: Seq<char>) -> Seq<char> {
    "Pattern `"@ + pattern + "` is ill-formed"@
}

/// Compiles every pattern, stopping at the first ill-formed one.
fn compile_all(patterns: &[&str]) -> (res: Result<Vec<Pattern>, String>)
    ensures
        first_ill_formed(crate::strings::str_views(patterns@)) is None ==> (res matches Ok(v)
            && v@.len() == patterns@.len()
            && forall|i: int| 0 <= i < v@.len() ==> (#[trigger] v@[i])@ == patterns@[i]@),
        first_ill_formed(crate::strings::str_views(patterns@)) matches Some(i) ==> (res matches Err(msg)
            && msg@ == ill_formed_msg(patterns@[i]@)),
{
    let ghost pats = crate::strings::str_views(patterns@);
    let mut res: Vec<Pattern> = Vec::new();
    let mut i: usize = 0;
    while i < patterns.len()
        invariant
            pats == crate::strings::str_views(patterns@),
            i <= patterns@.len(),
            res@.len() == i,
            forall|j: int| 0 <= j < i ==> (#[trigger] res@[j])@ == patterns@[j]@,
            forall|j: int| 0 <= j < i ==> regex_compiles(#[trigger] pats[j]),
        decreases patterns@.len() - i,
    {
        match Pattern::new(patterns[i]) {
            Some(p) => res.push(p),
            None => {
                let msg = String::from_str("Pattern `").concat(patterns[i]).concat("` is ill-formed");
                proof {
                    let k = i as int;
                    assert(!regex_compiles(pats[k]));
                    assert(is_first_ill_formed(pats, k));
                    let c = choose|c: int| is_first_ill_formed(pats, c);
                    if c < k {
                        assert(regex_compiles(pats[c]));
                    } else if c > k {
                        assert(regex_compiles(pats[k]));
                    }
                }
                return Err(msg);
            },
        }
        i = i + 1;
    }
    Ok(res)
}

/// Whether every compiled pattern matches the line.
fn matches_every(ps: &Vec<Pattern>, line: &str) -> (res: bool)
    ensures
        res == (forall|i: int| 0 <= i < ps@.len() ==> #[trigger] regex_matches(ps@[i]@, line@)),
{
    let mut i: usize = 0;
    while i < ps.len()
        invariant
            i <= ps@.len(),
            forall|j: int| 0 <= j < i ==> #[trigger] regex_matches(ps@[j]@, line@),
        decreases ps@.len() - i,
    {
        if !pattern_matches(&ps[i], line) {
            return false;
        }
        i = i + 1;
    }
    true
}

/// The lines from `start` on that every compiled pattern matches.
fn keep_matching(ls: Vec<String>, start: usize, ps: &Vec<Pattern>, Ghost(pats): Ghost<Seq<Seq<char>>>) -> (res: Vec<String>)
    requires
        start <= ls@.len(),
        ps@.len() == pats.len(),
        forall|i: int| 0 <= i < ps@.len() ==> (#[trigger] ps@[i])@ == pats[i],
    ensures
        views(res@) == spec_keep(views(ls@).skip(start as int), pats),
{
    let ghost all = views(ls@);
    let mut res: Vec<String> = Vec::new();
    let mut i: usize = start;
    assert(all.skip(start as int).take(0) =~= Seq::<Seq<char>>::empty());
    while i < ls.len()
        invariant
            all == views(ls@),
            start <= i <= ls@.len(),
            ps@.len() == pats.len(),
            forall|k: int| 0 <= k < ps@.len() ==> (#[trigger] ps@[k])@ == pats[k],
            views(res@) == spec_keep(all.skip(start as int).take(i - start), pats),
        decreases ls@.len() - i,
    {
        let line = ls[i].as_str();
        let ok = matches_every(ps, line);
        let ghost before = views(res@);
        proof {
            let t = all.skip(start as int).take(i + 1 - start);
            assert(t.drop_last() =~= all.skip(start as int).take(i - start));
            assert(t.last() == ls@[i as int]@);
            assert(ok == matches_all(pats, ls@[i as int]@)) by {
                if ok {
                    assert forall|j: int| 0 <= j < pats.len() implies #[trigger] regex_matches(pats[j], ls@[i as int]@) by {
                        assert(ps@[j]@ == pats[j]);
                        assert(regex_matches(ps@[j]@, line@));
                    }
                } else {
                    let j = choose|j: int| 0 <= j < ps@.len() && !regex_matches(#[trigger] ps@[j]@, line@);
                    assert(ps@[j]@ == pats[j]);
                    assert(!regex_matches(pats[j], ls@[i as int]@));
                }
            }
        }
        if ok {
            let ghost vbefore = res@;
            res.push(ls[i].clone());
            proof {
                lemma_views_push(vbefore, ls@[i as int]);
                assert(views(res@) =~= before + seq![ls@[i as int]@]);
            }
        } else {
            proof {
                assert(views(res@) =~= before + Seq::<Seq<char>>::empty());
            }
        }
        i = i + 1;
    }
    assert(all.skip(start as int).take(ls@.len() - start) =~= all.skip(start as int));
    res
}

/// Finds all lines in the given `text` that match all the `patterns`, in
/// their order. Returns an [`Error::OtherError`](crate::error::Error) for the
/// first pattern that is ill-formed.
pub fn grep(text: &str, patterns: &[&str]) -> (res: crate::error::Result<Vec<String>>)
    ensures
        first_ill_formed(crate::strings::str_views(patterns@)) is None ==> (res matches Ok(v)
            && views(v@) == spec_keep(spec_lines(text@), crate::strings::str_views(patterns@))),
        first_ill_formed(crate::strings::str_views(patterns@)) matches Some(i) ==> (0 <= i < patterns@.len()
            && (res matches Err(crate::error::Error::OtherError(msg)) && msg@ == ill_formed_msg(patterns@[i]@))),
{
    let ps = match compile_all(patterns) {
        Ok(ps) => ps,
        Err(msg) => return Err(crate::error::Error::OtherError(msg)),
    };
    let ls = lines(text);
    let ghost pats = crate::strings::str_views(patterns@);
    assert forall|i: int| 0 <= i < ps@.len() implies (#[trigger] ps@[i])@ == pats[i] by {}
    let res = keep_matching(ls, 0, &ps, Ghost(pats));
    assert(views(ls@).skip(0) =~= views(ls@));
    Ok(res)
}

/// The first `header_lines` lines of `text` followed by those of the other
/// lines that match all the `patterns`. When there are no more lines than
/// `header_lines`, all the lines are given without changes.
pub open spec fn spec_grep_with_header(text: Seq<char>, patterns: Seq<Seq<char>>, header_lines: nat) -> Seq<Seq<char>> {
    let ls = spec_lines(text);
    if header_lines >= ls.len() {
        ls
    } else {
        ls.take(header_lines as int) + spec_keep(ls.skip(header_lines as int), patterns)
    }
}

/// Gives `header_lines` lines of header followed by the lines of `text`
/// that match all the `patterns`. If `header_lines` is at least the number
/// of lines, the lines are given without changes; otherwise an ill-formed
/// pattern gives an [`Error::OtherError`](crate::error::Error).
pub fn grep_with_header(text: &str, patterns: &[&str], header_lines: usize) -> (res: crate::error::Result<Vec<String>>)
    ensures
        header_lines >= spec_lines(text@).len() ==> (res matches Ok(v) && views(v@) == spec_lines(text@)),
        header_lines < spec_lines(text@).len() ==> {
            &&& first_ill_formed(crate::strings::str_views(patterns@)) is None ==> (res matches Ok(v)
                && views(v@) == spec_grep_with_header(text@, crate::strings::str_views(patterns@), header_lines as nat))
            &&& first_ill_formed(crate::strings::str_views(patterns@)) matches Some(i) ==> (0 <= i < patterns@.len()
                && (res matches Err(crate::error::Error::OtherError(msg)) && msg@ == ill_formed_msg(patterns@[i]@)))
        },
{
    let ls = lines(text);
    if header_lines >= ls.len() {
        return Ok(ls);
    }
    let ps = match compile_all(patterns) {
        Ok(ps) => ps,
        Err(msg) => return Err(crate::error::Error::OtherError(msg)),
    };
    let ghost pats = crate::strings::str_views(patterns@);
    let ghost all = views(ls@);
    let mut res: Vec<String> = Vec::new();
    let mut i: usize = 0;
    while i < header_lines
        invariant
            all == views(ls@),
            header_lines < ls@.len(),
            i <= header_lines,
            views(res@) == all.take(i as int),
        decreases header_lines - i,
    {
        let ghost vbefore = res@;
        res.push(ls[i].clone());
        proof {
            lemma_views_push(vbefore, ls@[i as int]);
            assert(views(res@) =~= all.take(i + 1));
        }
        i = i + 1;
    }
    assert forall|k: int| 0 <= k < ps@.len() implies (#[trigger] ps@[k])@ == pats[k] by {}
    let rest = keep_matching(ls, header_lines, &ps, Ghost(pats));
    let ghost head = views(res@);
    let mut k: usize = 0;
    while k < rest.len()
        invariant
            views(res@) == head + views(rest@).take(k as int),
            k <= rest@.len(),
        decreases rest@.len() - k,
    {
        let ghost vbefore = res@;
        res.push(rest[k].clone());
        proof {
            lemma_views_push(vbefore, rest@[k as int]);
            assert(views(rest@).take(k + 1) =~= views(rest@).take(k as int).push(rest@[k as int]@));
            assert(views(res@) =~= head + views(rest@).take(k + 1));
        }
        k = k + 1;
    }
    assert(views(rest@).take(rest@.len() as int) =~= views(rest@));
    Ok(res)
}

/// With no pattern, every line is kept.
pub proof fn no_pattern_keeps_every_line(lines: Seq<Seq<char>>)
    ensures
        spec_keep(lines, Seq::empty()) == lines,
    decreases lines.len(),
{
    if lines.len() > 0 {
        no_pattern_keeps_every_line(lines.drop_last());
        assert(matches_all(Seq::empty(), lines.last()));
        assert(lines.drop_last().push(lines.last()) =~= lines);
    }
}

/// Every line kept matches every pattern, and is one of the lines given.
pub proof fn kept_lines_match_every_pattern(lines: Seq<Seq<char>>, patterns: Seq<Seq<char>>)
    ensures
        forall|i: int| 0 <= i < spec_keep(lines, patterns).len() ==> matches_all(patterns, #[trigger] spec_keep(lines, patterns)[i]),
        forall|i: int| 0 <= i < spec_keep(lines, patterns).len() ==> lines.contains(#[trigger] spec_keep(lines, patterns)[i]),
        spec_keep(lines, patterns).len() <= lines.len(),
    decreases lines.len(),
{
    if lines.len() > 0 {
        let init = lines.drop_last();
        kept_lines_match_every_pattern(init, patterns);
        let k = spec_keep(lines, patterns);
        let k0 = spec_keep(init, patterns);
        assert forall|i: int| 0 <= i < k.len() implies lines.contains(#[trigger] k[i]) by {
            if i < k0.len() {
                assert(init.contains(k0[i]));
                let j = choose|j: int| 0 <= j < init.len() && init[j] == k0[i];
                assert(lines[j] == k0[i]);
            } else {
                assert(k[i] == lines.last());
                assert(lines[lines.len() - 1] == lines.last());
            }
        }
    }
}

/// When every line matches every pattern, every line is kept, in its
/// order.
pub proof fn matching_lines_are_kept(lines: Seq<Seq<char>>, patterns: Seq<Seq<char>>)
    requires
        forall|i: int| 0 <= i < lines.len() ==> matches_all(patterns, #[trigger] lines[i]),
    ensures
        spec_keep(lines, patterns) == lines,
    decreases lines.len(),
{
    if lines.len() > 0 {
        let init = lines.drop_last();
        assert forall|i: int| 0 <= i < init.len() implies matches_all(patterns, #[trigger] init[i]) by {
            assert(init[i] == lines[i]);
        }
        matching_lines_are_kept(init, patterns);
        assert(matches_all(patterns, lines[lines.len() - 1]));
        assert(init.push(lines.last()) =~= lines);
    }
}

} // verus!
