//! String helpers shared by the command, search and formatting logic.

use vstd::prelude::*;

verus! {

/// The characters of each string of a sequence.
pub open spec fn views(v: Seq<String>) -> Seq<Seq<char>> {
    v.map_values(|s: String| s@)
}

/// The characters of each string slice of a sequence.
pub open spec fn str_views(v: Seq<&str>) -> Seq<Seq<char>> {
    v.map_values(|s: &str| s@)
}

/// The words of `ws` joined by `sep`.
pub open spec fn join(ws: Seq<Seq<char>>, sep: Seq<char>) -> Seq<char>
    decreases ws.len(),
{
    if ws.len() == 0 {
        Seq::empty()
    } else if ws.len() == 1 {
        ws[0]
    } else {
        join(ws.drop_last(), sep) + sep + ws.last()
    }
}

/// Appends one character to a string.
///
/// Calls `String::push`, which the standard library documents as appending
/// the given `char` to the end of the string.
#[verifier::external_body]
pub fn push_char(s: &mut String, c: char)
    ensures
        final(s)@ == old(s)@.push(c),
{
    s.push(c);
}

/// Copies each string slice into an owned string.
pub fn to_strings(words: &[&str]) -> (res: Vec<String>)
    ensures
        views(res@) == str_views(words@),
{
    let mut res: Vec<String> = Vec::new();
    let mut i: usize = 0;
    while i < words.len()
        invariant
            i <= words@.len(),
            res@.len() == i,
            forall|j: int| 0 <= j < i ==> #[trigger] res@[j]@ == words@[j]@,
        decreases words@.len() - i,
    {
        res.push(String::from_str(words[i]));
        i = i + 1;
    }
    assert(views(res@) =~= str_views(words@));
    res
}

/// Borrows each string of a vector as a string slice.
pub fn as_strs(words: &Vec<String>) -> (res: Vec<&str>)
    ensures
        str_views(res@) == views(words@),
{
    let mut res: Vec<&str> = Vec::new();
    let mut i: usize = 0;
    while i < words.len()
        invariant
            i <= words@.len(),
            res@.len() == i,
            forall|j: int| 0 <= j < i ==> #[trigger] res@[j]@ == words@[j]@,
        decreases words@.len() - i,
    {
        res.push(words[i].as_str());
        i = i + 1;
    }
    assert(str_views(res@) =~= views(words@));
    res
}

/// Copies a vector of strings.
pub fn clone_strings(words: &Vec<String>) -> (res: Vec<String>)
    ensures
        views(res@) == views(words@),
{
    let mut res: Vec<String> = Vec::new();
    let mut i: usize = 0;
    while i < words.len()
        invariant
            i <= words@.len(),
            res@.len() == i,
            forall|j: int| 0 <= j < i ==> #[trigger] res@[j]@ == words@[j]@,
        decreases words@.len() - i,
    {
        res.push(words[i].clone());
        i = i + 1;
    }
    assert(views(res@) =~= views(words@));
    res
}

/// Appends copies of `more` to the end of `words`.
pub fn extend_strings(words: &mut Vec<String>, more: &Vec<String>)
    ensures
        views(final(words)@) == views(old(words)@) + views(more@),
{
    let ghost start = words@;
    let mut i: usize = 0;
    while i < more.len()
        invariant
            i <= more@.len(),
            words@.len() == start.len() + i,
            forall|j: int| 0 <= j < start.len() ==> #[trigger] words@[j]@ == start[j]@,
            forall|j: int| 0 <= j < i ==> #[trigger] words@[start.len() + j]@ == more@[j]@,
        decreases more@.len() - i,
    {
        words.push(more[i].clone());
        i = i + 1;
    }
    assert forall|k: int| start.len() <= k < words@.len() implies words@[k]@ == more@[k - start.len()]@ by {
        let j = k - start.len();
        assert(words@[start.len() + j]@ == more@[j]@);
    }
    assert(views(words@) =~= views(start) + views(more@));
}

/// Joins the words with the separator in between.
pub fn join_strings(words: &Vec<String>, sep: &str) -> (res: String)
    ensures
        res@ == join(views(words@), sep@),
{
    let mut res = String::new();
    let mut i: usize = 0;
    while i < words.len()
        invariant
            i <= words@.len(),
            res@ == join(views(words@.subrange(0, i as int)), sep@),
        decreases words@.len() - i,
    {
        let ghost prev = views(words@.subrange(0, i as int));
        if i != 0 {
            res.append(sep);
        }
        res.append(words[i].as_str());
        proof {
            let cur = views(words@.subrange(0, i + 1));
            assert(cur.drop_last() == prev);
            assert(cur.last() == words@[i as int]@);
            if i == 0 {
                assert(cur.len() == 1);
            }
        }
        i = i + 1;
    }
    proof {
        assert(words@.subrange(0, words@.len() as int) == words@);
    }
    res
}

} // verus!

verus! {

/// The characters of the strings after one more string is pushed.
pub proof fn lemma_views_push(v: Seq<String>, s: String)
    ensures
        views(v.push(s)) == views(v).push(s@),
{
    assert(views(v.push(s)) =~= views(v).push(s@));
}

/// Joining two non-empty lists of words puts one separator between the two
/// joined halves.
pub proof fn lemma_join_append(a: Seq<Seq<char>>, b: Seq<Seq<char>>, sep: Seq<char>)
    requires
        a.len() > 0,
        b.len() > 0,
    ensures
        join(a + b, sep) == join(a, sep) + sep + join(b, sep),
    decreases b.len(),
{
    if b.len() == 1 {
        assert((a + b).drop_last() =~= a);
        assert((a + b).last() == b[0]);
    } else {
        lemma_join_append(a, b.drop_last(), sep);
        assert((a + b).drop_last() =~= a + b.drop_last());
        assert((a + b).last() == b.last());
    }
}

} // verus!

verus! {

/// Whether two string slices hold the same characters.
pub fn str_eq(a: &str, b: &str) -> (res: bool)
    ensures
        res == (a@ == b@),
{
    let x = String::from_str(a);
    let y = String::from_str(b);
    x == y
}

/// The character of the decimal digit `d`.
pub open spec fn digit_char(d: int) -> char {
    (d + 48) as char
}

/// The decimal digits of `n`, most significant first, without leading
/// zeros (`0` is the single digit `0`).
pub open spec fn spec_digits(n: nat) -> Seq<char>
    decreases n,
{
    if n < 10 {
        seq![digit_char(n as int)]
    } else {
        spec_digits(n / 10).push(digit_char((n % 10) as int))
    }
}

/// The decimal notation of `i`, with a leading `-` when it is negative.
pub open spec fn spec_decimal(i: int) -> Seq<char> {
    if i < 0 {
        seq!['-'] + spec_digits((-i) as nat)
    } else {
        spec_digits(i as nat)
    }
}

/// Appends the decimal digits of `n` to `s`.
fn push_digits(s: &mut String, n: u64)
    ensures
        final(s)@ == old(s)@ + spec_digits(n as nat),
    decreases n,
{
    if n >= 10 {
        push_digits(s, n / 10);
    }
    let d: u8 = (n % 10) as u8;
    let c = (d + 48) as char;
    push_char(s, c);
    proof {
        if n < 10 {
            assert(old(s)@ + spec_digits(n as nat) =~= old(s)@.push(c));
        } else {
            assert(old(s)@ + spec_digits(n as nat) =~= (old(s)@ + spec_digits((n / 10) as nat)).push(c));
        }
    }
}

/// The decimal notation of `i`, as `format!("{i}")` writes it.
pub fn decimal(i: i32) -> (res: String)
    ensures
        res@ == spec_decimal(i as int),
{
    let mut res = String::new();
    if i < 0 {
        push_char(&mut res, '-');
        let n: u64 = (0i64 - i as i64) as u64;
        push_digits(&mut res, n);
    } else {
        push_digits(&mut res, i as u64);
        assert(res@ =~= spec_digits(i as nat));
    }
    res
}

} // verus!
