//! The lines of output messages: a prompt right-aligned in a fixed width,
//! then the message.

use vstd::prelude::*;

use crate::strings::push_char;

verus! {

/// The width in which prompt prefixes are right-aligned.
pub const PROMPT_INDENT: usize = 9;

/// The prompt before a command that is shown and not run.
pub const CANCELED: &'static str = "Canceled";
/// The prompt before a command that waits for confirmation.
pub const PENDING: &'static str = "Pending";
/// The prompt before a command that runs.
pub const RUNNING: &'static str = "Running";
/// The prompt before a piece of information.
pub const INFO: &'static str = "Info";
/// The prompt before an error.
pub const ERROR: &'static str = "Error";

/// `s` right-aligned in `width` characters: preceded by as many spaces as
/// it is shorter than `width`.
pub open spec fn spec_pad_left(s: Seq<char>, width: nat) -> Seq<char> {
    if s.len() >= width {
        s
    } else {
        Seq::new((width - s.len()) as nat, |_i: int| ' ') + s
    }
}

/// `s` right-aligned in `width` characters.
pub fn pad_left(s: &str, width: usize) -> (res: String)
    ensures
        res@ == spec_pad_left(s@, width as nat),
{
    let n = s.unicode_len();
    let mut res = String::new();
    if n < width {
        let mut i: usize = 0;
        while i < width - n
            invariant
                n == s@.len(),
                n < width,
                i <= width - n,
                res@ == Seq::new(i as nat, |_i: int| ' '),
            decreases width - n - i,
        {
            push_char(&mut res, ' ');
            assert(res@ =~= Seq::new((i + 1) as nat, |_i: int| ' '));
            i = i + 1;
        }
    }
    res.append(s);
    assert(n >= width ==> res@ =~= s@);
    res
}

/// The line of an error after the given prompt: the prompt right-aligned
/// in [`PROMPT_INDENT`] characters, a space, then the error as rendered.
pub open spec fn spec_err_line(prompt: Seq<char>, err: Seq<char>) -> Seq<char> {
    spec_pad_left(prompt, PROMPT_INDENT as nat) + " "@ + err
}

/// The line of a message after the given prompt.
pub open spec fn spec_plain_line(prompt: Seq<char>, msg: Seq<char>) -> Seq<char> {
    spec_pad_left(prompt, PROMPT_INDENT as nat) + " "@ + msg
}

/// The line of a backtick-quoted message after the given prompt.
pub open spec fn spec_quoted_line(prompt: Seq<char>, msg: Seq<char>) -> Seq<char> {
    spec_pad_left(prompt, PROMPT_INDENT as nat) + " `"@ + msg + "`"@
}

/// Writes an error, as rendered by its `Debug` form, after the given prompt.
pub fn write_err(prompt: &str, err: &str) -> (res: String)
    ensures
        res@ == spec_err_line(prompt@, err@),
{
    let mut res = pad_left(prompt, PROMPT_INDENT);
    res.append(" ");
    res.append(err);
    res
}

/// The line of a message after the given prompt.
pub fn plain_line(prompt: &str, msg: &str) -> (res: String)
    ensures
        res@ == spec_plain_line(prompt@, msg@),
{
    let mut res = pad_left(prompt, PROMPT_INDENT);
    res.append(" ");
    res.append(msg);
    res
}

/// The line of a backtick-quoted message after the given prompt.
pub fn quoted_line(prompt: &str, msg: &str) -> (res: String)
    ensures
        res@ == spec_quoted_line(prompt@, msg@),
{
    let mut res = pad_left(prompt, PROMPT_INDENT);
    res.append(" `");
    res.append(msg);
    res.append("`");
    res
}

/// Every prompt shorter than the indentation ends where the indentation
/// ends, so that the messages after the prompts line up.
pub proof fn short_prompts_line_up(prompt: Seq<char>)
    requires
        prompt.len() <= PROMPT_INDENT,
    ensures
        spec_pad_left(prompt, PROMPT_INDENT as nat).len() == PROMPT_INDENT,
        spec_pad_left(prompt, PROMPT_INDENT as nat).subrange(PROMPT_INDENT - prompt.len(), PROMPT_INDENT as int) == prompt,
{
    assert(spec_pad_left(prompt, PROMPT_INDENT as nat).subrange(PROMPT_INDENT - prompt.len(), PROMPT_INDENT as int) =~= prompt);
}

} // verus!
