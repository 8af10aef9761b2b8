//! Whitespace, trimming and blank input lines.
//!
//! Text is modelled as `Seq<char>`. Which characters count as whitespace is
//! decided by the standard library; everything built on that predicate is
//! defined and proved here.

use vstd::prelude::*;

verus! {

/// Whether a character has the Unicode `White_Space` property.
pub uninterp spec fn white_space(c: char) -> bool;

/// `char::is_whitespace`: reports whether `c` has the Unicode `White_Space`
/// property. Trusted: the answer is taken to be a function of `c` alone.
#[verifier::external_body]
fn is_white_space(c: char) -> (b: bool)
    ensures
        b == white_space(c),
{
    c.is_whitespace()
}

/// How many characters at the front of `s` are whitespace.
pub open spec fn leading_white(s: Seq<char>) -> nat
    decreases s.len(),
{
    if s.len() > 0 && white_space(s[0]) {
        1 + leading_white(s.drop_first())
    } else {
        0
    }
}

/// How many characters at the back of `s` are whitespace.
pub open spec fn trailing_white(s: Seq<char>) -> nat
    decreases s.len(),
{
    if s.len() > 0 && white_space(s.last()) {
        1 + trailing_white(s.drop_last())
    } else {
        0
    }
}

/// `s` without its leading whitespace.
pub open spec fn trimmed_start(s: Seq<char>) -> Seq<char> {
    s.skip(leading_white(s) as int)
}

/// `s` without its trailing whitespace.
pub open spec fn trimmed_end(s: Seq<char>) -> Seq<char> {
    s.take(s.len() - trailing_white(s))
}

/// `s` without its leading and trailing whitespace.
pub open spec fn trimmed(s: Seq<char>) -> Seq<char> {
    trimmed_end(trimmed_start(s))
}

/// A line that stands for no input at all: nothing, or a bare line ending.
pub open spec fn blank_line(s: Seq<char>) -> bool {
    ||| s.len() == 0
    ||| (s.len() == 1 && s[0] == '\n')
    ||| (s.len() == 2 && s[0] == '\r' && s[1] == '\n')
}

/// What a line of input contributes to the conversation: nothing when it is
/// blank, otherwise its trimmed text.
pub open spec fn accepted(line: Seq<char>) -> Option<Seq<char>> {
    if blank_line(line) {
        None
    } else {
        Some(trimmed(line))
    }
}

/// If exactly the first `a` characters of `s` are whitespace, `leading_white` is `a`.
pub proof fn lemma_leading_white(s: Seq<char>, a: int)
    requires
        0 <= a <= s.len(),
        forall|k: int| 0 <= k < a ==> white_space(#[trigger] s[k]),
        a < s.len() ==> !white_space(s[a]),
    ensures
        leading_white(s) == a,
    decreases a,
{
    if a > 0 {
        lemma_leading_white(s.drop_first(), a - 1);
    }
}

/// If exactly the characters of `s` from `b` on are whitespace, `trailing_white`
/// is their number.
pub proof fn lemma_trailing_white(s: Seq<char>, b: int)
    requires
        0 <= b <= s.len(),
        forall|k: int| b <= k < s.len() ==> white_space(#[trigger] s[k]),
        b > 0 ==> !white_space(s[b - 1]),
    ensures
        trailing_white(s) == s.len() - b,
    decreases s.len() - b,
{
    if b < s.len() {
        lemma_trailing_white(s.drop_last(), b);
    }
}

/// Trimming keeps the stretch from the first to the last character that is not
/// whitespace: with `a` the position of the first one and `b` the position just
/// past the last one (both 0 when there is none), `trimmed(s)` is `s[a..b]`.
pub proof fn lemma_trimmed_is(s: Seq<char>, a: int, b: int)
    requires
        0 <= a <= b <= s.len(),
        forall|k: int| b <= k < s.len() ==> white_space(#[trigger] s[k]),
        forall|k: int| 0 <= k < a ==> white_space(#[trigger] s[k]),
        b > 0 ==> a < b && !white_space(s[a]) && !white_space(s[b - 1]),
    ensures
        trimmed(s) == s.subrange(a, b),
{
    if b == 0 {
        lemma_leading_white(s, s.len() as int);
    } else {
        lemma_leading_white(s, a);
        lemma_trailing_white(trimmed_start(s), b - a);
    }
}

/// Removes leading and trailing whitespace.
pub fn trim(s: &str) -> (r: String)
    ensures
        r@ == trimmed(s@),
{
    let total: usize = s.unicode_len();
    let mut first: usize = 0;
    let mut past_last: usize = 0;
    let mut i: usize = 0;
    for c in it: s.chars()
        invariant
            i == it.index(),
            it.seq() == s@,
            total == s@.len(),
            first <= past_last <= i,
            forall|k: int| past_last <= k < i ==> white_space(#[trigger] s@[k]),
            forall|k: int| 0 <= k < first ==> white_space(#[trigger] s@[k]),
            past_last > 0 ==> first < past_last && !white_space(s@[first as int]) && !white_space(
                s@[past_last - 1],
            ),
    {
        if !is_white_space(c) {
            if past_last == 0 {
                first = i;
            }
            past_last = i + 1;
        }
        i = i + 1;
    }
    proof {
        lemma_trimmed_is(s@, first as int, past_last as int);
    }
    String::from_str(s.substring_char(first, past_last))
}

/// Whether a line of input is blank: empty, `"\n"` or `"\r\n"`.
pub fn is_blank_line(line: &str) -> (b: bool)
    ensures
        b == blank_line(line@),
{
    let n: usize = line.unicode_len();
    if n == 0 {
        true
    } else if n == 1 {
        line.get_char(0) == '\n'
    } else if n == 2 {
        line.get_char(0) == '\r' && line.get_char(1) == '\n'
    } else {
        false
    }
}

/// Decides what a line of input is worth: `None` for a blank line, which is to
/// be read again, and otherwise the line without its surrounding whitespace.
pub fn accept_line(line: &str) -> (r: Option<String>)
    ensures
        r is None <==> blank_line(line@),
        r matches Some(text) ==> text@ == trimmed(line@),
{
    if is_blank_line(line) {
        None
    } else {
        Some(trim(line))
    }
}

} // verus!
