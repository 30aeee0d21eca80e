//! Small helpers on text: trailing runs, growing a `String`, decimal numerals.

use vstd::prelude::*;
use vstd::string::*;

verus! {

/// How many copies of `c` stand at the end of `s`.
pub open spec fn trailing_run(s: Seq<char>, c: char) -> nat
    decreases s.len(),
{
    if s.len() > 0 && s.last() == c {
        1 + trailing_run(s.drop_last(), c)
    } else {
        0
    }
}

/// `s` without the copies of `c` that stand at its end.
pub open spec fn without_trailing(s: Seq<char>, c: char) -> Seq<char> {
    s.take(s.len() - trailing_run(s, c))
}

/// The run at the end of `s` is no longer than `s`, everything in it is `c`,
/// and the character before it, if there is one, is not `c`.
pub proof fn lemma_trailing_run(s: Seq<char>, c: char)
    ensures
        trailing_run(s, c) <= s.len(),
        forall|i: int| s.len() - trailing_run(s, c) <= i < s.len() ==> s[i] == c,
        trailing_run(s, c) < s.len() ==> s[s.len() - trailing_run(s, c) - 1] != c,
    decreases s.len(),
{
    if s.len() > 0 && s.last() == c {
        let t = s.drop_last();
        lemma_trailing_run(t, c);
        assert forall|i: int| s.len() - trailing_run(s, c) <= i < s.len() implies s[i] == c by {
            if i < t.len() {
                assert(t[i] == s[i]);
            }
        }
        if trailing_run(s, c) < s.len() {
            assert(t[t.len() - trailing_run(t, c) - 1] == s[s.len() - trailing_run(s, c) - 1]);
        }
    }
}

/// A run of `k` copies of `c` at the end of `s`, with another character (or
/// nothing) before it, is the trailing run.
pub proof fn lemma_trailing_run_is(s: Seq<char>, c: char, k: nat)
    requires
        k <= s.len(),
        forall|i: int| s.len() - k <= i < s.len() ==> s[i] == c,
        k < s.len() ==> s[s.len() - k - 1] != c,
    ensures
        trailing_run(s, c) == k,
    decreases s.len(),
{
    if k > 0 {
        let t = s.drop_last();
        assert forall|i: int| t.len() - (k - 1) <= i < t.len() implies t[i] == c by {
            assert(t[i] == s[i]);
        }
        if k - 1 < t.len() {
            assert(t[t.len() - (k - 1) - 1] == s[s.len() - k - 1]);
        }
        lemma_trailing_run_is(t, c, (k - 1) as nat);
    }
}

/// Appends one character with `String::push`: afterwards the text is the old
/// text followed by that character.
#[verifier::external_body]
pub(crate) fn push_char(text: &mut String, c: char)
    ensures
        final(text)@ == old(text)@.push(c),
{
    text.push(c);
}

/// The part of `s` before the copies of `c` at its end.
pub fn strip_trailing(s: &str, c: char) -> (kept: &str)
    ensures
        kept@ == without_trailing(s@, c),
{
    let n: usize = s.unicode_len();
    let mut k: usize = n;
    while k > 0 && s.get_char(k - 1) == c
        invariant
            k <= n,
            n == s@.len(),
            forall|i: int| k <= i < n ==> s@[i] == c,
        decreases k,
    {
        k = k - 1;
    }
    proof {
        lemma_trailing_run_is(s@, c, (n - k) as nat);
    }
    s.substring_char(0, k)
}

/// The character for a decimal digit.
pub open spec fn digit_char(d: int) -> char {
    (d + 48) as u8 as char
}

/// A number in decimal, without leading zeros.
pub open spec fn decimal_text(n: nat) -> Seq<char>
    decreases n,
{
    if n < 10 {
        seq![digit_char(n as int)]
    } else {
        decimal_text(n / 10).push(digit_char((n % 10) as int))
    }
}

/// Writes a number in decimal.
pub fn decimal(n: u16) -> (text: String)
    ensures
        text@ == decimal_text(n as nat),
    decreases n,
{
    let mut text = if n < 10 {
        String::new()
    } else {
        decimal(n / 10)
    };
    let digit: u8 = (n % 10) as u8 + 48;
    push_char(&mut text, digit as char);
    assert(n < 10 ==> text@ =~= seq![digit_char(n as int)]);
    text
}

} // verus!
