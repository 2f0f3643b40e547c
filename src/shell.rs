//! Quoting of values that go into remote shell commands.
use vstd::prelude::*;

use crate::text::{chars_of, push_char};

verus! {

/// Characters that a POSIX shell reads literally outside quotes.
pub open spec fn is_safe_char(c: char) -> bool {
    ('a' <= c && c <= 'z') || ('A' <= c && c <= 'Z') || ('0' <= c && c <= '9') || c == '_'
        || c == '-' || c == '.' || c == '/' || c == ':'
}

/// What one character becomes inside single quotes: a quote closes the
/// quoting, is escaped, and reopens it.
pub open spec fn quoted_char(c: char) -> Seq<char> {
    if c == '\'' {
        seq!['\'', '\\', '\'', '\'']
    } else {
        seq![c]
    }
}

/// `s` with every single quote written as `'\''`.
pub open spec fn quote_body(s: Seq<char>) -> Seq<char>
    decreases s.len(),
{
    if s.len() == 0 {
        Seq::<char>::empty()
    } else {
        quote_body(s.drop_last()) + quoted_char(s.last())
    }
}

/// The shell word that stands for the value `s`.
pub open spec fn shell_word(s: Seq<char>) -> Seq<char> {
    if s.len() == 0 {
        seq!['\'', '\'']
    } else if forall|i: int| 0 <= i < s.len() ==> is_safe_char(#[trigger] s[i]) {
        s
    } else {
        seq!['\''] + quote_body(s) + seq!['\'']
    }
}

fn char_is_safe(c: char) -> (r: bool)
    ensures
        r == is_safe_char(c),
{
    ('a' <= c && c <= 'z') || ('A' <= c && c <= 'Z') || ('0' <= c && c <= '9') || c == '_'
        || c == '-' || c == '.' || c == '/' || c == ':'
}

/// Appends `quote_body(v)` to `out`.
fn push_quoted(out: &mut String, v: &Vec<char>)
    ensures
        final(out)@ == old(out)@ + quote_body(v@),
{
    let mut i: usize = 0;
    while i < v.len()
        invariant
            i <= v.len(),
            out@ == old(out)@ + quote_body(v@.subrange(0, i as int)),
        decreases v.len() - i,
    {
        assert(v@.subrange(0, i + 1).drop_last() =~= v@.subrange(0, i as int));
        let c = v[i];
        if c == '\'' {
            push_char(out, '\'');
            push_char(out, '\\');
            push_char(out, '\'');
            push_char(out, '\'');
        } else {
            push_char(out, c);
        }
        i = i + 1;
        assert(out@ =~= old(out)@ + quote_body(v@.subrange(0, i as int)));
    }
    assert(v@.subrange(0, v.len() as int) =~= v@);
}

/// Quotes `s` so that a POSIX shell reads it back as one word with the
/// same value: safe words stay as they are, the empty word is `''`, anything
/// else goes into single quotes.
pub fn escape(s: &str) -> (r: String)
    ensures
        r@ == shell_word(s@),
{
    let v = chars_of(s);
    if v.len() == 0 {
        let mut r = String::new();
        push_char(&mut r, '\'');
        push_char(&mut r, '\'');
        assert(r@ =~= seq!['\'', '\'']);
        return r;
    }
    let mut all_safe = true;
    let mut i: usize = 0;
    while i < v.len()
        invariant
            i <= v.len(),
            all_safe <==> forall|k: int| 0 <= k < i ==> is_safe_char(#[trigger] v@[k]),
        decreases v.len() - i,
    {
        if !char_is_safe(v[i]) {
            all_safe = false;
        }
        i = i + 1;
    }
    if all_safe {
        return String::from_str(s);
    }
    let mut r = String::new();
    push_char(&mut r, '\'');
    push_quoted(&mut r, &v);
    push_char(&mut r, '\'');
    assert(r@ =~= seq!['\''] + quote_body(s@) + seq!['\'']);
    r
}

/// Escapes the single quotes of a value that the caller places inside
/// single quotes (`export K='value'`).
pub fn escape_env_value(s: &str) -> (r: String)
    ensures
        r@ == quote_body(s@),
{
    let v = chars_of(s);
    let mut r = String::new();
    push_quoted(&mut r, &v);
    assert(r@ =~= quote_body(s@));
    r
}

} // verus!
