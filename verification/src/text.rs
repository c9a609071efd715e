//! Quoting of string values for the structured debug rendering.
//!
//! A quoted string is the text wrapped in double quotes, with the quote, the
//! backslash and the common control characters escaped, as conventional
//! record-notation debug output shows them.

use vstd::prelude::*;
use vstd::string::StrSliceExecFns;

verus! {

/// How a single character appears inside a quoted string: the double quote,
/// the backslash, and the common control characters are escaped with a
/// backslash; every other character stands unchanged.
pub open spec fn escaped_char(c: char) -> Seq<char> {
    if c == '"' {
        seq!['\\', '"']
    } else if c == '\\' {
        seq!['\\', '\\']
    } else if c == '\n' {
        seq!['\\', 'n']
    } else if c == '\r' {
        seq!['\\', 'r']
    } else if c == '\t' {
        seq!['\\', 't']
    } else if c == '\0' {
        seq!['\\', '0']
    } else {
        seq![c]
    }
}

/// A text with each of its characters escaped.
pub open spec fn escaped(s: Seq<char>) -> Seq<char>
    decreases s.len(),
{
    if s.len() == 0 {
        Seq::empty()
    } else {
        escaped_char(s[0]) + escaped(s.drop_first())
    }
}

/// A text as it appears as a quoted string value: escaped and wrapped in
/// double quotes.
pub open spec fn quoted(s: Seq<char>) -> Seq<char> {
    seq!['"'] + escaped(s) + seq!['"']
}

/// Escaping distributes over concatenation.
pub proof fn lemma_escaped_append(a: Seq<char>, b: Seq<char>)
    ensures
        escaped(a + b) == escaped(a) + escaped(b),
    decreases a.len(),
{
    if a.len() == 0 {
        assert(a + b =~= b);
        assert(escaped(a) + escaped(b) =~= escaped(b));
    } else {
        assert((a + b).drop_first() =~= a.drop_first() + b);
        lemma_escaped_append(a.drop_first(), b);
        assert(escaped(a + b) =~= escaped(a) + escaped(b));
    }
}

/// Escaping one more character extends the escaped prefix.
pub proof fn lemma_escaped_take_succ(s: Seq<char>, i: int)
    requires
        0 <= i < s.len(),
    ensures
        escaped(s.take(i + 1)) == escaped(s.take(i)) + escaped_char(s[i]),
{
    let u = seq![s[i]];
    assert(s.take(i + 1) =~= s.take(i) + u);
    lemma_escaped_append(s.take(i), u);
    assert(u.len() == 1 && u[0] == s[i]);
    assert(u.drop_first() =~= Seq::<char>::empty());
    assert(escaped(u.drop_first()) == Seq::<char>::empty());
    assert(escaped(u) == escaped_char(s[i]) + escaped(u.drop_first()));
    assert(escaped(u) =~= escaped_char(s[i]));
}

/// Relies on `String::push`: appends the given character to the end of the
/// string.
pub assume_specification[ String::push ](s: &mut String, c: char)
    ensures
        final(s)@ == old(s)@.push(c),
;

/// Appends one character in its escaped form.
fn push_escaped(out: &mut String, c: char)
    ensures
        final(out)@ == old(out)@ + escaped_char(c),
{
    if c == '"' {
        out.push('\\');
        out.push('"');
    } else if c == '\\' {
        out.push('\\');
        out.push('\\');
    } else if c == '\n' {
        out.push('\\');
        out.push('n');
    } else if c == '\r' {
        out.push('\\');
        out.push('r');
    } else if c == '\t' {
        out.push('\\');
        out.push('t');
    } else if c == '\0' {
        out.push('\\');
        out.push('0');
    } else {
        out.push(c);
    }
    assert(out@ =~= old(out)@ + escaped_char(c));
}

/// Appends the quoted form of `s`.
pub(crate) fn append_quoted(out: &mut String, s: &str)
    ensures
        final(out)@ == old(out)@ + quoted(s@),
{
    out.push('"');
    let len = s.unicode_len();
    let mut i: usize = 0;
    while i < len
        invariant
            len == s@.len(),
            0 <= i <= len,
            out@ == old(out)@ + seq!['"'] + escaped(s@.take(i as int)),
        decreases len - i,
    {
        let c = s.get_char(i);
        proof {
            lemma_escaped_take_succ(s@, i as int);
        }
        push_escaped(out, c);
        i = i + 1;
    }
    proof {
        assert(s@.take(len as int) =~= s@);
    }
    out.push('"');
    assert(out@ =~= old(out)@ + quoted(s@));
}

} // verus!
