//! Context-sensitive escaping of raw text for embedding in XML markup.
//!
//! `&`, `<` and `>` are always replaced by the predefined entities; `"` and
//! `'` are replaced only in attribute context. Every other character passes
//! through unchanged. The escaped text is appended to the growing output
//! character by character, never materialized as an intermediate full copy.

use vstd::prelude::*;

verus! {

/// The replacement for one character: entity references for the five
/// predefined entities (quotes only in attribute context, `attr`), the
/// character itself otherwise.
pub open spec fn escaped_char(c: char, attr: bool) -> Seq<char> {
    if c == '&' {
        "&amp;"@
    } else if c == '<' {
        "&lt;"@
    } else if c == '>' {
        "&gt;"@
    } else if c == '"' && attr {
        "&quot;"@
    } else if c == '\'' && attr {
        "&apos;"@
    } else {
        seq![c]
    }
}

/// The escaped form of a whole text: each character replaced by
/// `escaped_char`, in order.
pub open spec fn escaped(s: Seq<char>, attr: bool) -> Seq<char>
    decreases s.len(),
{
    if s.len() == 0 {
        Seq::empty()
    } else {
        escaped_char(s[0], attr) + escaped(s.skip(1), attr)
    }
}

/// Escaping distributes over appending one character at the end.
pub proof fn lemma_escaped_push(s: Seq<char>, c: char, attr: bool)
    ensures
        escaped(s.push(c), attr) == escaped(s, attr) + escaped_char(c, attr),
    decreases s.len(),
{
    if s.len() == 0 {
        assert(s.push(c).skip(1) =~= Seq::<char>::empty());
        assert(s.push(c)[0] == c);
        assert(escaped(s.push(c), attr) == escaped_char(c, attr) + escaped(Seq::empty(), attr));
        assert(escaped(s.push(c), attr) =~= escaped(s, attr) + escaped_char(c, attr));
    } else {
        assert(s.push(c).skip(1) =~= s.skip(1).push(c));
        lemma_escaped_push(s.skip(1), c, attr);
        assert(s.push(c)[0] == s[0]);
        assert(escaped(s.push(c), attr) =~= escaped(s, attr) + escaped_char(c, attr));
    }
}

/// Relies on `String::push`: appends exactly the given character.
#[verifier::external_body]
pub(crate) fn push_char(out: &mut String, c: char)
    ensures
        final(out)@ == old(out)@.push(c),
{
    out.push(c);
}

/// Appends the escaped form of `text` to `out`, one character at a time.
pub fn escape_into(out: &mut String, text: &str, attr: bool)
    ensures
        final(out)@ == old(out)@ + escaped(text@, attr),
{
    let n: usize = text.unicode_len();
    let mut i: usize = 0;
    while i < n
        invariant
            n == text@.len(),
            i <= n,
            out@ == old(out)@ + escaped(text@.take(i as int), attr),
        decreases n - i,
    {
        let c = text.get_char(i);
        if c == '&' {
            out.append("&amp;");
        } else if c == '<' {
            out.append("&lt;");
        } else if c == '>' {
            out.append("&gt;");
        } else if c == '"' && attr {
            out.append("&quot;");
        } else if c == '\'' && attr {
            out.append("&apos;");
        } else {
            push_char(out, c);
        }
        proof {
            assert(text@.take(i + 1) =~= text@.take(i as int).push(c));
            lemma_escaped_push(text@.take(i as int), c, attr);
            assert(out@ =~= old(out)@ + escaped(text@.take(i + 1), attr));
        }
        i = i + 1;
    }
    proof {
        assert(text@.take(n as int) =~= text@);
    }
}

/// Escapes raw text for use inside a double-quoted attribute value.
pub fn escape_str_attribute(text: &str) -> (r: String)
    ensures
        r@ == escaped(text@, true),
{
    let mut r = String::new();
    escape_into(&mut r, text, true);
    r
}

/// Escapes raw text for use as character data between tags.
pub fn escape_str_pcdata(text: &str) -> (r: String)
    ensures
        r@ == escaped(text@, false),
{
    let mut r = String::new();
    escape_into(&mut r, text, false);
    r
}

} // verus!
