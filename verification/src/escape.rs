use vstd::prelude::*;

verus! {

/// The entity substituted for a character inside a quoted XML attribute
/// value: the five markup characters become their named entities, a line
/// break or carriage return becomes a character reference (so the value
/// stays on one line), and every other character stays as it is.
pub open spec fn escape_char(c: char) -> Seq<char> {
    if c == '<' {
        "&lt;"@
    } else if c == '>' {
        "&gt;"@
    } else if c == '"' {
        "&quot;"@
    } else if c == '\'' {
        "&apos;"@
    } else if c == '&' {
        "&amp;"@
    } else if c == '\n' {
        "&#xA;"@
    } else if c == '\r' {
        "&#xD;"@
    } else {
        seq![c]
    }
}

/// A string made safe for use as an XML attribute value: each character is
/// replaced by `escape_char` of it, in order.
pub open spec fn escape_attr(s: Seq<char>) -> Seq<char>
    decreases s.len(),
{
    if s.len() == 0 {
        Seq::empty()
    } else {
        escape_char(s[0]) + escape_attr(s.drop_first())
    }
}

/// Relies on xml::escape::escape_str_attribute: it replaces each of the
/// bytes `<`, `>`, `"`, `'`, `&`, `\n`, `\r` with its entity and keeps every
/// other byte, which on well-formed UTF-8 is exactly the per-character map
/// `escape_attr`.
#[verifier::external_body]
pub(crate) fn escape_attribute(s: &str) -> (r: String)
    ensures
        r@ == escape_attr(s@),
{
    xml::escape::escape_str_attribute(s).into_owned()
}

} // verus!
