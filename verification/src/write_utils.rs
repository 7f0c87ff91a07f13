//! Tag-emission primitives: open element, text node, close element. All
//! protocol knowledge lives in the callers; these only append one element
//! boundary or one text node to a growable sink.
//!
//! The byte shapes come from `quick_xml`'s writer, which the emitted document
//! is defined against: a start event is written as `<name>`, an end event as
//! `</name>`, and a text event as the content with the five XML-special
//! characters and carriage return replaced by character references.

use vstd::prelude::*;

verus! {

/// The replacement `quick_xml`'s `escape` performs on one character of a text
/// node: `<`, `>`, `&`, `'`, `"` and carriage return become character
/// references, every other character stands unchanged.
pub open spec fn spec_escape_char(c: char) -> Seq<char> {
    if c == '<' {
        "&lt;"@
    } else if c == '>' {
        "&gt;"@
    } else if c == '&' {
        "&amp;"@
    } else if c == '\'' {
        "&apos;"@
    } else if c == '"' {
        "&quot;"@
    } else if c == '\r' {
        "&#13;"@
    } else {
        seq![c]
    }
}

/// A text node's content as written to the sink: each character escaped.
pub open spec fn spec_escape(s: Seq<char>) -> Seq<char>
    decreases s.len(),
{
    if s.len() == 0 {
        Seq::empty()
    } else {
        spec_escape_char(s[0]) + spec_escape(s.drop_first())
    }
}

/// Whether a character passes through escaping unchanged.
pub open spec fn spec_plain_char(c: char) -> bool {
    c != '<' && c != '>' && c != '&' && c != '\'' && c != '"' && c != '\r'
}

/// Escaping distributes over concatenation.
pub proof fn lemma_escape_concat(a: Seq<char>, b: Seq<char>)
    ensures
        spec_escape(a + b) == spec_escape(a) + spec_escape(b),
    decreases a.len(),
{
    if a.len() == 0 {
        assert(a + b =~= b);
        assert(spec_escape(a) + spec_escape(b) =~= spec_escape(b));
    } else {
        assert((a + b).drop_first() =~= a.drop_first() + b);
        lemma_escape_concat(a.drop_first(), b);
        assert((a + b)[0] == a[0]);
        assert(spec_escape(a + b) =~= spec_escape(a) + spec_escape(b));
    }
}

/// Text whose characters all pass through escaping unchanged is written
/// verbatim.
pub proof fn lemma_escape_plain(s: Seq<char>)
    requires
        forall|i: int| 0 <= i < s.len() ==> spec_plain_char(#[trigger] s[i]),
    ensures
        spec_escape(s) == s,
    decreases s.len(),
{
    if s.len() == 0 {
        assert(spec_escape(s) =~= s);
    } else {
        assert(spec_plain_char(s[0]));
        lemma_escape_plain(s.drop_first());
        assert(spec_escape(s) =~= s);
    }
}

/// An element's opening boundary.
pub open spec fn spec_open(name: Seq<char>) -> Seq<char> {
    seq!['<'] + name + seq!['>']
}

/// An element's closing boundary.
pub open spec fn spec_close(name: Seq<char>) -> Seq<char> {
    seq!['<', '/'] + name + seq!['>']
}

/// A whole scalar element whose text node is escaped on emission: the shape
/// `emitScalar(name, text)` produces.
pub open spec fn spec_tag(name: Seq<char>, text: Seq<char>) -> Seq<char> {
    spec_open(name) + spec_escape(text) + spec_close(name)
}

/// A whole scalar element whose text is written verbatim, as the formatted
/// scalars are: the shape `emitFormatted(name, text)` produces.
pub open spec fn spec_tag_fmt(name: Seq<char>, text: Seq<char>) -> Seq<char> {
    spec_open(name) + text + spec_close(name)
}

/// Relies on `quick_xml::Writer::write_event` with `Event::Start`: with no
/// indentation configured it writes exactly `<`, the name, `>`; writing to a
/// byte vector cannot fail.
#[verifier::external_body]
fn start_event_text(name: &str) -> (r: String)
    ensures
        r@ == spec_open(name@),
{
    let mut buf: Vec<u8> = Vec::new();
    let mut writer = quick_xml::Writer::new(&mut buf);
    let _ = writer.write_event(quick_xml::events::Event::Start(
        quick_xml::events::BytesStart::new(name),
    ));
    String::from_utf8(buf).unwrap()
}

/// Relies on `quick_xml::Writer::write_event` with `Event::End`: it writes
/// exactly `</`, the name, `>`; writing to a byte vector cannot fail.
#[verifier::external_body]
fn end_event_text(name: &str) -> (r: String)
    ensures
        r@ == spec_close(name@),
{
    let mut buf: Vec<u8> = Vec::new();
    let mut writer = quick_xml::Writer::new(&mut buf);
    let _ = writer.write_event(quick_xml::events::Event::End(
        quick_xml::events::BytesEnd::new(name),
    ));
    String::from_utf8(buf).unwrap()
}

/// Relies on `quick_xml::events::BytesText::new`, which escapes `<`, `>`,
/// `&`, `'`, `"` and carriage return as character references, and on
/// `Event::Text` being written as exactly those escaped bytes; the escaped
/// text is valid UTF-8 and writing to a byte vector cannot fail.
#[verifier::external_body]
fn text_event_text(text: &str) -> (r: String)
    ensures
        r@ == spec_escape(text@),
{
    let mut buf: Vec<u8> = Vec::new();
    let mut writer = quick_xml::Writer::new(&mut buf);
    let _ = writer.write_event(quick_xml::events::Event::Text(
        quick_xml::events::BytesText::new(text),
    ));
    String::from_utf8(buf).unwrap()
}

/// Emit an opening element boundary.
pub fn write_start(sink: &mut String, name: &str)
    ensures
        final(sink)@ == old(sink)@ + spec_open(name@),
{
    let t = start_event_text(name);
    sink.append(t.as_str());
}

/// Emit a closing element boundary.
pub fn write_end(sink: &mut String, name: &str)
    ensures
        final(sink)@ == old(sink)@ + spec_close(name@),
{
    let t = end_event_text(name);
    sink.append(t.as_str());
}

/// Emit a scalar element: opening boundary, escaped text node, closing
/// boundary.
pub fn write_tag(sink: &mut String, name: &str, text: &str)
    ensures
        final(sink)@ == old(sink)@ + spec_tag(name@, text@),
{
    let ghost sink0 = sink@;
    write_start(sink, name);
    let t = text_event_text(text);
    sink.append(t.as_str());
    write_end(sink, name);
    proof {
        assert(sink@ =~= sink0 + spec_tag(name@, text@));
    }
}

/// Emit a scalar element whose already-formatted text is written verbatim:
/// opening boundary, the text as given, closing boundary.
pub fn write_tag_fmt(sink: &mut String, name: &str, text: &str)
    ensures
        final(sink)@ == old(sink)@ + spec_tag_fmt(name@, text@),
{
    let ghost sink0 = sink@;
    write_start(sink, name);
    sink.append(text);
    write_end(sink, name);
    proof {
        assert(sink@ =~= sink0 + spec_tag_fmt(name@, text@));
    }
}

} // verus!
