//! A small writer for XML documents.
//!
//! Elements are written whole: an element with a body is written
//! `<name attrs>body</name>`, one without `<name attrs />`. Character data
//! has `&`, `<` and `>` replaced by entities; attribute values also `"` and
//! `'`. Element and attribute names are written as given.

use vstd::prelude::*;
use vstd::slice::slice_to_vec;
use vstd::string::*;
use vstd::utf8::encode_utf8;

verus! {

/// An attribute: a name and its value.
#[derive(Debug)]
pub struct Attribute {
    pub name: String,
    pub value: String,
}

/// XML text being written.
#[derive(Debug)]
pub struct Writer {
    buf: String,
}

impl View for Writer {
    type V = Seq<char>;

    closed spec fn view(&self) -> Seq<char> {
        self.buf@
    }
}

/// The declaration a document starts with.
pub open spec fn xml_decl() -> Seq<char> {
    "<?xml version=\"1.0\" encoding=\"UTF-8\"?>"@
}

/// How one character is written: as character data, or inside an attribute
/// value.
pub open spec fn escape_char(c: char, in_attr: bool) -> Seq<char> {
    if c == '&' {
        "&amp;"@
    } else if c == '<' {
        "&lt;"@
    } else if c == '>' {
        "&gt;"@
    } else if in_attr && c == '"' {
        "&quot;"@
    } else if in_attr && c == '\'' {
        "&apos;"@
    } else {
        seq![c]
    }
}

/// How a string is written: as character data, or as an attribute value.
pub open spec fn escape(s: Seq<char>, in_attr: bool) -> Seq<char>
    decreases s.len(),
{
    if s.len() == 0 {
        Seq::empty()
    } else {
        escape(s.drop_last(), in_attr) + escape_char(s.last(), in_attr)
    }
}

/// One attribute as written in a start tag, after a space.
pub open spec fn attr_text(name: Seq<char>, value: Seq<char>) -> Seq<char> {
    " "@ + name + "=\""@ + escape(value, true) + "\""@
}

/// A list of attributes as written in a start tag.
pub open spec fn attrs_text(attrs: Seq<Attribute>) -> Seq<char>
    decreases attrs.len(),
{
    if attrs.len() == 0 {
        Seq::empty()
    } else {
        attrs_text(attrs.drop_last()) + attr_text(attrs.last().name@, attrs.last().value@)
    }
}

/// An element whose attributes, already written, are `attrs`, around `body`.
pub open spec fn element_with(name: Seq<char>, attrs: Seq<char>, body: Seq<char>) -> Seq<char> {
    if body.len() == 0 {
        "<"@ + name + attrs + " />"@
    } else {
        "<"@ + name + attrs + ">"@ + body + "</"@ + name + ">"@
    }
}

/// An element with its attributes and its body, already written.
pub open spec fn element(name: Seq<char>, attrs: Seq<Attribute>, body: Seq<char>) -> Seq<char> {
    element_with(name, attrs_text(attrs), body)
}

/// An element without attributes that holds a piece of text.
pub open spec fn value_element(name: Seq<char>, value: Seq<char>) -> Seq<char> {
    "<"@ + name + ">"@ + escape(value, false) + "</"@ + name + ">"@
}

/// Appends `s` to `out`, escaped as character data or as an attribute value.
fn escape_into(out: &mut String, s: &str, in_attr: bool)
    ensures
        final(out)@ == old(out)@ + escape(s@, in_attr),
{
    let n = s.unicode_len();
    let mut i: usize = 0;
    while i < n
        invariant
            n == s@.len(),
            i <= n,
            out@ == old(out)@ + escape(s@.subrange(0, i as int), in_attr),
        decreases n - i,
    {
        let c = s.get_char(i);
        if c == '&' {
            out.append("&amp;");
        } else if c == '<' {
            out.append("&lt;");
        } else if c == '>' {
            out.append("&gt;");
        } else if in_attr && c == '"' {
            out.append("&quot;");
        } else if in_attr && c == '\'' {
            out.append("&apos;");
        } else {
            out.append(s.substring_char(i, i + 1));
        }
        assert(s@.subrange(0, i + 1).drop_last() =~= s@.subrange(0, i as int));
        i = i + 1;
    }
    assert(s@.subrange(0, n as int) =~= s@);
}

/// A document holding only its declaration.
pub fn writer() -> (w: Writer)
    ensures
        w@ == xml_decl(),
{
    Writer { buf: String::from_str("<?xml version=\"1.0\" encoding=\"UTF-8\"?>") }
}

impl Writer {
    /// Empty text, to write the body of an element into.
    pub fn new() -> (w: Writer)
        ensures
            w@ == Seq::<char>::empty(),
    {
        Writer { buf: String::new() }
    }

    /// The text written, encoded as UTF-8.
    pub fn into_inner(self) -> (r: Vec<u8>)
        ensures
            r@ == encode_utf8(self@),
    {
        slice_to_vec(self.buf.as_str().as_bytes())
    }
}

/// An attribute named `id` with the given value.
pub fn attr(id: &str, value: &str) -> (r: Attribute)
    ensures
        r.name@ == id@,
        r.value@ == value@,
{
    Attribute { name: String::from_str(id), value: String::from_str(value) }
}

/// Two attributes, in order.
pub fn two_attrs(first: Attribute, second: Attribute) -> (r: Vec<Attribute>)
    ensures
        r@ == seq![first, second],
        attrs_text(r@) == attr_text(first.name@, first.value@) + attr_text(
            second.name@,
            second.value@,
        ),
{
    let mut r: Vec<Attribute> = Vec::new();
    r.push(first);
    r.push(second);
    proof {
        reveal_with_fuel(attrs_text, 3);
        assert(r@.drop_last().drop_last() =~= Seq::<Attribute>::empty());
        assert(r@.drop_last() =~= seq![first]);
    }
    r
}

/// One attribute.
pub fn one_attr(only: Attribute) -> (r: Vec<Attribute>)
    ensures
        r@ == seq![only],
        attrs_text(r@) == attr_text(only.name@, only.value@),
{
    let mut r: Vec<Attribute> = Vec::new();
    r.push(only);
    proof {
        reveal_with_fuel(attrs_text, 2);
        assert(r@.drop_last() =~= Seq::<Attribute>::empty());
    }
    r
}

/// Writes an element with the given attributes around `body`.
pub fn elem(writer: &mut Writer, name: &str, attrs: &[Attribute], body: &Writer)
    ensures
        final(writer)@ == old(writer)@ + element(name@, attrs@, body@),
{
    let ghost start = writer@;
    writer.buf.append("<");
    writer.buf.append(name);
    let n = attrs.len();
    let mut i: usize = 0;
    while i < n
        invariant
            n == attrs@.len(),
            i <= n,
            writer@ == start + "<"@ + name@ + attrs_text(attrs@.subrange(0, i as int)),
        decreases n - i,
    {
        let a = &attrs[i];
        writer.buf.append(" ");
        writer.buf.append(a.name.as_str());
        writer.buf.append("=\"");
        escape_into(&mut writer.buf, a.value.as_str(), true);
        writer.buf.append("\"");
        assert(attrs@.subrange(0, i + 1).drop_last() =~= attrs@.subrange(0, i as int));
        i = i + 1;
    }
    assert(attrs@.subrange(0, n as int) =~= attrs@);
    if body.buf.unicode_len() == 0 {
        writer.buf.append(" />");
    } else {
        writer.buf.append(">");
        writer.buf.append(body.buf.as_str());
        writer.buf.append("</");
        writer.buf.append(name);
        writer.buf.append(">");
    }
    assert(writer@ =~= start + element(name@, attrs@, body@));
}

/// Writes an element without attributes holding `value` as its text.
pub fn val(writer: &mut Writer, name: &str, value: &str)
    ensures
        final(writer)@ == old(writer)@ + value_element(name@, value@),
{
    let ghost start = writer@;
    writer.buf.append("<");
    writer.buf.append(name);
    writer.buf.append(">");
    escape_into(&mut writer.buf, value, false);
    writer.buf.append("</");
    writer.buf.append(name);
    writer.buf.append(">");
    assert(writer@ =~= start + value_element(name@, value@));
}

} // verus!
