//! The XML text of a document, with the element content in base64.
use vstd::prelude::*;
use vstd::string::StrSliceExecFns;
use vstd::string::StringExecFns;
use crate::xml::{attributes_view, elements_view, Document, DocumentView};

verus! {

/// The base64 alphabet of RFC 4648.
pub open spec fn alphabet() -> Seq<char> {
    "ABCDEFGHIJKLMNOPQRSTUVWXYZabcdefghijklmnopqrstuvwxyz0123456789+/"@
}

/// The base64 digit of a 6-bit value.
pub open spec fn digit(v: u8) -> Seq<char> {
    seq![alphabet()[(v & 63u8) as int]]
}

/// The base64 of three bytes.
pub open spec fn group3(a: u8, b: u8, c: u8) -> Seq<char> {
    digit(a >> 2u8) + digit(((a & 3u8) << 4u8) | (b >> 4u8)) + digit(((b & 15u8) << 2u8) | (c
        >> 6u8)) + digit(c & 63u8)
}

/// The base64 of two final bytes, padded.
pub open spec fn group2(a: u8, b: u8) -> Seq<char> {
    digit(a >> 2u8) + digit(((a & 3u8) << 4u8) | (b >> 4u8)) + digit((b & 15u8) << 2u8) + "="@
}

/// The base64 of one final byte, padded.
pub open spec fn group1(a: u8) -> Seq<char> {
    digit(a >> 2u8) + digit((a & 3u8) << 4u8) + "=="@
}

/// The padded base64 encoding of RFC 4648.
pub open spec fn base64(b: Seq<u8>) -> Seq<char>
    decreases b.len(),
{
    let n = b.len() as int;
    if n == 0 {
        Seq::empty()
    } else if n % 3 == 0 {
        base64(b.subrange(0, n - 3)) + group3(b[n - 3], b[n - 2], b[n - 1])
    } else if n % 3 == 1 {
        base64(b.subrange(0, n - 1)) + group1(b[n - 1])
    } else {
        base64(b.subrange(0, n - 2)) + group2(b[n - 2], b[n - 1])
    }
}

/// The text of one character in an attribute value.
pub open spec fn escape_char(c: char) -> Seq<char> {
    if c == '&' {
        "&amp;"@
    } else if c == '<' {
        "&lt;"@
    } else if c == '>' {
        "&gt;"@
    } else if c == '"' {
        "&quot;"@
    } else {
        seq![c]
    }
}

/// The text of an attribute value, with `&`, `<`, `>` and `"` escaped.
pub open spec fn escape(s: Seq<char>) -> Seq<char>
    decreases s.len(),
{
    if s.len() == 0 {
        Seq::empty()
    } else {
        escape(s.drop_last()) + escape_char(s.last())
    }
}

/// The text of one attribute, with the space before it.
pub open spec fn render_attr(a: (Seq<char>, Seq<char>)) -> Seq<char> {
    " "@ + a.0 + "=\""@ + escape(a.1) + "\""@
}

pub open spec fn render_attrs(a: Seq<(Seq<char>, Seq<char>)>) -> Seq<char>
    decreases a.len(),
{
    if a.len() == 0 {
        Seq::empty()
    } else {
        render_attrs(a.drop_last()) + render_attr(a.last())
    }
}

/// The text of one element: its content in base64.
pub open spec fn render_element(e: (Seq<char>, Seq<u8>)) -> Seq<char> {
    "<"@ + e.0 + ">"@ + base64(e.1) + "</"@ + e.0 + ">"@
}

pub open spec fn render_elements(e: Seq<(Seq<char>, Seq<u8>)>) -> Seq<char>
    decreases e.len(),
{
    if e.len() == 0 {
        Seq::empty()
    } else {
        render_elements(e.drop_last()) + render_element(e.last())
    }
}

/// The XML text of a document: the root element with the namespace as its
/// `xmlns` attribute, then its attributes in order, then the elements.
pub open spec fn render(d: DocumentView) -> Seq<char> {
    "<"@ + d.name + " xmlns=\""@ + escape(d.namespace) + "\""@ + render_attrs(d.attributes)
        + ">"@ + render_elements(d.elements) + "</"@ + d.name + ">"@
}

/// Appends the base64 digit of the low six bits of `v`.
fn push_digit(out: &mut String, v: u8)
    ensures
        final(out)@ == old(out)@ + digit(v),
{
    let abc = "ABCDEFGHIJKLMNOPQRSTUVWXYZabcdefghijklmnopqrstuvwxyz0123456789+/";
    proof {
        reveal_strlit("ABCDEFGHIJKLMNOPQRSTUVWXYZabcdefghijklmnopqrstuvwxyz0123456789+/");
    }
    let i = (v & 63u8) as usize;
    assert((v & 63u8) < 64u8) by (bit_vector);
    let one = abc.substring_char(i, i + 1);
    assert(one@ =~= digit(v));
    out.append(one);
}

/// Appends the base64 of `b`.
pub fn push_base64(out: &mut String, b: &[u8])
    ensures
        final(out)@ == old(out)@ + base64(b@),
{
    let n = b.len();
    let full = n - n % 3;
    let mut i: usize = 0;
    assert(b@.subrange(0, 0) =~= Seq::<u8>::empty());
    while i < full
        invariant
            n == b@.len(),
            full == n - n % 3,
            i <= full,
            i % 3 == 0,
            out@ == old(out)@ + base64(b@.subrange(0, i as int)),
        decreases full - i,
    {
        let x = b[i];
        let y = b[i + 1];
        let z = b[i + 2];
        let ghost before = out@;
        push_digit(out, x >> 2u8);
        push_digit(out, ((x & 3u8) << 4u8) | (y >> 4u8));
        push_digit(out, ((y & 15u8) << 2u8) | (z >> 6u8));
        push_digit(out, z & 63u8);
        proof {
            let s = b@.subrange(0, i + 3);
            assert(s.subrange(0, i as int) =~= b@.subrange(0, i as int));
            assert(s[i as int] == x && s[i + 1] == y && s[i + 2] == z);
            assert(base64(s) == base64(b@.subrange(0, i as int)) + group3(x, y, z));
            assert(out@ =~= old(out)@ + base64(s));
        }
        i = i + 3;
    }
    assert(i == full);
    if n % 3 == 1 {
        let x = b[i];
        push_digit(out, x >> 2u8);
        push_digit(out, (x & 3u8) << 4u8);
        out.append("==");
        assert(b@.subrange(0, i as int) =~= b@.subrange(0, n - 1));
        assert(out@ =~= old(out)@ + base64(b@));
    } else if n % 3 == 2 {
        let x = b[i];
        let y = b[i + 1];
        push_digit(out, x >> 2u8);
        push_digit(out, ((x & 3u8) << 4u8) | (y >> 4u8));
        push_digit(out, (y & 15u8) << 2u8);
        out.append("=");
        assert(b@.subrange(0, i as int) =~= b@.subrange(0, n - 2));
        assert(out@ =~= old(out)@ + base64(b@));
    } else {
        assert(b@.subrange(0, i as int) =~= b@);
    }
}

/// Appends `s` with `&`, `<`, `>` and `"` escaped.
pub fn push_escaped(out: &mut String, s: &str)
    ensures
        final(out)@ == old(out)@ + escape(s@),
{
    let n = s.unicode_len();
    let mut i: usize = 0;
    assert(s@.subrange(0, 0) =~= Seq::<char>::empty());
    while i < n
        invariant
            n == s@.len(),
            i <= n,
            out@ == old(out)@ + escape(s@.subrange(0, i as int)),
        decreases n - i,
    {
        let c = s.get_char(i);
        let ghost sub = s@.subrange(0, i + 1);
        assert(sub.drop_last() =~= s@.subrange(0, i as int));
        assert(sub.last() == c);
        if c == '&' {
            out.append("&amp;");
        } else if c == '<' {
            out.append("&lt;");
        } else if c == '>' {
            out.append("&gt;");
        } else if c == '"' {
            out.append("&quot;");
        } else {
            let one = s.substring_char(i, i + 1);
            assert(one@ =~= seq![c]);
            out.append(one);
        }
        assert(out@ =~= old(out)@ + escape(sub));
        i = i + 1;
    }
    assert(s@.subrange(0, n as int) =~= s@);
}

/// Appends the XML text of `d`.
pub fn write_document(out: &mut String, d: &Document)
    ensures
        final(out)@ == old(out)@ + render(d@),
{
    out.append("<");
    out.append(d.name.as_str());
    out.append(" xmlns=\"");
    push_escaped(out, d.namespace.as_str());
    out.append("\"");
    let ghost head = out@;
    let ghost av = attributes_view(d.attributes@);
    let mut i: usize = 0;
    assert(av.subrange(0, 0) =~= Seq::<(Seq<char>, Seq<char>)>::empty());
    while i < d.attributes.len()
        invariant
            i <= av.len(),
            av == attributes_view(d.attributes@),
            out@ == head + render_attrs(av.subrange(0, i as int)),
        decreases d.attributes.len() - i,
    {
        let a = &d.attributes[i];
        let ghost sub = av.subrange(0, i + 1);
        assert(sub.drop_last() =~= av.subrange(0, i as int));
        assert(sub.last() == (a.name@, a.value@));
        out.append(" ");
        out.append(a.name.as_str());
        out.append("=\"");
        push_escaped(out, a.value.as_str());
        out.append("\"");
        assert(out@ =~= head + render_attrs(sub));
        i = i + 1;
    }
    assert(av.subrange(0, av.len() as int) =~= av);
    out.append(">");
    let ghost middle = out@;
    let ghost ev = elements_view(d.elements@);
    let mut j: usize = 0;
    assert(ev.subrange(0, 0) =~= Seq::<(Seq<char>, Seq<u8>)>::empty());
    while j < d.elements.len()
        invariant
            j <= ev.len(),
            ev == elements_view(d.elements@),
            out@ == middle + render_elements(ev.subrange(0, j as int)),
        decreases d.elements.len() - j,
    {
        let e = &d.elements[j];
        let ghost sub = ev.subrange(0, j + 1);
        assert(sub.drop_last() =~= ev.subrange(0, j as int));
        assert(sub.last() == (e.name@, e.content@));
        out.append("<");
        out.append(e.name.as_str());
        out.append(">");
        push_base64(out, e.content.as_slice());
        out.append("</");
        out.append(e.name.as_str());
        out.append(">");
        assert(out@ =~= middle + render_elements(sub));
        j = j + 1;
    }
    assert(ev.subrange(0, ev.len() as int) =~= ev);
    out.append("</");
    out.append(d.name.as_str());
    out.append(">");
    assert(out@ =~= old(out)@ + render(d@));
}

/// The XML text of `d`.
pub fn to_xml_string(d: &Document) -> (r: String)
    ensures
        r@ == render(d@),
{
    let mut out = String::new();
    write_document(&mut out, d);
    assert(out@ =~= render(d@));
    out
}

} // verus!
