use rpki_setup::handle::Handle;
use rpki_setup::idexchange::{ChildRequest, IdCert};
use rpki_setup::text::{push_base64, push_escaped, to_xml_string};
use rpki_setup::xml::{Attribute, Document, Element};

fn b64(b: &[u8]) -> String {
    let mut s = String::new();
    push_base64(&mut s, b);
    s
}

#[test]
fn base64_known_values() {
    assert_eq!(b64(b""), "");
    assert_eq!(b64(b"M"), "TQ==");
    assert_eq!(b64(b"Ma"), "TWE=");
    assert_eq!(b64(b"Man"), "TWFu");
    assert_eq!(b64(b"foobar"), "Zm9vYmFy");
    assert_eq!(b64(&[0xff, 0xfe, 0xfd, 0x00]), "//79AA==");
}

#[test]
fn escaping_attribute_values() {
    let mut s = String::from("x=");
    push_escaped(&mut s, "a&b<c>d\"e");
    assert_eq!(s, "x=a&amp;b&lt;c&gt;d&quot;e");
}

#[test]
fn document_text() {
    let d = Document {
        namespace: "urn:n".to_string(),
        name: "root".to_string(),
        attributes: vec![Attribute { name: "a".to_string(), value: "1".to_string() }],
        elements: vec![
            Element { name: "e".to_string(), content: b"Man".to_vec() },
            Element { name: "f".to_string(), content: vec![] },
        ],
    };
    assert_eq!(to_xml_string(&d), "<root xmlns=\"urn:n\" a=\"1\"><e>TWFu</e><f></f></root>");
}

#[test]
fn child_request_text() {
    let req = ChildRequest::new(IdCert::new(b"Man".to_vec()), Handle::from_str("Carol").unwrap());
    let expected = "<child_request xmlns=\"http://www.hactrn.net/uris/rpki/rpki-setup/\" \
        version=\"1\" child_handle=\"Carol\"><child_bpki_ta>TWFu</child_bpki_ta></child_request>";
    assert_eq!(req.to_xml_string(), expected);
    let mut out = String::from("> ");
    req.write_xml(&mut out);
    assert_eq!(out, format!("> {}", expected));
}
