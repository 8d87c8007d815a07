use rpki_setup::handle::Handle;
use rpki_setup::idexchange::{
    ChildRequest, IdCert, ParentResponse, PublisherRequest, RepositoryResponse,
};
use rpki_setup::error::IdExchangeError;
use rpki_setup::uri::{Https, Rsync, ServiceUri};
use rpki_setup::xml::{Attribute, Document, Element};

const NS: &str = "http://www.hactrn.net/uris/rpki/rpki-setup/";

fn cert() -> Vec<u8> {
    vec![0x30, 0x03, 0x02, 0x01, 0x07]
}

fn attr(name: &str, value: &str) -> Attribute {
    Attribute { name: name.to_string(), value: value.to_string() }
}

fn element(name: &str, content: Vec<u8>) -> Element {
    Element { name: name.to_string(), content }
}

fn doc(name: &str, attributes: Vec<Attribute>, elements: Vec<Element>) -> Document {
    Document { namespace: NS.to_string(), name: name.to_string(), attributes, elements }
}

fn child_doc() -> Document {
    doc(
        "child_request",
        vec![attr("version", "1"), attr("child_handle", "Carol")],
        vec![element("child_bpki_ta", cert())],
    )
}

fn parent_doc(elements: Vec<Element>) -> Document {
    doc(
        "parent_response",
        vec![
            attr("version", "1"),
            attr("parent_handle", "parent"),
            attr("child_handle", "Carol"),
            attr("service_uri", "https://example.net/up-down/parent/Carol"),
        ],
        elements,
    )
}

fn publisher_doc() -> Document {
    doc(
        "publisher_request",
        vec![attr("version", "1"), attr("publisher_handle", "Bob"), attr("tag", "A0001")],
        vec![element("publisher_bpki_ta", cert())],
    )
}

fn repository_doc() -> Document {
    doc(
        "repository_response",
        vec![
            attr("version", "1"),
            attr("publisher_handle", "Bob"),
            attr("service_uri", "http://example.net/publication/Bob"),
            attr("sia_base", "rsync://example.net/repo/Bob/"),
            attr("rrdp_notification_uri", "https://example.net/rrdp/notification.xml"),
        ],
        vec![element("repository_bpki_ta", cert())],
    )
}

#[test]
fn child_request_codec() {
    let req = ChildRequest::validate(&child_doc(), Ok(())).unwrap();
    assert_eq!(&Handle::from_str("Carol").unwrap(), req.child_handle());
    assert_eq!(None, req.tag());
    assert_eq!(req.id_cert().as_slice(), &cert()[..]);
    let re_encoded = req.to_document();
    let re_decoded = ChildRequest::validate(&re_encoded, Ok(())).unwrap();
    assert_eq!(req, re_decoded);
}

#[test]
fn child_request_constructed_round_trip() {
    let req = ChildRequest::new(IdCert::new(cert()), Handle::from_str("Carol").unwrap());
    let doc = req.to_document();
    assert_eq!(doc, child_doc());
    assert_eq!(ChildRequest::validate(&doc, Ok(())).unwrap(), req);
    let (c, h, t) = req.unpack();
    assert_eq!(c.to_captured(), cert());
    assert_eq!(h.as_str(), "Carol");
    assert_eq!(t, None);
}

#[test]
fn child_request_with_tag_round_trip() {
    let req = ChildRequest::with_tag(
        IdCert::new(cert()),
        Handle::from_str("Carol").unwrap(),
        Some("T1".to_string()),
    );
    let back = ChildRequest::validate(&req.to_document(), Ok(())).unwrap();
    assert_eq!(back.tag(), Some(&"T1".to_string()));
    assert_eq!(back, req);
}

#[test]
fn parent_response_codec() {
    let req = ParentResponse::validate(&parent_doc(vec![element("parent_bpki_ta", cert())]), Ok(()))
        .unwrap();
    assert_eq!(req.parent_handle().as_str(), "parent");
    assert_eq!(req.child_handle().as_str(), "Carol");
    assert_eq!(req.service_uri().as_str(), "https://example.net/up-down/parent/Carol");
    let re_decoded = ParentResponse::validate(&req.to_document(), Ok(())).unwrap();
    assert_eq!(req, re_decoded);
}

#[test]
fn parent_response_parse_rpkid_referral() {
    let d = parent_doc(vec![
        element("parent_bpki_ta", cert()),
        element("referral", b"text".to_vec()),
    ]);
    let req = ParentResponse::validate(&d, Ok(())).unwrap();
    assert_eq!(req.id_cert().as_slice(), &cert()[..]);
}

#[test]
fn parent_response_parse_rpkid_offer() {
    let d = parent_doc(vec![element("offer", vec![]), element("parent_bpki_ta", cert())]);
    let req = ParentResponse::validate(&d, Ok(())).unwrap();
    assert_eq!(req.id_cert().as_slice(), &cert()[..]);
}

#[test]
fn parent_response_any_order() {
    let orders: [[usize; 3]; 6] =
        [[0, 1, 2], [0, 2, 1], [1, 0, 2], [1, 2, 0], [2, 0, 1], [2, 1, 0]];
    let parts = || {
        vec![
            element("offer", vec![]),
            element("referral", b"x".to_vec()),
            element("parent_bpki_ta", cert()),
        ]
    };
    let first = ParentResponse::validate(&parent_doc(parts()), Ok(())).unwrap();
    for order in orders.iter() {
        let p = parts();
        let els = order.iter().map(|i| p[*i].clone()).collect();
        assert_eq!(ParentResponse::validate(&parent_doc(els), Ok(())).unwrap(), first);
    }
}

#[test]
fn parent_response_needs_exactly_one_certificate() {
    assert_eq!(
        ParentResponse::validate(&parent_doc(vec![element("offer", vec![])]), Ok(())),
        Err(IdExchangeError::Malformed)
    );
    assert_eq!(
        ParentResponse::validate(&parent_doc(vec![
            element("parent_bpki_ta", cert()),
            element("parent_bpki_ta", cert()),
        ]), Ok(())),
        Err(IdExchangeError::Malformed)
    );
    assert_eq!(
        ParentResponse::validate(&parent_doc(vec![
            element("parent_bpki_ta", cert()),
            element("other", vec![]),
        ]), Ok(())),
        Err(IdExchangeError::Malformed)
    );
}

#[test]
fn parent_response_constructed_round_trip() {
    let r = ParentResponse::new(
        IdCert::new(cert()),
        Handle::from_str("parent").unwrap(),
        Handle::from_str("Carol").unwrap(),
        ServiceUri::from_str("http://example.net/up-down").unwrap(),
        Some("tag-1".to_string()),
    );
    assert!(r.is_wf());
    let back = ParentResponse::validate(&r.to_document(), Ok(())).unwrap();
    assert_eq!(back, r);
    assert_eq!(back.tag(), Some(&"tag-1".to_string()));
}

#[test]
fn publisher_request_codec() {
    let req = PublisherRequest::validate(&publisher_doc(), Ok(())).unwrap();
    assert_eq!(req.publisher_handle().as_str(), "Bob");
    assert_eq!(req.tag(), Some(&"A0001".to_string()));
    let re_decoded = PublisherRequest::validate(&req.to_document(), Ok(())).unwrap();
    assert_eq!(req, re_decoded);
    let (c, h, t) = re_decoded.unpack();
    assert_eq!(c.to_captured(), cert());
    assert_eq!(h.as_str(), "Bob");
    assert_eq!(t, Some("A0001".to_string()));
}

#[test]
fn repository_response_codec() {
    let req = RepositoryResponse::validate(&repository_doc(), Ok(())).unwrap();
    assert_eq!(req.publisher_handle().as_str(), "Bob");
    assert!(matches!(req.service_uri(), ServiceUri::Http(_)));
    assert_eq!(req.sia_base().as_str(), "rsync://example.net/repo/Bob/");
    assert_eq!(
        req.rrdp_notification_uri().map(|u| u.as_str()),
        Some("https://example.net/rrdp/notification.xml")
    );
    assert_eq!(req.tag(), None);
    let re_decoded = RepositoryResponse::validate(&req.to_document(), Ok(())).unwrap();
    assert_eq!(req, re_decoded);
    assert_eq!(req.to_document(), repository_doc());
}

#[test]
fn repository_response_constructed_round_trip() {
    let r = RepositoryResponse::new(
        IdCert::new(cert()),
        Handle::from_str("Bob").unwrap(),
        ServiceUri::from_str("https://example.net/pub").unwrap(),
        Rsync::from_str("rsync://example.net/repo/").unwrap(),
        None,
        Some("t".to_string()),
    );
    assert!(r.is_wf());
    assert_eq!(RepositoryResponse::validate(&r.to_document(), Ok(())).unwrap(), r);
    let with_rrdp = RepositoryResponse::new(
        IdCert::new(cert()),
        Handle::from_str("Bob").unwrap(),
        ServiceUri::from_str("https://example.net/pub").unwrap(),
        Rsync::from_str("rsync://example.net/repo/").unwrap(),
        Some(Https::from_str("https://example.net/notify.xml").unwrap()),
        None,
    );
    assert_eq!(RepositoryResponse::validate(&with_rrdp.to_document(), Ok(())).unwrap(), with_rrdp);
}

#[test]
fn unknown_attribute_strict_and_lenient() {
    let mut c = child_doc();
    c.attributes.push(attr("extra", "x"));
    assert_eq!(ChildRequest::validate(&c, Ok(())), Err(IdExchangeError::Malformed));
    let mut p = publisher_doc();
    p.attributes.push(attr("extra", "x"));
    assert_eq!(PublisherRequest::validate(&p, Ok(())), Err(IdExchangeError::Malformed));

    let plain = ParentResponse::validate(&parent_doc(vec![element("parent_bpki_ta", cert())]), Ok(()));
    let mut pr = parent_doc(vec![element("parent_bpki_ta", cert())]);
    pr.attributes.push(attr("extra", "x"));
    assert_eq!(ParentResponse::validate(&pr, Ok(())), plain);
    assert!(plain.is_ok());

    let mut rr = repository_doc();
    rr.attributes.push(attr("extra", "x"));
    assert_eq!(RepositoryResponse::validate(&rr, Ok(())), RepositoryResponse::validate(&repository_doc(), Ok(())));
    assert!(RepositoryResponse::validate(&rr, Ok(())).is_ok());
}

fn set_version(d: &mut Document, v: &str) {
    for a in d.attributes.iter_mut() {
        if a.name == "version" {
            a.value = v.to_string();
        }
    }
}

#[test]
fn version_two_is_rejected() {
    let mut c = child_doc();
    set_version(&mut c, "2");
    assert_eq!(ChildRequest::validate(&c, Ok(())), Err(IdExchangeError::Malformed));
    let mut p = parent_doc(vec![element("parent_bpki_ta", cert())]);
    set_version(&mut p, "2");
    assert_eq!(ParentResponse::validate(&p, Ok(())), Err(IdExchangeError::Malformed));
    let mut q = publisher_doc();
    set_version(&mut q, "2");
    assert_eq!(PublisherRequest::validate(&q, Ok(())), Err(IdExchangeError::Malformed));
    let mut r = repository_doc();
    set_version(&mut r, "2");
    assert_eq!(RepositoryResponse::validate(&r, Ok(())), Err(IdExchangeError::Malformed));
}

#[test]
fn repository_response_missing_parts() {
    let mut no_sia = repository_doc();
    no_sia.attributes.retain(|a| a.name != "sia_base");
    assert_eq!(RepositoryResponse::validate(&no_sia, Ok(())), Err(IdExchangeError::Malformed));
    let mut no_ta = repository_doc();
    no_ta.elements.clear();
    assert_eq!(RepositoryResponse::validate(&no_ta, Ok(())), Err(IdExchangeError::Malformed));
    let mut stray = repository_doc();
    stray.elements.push(element("stray", vec![]));
    assert_eq!(RepositoryResponse::validate(&stray, Ok(())), Err(IdExchangeError::Malformed));
}

#[test]
fn wrong_root_or_namespace() {
    let mut c = child_doc();
    c.name = "publisher_request".to_string();
    assert_eq!(ChildRequest::validate(&c, Ok(())), Err(IdExchangeError::Malformed));
    let mut d = child_doc();
    d.namespace = "urn:other".to_string();
    assert_eq!(ChildRequest::validate(&d, Ok(())), Err(IdExchangeError::Malformed));
    let mut e = child_doc();
    e.attributes[1].value = "bad handle".to_string();
    assert_eq!(ChildRequest::validate(&e, Ok(())), Err(IdExchangeError::Malformed));
}

#[test]
fn refused_certificate_fails_decoding() {
    let refused = || Err("signature does not verify".to_string());
    assert_eq!(
        ChildRequest::validate(&child_doc(), refused()),
        Err(IdExchangeError::InvalidIdCert("signature does not verify".to_string()))
    );
    assert_eq!(
        ParentResponse::validate(&parent_doc(vec![element("parent_bpki_ta", cert())]), refused()),
        Err(IdExchangeError::InvalidIdCert("signature does not verify".to_string()))
    );
    assert_eq!(
        PublisherRequest::validate(&publisher_doc(), refused()),
        Err(IdExchangeError::InvalidIdCert("signature does not verify".to_string()))
    );
    assert_eq!(
        RepositoryResponse::validate(&repository_doc(), refused()),
        Err(IdExchangeError::InvalidIdCert("signature does not verify".to_string()))
    );
    let mut bad = child_doc();
    bad.name = "other".to_string();
    assert_eq!(ChildRequest::validate(&bad, refused()), Err(IdExchangeError::Malformed));
}

#[test]
fn embedded_certificate_for_the_validator() {
    assert_eq!(ChildRequest::embedded_cert(&child_doc()).unwrap().to_captured(), cert());
    let d = parent_doc(vec![element("offer", vec![]), element("parent_bpki_ta", cert())]);
    assert_eq!(ParentResponse::embedded_cert(&d).unwrap().to_captured(), cert());
    assert_eq!(PublisherRequest::embedded_cert(&publisher_doc()).unwrap().to_captured(), cert());
    assert_eq!(RepositoryResponse::embedded_cert(&repository_doc()).unwrap().to_captured(), cert());
    let mut no_ta = repository_doc();
    no_ta.elements.clear();
    assert!(RepositoryResponse::embedded_cert(&no_ta).is_none());
}

#[test]
fn duplicate_attribute_is_malformed() {
    let mut c = child_doc();
    c.attributes.insert(0, attr("version", "2"));
    assert_eq!(ChildRequest::validate(&c, Ok(())), Err(IdExchangeError::Malformed));
    let mut r = repository_doc();
    r.attributes.push(attr("tag", "a"));
    r.attributes.push(attr("tag", "b"));
    assert_eq!(RepositoryResponse::validate(&r, Ok(())), Err(IdExchangeError::Malformed));
}

#[test]
fn decoded_service_uri_keeps_its_variant() {
    for uri in ["http://example.net/x", "https://example.net/x"] {
        let r = ParentResponse::new(
            IdCert::new(cert()),
            Handle::from_str("parent").unwrap(),
            Handle::from_str("Carol").unwrap(),
            ServiceUri::from_str(uri).unwrap(),
            None,
        );
        let back = ParentResponse::validate(&r.to_document(), Ok(())).unwrap();
        assert_eq!(back.service_uri(), r.service_uri());
    }
}
