//! The out-of-band setup messages of RFC 8183, exchanged between a CA and
//! its parent, and between a CA and its publication server.
use vstd::prelude::*;
use crate::handle::{valid_handle, ChildHandle, Handle, ParentHandle, PublisherHandle};
use crate::uri::{https_scheme, rsync_scheme, valid_service_uri, valid_uri};
use crate::error::IdExchangeError;
use crate::uri::{Https, Rsync, ServiceUri};
use crate::xml::{
    all_known,
    attr_value,
    lemma_attr_value_absent,
    lemma_attr_value_once,
    lemma_attr_value_push_other,
    attributes_known,
    attributes_unique,
    attrs_unique,
    copy_bytes,
    find_attr,
    str_eq,
};
use crate::xml::{Attribute, Document, DocumentView, Element};
use crate::text::{render, to_xml_string, write_document};

verus! {

/// The namespace of the messages.
pub open spec fn ns() -> Seq<char> {
    "http://www.hactrn.net/uris/rpki/rpki-setup/"@
}

/// The only version of the messages.
pub open spec fn version() -> Seq<char> {
    "1"@
}

/// The attributes that `o` gives: one named `n` where `o` holds a value.
pub open spec fn opt_attr(n: Seq<char>, o: Option<Seq<char>>) -> Seq<(Seq<char>, Seq<char>)> {
    match o {
        Some(v) => seq![(n, v)],
        None => Seq::empty(),
    }
}

pub open spec fn opt_view(o: Option<String>) -> Option<Seq<char>> {
    match o {
        Some(s) => Some(s@),
        None => None,
    }
}

pub open spec fn opt_https_view(o: Option<Https>) -> Option<Seq<char>> {
    match o {
        Some(s) => Some(s@),
        None => None,
    }
}

/// Whether the root element of `d` is `name` in the namespace of the
/// messages, no attribute is named twice, and the version attribute is
/// there and says "1".
pub open spec fn root_ok(d: DocumentView, name: Seq<char>) -> bool {
    d.namespace == ns() && d.name == name && attrs_unique(d.attributes) && attr_value(
        d.attributes,
        "version"@,
    ) == Some(version())
}

/// Whether the attribute `n` is there and is a valid handle.
pub open spec fn handle_ok(d: DocumentView, n: Seq<char>) -> bool {
    attr_value(d.attributes, n) is Some && valid_handle(attr_value(d.attributes, n).unwrap())
}

/// Whether `d` holds exactly one element, named `n`.
pub open spec fn single_ok(d: DocumentView, n: Seq<char>) -> bool {
    d.elements.len() == 1 && d.elements[0].0 == n
}

/// An identity certificate: the self-signed certificate of an RPKI entity,
/// in its DER encoding.
#[derive(Debug, Eq, PartialEq)]
pub struct IdCert {
    der: Vec<u8>,
}

impl View for IdCert {
    type V = Seq<u8>;

    closed spec fn view(&self) -> Seq<u8> {
        self.der@
    }
}

impl IdCert {
    pub fn new(der: Vec<u8>) -> (r: IdCert)
        ensures
            r@ == der@,
    {
        IdCert { der }
    }

    /// The DER encoding of the certificate.
    pub fn to_captured(&self) -> (r: Vec<u8>)
        ensures
            r@ == self@,
    {
        copy_bytes(&self.der)
    }

    pub fn as_slice(&self) -> (r: &[u8])
        ensures
            r@ == self@,
    {
        self.der.as_slice()
    }
}

impl Clone for IdCert {
    fn clone(&self) -> (r: IdCert)
        ensures
            r@ == self@,
    {
        IdCert { der: copy_bytes(&self.der) }
    }
}

fn attribute(name: &str, value: &str) -> (r: Attribute)
    ensures
        r.name@ == name@,
        r.value@ == value@,
{
    Attribute { name: name.to_owned(), value: value.to_owned() }
}

/// The root of a document: namespace, name and version attribute.
fn root(name: &str) -> (r: Document)
    ensures
        r@.namespace == ns(),
        r@.name == name@,
        r@.attributes == seq![("version"@, version())],
        r@.elements.len() == 0,
{
    let mut attributes: Vec<Attribute> = Vec::new();
    attributes.push(attribute("version", "1"));
    let r = Document {
        namespace: "http://www.hactrn.net/uris/rpki/rpki-setup/".to_owned(),
        name: name.to_owned(),
        attributes,
        elements: Vec::new(),
    };
    assert(r@.attributes =~= seq![("version"@, version())]);
    assert(r@.elements =~= Seq::<(Seq<char>, Seq<u8>)>::empty());
    r
}

/// Adds the attribute `name` with `value`.
fn push_attr(doc: &mut Document, name: &str, value: &str)
    ensures
        final(doc)@ == (DocumentView {
            attributes: old(doc)@.attributes.push((name@, value@)),
            ..old(doc)@
        }),
{
    doc.attributes.push(attribute(name, value));
    assert(final(doc)@.attributes =~= old(doc)@.attributes.push((name@, value@)));
}

/// Adds the attribute `name` where `value` holds one.
fn push_opt_attr(doc: &mut Document, name: &str, value: &Option<String>)
    ensures
        final(doc)@ == (DocumentView {
            attributes: old(doc)@.attributes + opt_attr(name@, opt_view(*value)),
            ..old(doc)@
        }),
{
    match value {
        Some(v) => {
            push_attr(doc, name, v.as_str());
            assert(old(doc)@.attributes.push((name@, v@)) =~= old(doc)@.attributes + opt_attr(
                name@,
                opt_view(*value),
            ));
        },
        None => {
            assert(old(doc)@.attributes =~= old(doc)@.attributes + opt_attr(
                name@,
                opt_view(*value),
            ));
        },
    }
}

/// Adds an element `name` holding the certificate.
fn push_cert(doc: &mut Document, name: &str, cert: &IdCert)
    ensures
        final(doc)@ == (DocumentView {
            elements: old(doc)@.elements.push((name@, cert@)),
            ..old(doc)@
        }),
{
    doc.elements.push(Element { name: name.to_owned(), content: cert.to_captured() });
    assert(final(doc)@.elements =~= old(doc)@.elements.push((name@, cert@)));
}

/// Checks the root element's namespace, name and version.
fn check_root(doc: &Document, name: &str) -> (r: bool)
    ensures
        r == root_ok(doc@, name@),
{
    match find_attr(&doc.attributes, "version") {
        Some(v) => str_eq(doc.namespace.as_str(), "http://www.hactrn.net/uris/rpki/rpki-setup/")
            && str_eq(doc.name.as_str(), name) && attributes_unique(&doc.attributes) && str_eq(
            v.as_str(),
            "1",
        ),
        None => false,
    }
}

/// The handle in the attribute `name`, where it is there and valid.
fn handle_attr(doc: &Document, name: &str) -> (r: Option<Handle>)
    ensures
        r is Some <==> handle_ok(doc@, name@),
        r matches Some(h) ==> Some(h@) == attr_value(doc@.attributes, name@),
{
    match find_attr(&doc.attributes, name) {
        Some(v) => match Handle::from_str(v.as_str()) {
            Ok(h) => Some(h),
            Err(_) => None,
        },
        None => None,
    }
}

/// The service URI in the attribute `service_uri`, where it is there and
/// valid.
fn service_uri_attr(doc: &Document) -> (r: Option<ServiceUri>)
    ensures
        r is Some <==> (attr_value(doc@.attributes, "service_uri"@) is Some && valid_service_uri(
            attr_value(doc@.attributes, "service_uri"@).unwrap(),
        )),
        r matches Some(u) ==> Some(u@) == attr_value(doc@.attributes, "service_uri"@) && u.wf(),
{
    match find_attr(&doc.attributes, "service_uri") {
        Some(v) => match ServiceUri::from_str(v.as_str()) {
            Ok(u) => Some(u),
            Err(_) => None,
        },
        None => None,
    }
}

/// The attribute `tag`, where it is there.
fn tag_attr(doc: &Document) -> (r: Option<String>)
    ensures
        opt_view(r) == attr_value(doc@.attributes, "tag"@),
{
    match find_attr(&doc.attributes, "tag") {
        Some(v) => Some(v.as_str().to_owned()),
        None => None,
    }
}

/// The content of the one element of the document, where there is exactly
/// one and it is named `name`.
fn single_element(doc: &Document, name: &str) -> (r: Option<IdCert>)
    ensures
        r is Some <==> single_ok(doc@, name@),
        r matches Some(c) ==> c@ == doc@.elements[0].1,
{
    if doc.elements.len() == 1 && str_eq(doc.elements[0].name.as_str(), name) {
        Some(IdCert { der: copy_bytes(&doc.elements[0].content) })
    } else {
        None
    }
}

/// Whether the attribute `service_uri` is there and is a valid service
/// URI.
pub open spec fn service_uri_ok(d: DocumentView) -> bool {
    attr_value(d.attributes, "service_uri"@) is Some && valid_service_uri(
        attr_value(d.attributes, "service_uri"@).unwrap(),
    )
}

/// The rsync URI in the attribute `sia_base`, where it is there and valid.
fn sia_base_attr(doc: &Document) -> (r: Option<Rsync>)
    ensures
        r is Some <==> (attr_value(doc@.attributes, "sia_base"@) is Some && valid_uri(
            rsync_scheme(),
            attr_value(doc@.attributes, "sia_base"@).unwrap(),
        )),
        r matches Some(u) ==> Some(u@) == attr_value(doc@.attributes, "sia_base"@),
{
    match find_attr(&doc.attributes, "sia_base") {
        Some(v) => match Rsync::from_str(v.as_str()) {
            Ok(u) => Some(u),
            Err(_) => None,
        },
        None => None,
    }
}

/// The HTTPS URI in the attribute `rrdp_notification_uri`: `Ok(None)`
/// where it is absent, an error where it is there and not valid.
fn rrdp_attr(doc: &Document) -> (r: Result<Option<Https>, IdExchangeError>)
    ensures
        r is Ok <==> match attr_value(doc@.attributes, "rrdp_notification_uri"@) {
            Some(u) => valid_uri(https_scheme(), u),
            None => true,
        },
        r matches Ok(o) ==> opt_https_view(o) == attr_value(
            doc@.attributes,
            "rrdp_notification_uri"@,
        ),
{
    match find_attr(&doc.attributes, "rrdp_notification_uri") {
        Some(v) => match Https::from_str(v.as_str()) {
            Ok(u) => Ok(Some(u)),
            Err(e) => Err(e),
        },
        None => Ok(None),
    }
}

/// The names in `names` as owned strings.
fn names(a: &str, b: &str, c: &str) -> (r: Vec<String>)
    ensures
        r@.map_values(|s: String| s@) == seq![a@, b@, c@],
{
    let mut r: Vec<String> = Vec::new();
    r.push(a.to_owned());
    r.push(b.to_owned());
    r.push(c.to_owned());
    assert(r@.map_values(|s: String| s@) =~= seq![a@, b@, c@]);
    r
}

//------------ ChildRequest --------------------------------------------------

/// The attributes that a `<child_request/>` may have.
pub open spec fn child_request_attrs() -> Seq<Seq<char>> {
    seq!["version"@, "child_handle"@, "tag"@]
}

/// The mathematical form of a child request.
pub struct ChildRequestView {
    pub id_cert: Seq<u8>,
    pub child_handle: Seq<char>,
    pub tag: Option<Seq<char>>,
}

/// The document of a child request.
pub open spec fn child_request_doc(v: ChildRequestView) -> DocumentView {
    DocumentView {
        namespace: ns(),
        name: "child_request"@,
        attributes: seq![("version"@, version()), ("child_handle"@, v.child_handle)] + opt_attr(
            "tag"@,
            v.tag,
        ),
        elements: seq![("child_bpki_ta"@, v.id_cert)],
    }
}

/// What decoding a document as a child request gives: a value where the
/// root is `child_request` of version 1 with no attributes but
/// `version`, `child_handle` and `tag`, the handle is valid, and there is
/// exactly one element, `child_bpki_ta`.
pub open spec fn decode_child_request(d: DocumentView) -> Option<ChildRequestView> {
    if root_ok(d, "child_request"@) && all_known(d.attributes, child_request_attrs()) && handle_ok(
        d,
        "child_handle"@,
    ) && single_ok(d, "child_bpki_ta"@) {
        Some(
            ChildRequestView {
                id_cert: d.elements[0].1,
                child_handle: attr_value(d.attributes, "child_handle"@).unwrap(),
                tag: attr_value(d.attributes, "tag"@),
            },
        )
    } else {
        None
    }
}

/// A `<child_request/>`: the identity a child CA presents to its parent.
#[derive(Clone, Debug, Eq, PartialEq)]
pub struct ChildRequest {
    id_cert: IdCert,
    child_handle: Handle,
    tag: Option<String>,
}

impl View for ChildRequest {
    type V = ChildRequestView;

    closed spec fn view(&self) -> ChildRequestView {
        ChildRequestView {
            id_cert: self.id_cert@,
            child_handle: self.child_handle@,
            tag: opt_view(self.tag),
        }
    }
}

impl ChildRequest {
    pub fn new(id_cert: IdCert, child_handle: Handle) -> (r: ChildRequest)
        ensures
            r@ == (ChildRequestView { id_cert: id_cert@, child_handle: child_handle@, tag: None }),
    {
        ChildRequest { id_cert, child_handle, tag: None }
    }

    /// A request with a tag.
    pub fn with_tag(id_cert: IdCert, child_handle: Handle, tag: Option<String>) -> (r:
        ChildRequest)
        ensures
            r@ == (ChildRequestView {
                id_cert: id_cert@,
                child_handle: child_handle@,
                tag: opt_view(tag),
            }),
    {
        ChildRequest { id_cert, child_handle, tag }
    }

    pub fn unpack(self) -> (r: (IdCert, ChildHandle, Option<String>))
        ensures
            r.0@ == self@.id_cert,
            r.1@ == self@.child_handle,
            opt_view(r.2) == self@.tag,
    {
        (self.id_cert, self.child_handle, self.tag)
    }

    pub fn id_cert(&self) -> (r: &IdCert)
        ensures
            r@ == self@.id_cert,
    {
        &self.id_cert
    }

    pub fn child_handle(&self) -> (r: &Handle)
        ensures
            r@ == self@.child_handle,
    {
        &self.child_handle
    }

    pub fn tag(&self) -> (r: Option<&String>)
        ensures
            match self@.tag {
                Some(t) => r matches Some(s) && s@ == t,
                None => r is None,
            },
    {
        self.tag.as_ref()
    }

    /// The handle is valid.
    pub fn check_wf(&self)
        ensures
            valid_handle(self@.child_handle),
    {
        self.child_handle.check_wf();
    }

    /// Appends the XML text of this request.
    pub fn write_xml(&self, out: &mut String)
        ensures
            final(out)@ == old(out)@ + render(child_request_doc(self@)),
    {
        let doc = self.to_document();
        write_document(out, &doc);
    }

    /// The XML text of this request.
    pub fn to_xml_string(&self) -> (r: String)
        ensures
            r@ == render(child_request_doc(self@)),
    {
        let doc = self.to_document();
        to_xml_string(&doc)
    }

    /// The document of this request.
    pub fn to_document(&self) -> (r: Document)
        ensures
            r@ == child_request_doc(self@),
    {
        let mut doc = root("child_request");
        push_attr(&mut doc, "child_handle", self.child_handle.as_str());
        push_opt_attr(&mut doc, "tag", &self.tag);
        push_cert(&mut doc, "child_bpki_ta", &self.id_cert);
        assert(doc@.attributes =~= child_request_doc(self@).attributes);
        assert(doc@.elements =~= child_request_doc(self@).elements);
        doc
    }

    /// The identity certificate that a `<child_request/>` document embeds,
    /// to be handed to the certificate validator: there exactly where the
    /// document is otherwise a well-formed message of this type.
    pub fn embedded_cert(doc: &Document) -> (r: Option<IdCert>)
        ensures
            match decode_child_request(doc@) {
                Some(v) => r matches Some(c) && c@ == v.id_cert,
                None => r is None,
            },
    {
        match Self::decode(doc) {
            Ok(m) => Some(m.id_cert),
            Err(_) => None,
        }
    }

    /// Decodes a `<child_request/>` document, given the certificate validator's
    /// verdict on the certificate it embeds at the reference time: `Ok(())`
    /// where the validator accepts it, or its reason for refusing it. A
    /// malformed document is refused first; a refused certificate makes
    /// decoding fail with `InvalidIdCert`, carrying the reason.
    pub fn validate(doc: &Document, cert_verdict: Result<(), String>) -> (r: Result<
        ChildRequest,
        IdExchangeError,
    >)
        ensures
            r is Ok <==> decode_child_request(doc@) is Some && cert_verdict is Ok,
            r matches Ok(v) ==> decode_child_request(doc@) == Some(v@),
            decode_child_request(doc@) is None ==> (r matches Err(e) && e is Malformed),
            decode_child_request(doc@) is Some ==> match cert_verdict {
                Err(m) => (r matches Err(e) && (e matches IdExchangeError::InvalidIdCert(x) && x@
                    == m@)),
                Ok(_) => true,
            },
    {
        let m = match Self::decode(doc) {
            Ok(m) => m,
            Err(e) => return Err(e),
        };
        match cert_verdict {
            Ok(()) => Ok(m),
            Err(reason) => Err(IdExchangeError::InvalidIdCert(reason)),
        }
    }

    /// Decodes the structure of a `<child_request/>` document.
    fn decode(doc: &Document) -> (r: Result<ChildRequest, IdExchangeError>)
        ensures
            r is Ok <==> decode_child_request(doc@) is Some,
            r matches Ok(v) ==> decode_child_request(doc@) == Some(v@),
            r matches Err(e) ==> e is Malformed,
    {
        if !check_root(doc, "child_request") {
            return Err(IdExchangeError::Malformed);
        }
        let known = names("version", "child_handle", "tag");
        if !attributes_known(&doc.attributes, &known) {
            return Err(IdExchangeError::Malformed);
        }
        let child_handle = match handle_attr(doc, "child_handle") {
            Some(h) => h,
            None => return Err(IdExchangeError::Malformed),
        };
        let tag = tag_attr(doc);
        let id_cert = match single_element(doc, "child_bpki_ta") {
            Some(c) => c,
            None => return Err(IdExchangeError::Malformed),
        };
        Ok(ChildRequest { id_cert, child_handle, tag })
    }
}


//------------ ParentResponse ------------------------------------------------

/// What the elements of a `<parent_response/>` hold: the number of
/// `parent_bpki_ta` elements and the content of the last of them, or `None`
/// where an element is not one of `parent_bpki_ta`, `referral` and
/// `offer`.
pub open spec fn scan_parent_elements(els: Seq<(Seq<char>, Seq<u8>)>) -> Option<(nat, Seq<u8>)>
    decreases els.len(),
{
    if els.len() == 0 {
        Some((0, Seq::empty()))
    } else {
        match scan_parent_elements(els.drop_last()) {
            None => None,
            Some((k, c)) => if els.last().0 == "parent_bpki_ta"@ {
                Some((k + 1, els.last().1))
            } else if els.last().0 == "referral"@ || els.last().0 == "offer"@ {
                Some((k, c))
            } else {
                None
            },
        }
    }
}

/// Whether the elements of a `<parent_response/>` are all known and hold
/// exactly one certificate.
pub open spec fn parent_elements_ok(d: DocumentView) -> bool {
    scan_parent_elements(d.elements) is Some && scan_parent_elements(d.elements).unwrap().0 == 1
}

/// The mathematical form of a parent response.
pub struct ParentResponseView {
    pub id_cert: Seq<u8>,
    pub parent_handle: Seq<char>,
    pub child_handle: Seq<char>,
    pub service_uri: Seq<char>,
    pub tag: Option<Seq<char>>,
}

/// The document of a parent response.
pub open spec fn parent_response_doc(v: ParentResponseView) -> DocumentView {
    DocumentView {
        namespace: ns(),
        name: "parent_response"@,
        attributes: seq![
            ("version"@, version()),
            ("parent_handle"@, v.parent_handle),
            ("child_handle"@, v.child_handle),
            ("service_uri"@, v.service_uri),
        ] + opt_attr("tag"@, v.tag),
        elements: seq![("parent_bpki_ta"@, v.id_cert)],
    }
}

/// What decoding a document as a parent response gives: a value where the
/// root is `parent_response` of version 1, both handles and the service
/// URI are there and valid, and the elements are `parent_bpki_ta` once and
/// any number of `referral` and `offer`, in any order. Other attributes
/// are ignored.
pub open spec fn decode_parent_response(d: DocumentView) -> Option<ParentResponseView> {
    if root_ok(d, "parent_response"@) && handle_ok(d, "parent_handle"@) && handle_ok(
        d,
        "child_handle"@,
    ) && service_uri_ok(d) && parent_elements_ok(d) {
        Some(
            ParentResponseView {
                id_cert: scan_parent_elements(d.elements).unwrap().1,
                parent_handle: attr_value(d.attributes, "parent_handle"@).unwrap(),
                child_handle: attr_value(d.attributes, "child_handle"@).unwrap(),
                service_uri: attr_value(d.attributes, "service_uri"@).unwrap(),
                tag: attr_value(d.attributes, "tag"@),
            },
        )
    } else {
        None
    }
}

/// The certificate of a `<parent_response/>`, where its elements are
/// all known and hold exactly one.
fn parent_elements(doc: &Document) -> (r: Option<IdCert>)
    ensures
        r is Some <==> parent_elements_ok(doc@),
        r matches Some(c) ==> c@ == scan_parent_elements(doc@.elements).unwrap().1,
{
    let ghost ev = doc@.elements;
    let mut count: usize = 0;
    let mut cert: Vec<u8> = Vec::new();
    let mut i: usize = 0;
    assert(ev.subrange(0, 0) =~= Seq::<(Seq<char>, Seq<u8>)>::empty());
    while i < doc.elements.len()
        invariant
            ev == doc@.elements,
            i <= ev.len(),
            count <= i,
            scan_parent_elements(ev.subrange(0, i as int)) == Some((count as nat, cert@)),
        decreases doc.elements.len() - i,
    {
        let e = &doc.elements[i];
        let ghost sub = ev.subrange(0, i + 1);
        assert(sub.drop_last() =~= ev.subrange(0, i as int));
        assert(sub.last() == (e.name@, e.content@));
        if str_eq(e.name.as_str(), "parent_bpki_ta") {
            count = count + 1;
            cert = copy_bytes(&e.content);
        } else if str_eq(e.name.as_str(), "referral") || str_eq(e.name.as_str(), "offer") {
        } else {
            proof {
                lemma_scan_none_extends(ev, i as int + 1);
            }
            return None;
        }
        i = i + 1;
    }
    assert(ev.subrange(0, ev.len() as int) =~= ev);
    if count == 1 {
        Some(IdCert { der: cert })
    } else {
        None
    }
}

/// Once an unknown element is met, the scan fails whatever follows.
proof fn lemma_scan_none_extends(els: Seq<(Seq<char>, Seq<u8>)>, i: int)
    requires
        0 <= i <= els.len(),
        scan_parent_elements(els.subrange(0, i)) is None,
    ensures
        scan_parent_elements(els) is None,
    decreases els.len() - i,
{
    if i < els.len() {
        assert(els.subrange(0, i + 1).drop_last() =~= els.subrange(0, i));
        lemma_scan_none_extends(els, i + 1);
    } else {
        assert(els.subrange(0, i) =~= els);
    }
}

/// A `<parent_response/>`: the parent's answer to a child request.
#[derive(Clone, Debug, Eq, PartialEq)]
pub struct ParentResponse {
    id_cert: IdCert,
    parent_handle: ParentHandle,
    child_handle: ChildHandle,
    service_uri: ServiceUri,
    tag: Option<String>,
}

impl View for ParentResponse {
    type V = ParentResponseView;

    closed spec fn view(&self) -> ParentResponseView {
        ParentResponseView {
            id_cert: self.id_cert@,
            parent_handle: self.parent_handle@,
            child_handle: self.child_handle@,
            service_uri: self.service_uri@,
            tag: opt_view(self.tag),
        }
    }
}

impl ParentResponse {
    /// The service URI held.
    pub closed spec fn spec_service_uri(&self) -> ServiceUri {
        self.service_uri
    }

    pub fn new(
        id_cert: IdCert,
        parent_handle: ParentHandle,
        child_handle: ChildHandle,
        service_uri: ServiceUri,
        tag: Option<String>,
    ) -> (r: ParentResponse)
        ensures
            r@ == (ParentResponseView {
                id_cert: id_cert@,
                parent_handle: parent_handle@,
                child_handle: child_handle@,
                service_uri: service_uri@,
                tag: opt_view(tag),
            }),
    {
        ParentResponse { id_cert, parent_handle, child_handle, service_uri, tag }
    }

    pub fn id_cert(&self) -> (r: &IdCert)
        ensures
            r@ == self@.id_cert,
    {
        &self.id_cert
    }

    pub fn parent_handle(&self) -> (r: &ParentHandle)
        ensures
            r@ == self@.parent_handle,
    {
        &self.parent_handle
    }

    pub fn child_handle(&self) -> (r: &ChildHandle)
        ensures
            r@ == self@.child_handle,
    {
        &self.child_handle
    }

    pub fn service_uri(&self) -> (r: &ServiceUri)
        ensures
            r@ == self@.service_uri,
    {
        &self.service_uri
    }

    pub fn tag(&self) -> (r: Option<&String>)
        ensures
            match self@.tag {
                Some(t) => r matches Some(s) && s@ == t,
                None => r is None,
            },
    {
        self.tag.as_ref()
    }

    /// Whether the value can be decoded from its own document: its handles
    /// are valid, and so is its service URI where it was parsed.
    pub fn is_wf(&self) -> (r: bool)
        ensures
            r ==> valid_handle(self@.parent_handle) && valid_handle(self@.child_handle)
                && valid_service_uri(self@.service_uri),
    {
        self.parent_handle.check_wf();
        self.child_handle.check_wf();
        self.service_uri.is_wf()
    }

    /// Appends the XML text of this response.
    pub fn write_xml(&self, out: &mut String)
        ensures
            final(out)@ == old(out)@ + render(parent_response_doc(self@)),
    {
        let doc = self.to_document();
        write_document(out, &doc);
    }

    /// The XML text of this response.
    pub fn to_xml_string(&self) -> (r: String)
        ensures
            r@ == render(parent_response_doc(self@)),
    {
        let doc = self.to_document();
        to_xml_string(&doc)
    }

    /// The document of this response.
    pub fn to_document(&self) -> (r: Document)
        ensures
            r@ == parent_response_doc(self@),
    {
        let mut doc = root("parent_response");
        push_attr(&mut doc, "parent_handle", self.parent_handle.as_str());
        push_attr(&mut doc, "child_handle", self.child_handle.as_str());
        push_attr(&mut doc, "service_uri", self.service_uri.as_str());
        push_opt_attr(&mut doc, "tag", &self.tag);
        push_cert(&mut doc, "parent_bpki_ta", &self.id_cert);
        assert(doc@.attributes =~= parent_response_doc(self@).attributes);
        assert(doc@.elements =~= parent_response_doc(self@).elements);
        doc
    }

    /// The identity certificate that a `<parent_response/>` document embeds,
    /// to be handed to the certificate validator: there exactly where the
    /// document is otherwise a well-formed message of this type.
    pub fn embedded_cert(doc: &Document) -> (r: Option<IdCert>)
        ensures
            match decode_parent_response(doc@) {
                Some(v) => r matches Some(c) && c@ == v.id_cert,
                None => r is None,
            },
    {
        match Self::decode(doc) {
            Ok(m) => Some(m.id_cert),
            Err(_) => None,
        }
    }

    /// Decodes a `<parent_response/>` document, given the certificate validator's
    /// verdict on the certificate it embeds at the reference time: `Ok(())`
    /// where the validator accepts it, or its reason for refusing it. A
    /// malformed document is refused first; a refused certificate makes
    /// decoding fail with `InvalidIdCert`, carrying the reason.
    pub fn validate(doc: &Document, cert_verdict: Result<(), String>) -> (r: Result<
        ParentResponse,
        IdExchangeError,
    >)
        ensures
            r is Ok <==> decode_parent_response(doc@) is Some && cert_verdict is Ok,
            r matches Ok(v) ==> decode_parent_response(doc@) == Some(v@) && v.spec_service_uri().wf(),
            decode_parent_response(doc@) is None ==> (r matches Err(e) && e is Malformed),
            decode_parent_response(doc@) is Some ==> match cert_verdict {
                Err(m) => (r matches Err(e) && (e matches IdExchangeError::InvalidIdCert(x) && x@
                    == m@)),
                Ok(_) => true,
            },
    {
        let m = match Self::decode(doc) {
            Ok(m) => m,
            Err(e) => return Err(e),
        };
        match cert_verdict {
            Ok(()) => Ok(m),
            Err(reason) => Err(IdExchangeError::InvalidIdCert(reason)),
        }
    }

    /// Decodes the structure of a `<parent_response/>` document.
    fn decode(doc: &Document) -> (r: Result<ParentResponse, IdExchangeError>)
        ensures
            r is Ok <==> decode_parent_response(doc@) is Some,
            r matches Ok(v) ==> decode_parent_response(doc@) == Some(v@) && v.spec_service_uri().wf(),
            r matches Err(e) ==> e is Malformed,
    {
        if !check_root(doc, "parent_response") {
            return Err(IdExchangeError::Malformed);
        }
        let service_uri = match service_uri_attr(doc) {
            Some(u) => u,
            None => return Err(IdExchangeError::Malformed),
        };
        let parent_handle = match handle_attr(doc, "parent_handle") {
            Some(h) => h,
            None => return Err(IdExchangeError::Malformed),
        };
        let child_handle = match handle_attr(doc, "child_handle") {
            Some(h) => h,
            None => return Err(IdExchangeError::Malformed),
        };
        let tag = tag_attr(doc);
        let id_cert = match parent_elements(doc) {
            Some(c) => c,
            None => return Err(IdExchangeError::Malformed),
        };
        Ok(ParentResponse { id_cert, parent_handle, child_handle, service_uri, tag })
    }
}

//------------ PublisherRequest ----------------------------------------------

/// The attributes that a `<publisher_request/>` may have.
pub open spec fn publisher_request_attrs() -> Seq<Seq<char>> {
    seq!["version"@, "publisher_handle"@, "tag"@]
}

/// The mathematical form of a publisher request.
pub struct PublisherRequestView {
    pub id_cert: Seq<u8>,
    pub publisher_handle: Seq<char>,
    pub tag: Option<Seq<char>>,
}

/// The document of a publisher request.
pub open spec fn publisher_request_doc(v: PublisherRequestView) -> DocumentView {
    DocumentView {
        namespace: ns(),
        name: "publisher_request"@,
        attributes: seq![("version"@, version()), ("publisher_handle"@, v.publisher_handle)]
            + opt_attr("tag"@, v.tag),
        elements: seq![("publisher_bpki_ta"@, v.id_cert)],
    }
}

/// What decoding a document as a publisher request gives: a value where
/// the root is `publisher_request` of version 1 with no attributes but
/// `version`, `publisher_handle` and `tag`, the handle is valid, and there
/// is exactly one element, `publisher_bpki_ta`.
pub open spec fn decode_publisher_request(d: DocumentView) -> Option<PublisherRequestView> {
    if root_ok(d, "publisher_request"@) && all_known(d.attributes, publisher_request_attrs())
        && handle_ok(d, "publisher_handle"@) && single_ok(d, "publisher_bpki_ta"@) {
        Some(
            PublisherRequestView {
                id_cert: d.elements[0].1,
                publisher_handle: attr_value(d.attributes, "publisher_handle"@).unwrap(),
                tag: attr_value(d.attributes, "tag"@),
            },
        )
    } else {
        None
    }
}

/// A `<publisher_request/>`: the identity a CA presents to a publication
/// server.
#[derive(Clone, Debug, Eq, PartialEq)]
pub struct PublisherRequest {
    id_cert: IdCert,
    publisher_handle: PublisherHandle,
    tag: Option<String>,
}

impl View for PublisherRequest {
    type V = PublisherRequestView;

    closed spec fn view(&self) -> PublisherRequestView {
        PublisherRequestView {
            id_cert: self.id_cert@,
            publisher_handle: self.publisher_handle@,
            tag: opt_view(self.tag),
        }
    }
}

impl PublisherRequest {
    pub fn new(id_cert: IdCert, publisher_handle: PublisherHandle, tag: Option<String>) -> (r:
        PublisherRequest)
        ensures
            r@ == (PublisherRequestView {
                id_cert: id_cert@,
                publisher_handle: publisher_handle@,
                tag: opt_view(tag),
            }),
    {
        PublisherRequest { id_cert, publisher_handle, tag }
    }

    pub fn unpack(self) -> (r: (IdCert, PublisherHandle, Option<String>))
        ensures
            r.0@ == self@.id_cert,
            r.1@ == self@.publisher_handle,
            opt_view(r.2) == self@.tag,
    {
        (self.id_cert, self.publisher_handle, self.tag)
    }

    pub fn id_cert(&self) -> (r: &IdCert)
        ensures
            r@ == self@.id_cert,
    {
        &self.id_cert
    }

    pub fn publisher_handle(&self) -> (r: &Handle)
        ensures
            r@ == self@.publisher_handle,
    {
        &self.publisher_handle
    }

    pub fn tag(&self) -> (r: Option<&String>)
        ensures
            match self@.tag {
                Some(t) => r matches Some(s) && s@ == t,
                None => r is None,
            },
    {
        self.tag.as_ref()
    }

    /// The handle is valid.
    pub fn check_wf(&self)
        ensures
            valid_handle(self@.publisher_handle),
    {
        self.publisher_handle.check_wf();
    }

    /// Appends the XML text of this request.
    pub fn write_xml(&self, out: &mut String)
        ensures
            final(out)@ == old(out)@ + render(publisher_request_doc(self@)),
    {
        let doc = self.to_document();
        write_document(out, &doc);
    }

    /// The XML text of this request.
    pub fn to_xml_string(&self) -> (r: String)
        ensures
            r@ == render(publisher_request_doc(self@)),
    {
        let doc = self.to_document();
        to_xml_string(&doc)
    }

    /// The document of this request.
    pub fn to_document(&self) -> (r: Document)
        ensures
            r@ == publisher_request_doc(self@),
    {
        let mut doc = root("publisher_request");
        push_attr(&mut doc, "publisher_handle", self.publisher_handle.as_str());
        push_opt_attr(&mut doc, "tag", &self.tag);
        push_cert(&mut doc, "publisher_bpki_ta", &self.id_cert);
        assert(doc@.attributes =~= publisher_request_doc(self@).attributes);
        assert(doc@.elements =~= publisher_request_doc(self@).elements);
        doc
    }

    /// The identity certificate that a `<publisher_request/>` document embeds,
    /// to be handed to the certificate validator: there exactly where the
    /// document is otherwise a well-formed message of this type.
    pub fn embedded_cert(doc: &Document) -> (r: Option<IdCert>)
        ensures
            match decode_publisher_request(doc@) {
                Some(v) => r matches Some(c) && c@ == v.id_cert,
                None => r is None,
            },
    {
        match Self::decode(doc) {
            Ok(m) => Some(m.id_cert),
            Err(_) => None,
        }
    }

    /// Decodes a `<publisher_request/>` document, given the certificate validator's
    /// verdict on the certificate it embeds at the reference time: `Ok(())`
    /// where the validator accepts it, or its reason for refusing it. A
    /// malformed document is refused first; a refused certificate makes
    /// decoding fail with `InvalidIdCert`, carrying the reason.
    pub fn validate(doc: &Document, cert_verdict: Result<(), String>) -> (r: Result<
        PublisherRequest,
        IdExchangeError,
    >)
        ensures
            r is Ok <==> decode_publisher_request(doc@) is Some && cert_verdict is Ok,
            r matches Ok(v) ==> decode_publisher_request(doc@) == Some(v@),
            decode_publisher_request(doc@) is None ==> (r matches Err(e) && e is Malformed),
            decode_publisher_request(doc@) is Some ==> match cert_verdict {
                Err(m) => (r matches Err(e) && (e matches IdExchangeError::InvalidIdCert(x) && x@
                    == m@)),
                Ok(_) => true,
            },
    {
        let m = match Self::decode(doc) {
            Ok(m) => m,
            Err(e) => return Err(e),
        };
        match cert_verdict {
            Ok(()) => Ok(m),
            Err(reason) => Err(IdExchangeError::InvalidIdCert(reason)),
        }
    }

    /// Decodes the structure of a `<publisher_request/>` document.
    fn decode(doc: &Document) -> (r: Result<PublisherRequest, IdExchangeError>)
        ensures
            r is Ok <==> decode_publisher_request(doc@) is Some,
            r matches Ok(v) ==> decode_publisher_request(doc@) == Some(v@),
            r matches Err(e) ==> e is Malformed,
    {
        if !check_root(doc, "publisher_request") {
            return Err(IdExchangeError::Malformed);
        }
        let known = names("version", "publisher_handle", "tag");
        if !attributes_known(&doc.attributes, &known) {
            return Err(IdExchangeError::Malformed);
        }
        let publisher_handle = match handle_attr(doc, "publisher_handle") {
            Some(h) => h,
            None => return Err(IdExchangeError::Malformed),
        };
        let tag = tag_attr(doc);
        let id_cert = match single_element(doc, "publisher_bpki_ta") {
            Some(c) => c,
            None => return Err(IdExchangeError::Malformed),
        };
        Ok(PublisherRequest { id_cert, publisher_handle, tag })
    }
}

//------------ RepositoryResponse --------------------------------------------

/// The mathematical form of a repository response.
pub struct RepositoryResponseView {
    pub id_cert: Seq<u8>,
    pub publisher_handle: Seq<char>,
    pub service_uri: Seq<char>,
    pub sia_base: Seq<char>,
    pub rrdp_notification_uri: Option<Seq<char>>,
    pub tag: Option<Seq<char>>,
}

/// The document of a repository response.
pub open spec fn repository_response_doc(v: RepositoryResponseView) -> DocumentView {
    DocumentView {
        namespace: ns(),
        name: "repository_response"@,
        attributes: seq![
            ("version"@, version()),
            ("publisher_handle"@, v.publisher_handle),
            ("service_uri"@, v.service_uri),
            ("sia_base"@, v.sia_base),
        ] + opt_attr("rrdp_notification_uri"@, v.rrdp_notification_uri) + opt_attr(
            "tag"@,
            v.tag,
        ),
        elements: seq![("repository_bpki_ta"@, v.id_cert)],
    }
}

/// Whether the attribute `sia_base` is there and is a valid rsync URI.
pub open spec fn sia_base_ok(d: DocumentView) -> bool {
    attr_value(d.attributes, "sia_base"@) is Some && valid_uri(
        rsync_scheme(),
        attr_value(d.attributes, "sia_base"@).unwrap(),
    )
}

/// Whether the attribute `rrdp_notification_uri` is absent or a valid
/// HTTPS URI.
pub open spec fn rrdp_ok(d: DocumentView) -> bool {
    match attr_value(d.attributes, "rrdp_notification_uri"@) {
        Some(u) => valid_uri(https_scheme(), u),
        None => true,
    }
}

/// What decoding a document as a repository response gives: a value where
/// the root is `repository_response` of version 1, the publisher handle,
/// the service URI and the rsync base are there and valid, the RRDP
/// notification URI is absent or valid, and there is exactly one element,
/// `repository_bpki_ta`. Other attributes are ignored.
pub open spec fn decode_repository_response(d: DocumentView) -> Option<RepositoryResponseView> {
    if root_ok(d, "repository_response"@) && handle_ok(d, "publisher_handle"@) && service_uri_ok(
        d,
    ) && sia_base_ok(d) && rrdp_ok(d) && single_ok(d, "repository_bpki_ta"@) {
        Some(
            RepositoryResponseView {
                id_cert: d.elements[0].1,
                publisher_handle: attr_value(d.attributes, "publisher_handle"@).unwrap(),
                service_uri: attr_value(d.attributes, "service_uri"@).unwrap(),
                sia_base: attr_value(d.attributes, "sia_base"@).unwrap(),
                rrdp_notification_uri: attr_value(d.attributes, "rrdp_notification_uri"@),
                tag: attr_value(d.attributes, "tag"@),
            },
        )
    } else {
        None
    }
}

/// A `<repository_response/>`: the publication server's answer to a
/// publisher request.
#[derive(Clone, Debug, Eq, PartialEq)]
pub struct RepositoryResponse {
    id_cert: IdCert,
    publisher_handle: PublisherHandle,
    service_uri: ServiceUri,
    sia_base: Rsync,
    rrdp_notification_uri: Option<Https>,
    tag: Option<String>,
}

impl View for RepositoryResponse {
    type V = RepositoryResponseView;

    closed spec fn view(&self) -> RepositoryResponseView {
        RepositoryResponseView {
            id_cert: self.id_cert@,
            publisher_handle: self.publisher_handle@,
            service_uri: self.service_uri@,
            sia_base: self.sia_base@,
            rrdp_notification_uri: opt_https_view(self.rrdp_notification_uri),
            tag: opt_view(self.tag),
        }
    }
}

impl RepositoryResponse {
    /// The service URI held.
    pub closed spec fn spec_service_uri(&self) -> ServiceUri {
        self.service_uri
    }

    pub fn new(
        id_cert: IdCert,
        publisher_handle: Handle,
        service_uri: ServiceUri,
        sia_base: Rsync,
        rrdp_notification_uri: Option<Https>,
        tag: Option<String>,
    ) -> (r: RepositoryResponse)
        ensures
            r@ == (RepositoryResponseView {
                id_cert: id_cert@,
                publisher_handle: publisher_handle@,
                service_uri: service_uri@,
                sia_base: sia_base@,
                rrdp_notification_uri: opt_https_view(rrdp_notification_uri),
                tag: opt_view(tag),
            }),
    {
        RepositoryResponse {
            id_cert,
            publisher_handle,
            service_uri,
            sia_base,
            rrdp_notification_uri,
            tag,
        }
    }

    pub fn id_cert(&self) -> (r: &IdCert)
        ensures
            r@ == self@.id_cert,
    {
        &self.id_cert
    }

    pub fn publisher_handle(&self) -> (r: &Handle)
        ensures
            r@ == self@.publisher_handle,
    {
        &self.publisher_handle
    }

    pub fn service_uri(&self) -> (r: &ServiceUri)
        ensures
            r@ == self@.service_uri,
    {
        &self.service_uri
    }

    pub fn sia_base(&self) -> (r: &Rsync)
        ensures
            r@ == self@.sia_base,
    {
        &self.sia_base
    }

    pub fn rrdp_notification_uri(&self) -> (r: Option<&Https>)
        ensures
            match self@.rrdp_notification_uri {
                Some(t) => r matches Some(s) && s@ == t,
                None => r is None,
            },
    {
        self.rrdp_notification_uri.as_ref()
    }

    pub fn tag(&self) -> (r: Option<&String>)
        ensures
            match self@.tag {
                Some(t) => r matches Some(s) && s@ == t,
                None => r is None,
            },
    {
        self.tag.as_ref()
    }

    /// Whether the value can be decoded from its own document: its handle
    /// and URIs are valid, the service URI where it was parsed.
    pub fn is_wf(&self) -> (r: bool)
        ensures
            r ==> valid_handle(self@.publisher_handle) && valid_service_uri(self@.service_uri)
                && valid_uri(rsync_scheme(), self@.sia_base) && match self@.rrdp_notification_uri {
                Some(u) => valid_uri(https_scheme(), u),
                None => true,
            },
    {
        self.publisher_handle.check_wf();
        self.sia_base.check_wf();
        match &self.rrdp_notification_uri {
            Some(u) => u.check_wf(),
            None => {},
        }
        self.service_uri.is_wf()
    }

    /// Appends the XML text of this response.
    pub fn write_xml(&self, out: &mut String)
        ensures
            final(out)@ == old(out)@ + render(repository_response_doc(self@)),
    {
        let doc = self.to_document();
        write_document(out, &doc);
    }

    /// The XML text of this response.
    pub fn to_xml_string(&self) -> (r: String)
        ensures
            r@ == render(repository_response_doc(self@)),
    {
        let doc = self.to_document();
        to_xml_string(&doc)
    }

    /// The document of this response.
    pub fn to_document(&self) -> (r: Document)
        ensures
            r@ == repository_response_doc(self@),
    {
        let mut doc = root("repository_response");
        push_attr(&mut doc, "publisher_handle", self.publisher_handle.as_str());
        push_attr(&mut doc, "service_uri", self.service_uri.as_str());
        push_attr(&mut doc, "sia_base", self.sia_base.as_str());
        let rrdp = match &self.rrdp_notification_uri {
            Some(u) => Some(u.as_str().to_owned()),
            None => None,
        };
        push_opt_attr(&mut doc, "rrdp_notification_uri", &rrdp);
        push_opt_attr(&mut doc, "tag", &self.tag);
        push_cert(&mut doc, "repository_bpki_ta", &self.id_cert);
        assert(doc@.attributes =~= repository_response_doc(self@).attributes);
        assert(doc@.elements =~= repository_response_doc(self@).elements);
        doc
    }

    /// The identity certificate that a `<repository_response/>` document embeds,
    /// to be handed to the certificate validator: there exactly where the
    /// document is otherwise a well-formed message of this type.
    pub fn embedded_cert(doc: &Document) -> (r: Option<IdCert>)
        ensures
            match decode_repository_response(doc@) {
                Some(v) => r matches Some(c) && c@ == v.id_cert,
                None => r is None,
            },
    {
        match Self::decode(doc) {
            Ok(m) => Some(m.id_cert),
            Err(_) => None,
        }
    }

    /// Decodes a `<repository_response/>` document, given the certificate validator's
    /// verdict on the certificate it embeds at the reference time: `Ok(())`
    /// where the validator accepts it, or its reason for refusing it. A
    /// malformed document is refused first; a refused certificate makes
    /// decoding fail with `InvalidIdCert`, carrying the reason.
    pub fn validate(doc: &Document, cert_verdict: Result<(), String>) -> (r: Result<
        RepositoryResponse,
        IdExchangeError,
    >)
        ensures
            r is Ok <==> decode_repository_response(doc@) is Some && cert_verdict is Ok,
            r matches Ok(v) ==> decode_repository_response(doc@) == Some(v@) && v.spec_service_uri().wf(),
            decode_repository_response(doc@) is None ==> (r matches Err(e) && e is Malformed),
            decode_repository_response(doc@) is Some ==> match cert_verdict {
                Err(m) => (r matches Err(e) && (e matches IdExchangeError::InvalidIdCert(x) && x@
                    == m@)),
                Ok(_) => true,
            },
    {
        let m = match Self::decode(doc) {
            Ok(m) => m,
            Err(e) => return Err(e),
        };
        match cert_verdict {
            Ok(()) => Ok(m),
            Err(reason) => Err(IdExchangeError::InvalidIdCert(reason)),
        }
    }

    /// Decodes the structure of a `<repository_response/>` document.
    fn decode(doc: &Document) -> (r: Result<RepositoryResponse, IdExchangeError>)
        ensures
            r is Ok <==> decode_repository_response(doc@) is Some,
            r matches Ok(v) ==> decode_repository_response(doc@) == Some(v@) && v.spec_service_uri().wf(),
            r matches Err(e) ==> e is Malformed,
    {
        if !check_root(doc, "repository_response") {
            return Err(IdExchangeError::Malformed);
        }
        let service_uri = match service_uri_attr(doc) {
            Some(u) => u,
            None => return Err(IdExchangeError::Malformed),
        };
        let publisher_handle = match handle_attr(doc, "publisher_handle") {
            Some(h) => h,
            None => return Err(IdExchangeError::Malformed),
        };
        let sia_base = match sia_base_attr(doc) {
            Some(u) => u,
            None => return Err(IdExchangeError::Malformed),
        };
        let rrdp_notification_uri = match rrdp_attr(doc) {
            Ok(u) => u,
            Err(_) => return Err(IdExchangeError::Malformed),
        };
        let tag = tag_attr(doc);
        let id_cert = match single_element(doc, "repository_bpki_ta") {
            Some(c) => c,
            None => return Err(IdExchangeError::Malformed),
        };
        Ok(
            RepositoryResponse {
                id_cert,
                publisher_handle,
                service_uri,
                sia_base,
                rrdp_notification_uri,
                tag,
            },
        )
    }
}

/// The attribute names of the messages are distinct texts.
proof fn lemma_names_distinct()
    ensures
        "version"@ != "child_handle"@,
        "version"@ != "tag"@,
        "child_handle"@ != "tag"@,
        "version"@ != "parent_handle"@,
        "version"@ != "service_uri"@,
        "version"@ != "publisher_handle"@,
        "version"@ != "sia_base"@,
        "version"@ != "rrdp_notification_uri"@,
        "tag"@ != "parent_handle"@,
        "tag"@ != "service_uri"@,
        "tag"@ != "publisher_handle"@,
        "tag"@ != "sia_base"@,
        "tag"@ != "rrdp_notification_uri"@,
        "child_handle"@ != "parent_handle"@,
        "child_handle"@ != "service_uri"@,
        "parent_handle"@ != "service_uri"@,
        "publisher_handle"@ != "service_uri"@,
        "publisher_handle"@ != "sia_base"@,
        "publisher_handle"@ != "rrdp_notification_uri"@,
        "service_uri"@ != "sia_base"@,
        "service_uri"@ != "rrdp_notification_uri"@,
        "sia_base"@ != "rrdp_notification_uri"@,
{
    reveal_strlit("version");
    reveal_strlit("child_handle");
    reveal_strlit("tag");
    reveal_strlit("parent_handle");
    reveal_strlit("service_uri");
    reveal_strlit("publisher_handle");
    reveal_strlit("sia_base");
    reveal_strlit("rrdp_notification_uri");
    assert("version"@[0] != "child_handle"@[0]);
    assert("version"@[0] != "tag"@[0]);
    assert("child_handle"@[0] != "tag"@[0]);
    assert("version"@[0] != "parent_handle"@[0]);
    assert("version"@[0] != "service_uri"@[0]);
    assert("version"@[0] != "publisher_handle"@[0]);
    assert("version"@[0] != "sia_base"@[0]);
    assert("version"@[0] != "rrdp_notification_uri"@[0]);
    assert("tag"@[0] != "parent_handle"@[0]);
    assert("tag"@[0] != "service_uri"@[0]);
    assert("tag"@[0] != "publisher_handle"@[0]);
    assert("tag"@[0] != "sia_base"@[0]);
    assert("tag"@[0] != "rrdp_notification_uri"@[0]);
    assert("child_handle"@[0] != "parent_handle"@[0]);
    assert("child_handle"@[0] != "service_uri"@[0]);
    assert("parent_handle"@.len() != "service_uri"@.len());
    assert("publisher_handle"@[0] != "service_uri"@[0]);
    assert("publisher_handle"@[0] != "sia_base"@[0]);
    assert("publisher_handle"@[0] != "rrdp_notification_uri"@[0]);
    assert("service_uri"@[1] != "sia_base"@[1]);
    assert("service_uri"@[0] != "rrdp_notification_uri"@[0]);
    assert("sia_base"@[0] != "rrdp_notification_uri"@[0]);
}

/// Decoding the document of a child request gives the request again.
pub proof fn lemma_child_request_round_trip(v: ChildRequestView)
    requires
        valid_handle(v.child_handle),
    ensures
        decode_child_request(child_request_doc(v)) == Some(v),
{
    lemma_names_distinct();
    let d = child_request_doc(v);
    let a = d.attributes;
    lemma_attr_value_once(a, "version"@, 0);
    lemma_attr_value_once(a, "child_handle"@, 1);
    match v.tag {
        Some(t) => lemma_attr_value_once(a, "tag"@, 2),
        None => lemma_attr_value_absent(a, "tag"@),
    }
    assert(child_request_attrs().contains(a[0].0)) by {
        assert(child_request_attrs()[0] == a[0].0);
    }
    assert(child_request_attrs().contains(a[1].0)) by {
        assert(child_request_attrs()[1] == a[1].0);
    }
    if v.tag is Some {
        assert(child_request_attrs()[2] == a[2].0);
    }
}

/// Decoding the document of a parent response gives the response again.
pub proof fn lemma_parent_response_round_trip(v: ParentResponseView)
    requires
        valid_handle(v.parent_handle),
        valid_handle(v.child_handle),
        valid_service_uri(v.service_uri),
    ensures
        decode_parent_response(parent_response_doc(v)) == Some(v),
{
    lemma_names_distinct();
    let d = parent_response_doc(v);
    let a = d.attributes;
    lemma_attr_value_once(a, "version"@, 0);
    lemma_attr_value_once(a, "parent_handle"@, 1);
    lemma_attr_value_once(a, "child_handle"@, 2);
    lemma_attr_value_once(a, "service_uri"@, 3);
    match v.tag {
        Some(t) => lemma_attr_value_once(a, "tag"@, 4),
        None => lemma_attr_value_absent(a, "tag"@),
    }
    assert(d.elements.drop_last() =~= Seq::<(Seq<char>, Seq<u8>)>::empty());
    assert(scan_parent_elements(d.elements.drop_last()) == Some((0nat, Seq::<u8>::empty())));
    assert(d.elements.last() == ("parent_bpki_ta"@, v.id_cert));
    assert(scan_parent_elements(d.elements) == Some((1nat, v.id_cert)));
}

/// Decoding the document of a publisher request gives the request again.
pub proof fn lemma_publisher_request_round_trip(v: PublisherRequestView)
    requires
        valid_handle(v.publisher_handle),
    ensures
        decode_publisher_request(publisher_request_doc(v)) == Some(v),
{
    lemma_names_distinct();
    let d = publisher_request_doc(v);
    let a = d.attributes;
    lemma_attr_value_once(a, "version"@, 0);
    lemma_attr_value_once(a, "publisher_handle"@, 1);
    match v.tag {
        Some(t) => lemma_attr_value_once(a, "tag"@, 2),
        None => lemma_attr_value_absent(a, "tag"@),
    }
    assert(publisher_request_attrs()[0] == a[0].0);
    assert(publisher_request_attrs()[1] == a[1].0);
    if v.tag is Some {
        assert(publisher_request_attrs()[2] == a[2].0);
    }
}

/// Decoding the document of a repository response gives the response
/// again.
pub proof fn lemma_repository_response_round_trip(v: RepositoryResponseView)
    requires
        valid_handle(v.publisher_handle),
        valid_service_uri(v.service_uri),
        valid_uri(rsync_scheme(), v.sia_base),
        match v.rrdp_notification_uri {
            Some(u) => valid_uri(https_scheme(), u),
            None => true,
        },
    ensures
        decode_repository_response(repository_response_doc(v)) == Some(v),
{
    lemma_names_distinct();
    let d = repository_response_doc(v);
    let a = d.attributes;
    lemma_attr_value_once(a, "version"@, 0);
    lemma_attr_value_once(a, "publisher_handle"@, 1);
    lemma_attr_value_once(a, "service_uri"@, 2);
    lemma_attr_value_once(a, "sia_base"@, 3);
    match v.rrdp_notification_uri {
        Some(u) => {
            lemma_attr_value_once(a, "rrdp_notification_uri"@, 4);
            match v.tag {
                Some(t) => lemma_attr_value_once(a, "tag"@, 5),
                None => lemma_attr_value_absent(a, "tag"@),
            }
        },
        None => {
            lemma_attr_value_absent(a, "rrdp_notification_uri"@);
            match v.tag {
                Some(t) => lemma_attr_value_once(a, "tag"@, 4),
                None => lemma_attr_value_absent(a, "tag"@),
            }
        },
    }
}

/// The document `d` with one more attribute, `n` with value `value`.
pub open spec fn with_attribute(d: DocumentView, n: Seq<char>, value: Seq<char>) -> DocumentView {
    DocumentView { attributes: d.attributes.push((n, value)), ..d }
}

/// The attributes that a `<parent_response/>` reads.
pub open spec fn parent_response_attrs() -> Seq<Seq<char>> {
    seq!["version"@, "parent_handle"@, "child_handle"@, "service_uri"@, "tag"@]
}

/// The attributes that a `<repository_response/>` reads.
pub open spec fn repository_response_attrs() -> Seq<Seq<char>> {
    seq![
        "version"@,
        "publisher_handle"@,
        "service_uri"@,
        "sia_base"@,
        "rrdp_notification_uri"@,
        "tag"@,
    ]
}

/// An attribute that a child request or a publisher request does not know
/// makes decoding fail.
pub proof fn lemma_strict_unknown_attribute(d: DocumentView, n: Seq<char>, value: Seq<char>)
    ensures
        !child_request_attrs().contains(n) ==> decode_child_request(
            with_attribute(d, n, value),
        ) is None,
        !publisher_request_attrs().contains(n) ==> decode_publisher_request(
            with_attribute(d, n, value),
        ) is None,
{
    let w = with_attribute(d, n, value);
    assert(w.attributes[w.attributes.len() - 1].0 == n);
}

/// An attribute that a parent response or a repository response does not
/// read, and that the document does not have yet, changes nothing in what
/// decoding gives, success or failure.
pub proof fn lemma_lenient_unknown_attribute(d: DocumentView, n: Seq<char>, value: Seq<char>)
    requires
        forall|i: int| 0 <= i < d.attributes.len() ==> d.attributes[i].0 != n,
    ensures
        !parent_response_attrs().contains(n) ==> decode_parent_response(
            with_attribute(d, n, value),
        ) == decode_parent_response(d),
        !repository_response_attrs().contains(n) ==> decode_repository_response(
            with_attribute(d, n, value),
        ) == decode_repository_response(d),
{
    let a = d.attributes;
    let x = (n, value);
    let w = a.push(x);
    if attrs_unique(a) {
        assert forall|i: int, j: int| 0 <= i < j < w.len() implies #[trigger] w[i].0
            != #[trigger] w[j].0 by {
            if j < a.len() {
                assert(w[i] == a[i] && w[j] == a[j]);
            } else {
                assert(w[i] == a[i]);
            }
        }
    }
    if attrs_unique(w) {
        assert forall|i: int, j: int| 0 <= i < j < a.len() implies #[trigger] a[i].0
            != #[trigger] a[j].0 by {
            assert(w[i] == a[i] && w[j] == a[j]);
        }
    }
    assert(attrs_unique(w) == attrs_unique(a));
    if !parent_response_attrs().contains(n) {
        assert(parent_response_attrs()[0] != n);
        assert(parent_response_attrs()[1] != n);
        assert(parent_response_attrs()[2] != n);
        assert(parent_response_attrs()[3] != n);
        assert(parent_response_attrs()[4] != n);
        lemma_attr_value_push_other(a, x, "version"@);
        lemma_attr_value_push_other(a, x, "parent_handle"@);
        lemma_attr_value_push_other(a, x, "child_handle"@);
        lemma_attr_value_push_other(a, x, "service_uri"@);
        lemma_attr_value_push_other(a, x, "tag"@);
    }
    if !repository_response_attrs().contains(n) {
        assert(repository_response_attrs()[0] != n);
        assert(repository_response_attrs()[1] != n);
        assert(repository_response_attrs()[2] != n);
        assert(repository_response_attrs()[3] != n);
        assert(repository_response_attrs()[4] != n);
        assert(repository_response_attrs()[5] != n);
        lemma_attr_value_push_other(a, x, "version"@);
        lemma_attr_value_push_other(a, x, "publisher_handle"@);
        lemma_attr_value_push_other(a, x, "service_uri"@);
        lemma_attr_value_push_other(a, x, "sia_base"@);
        lemma_attr_value_push_other(a, x, "rrdp_notification_uri"@);
        lemma_attr_value_push_other(a, x, "tag"@);
    }
}

/// A document whose version attribute is absent or other than "1" is
/// decoded as none of the four messages.
pub proof fn lemma_version_gate(d: DocumentView)
    requires
        attr_value(d.attributes, "version"@) != Some(version()),
    ensures
        decode_child_request(d) is None,
        decode_parent_response(d) is None,
        decode_publisher_request(d) is None,
        decode_repository_response(d) is None,
{
}

/// A repository response without `sia_base`, without a
/// `repository_bpki_ta` element, or with any element besides it does not
/// decode.
pub proof fn lemma_repository_response_needs_all(d: DocumentView)
    ensures
        attr_value(d.attributes, "sia_base"@) is None ==> decode_repository_response(d) is None,
        (forall|i: int| 0 <= i < d.elements.len() ==> d.elements[i].0 != "repository_bpki_ta"@)
            ==> decode_repository_response(d) is None,
        d.elements.len() > 1 ==> decode_repository_response(d) is None,
{
}

/// The document `d` with the elements `els` in place of its own.
pub open spec fn with_elements(d: DocumentView, els: Seq<(Seq<char>, Seq<u8>)>) -> DocumentView {
    DocumentView { elements: els, ..d }
}

/// The scan of a sequence with one more element, from the scan before it.
proof fn lemma_scan_push(s: Seq<(Seq<char>, Seq<u8>)>, e: (Seq<char>, Seq<u8>))
    ensures
        scan_parent_elements(s.push(e)) == match scan_parent_elements(s) {
            None => None,
            Some((k, c)) => if e.0 == "parent_bpki_ta"@ {
                Some((k + 1, e.1))
            } else if e.0 == "referral"@ || e.0 == "offer"@ {
                Some((k, c))
            } else {
                None
            },
        },
{
    assert(s.push(e).drop_last() =~= s);
}

/// The scan of three elements, one `parent_bpki_ta` holding `cert` and two
/// others among `referral` and `offer`, finds that certificate once.
proof fn lemma_scan_three(
    x: (Seq<char>, Seq<u8>),
    y: (Seq<char>, Seq<u8>),
    z: (Seq<char>, Seq<u8>),
    cert: Seq<u8>,
)
    requires
        ({
            let ta = |e: (Seq<char>, Seq<u8>)| e == ("parent_bpki_ta"@, cert);
            let other = |e: (Seq<char>, Seq<u8>)| e.0 == "referral"@ || e.0 == "offer"@;
            (ta(x) && other(y) && other(z)) || (other(x) && ta(y) && other(z)) || (other(x)
                && other(y) && ta(z))
        }),
        "referral"@ != "parent_bpki_ta"@,
        "offer"@ != "parent_bpki_ta"@,
    ensures
        scan_parent_elements(seq![x, y, z]) == Some((1nat, cert)),
{
    let e = Seq::<(Seq<char>, Seq<u8>)>::empty();
    lemma_scan_push(e, x);
    assert(e.push(x) =~= seq![x]);
    lemma_scan_push(seq![x], y);
    assert(seq![x].push(y) =~= seq![x, y]);
    lemma_scan_push(seq![x, y], z);
    assert(seq![x, y].push(z) =~= seq![x, y, z]);
}

/// A parent response decodes to the same value whichever of the six
/// orders its `offer`, `referral` and `parent_bpki_ta` elements come in:
/// the value it has with the certificate element alone.
pub proof fn lemma_parent_response_order(
    d: DocumentView,
    offer: Seq<u8>,
    referral: Seq<u8>,
    cert: Seq<u8>,
)
    ensures
        ({
            let o = ("offer"@, offer);
            let r = ("referral"@, referral);
            let t = ("parent_bpki_ta"@, cert);
            let alone = decode_parent_response(with_elements(d, seq![t]));
            &&& decode_parent_response(with_elements(d, seq![o, r, t])) == alone
            &&& decode_parent_response(with_elements(d, seq![o, t, r])) == alone
            &&& decode_parent_response(with_elements(d, seq![r, o, t])) == alone
            &&& decode_parent_response(with_elements(d, seq![r, t, o])) == alone
            &&& decode_parent_response(with_elements(d, seq![t, o, r])) == alone
            &&& decode_parent_response(with_elements(d, seq![t, r, o])) == alone
        }),
{
    reveal_strlit("offer");
    reveal_strlit("referral");
    reveal_strlit("parent_bpki_ta");
    assert("offer"@[0] != "parent_bpki_ta"@[0]);
    assert("referral"@[0] != "parent_bpki_ta"@[0]);
    let o = ("offer"@, offer);
    let r = ("referral"@, referral);
    let t = ("parent_bpki_ta"@, cert);
    let e = Seq::<(Seq<char>, Seq<u8>)>::empty();
    lemma_scan_push(e, t);
    assert(e.push(t) =~= seq![t]);
    lemma_scan_three(o, r, t, cert);
    lemma_scan_three(o, t, r, cert);
    lemma_scan_three(r, o, t, cert);
    lemma_scan_three(r, t, o, cert);
    lemma_scan_three(t, o, r, cert);
    lemma_scan_three(t, r, o, cert);
    assert(scan_parent_elements(seq![o, r, t]) == Some((1nat, cert)));
    assert(scan_parent_elements(seq![o, t, r]) == Some((1nat, cert)));
    assert(scan_parent_elements(seq![r, o, t]) == Some((1nat, cert)));
    assert(scan_parent_elements(seq![r, t, o]) == Some((1nat, cert)));
    assert(scan_parent_elements(seq![t, o, r]) == Some((1nat, cert)));
    assert(scan_parent_elements(seq![t, r, o]) == Some((1nat, cert)));
}

} // verus!
