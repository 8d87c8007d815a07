//! URIs of the rsync and HTTPS schemes, and the service URI of a parent or a
//! repository.
use vstd::prelude::*;
use vstd::string::StrSliceExecFns;
use vstd::string::StringExecFns;
use crate::error::IdExchangeError;

verus! {

/// Whether `c` may stand in a URI: a printable ASCII character other than
/// space.
pub open spec fn is_uri_char(c: char) -> bool {
    '!' <= c && c <= '~'
}

/// Whether `c` equals the lower-case ASCII character `p`, ignoring ASCII
/// case.
pub open spec fn char_eq_ignore_case(c: char, p: char) -> bool {
    c == p || ('a' <= p && p <= 'z' && (c as u32) + 32 == (p as u32))
}

/// Whether `s` starts with the lower-case ASCII text `prefix`, ignoring
/// ASCII case.
pub open spec fn has_prefix_ignore_case(s: Seq<char>, prefix: Seq<char>) -> bool {
    prefix.len() <= s.len() && forall|i: int|
        0 <= i < prefix.len() ==> char_eq_ignore_case(#[trigger] s[i], prefix[i])
}

/// A URI of the scheme `scheme` (given as `scheme://`, in lower case):
/// the scheme, matched ignoring case, then at least one more character,
/// all of them printable ASCII characters other than space.
pub open spec fn valid_uri(scheme: Seq<char>, s: Seq<char>) -> bool {
    has_prefix_ignore_case(s, scheme) && s.len() > scheme.len() && forall|i: int|
        0 <= i < s.len() ==> is_uri_char(#[trigger] s[i])
}

pub open spec fn https_scheme() -> Seq<char> {
    "https://"@
}

pub open spec fn rsync_scheme() -> Seq<char> {
    "rsync://"@
}

pub open spec fn http_scheme() -> Seq<char> {
    "http://"@
}

/// Whether `s` is accepted as a service URI: one that starts with
/// `http://` in any case, or a valid HTTPS URI.
pub open spec fn valid_service_uri(s: Seq<char>) -> bool {
    has_prefix_ignore_case(s, http_scheme()) || valid_uri(https_scheme(), s)
}

/// Whether `c` equals the lower-case ASCII character `p`, ignoring case.
fn char_matches(c: char, p: char) -> (r: bool)
    ensures
        r == char_eq_ignore_case(c, p),
{
    c == p || ('a' <= p && p <= 'z' && (c as u32) + 32 == (p as u32))
}

/// Whether `s` starts with `prefix`, ignoring ASCII case.
fn starts_with_ignore_case(s: &str, prefix: &str) -> (r: bool)
    ensures
        r == has_prefix_ignore_case(s@, prefix@),
{
    let n = s.unicode_len();
    let m = prefix.unicode_len();
    if m > n {
        return false;
    }
    let mut i: usize = 0;
    while i < m
        invariant
            n == s@.len(),
            m == prefix@.len(),
            m <= n,
            i <= m,
            forall|j: int| 0 <= j < i ==> char_eq_ignore_case(#[trigger] s@[j], prefix@[j]),
        decreases m - i,
    {
        if !char_matches(s.get_char(i), prefix.get_char(i)) {
            return false;
        }
        i = i + 1;
    }
    true
}

/// Checks that `s` is a URI of the scheme `scheme`.
fn check_uri(scheme: &str, s: &str) -> (r: bool)
    ensures
        r == valid_uri(scheme@, s@),
{
    if !starts_with_ignore_case(s, scheme) {
        return false;
    }
    let n = s.unicode_len();
    if n <= scheme.unicode_len() {
        return false;
    }
    let mut i: usize = 0;
    while i < n
        invariant
            n == s@.len(),
            i <= n,
            forall|j: int| 0 <= j < i ==> is_uri_char(#[trigger] s@[j]),
        decreases n - i,
    {
        let c = s.get_char(i);
        if !('!' <= c && c <= '~') {
            return false;
        }
        i = i + 1;
    }
    true
}

/// An HTTPS URI.
#[derive(Debug, Eq, Hash, PartialEq)]
pub struct Https {
    uri: String,
}

impl View for Https {
    type V = Seq<char>;

    closed spec fn view(&self) -> Seq<char> {
        self.uri@
    }
}

impl Https {
    #[verifier::type_invariant]
    spec fn inv(&self) -> bool {
        valid_uri(https_scheme(), self.uri@)
    }

    /// Parses an HTTPS URI: succeeds exactly on valid ones, kept as they
    /// are.
    pub fn from_str(s: &str) -> (r: Result<Https, IdExchangeError>)
        ensures
            r is Ok <==> valid_uri(https_scheme(), s@),
            r matches Ok(u) ==> u@ == s@,
            r matches Err(e) ==> e is InvalidUri,
    {
        if check_uri("https://", s) {
            Ok(Https { uri: s.to_owned() })
        } else {
            Err(IdExchangeError::InvalidUri)
        }
    }

    pub fn as_str(&self) -> (r: &str)
        ensures
            r@ == self@,
    {
        self.uri.as_str()
    }

    /// Makes the invariant of the value known at a call site.
    pub fn check_wf(&self)
        ensures
            valid_uri(https_scheme(), self@),
    {
        proof {
            use_type_invariant(self);
        }
    }

    /// A copy of the URI.
    pub fn duplicate(&self) -> (r: Https)
        ensures
            r@ == self@,
    {
        proof {
            use_type_invariant(self);
        }
        Https { uri: self.uri.as_str().to_owned() }
    }
}

impl Clone for Https {
    fn clone(&self) -> (r: Https)
        ensures
            r@ == self@,
    {
        self.duplicate()
    }
}

/// An rsync URI.
#[derive(Debug, Eq, Hash, PartialEq)]
pub struct Rsync {
    uri: String,
}

impl View for Rsync {
    type V = Seq<char>;

    closed spec fn view(&self) -> Seq<char> {
        self.uri@
    }
}

impl Rsync {
    #[verifier::type_invariant]
    spec fn inv(&self) -> bool {
        valid_uri(rsync_scheme(), self.uri@)
    }

    /// Parses an rsync URI: succeeds exactly on valid ones, kept as they
    /// are.
    pub fn from_str(s: &str) -> (r: Result<Rsync, IdExchangeError>)
        ensures
            r is Ok <==> valid_uri(rsync_scheme(), s@),
            r matches Ok(u) ==> u@ == s@,
            r matches Err(e) ==> e is InvalidUri,
    {
        if check_uri("rsync://", s) {
            Ok(Rsync { uri: s.to_owned() })
        } else {
            Err(IdExchangeError::InvalidUri)
        }
    }

    pub fn as_str(&self) -> (r: &str)
        ensures
            r@ == self@,
    {
        self.uri.as_str()
    }

    /// Makes the invariant of the value known at a call site.
    pub fn check_wf(&self)
        ensures
            valid_uri(rsync_scheme(), self@),
    {
        proof {
            use_type_invariant(self);
        }
    }

    /// A copy of the URI.
    pub fn duplicate(&self) -> (r: Rsync)
        ensures
            r@ == self@,
    {
        proof {
            use_type_invariant(self);
        }
        Rsync { uri: self.uri.as_str().to_owned() }
    }
}

impl Clone for Rsync {
    fn clone(&self) -> (r: Rsync)
        ensures
            r@ == self@,
    {
        self.duplicate()
    }
}

/// The URI where a child or a publisher sends its messages: an HTTPS URI,
/// or a plain HTTP one that is kept as it was given.
#[derive(Debug, Eq, PartialEq)]
pub enum ServiceUri {
    Https(Https),
    Http(String),
}

impl View for ServiceUri {
    type V = Seq<char>;

    open spec fn view(&self) -> Seq<char> {
        match self {
            ServiceUri::Https(h) => h@,
            ServiceUri::Http(s) => s@,
        }
    }
}

impl ServiceUri {
    /// Parses a service URI. One that starts with `http://`, in any case,
    /// is taken as it is; any other must be a valid HTTPS URI.
    pub fn from_str(value: &str) -> (r: Result<ServiceUri, IdExchangeError>)
        ensures
            r is Ok <==> valid_service_uri(value@),
            r matches Ok(u) ==> u@ == value@ && u.wf() && (u is Http <==> has_prefix_ignore_case(
                value@,
                http_scheme(),
            )),
            r matches Err(e) ==> e is InvalidUri,
    {
        if starts_with_ignore_case(value, "http://") {
            Ok(ServiceUri::Http(value.to_owned()))
        } else {
            match Https::from_str(value) {
                Ok(h) => Ok(ServiceUri::Https(h)),
                Err(e) => Err(e),
            }
        }
    }

    /// Makes an owned string into a service URI.
    pub fn try_from_string(value: String) -> (r: Result<ServiceUri, IdExchangeError>)
        ensures
            r is Ok <==> valid_service_uri(value@),
            r matches Ok(u) ==> u@ == value@ && u.wf() && (u is Http <==> has_prefix_ignore_case(
                value@,
                http_scheme(),
            )),
            r matches Err(e) ==> e is InvalidUri,
    {
        Self::from_str(value.as_str())
    }

    pub fn as_str(&self) -> (r: &str)
        ensures
            r@ == self@,
    {
        match self {
            ServiceUri::Http(http) => http.as_str(),
            ServiceUri::Https(https) => https.as_str(),
        }
    }

    /// The URI as a string.
    pub fn to_string(&self) -> (r: String)
        ensures
            r@ == self@,
    {
        self.as_str().to_owned()
    }

    /// Whether the value is what parsing its own text gives: true of every
    /// value made by `from_str`.
    pub open spec fn wf(&self) -> bool {
        match self {
            ServiceUri::Https(h) => valid_uri(https_scheme(), h@) && !has_prefix_ignore_case(
                h@,
                http_scheme(),
            ),
            ServiceUri::Http(s) => has_prefix_ignore_case(s@, http_scheme()),
        }
    }

    /// Whether the value is what parsing its own text gives.
    pub fn is_wf(&self) -> (r: bool)
        ensures
            r == self.wf(),
            r ==> valid_service_uri(self@),
    {
        match self {
            ServiceUri::Https(h) => {
                h.check_wf();
                proof {
                    lemma_https_is_not_http(h@);
                }
                true
            },
            ServiceUri::Http(s) => starts_with_ignore_case(s.as_str(), "http://"),
        }
    }

    /// A copy of the URI.
    pub fn duplicate(&self) -> (r: ServiceUri)
        ensures
            r@ == self@,
            r is Http <==> self is Http,
    {
        match self {
            ServiceUri::Http(http) => ServiceUri::Http(http.as_str().to_owned()),
            ServiceUri::Https(https) => ServiceUri::Https(https.duplicate()),
        }
    }
}

impl Clone for ServiceUri {
    fn clone(&self) -> (r: ServiceUri)
        ensures
            r@ == self@,
    {
        self.duplicate()
    }
}

/// Two service URIs that are what parsing their text gives, and have the
/// same text, are of the same variant.
pub proof fn lemma_variant_from_text(a: ServiceUri, b: ServiceUri)
    requires
        a.wf(),
        b.wf(),
        a@ == b@,
    ensures
        a is Http <==> b is Http,
{
}

/// No HTTPS URI starts with `http://`.
pub proof fn lemma_https_is_not_http(s: Seq<char>)
    requires
        valid_uri(https_scheme(), s),
    ensures
        !has_prefix_ignore_case(s, http_scheme()),
{
    reveal_strlit("https://");
    reveal_strlit("http://");
    assert(char_eq_ignore_case(s[4], 's'));
    assert(!char_eq_ignore_case(s[4], ':'));
}

} // verus!
