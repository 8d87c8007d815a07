//! Signature algorithm identifiers and signatures.
use vstd::prelude::*;

verus! {

/// The content octets of the object identifier rsaEncryption
/// (1.2.840.113549.1.1.1).
pub open spec fn rsa_encryption_oid() -> Seq<u8> {
    seq![0x2au8, 0x86u8, 0x48u8, 0x86u8, 0xf7u8, 0x0du8, 0x01u8, 0x01u8, 0x01u8]
}

/// The content octets of the object identifier sha256WithRSAEncryption
/// (1.2.840.113549.1.1.11).
pub open spec fn sha256_with_rsa_encryption_oid() -> Seq<u8> {
    seq![0x2au8, 0x86u8, 0x48u8, 0x86u8, 0xf7u8, 0x0du8, 0x01u8, 0x01u8, 0x0bu8]
}

/// The content of an AlgorithmIdentifier SEQUENCE: the OBJECT IDENTIFIER
/// `oid`, followed by a NULL parameter if `has_parameter` holds.
pub open spec fn algorithm_content(oid: Seq<u8>, has_parameter: bool) -> Seq<u8> {
    seq![0x06u8, oid.len() as u8] + oid + if has_parameter {
        seq![0x05u8, 0x00u8]
    } else {
        Seq::<u8>::empty()
    }
}

/// The DER encoding of an AlgorithmIdentifier SEQUENCE.
pub open spec fn algorithm_der(oid: Seq<u8>, has_parameter: bool) -> Seq<u8> {
    let c = algorithm_content(oid, has_parameter);
    seq![0x30u8, c.len() as u8] + c
}

/// The content and total length of a SEQUENCE with a short-form length at
/// the start of `data`, if there is one.
pub open spec fn sequence_at(data: Seq<u8>) -> Option<(Seq<u8>, nat)> {
    if data.len() >= 2 && data[0] == 0x30u8 && data[1] < 0x80u8 && data.len() >= 2 + data[1] {
        Some((data.subrange(2, 2 + data[1] as int), (2 + data[1]) as nat))
    } else {
        None
    }
}

/// Whether a NULL parameter is present in the content of an X.509
/// algorithm identifier, or `None` where the content is not one.
pub open spec fn x509_content(c: Seq<u8>) -> Option<bool> {
    if c == algorithm_content(sha256_with_rsa_encryption_oid(), true) {
        Some(true)
    } else if c == algorithm_content(sha256_with_rsa_encryption_oid(), false) {
        Some(false)
    } else {
        None
    }
}

/// Whether a NULL parameter is present in the content of a CMS algorithm
/// identifier, which may name either of the two RSA algorithms, or `None`
/// where the content is not one.
pub open spec fn cms_content(c: Seq<u8>) -> Option<bool> {
    if c == algorithm_content(rsa_encryption_oid(), true) || c == algorithm_content(
        sha256_with_rsa_encryption_oid(),
        true,
    ) {
        Some(true)
    } else if c == algorithm_content(rsa_encryption_oid(), false) || c == algorithm_content(
        sha256_with_rsa_encryption_oid(),
        false,
    ) {
        Some(false)
    } else {
        None
    }
}

/// What taking an X.509 algorithm identifier from the start of `data`
/// gives: the parameter flag and the number of bytes taken.
pub open spec fn x509_take(data: Seq<u8>) -> Option<(bool, nat)> {
    match sequence_at(data) {
        Some((c, n)) => match x509_content(c) {
            Some(p) => Some((p, n)),
            None => None,
        },
        None => None,
    }
}

/// What taking a CMS algorithm identifier from the start of `data` gives.
pub open spec fn cms_take(data: Seq<u8>) -> Option<(bool, nat)> {
    match sequence_at(data) {
        Some((c, n)) => match cms_content(c) {
            Some(p) => Some((p, n)),
            None => None,
        },
        None => None,
    }
}

/// The error for data that is not a correctly encoded algorithm identifier
/// of RPKI.
#[derive(Clone, Copy, Debug, Eq, PartialEq)]
pub struct Malformed;

/// The formats of public keys.
#[derive(Clone, Copy, Debug, Eq, PartialEq)]
pub enum PublicKeyFormat {
    Rsa,
}

/// The signature algorithm of RPKI, RSA PKCS #1 v1.5 with SHA-256.
///
/// The value remembers whether the identifier it was read from had a NULL
/// parameter: two values that differ in this are not equal, since their
/// encodings differ. Constructed values always have the parameter.
#[derive(Clone, Copy, Debug, Eq, Hash, PartialEq, Structural)]
pub struct SignatureAlgorithm {
    has_parameter: bool,
}

impl Default for SignatureAlgorithm {
    /// The algorithm preferred for RPKI, with the NULL parameter present.
    fn default() -> (r: SignatureAlgorithm)
        ensures
            r.has_param(),
    {
        SignatureAlgorithm { has_parameter: true }
    }
}

/// Two algorithm values are equal exactly when both or neither had the
/// NULL parameter.
pub proof fn lemma_eq_iff_same_parameter(a: SignatureAlgorithm, b: SignatureAlgorithm)
    ensures
        (a == b) <==> (a.has_param() == b.has_param()),
{
}

/// Whether `data` starts with `pat`.
fn starts_with(data: &[u8], pat: &[u8]) -> (r: bool)
    ensures
        r == (pat@.len() <= data@.len() && data@.subrange(0, pat@.len() as int) == pat@),
{
    if pat.len() > data.len() {
        return false;
    }
    let mut i: usize = 0;
    while i < pat.len()
        invariant
            pat@.len() <= data@.len(),
            i <= pat@.len(),
            forall|j: int| 0 <= j < i ==> data@[j] == pat@[j],
        decreases pat.len() - i,
    {
        if data[i] != pat[i] {
            assert(data@.subrange(0, pat@.len() as int)[i as int] != pat@[i as int]);
            return false;
        }
        i = i + 1;
    }
    assert(data@.subrange(0, pat@.len() as int) =~= pat@);
    true
}

/// The DER encoding of an algorithm identifier.
fn encode_algorithm(oid: &[u8], has_parameter: bool) -> (r: Vec<u8>)
    requires
        oid@.len() <= 100,
    ensures
        r@ == algorithm_der(oid@, has_parameter),
{
    let clen: u8 = if has_parameter {
        oid.len() as u8 + 4
    } else {
        oid.len() as u8 + 2
    };
    let mut r: Vec<u8> = vec![0x30u8, clen, 0x06u8, oid.len() as u8];
    let mut i: usize = 0;
    while i < oid.len()
        invariant
            i <= oid@.len(),
            r@ == seq![0x30u8, clen, 0x06u8, oid@.len() as u8] + oid@.subrange(0, i as int),
        decreases oid.len() - i,
    {
        r.push(oid[i]);
        assert(oid@.subrange(0, i + 1) == oid@.subrange(0, i as int).push(oid@[i as int]));
        i = i + 1;
    }
    assert(oid@.subrange(0, oid@.len() as int) =~= oid@);
    if has_parameter {
        r.push(0x05u8);
        r.push(0x00u8);
    }
    assert(r@ =~= algorithm_der(oid@, has_parameter));
    r
}

/// Whether `c` is exactly the content of an identifier for `oid`, and if
/// so whether it has the NULL parameter.
fn match_content(c: &[u8], oid: &[u8]) -> (r: Option<bool>)
    requires
        oid@.len() <= 100,
    ensures
        r == (if c@ == algorithm_content(oid@, true) {
            Some(true)
        } else if c@ == algorithm_content(oid@, false) {
            Some(false)
        } else {
            None::<bool>
        }),
{
    let with = encode_algorithm(oid, true);
    let without = encode_algorithm(oid, false);
    let ghost cw = algorithm_content(oid@, true);
    let ghost cwo = algorithm_content(oid@, false);
    assert(with@.subrange(2, with@.len() as int) =~= cw);
    assert(without@.subrange(2, without@.len() as int) =~= cwo);
    let w = with.as_slice().split_at(2).1;
    let wo = without.as_slice().split_at(2).1;
    if c.len() == w.len() && starts_with(c, w) {
        assert(c@ =~= c@.subrange(0, w@.len() as int));
        Some(true)
    } else if c.len() == wo.len() && starts_with(c, wo) {
        assert(c@ =~= c@.subrange(0, wo@.len() as int));
        assert(c@ != cw);
        Some(false)
    } else {
        proof {
            if c@ == cw {
                assert(c@.subrange(0, w@.len() as int) =~= c@);
            }
            if c@ == cwo {
                assert(c@.subrange(0, wo@.len() as int) =~= c@);
            }
        }
        None
    }
}

/// The content of the SEQUENCE at the start of `data`, with short-form
/// length, and the number of bytes it takes.
fn take_sequence(data: &[u8]) -> (r: Option<(&[u8], usize)>)
    ensures
        match sequence_at(data@) {
            Some((c, n)) => r matches Some((rc, rn)) && rc@ == c && rn == n,
            None => r is None,
        },
{
    if data.len() >= 2 && data[0] == 0x30u8 && data[1] < 0x80u8 && data.len() >= 2 + data[1]
        as usize {
        let n: usize = 2 + data[1] as usize;
        let (head, _) = data.split_at(n);
        let (_, content) = head.split_at(2);
        assert(content@ =~= data@.subrange(2, n as int));
        Some((content, n))
    } else {
        None
    }
}

fn rsa_encryption() -> (r: Vec<u8>)
    ensures
        r@ == rsa_encryption_oid(),
{
    let r: Vec<u8> = vec![0x2au8, 0x86u8, 0x48u8, 0x86u8, 0xf7u8, 0x0du8, 0x01u8, 0x01u8, 0x01u8];
    assert(r@ =~= rsa_encryption_oid());
    r
}

fn sha256_with_rsa_encryption() -> (r: Vec<u8>)
    ensures
        r@ == sha256_with_rsa_encryption_oid(),
{
    let r: Vec<u8> = vec![0x2au8, 0x86u8, 0x48u8, 0x86u8, 0xf7u8, 0x0du8, 0x01u8, 0x01u8, 0x0bu8];
    assert(r@ =~= sha256_with_rsa_encryption_oid());
    r
}

impl SignatureAlgorithm {
    /// Whether the identifier this value was read from had a NULL
    /// parameter.
    pub closed spec fn has_param(&self) -> bool {
        self.has_parameter
    }

    /// Whether the identifier this value was read from had a NULL
    /// parameter.
    pub fn has_parameter(&self) -> (r: bool)
        ensures
            r == self.has_param(),
    {
        self.has_parameter
    }

    /// The preferred public key format for this algorithm.
    pub fn public_key_format(self) -> (r: PublicKeyFormat)
        ensures
            r == PublicKeyFormat::Rsa,
    {
        PublicKeyFormat::Rsa
    }

    /// Takes an algorithm identifier of X.509 objects from the start of
    /// `data`: a SEQUENCE of the OID sha256WithRSAEncryption and an
    /// optional NULL. Returns the value and the number of bytes taken.
    pub fn x509_take_from(data: &[u8]) -> (r: Result<(SignatureAlgorithm, usize), Malformed>)
        ensures
            match x509_take(data@) {
                Some((p, n)) => r matches Ok((a, rn)) && a.has_param() == p && rn == n,
                None => r is Err,
            },
    {
        match take_sequence(data) {
            Some((content, n)) => match Self::x509_from_constructed(content) {
                Ok(a) => Ok((a, n)),
                Err(e) => Err(e),
            },
            None => Err(Malformed),
        }
    }

    /// Reads the content of an X.509 algorithm identifier.
    fn x509_from_constructed(content: &[u8]) -> (r: Result<SignatureAlgorithm, Malformed>)
        ensures
            match x509_content(content@) {
                Some(p) => r matches Ok(a) && a.has_param() == p,
                None => r is Err,
            },
    {
        let oid = sha256_with_rsa_encryption();
        match match_content(content, oid.as_slice()) {
            Some(p) => Ok(SignatureAlgorithm { has_parameter: p }),
            None => Err(Malformed),
        }
    }

    /// Takes an algorithm identifier of signed objects from the start of
    /// `data`: a SEQUENCE of the OID rsaEncryption or
    /// sha256WithRSAEncryption and an optional NULL. Returns the value and
    /// the number of bytes taken.
    pub fn cms_take_from(data: &[u8]) -> (r: Result<(SignatureAlgorithm, usize), Malformed>)
        ensures
            match cms_take(data@) {
                Some((p, n)) => r matches Ok((a, rn)) && a.has_param() == p && rn == n,
                None => r is Err,
            },
    {
        match take_sequence(data) {
            Some((content, n)) => match Self::cms_from_constructed(content) {
                Ok(a) => Ok((a, n)),
                Err(e) => Err(e),
            },
            None => Err(Malformed),
        }
    }

    /// Reads the content of a CMS algorithm identifier.
    fn cms_from_constructed(content: &[u8]) -> (r: Result<SignatureAlgorithm, Malformed>)
        ensures
            match cms_content(content@) {
                Some(p) => r matches Ok(a) && a.has_param() == p,
                None => r is Err,
            },
    {
        let rsa = rsa_encryption();
        let sha = sha256_with_rsa_encryption();
        match match_content(content, rsa.as_slice()) {
            Some(p) => Ok(SignatureAlgorithm { has_parameter: p }),
            None => match match_content(content, sha.as_slice()) {
                Some(p) => Ok(SignatureAlgorithm { has_parameter: p }),
                None => Err(Malformed),
            },
        }
    }

    /// The DER encoding for X.509 objects: sha256WithRSAEncryption with a
    /// NULL parameter, whatever the value recorded.
    pub fn x509_encode(self) -> (r: Vec<u8>)
        ensures
            r@ == algorithm_der(sha256_with_rsa_encryption_oid(), true),
    {
        let oid = sha256_with_rsa_encryption();
        encode_algorithm(oid.as_slice(), true)
    }

    /// The DER encoding for signed objects: rsaEncryption with a NULL
    /// parameter, whatever the value recorded.
    pub fn cms_encode(self) -> (r: Vec<u8>)
        ensures
            r@ == algorithm_der(rsa_encryption_oid(), true),
    {
        let oid = rsa_encryption();
        encode_algorithm(oid.as_slice(), true)
    }
}

/// Relies on `bytes::Bytes` only as an opaque value: the signature value
/// is carried, never read.
#[verifier::external_type_specification]
#[verifier::external_body]
pub struct ExBytes(bytes::Bytes);

/// Relies on `bytes::Bytes::clone` to return a handle on the same bytes;
/// nothing is claimed of the result.
pub assume_specification[ <bytes::Bytes as Clone>::clone ](b: &bytes::Bytes) -> bytes::Bytes;

/// A signature: the algorithm and the signature value, which is not checked
/// here.
#[derive(Clone, Debug, Eq, PartialEq)]
pub struct Signature {
    algorithm: SignatureAlgorithm,
    value: bytes::Bytes,
}

impl Signature {
    /// The algorithm of the signature.
    pub closed spec fn spec_algorithm(&self) -> SignatureAlgorithm {
        self.algorithm
    }

    /// The signature value.
    pub closed spec fn spec_value(&self) -> bytes::Bytes {
        self.value
    }

    pub fn new(algorithm: SignatureAlgorithm, value: bytes::Bytes) -> (r: Signature)
        ensures
            r.spec_algorithm() == algorithm,
            r.spec_value() == value,
    {
        Signature { algorithm, value }
    }

    pub fn algorithm(&self) -> (r: SignatureAlgorithm)
        ensures
            r == self.spec_algorithm(),
    {
        self.algorithm
    }

    pub fn value(&self) -> (r: &bytes::Bytes)
        ensures
            *r == self.spec_value(),
    {
        &self.value
    }

    /// Takes the signature apart into its algorithm and value.
    pub fn unwrap(self) -> (r: (SignatureAlgorithm, bytes::Bytes))
        ensures
            r.0 == self.spec_algorithm(),
            r.1 == self.spec_value(),
    {
        (self.algorithm, self.value)
    }
}

/// Reading back what either encoder writes gives a value with the
/// parameter, and takes the whole encoding.
pub proof fn lemma_encode_then_take()
    ensures
        x509_take(algorithm_der(sha256_with_rsa_encryption_oid(), true)) == Some((true, 15nat)),
        cms_take(algorithm_der(rsa_encryption_oid(), true)) == Some((true, 15nat)),
{
    let e = algorithm_der(sha256_with_rsa_encryption_oid(), true);
    assert(e.subrange(2, 15) =~= algorithm_content(sha256_with_rsa_encryption_oid(), true));
    let f = algorithm_der(rsa_encryption_oid(), true);
    assert(f.subrange(2, 15) =~= algorithm_content(rsa_encryption_oid(), true));
}

/// Two identifiers that differ only in the presence of the NULL parameter
/// are read as two different values, in either context; reading one of
/// them again gives the same value.
pub proof fn lemma_parameter_distinguishes(oid: Seq<u8>)
    requires
        oid == sha256_with_rsa_encryption_oid() || oid == rsa_encryption_oid(),
    ensures
        cms_take(algorithm_der(oid, true)) == Some((true, 15nat)),
        cms_take(algorithm_der(oid, false)) == Some((false, 13nat)),
        oid == sha256_with_rsa_encryption_oid() ==> x509_take(algorithm_der(oid, true)) == Some(
            (true, 15nat),
        ) && x509_take(algorithm_der(oid, false)) == Some((false, 13nat)),
        oid == rsa_encryption_oid() ==> x509_take(algorithm_der(oid, true)) is None && x509_take(
            algorithm_der(oid, false),
        ) is None,
{
    let w = algorithm_der(oid, true);
    let wo = algorithm_der(oid, false);
    assert(w.subrange(2, 15) =~= algorithm_content(oid, true));
    assert(wo.subrange(2, 13) =~= algorithm_content(oid, false));
    let r = rsa_encryption_oid();
    let s = sha256_with_rsa_encryption_oid();
    assert(algorithm_content(r, true)[10] != algorithm_content(s, true)[10]);
    assert(algorithm_content(r, false)[10] != algorithm_content(s, false)[10]);
    assert(algorithm_content(r, true) != algorithm_content(s, false));
    assert(algorithm_content(s, true) != algorithm_content(r, false));
    assert(algorithm_content(s, true) != algorithm_content(s, false));
    assert(algorithm_content(r, true) != algorithm_content(r, false));
}

} // verus!
