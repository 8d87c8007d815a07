use rpki_setup::signature::{Malformed, PublicKeyFormat, Signature, SignatureAlgorithm};

const SHA: [u8; 9] = [0x2a, 0x86, 0x48, 0x86, 0xf7, 0x0d, 0x01, 0x01, 0x0b];
const RSA: [u8; 9] = [0x2a, 0x86, 0x48, 0x86, 0xf7, 0x0d, 0x01, 0x01, 0x01];

fn alg_id(oid: &[u8], null: bool) -> Vec<u8> {
    let mut v = vec![0x30, if null { 13 } else { 11 }, 0x06, 9];
    v.extend_from_slice(oid);
    if null {
        v.extend_from_slice(&[0x05, 0x00]);
    }
    v
}

#[test]
fn x509_with_and_without_parameter_differ() {
    let (a, n) = SignatureAlgorithm::x509_take_from(&alg_id(&SHA, true)).unwrap();
    let (b, m) = SignatureAlgorithm::x509_take_from(&alg_id(&SHA, false)).unwrap();
    assert_eq!((n, m), (15, 13));
    assert!(a.has_parameter());
    assert!(!b.has_parameter());
    assert_ne!(a, b);
    let (a2, _) = SignatureAlgorithm::x509_take_from(&alg_id(&SHA, true)).unwrap();
    assert_eq!(a, a2);
    assert_eq!(a, SignatureAlgorithm::default());
}

#[test]
fn x509_rejects_rsa_encryption() {
    assert_eq!(SignatureAlgorithm::x509_take_from(&alg_id(&RSA, true)), Err(Malformed));
}

#[test]
fn cms_accepts_both_oids() {
    let (a, _) = SignatureAlgorithm::cms_take_from(&alg_id(&RSA, true)).unwrap();
    let (b, _) = SignatureAlgorithm::cms_take_from(&alg_id(&SHA, false)).unwrap();
    assert!(a.has_parameter());
    assert!(!b.has_parameter());
    assert_ne!(a, b);
}

#[test]
fn rejects_trailing_content() {
    let mut v = alg_id(&SHA, false);
    v.extend_from_slice(&[0x04, 0x00]);
    v[1] = 13;
    assert_eq!(SignatureAlgorithm::x509_take_from(&v), Err(Malformed));
    let mut w = alg_id(&SHA, true);
    w[14] = 0x01;
    assert_eq!(SignatureAlgorithm::cms_take_from(&w), Err(Malformed));
    assert_eq!(SignatureAlgorithm::cms_take_from(&[0x30]), Err(Malformed));
}

#[test]
fn take_leaves_following_bytes() {
    let mut v = alg_id(&SHA, true);
    v.extend_from_slice(&[0xff, 0xff]);
    let (_, n) = SignatureAlgorithm::x509_take_from(&v).unwrap();
    assert_eq!(n, 15);
}

#[test]
fn encoders_always_write_parameter() {
    let (b, _) = SignatureAlgorithm::x509_take_from(&alg_id(&SHA, false)).unwrap();
    assert_eq!(b.x509_encode(), alg_id(&SHA, true));
    assert_eq!(b.cms_encode(), alg_id(&RSA, true));
    assert_eq!(b.public_key_format(), PublicKeyFormat::Rsa);
}

#[test]
fn signature_parts() {
    let s = Signature::new(SignatureAlgorithm::default(), bytes::Bytes::from_static(b"sig"));
    assert_eq!(s.algorithm(), SignatureAlgorithm::default());
    assert_eq!(s.value().as_ref(), b"sig");
    let (a, v) = s.unwrap();
    assert!(a.has_parameter());
    assert_eq!(&v[..], b"sig");
}
