use bcder::encode::{PrimitiveContent, Values};
use bcder::{decode, Mode, Oid, Tag};
use rpki_setup::signature::SignatureAlgorithm;

const SHA: [u8; 9] = [0x2a, 0x86, 0x48, 0x86, 0xf7, 0x0d, 0x01, 0x01, 0x0b];
const RSA: [u8; 9] = [0x2a, 0x86, 0x48, 0x86, 0xf7, 0x0d, 0x01, 0x01, 0x01];

fn bcder_alg_id(oid: &'static [u8]) -> Vec<u8> {
    bcder::encode::sequence((Oid(oid).encode(), ().encode()))
        .to_captured(Mode::Der)
        .as_slice()
        .to_vec()
}

fn bcder_read(data: &[u8]) -> (Vec<u8>, bool) {
    decode::Constructed::decode(data, Mode::Der, |cons| {
        cons.take_sequence(|cons| {
            let oid: Oid = Oid::take_from(cons)?;
            let p = cons.take_opt_primitive_if(Tag::NULL, |_| Ok(()))?.is_some();
            Ok((oid.as_ref().to_vec(), p))
        })
    })
    .unwrap()
}

#[test]
fn encoders_agree_with_bcder() {
    let a = SignatureAlgorithm::default();
    assert_eq!(a.x509_encode(), bcder_alg_id(&SHA));
    assert_eq!(a.cms_encode(), bcder_alg_id(&RSA));
}

#[test]
fn decoders_agree_with_bcder() {
    let with = bcder_alg_id(&SHA);
    let mut without = vec![0x30, 11, 0x06, 9];
    without.extend_from_slice(&SHA);
    for data in [with, without] {
        let (oid, p) = bcder_read(&data);
        assert_eq!(oid, SHA.to_vec());
        let (a, n) = SignatureAlgorithm::x509_take_from(&data).unwrap();
        assert_eq!(a.has_parameter(), p);
        assert_eq!(n, data.len());
        let (b, _) = SignatureAlgorithm::cms_take_from(&data).unwrap();
        assert_eq!(a, b);
    }
}
