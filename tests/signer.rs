use modsign::crypto::{cert_encoding, load_private_key, load_x509, sign_contents, CertEncoding};
use modsign::error::SignError;
use modsign::options::SignerOptions;
use modsign::signer::{plan_outputs, sign_module, Action, SigningStrategy};
use modsign::trailer::{build_signed_stream, split_signed_stream};
use openssl::asn1::Asn1Time;
use openssl::cms::CmsContentInfo;
use openssl::hash::MessageDigest;
use openssl::pkey::{PKey, Private};
use openssl::rsa::Rsa;
use openssl::x509::{X509NameBuilder, X509};

fn s(v: &str) -> Option<String> {
    Some(v.to_string())
}

fn test_identity() -> (PKey<Private>, X509) {
    let key = PKey::from_rsa(Rsa::generate(2048).unwrap()).unwrap();
    let mut name = X509NameBuilder::new().unwrap();
    name.append_entry_by_text("CN", "module signing key").unwrap();
    let name = name.build();
    let mut b = X509::builder().unwrap();
    b.set_version(2).unwrap();
    b.set_subject_name(&name).unwrap();
    b.set_issuer_name(&name).unwrap();
    b.set_pubkey(&key).unwrap();
    b.set_not_before(&Asn1Time::days_from_now(0).unwrap()).unwrap();
    b.set_not_after(&Asn1Time::days_from_now(30).unwrap()).unwrap();
    b.sign(&key, MessageDigest::sha256()).unwrap();
    (key, b.build())
}

fn signing_opts(save_sig: bool, sign_only: bool, dest: Option<String>) -> SignerOptions {
    SignerOptions::new(s("k.pem"), s("c.pem"), s("m.ko"), None, save_sig, sign_only, dest).unwrap()
}

fn raw_opts(dest: Option<String>) -> SignerOptions {
    SignerOptions::new(s("k.pem"), s("c.pem"), s("m.ko"), s("m.sig"), false, false, dest).unwrap()
}

#[test]
fn cert_encoding_by_leading_bytes() {
    assert_eq!(cert_encoding(&[0x30, 0x82, 0x01, 0x00]), CertEncoding::Der);
    assert_eq!(cert_encoding(&[0x30, 0x81]), CertEncoding::Der);
    assert_eq!(cert_encoding(&[0x30, 0x84]), CertEncoding::Der);
    assert_eq!(cert_encoding(&[0x30, 0x80]), CertEncoding::Pem);
    assert_eq!(cert_encoding(&[0x30, 0x85]), CertEncoding::Pem);
    assert_eq!(cert_encoding(b"-----BEGIN CERTIFICATE-----\n"), CertEncoding::Pem);
    assert_eq!(cert_encoding(&[0x30]), CertEncoding::Pem);
    assert_eq!(cert_encoding(&[]), CertEncoding::Pem);
}

#[test]
fn der_and_pem_certificates_decode_alike() {
    let (_, cert) = test_identity();
    let der = cert.to_der().unwrap();
    let pem = cert.to_pem().unwrap();
    assert_eq!(cert_encoding(&der), CertEncoding::Der);
    assert_eq!(cert_encoding(&pem), CertEncoding::Pem);
    let a = load_x509(&der).unwrap();
    let b = load_x509(&pem).unwrap();
    assert_eq!(a.to_der().unwrap(), b.to_der().unwrap());
    assert_eq!(a.to_der().unwrap(), der);
}

#[test]
fn bad_certificate_and_key_are_rejected() {
    assert!(matches!(load_x509(b"not a certificate"), Err(SignError::CertDecode)));
    assert!(matches!(load_x509(&[0x30, 0x82, 0x00]), Err(SignError::CertDecode)));
    assert!(matches!(load_private_key(b"not a key"), Err(SignError::KeyDecode)));
}

#[test]
fn signing_produces_detached_der_container() {
    let (key, cert) = test_identity();
    let pem = key.private_key_to_pem_pkcs8().unwrap();
    let key = load_private_key(&pem).unwrap();
    let contents = b"module contents".to_vec();
    let sig = sign_contents(&cert, &key, &contents).unwrap();
    assert_ne!(sig, contents);
    assert_eq!(sig[0], 0x30);
    assert!(CmsContentInfo::from_der(&sig).is_ok());
    assert!(!sig.windows(contents.len()).any(|w| w == &contents[..]));
}

#[test]
fn plan_replaces_module_by_default() {
    let o = signing_opts(false, false, None);
    let acts = plan_outputs(&o, vec![1, 2], vec![3]).unwrap();
    let stream = build_signed_stream(vec![1, 2], &[3]).unwrap();
    assert_eq!(
        acts,
        vec![
            Action::Write { path: "m.ko.~signed~".to_string(), data: stream },
            Action::Rename { from: "m.ko.~signed~".to_string(), to: "m.ko".to_string() },
        ]
    );
}

#[test]
fn plan_writes_destination_and_saves_signature() {
    let o = signing_opts(true, false, s("out.ko"));
    let acts = plan_outputs(&o, vec![1, 2], vec![3, 4]).unwrap();
    let stream = build_signed_stream(vec![1, 2], &[3, 4]).unwrap();
    assert_eq!(
        acts,
        vec![
            Action::Write { path: "m.ko.p7s".to_string(), data: vec![3, 4] },
            Action::Write { path: "out.ko".to_string(), data: stream },
        ]
    );
}

#[test]
fn plan_sign_only_writes_at_most_the_signature() {
    let o = signing_opts(false, true, None);
    assert_eq!(plan_outputs(&o, vec![1, 2], vec![3]).unwrap(), vec![]);
    let o = signing_opts(true, true, s("out.ko"));
    assert_eq!(
        plan_outputs(&o, vec![1, 2], vec![3]).unwrap(),
        vec![Action::Write { path: "m.ko.p7s".to_string(), data: vec![3] }]
    );
}

#[test]
fn raw_mode_ignores_save_and_sign_only() {
    let o = SignerOptions::new(s("k"), s("c"), s("m.ko"), s("m.sig"), true, true, None).unwrap();
    let acts = plan_outputs(&o, vec![1], vec![2]).unwrap();
    assert_eq!(acts.len(), 2);
}

#[test]
fn raw_mode_is_pass_through() {
    let (key, cert) = test_identity();
    let module = b"\x7fELF module body".to_vec();
    let strategy = SigningStrategy::Compute {
        key_pem: key.private_key_to_pem_pkcs8().unwrap(),
        cert: cert.to_der().unwrap(),
    };
    let signed = sign_module(&signing_opts(false, false, s("out.ko")), module.clone(), strategy)
        .unwrap();
    let stream = match &signed[0] {
        Action::Write { path, data } => {
            assert_eq!(path, "out.ko");
            data.clone()
        }
        other => panic!("unexpected step {:?}", other),
    };
    let (m, sig) = split_signed_stream(&stream).unwrap();
    assert_eq!(m, module);
    let raw = sign_module(&raw_opts(s("out.ko")), module.clone(), SigningStrategy::UseRaw(sig))
        .unwrap();
    assert_eq!(raw, signed);
}

#[test]
fn compute_strategy_reports_decode_errors() {
    let (key, cert) = test_identity();
    let bad_key = SigningStrategy::Compute { key_pem: b"junk".to_vec(), cert: cert.to_der().unwrap() };
    assert_eq!(
        sign_module(&signing_opts(false, false, None), vec![1], bad_key),
        Err(SignError::KeyDecode)
    );
    let bad_cert = SigningStrategy::Compute {
        key_pem: key.private_key_to_pem_pkcs8().unwrap(),
        cert: b"junk".to_vec(),
    };
    assert_eq!(
        sign_module(&signing_opts(false, false, None), vec![1], bad_cert),
        Err(SignError::CertDecode)
    );
}

#[test]
fn mismatched_key_and_certificate_fail_to_sign() {
    let (_, cert) = test_identity();
    let (other_key, _) = test_identity();
    assert!(matches!(sign_contents(&cert, &other_key, b"data"), Err(SignError::Sign)));
}

#[test]
fn malformed_der_looking_certificate_is_not_read_as_pem() {
    let bytes = [0x30u8, 0x82, 0x00, 0x01, 0xff];
    assert_eq!(cert_encoding(&bytes), CertEncoding::Der);
    assert!(matches!(load_x509(&bytes), Err(SignError::CertDecode)));
}

#[test]
fn oversized_key_is_rejected_before_decoding() {
    let (_, cert) = test_identity();
    let strategy = SigningStrategy::Compute {
        key_pem: vec![b'-'; 0x8000_0000],
        cert: cert.to_der().unwrap(),
    };
    assert_eq!(
        sign_module(&signing_opts(false, false, None), vec![1], strategy),
        Err(SignError::InputTooLarge)
    );
}
