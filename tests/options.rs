use modsign::error::SignError;
use modsign::options::SignerOptions;

fn s(v: &str) -> Option<String> {
    Some(v.to_string())
}

#[test]
fn options_require_key_cert_module() {
    assert_eq!(
        SignerOptions::new(None, s("c"), s("m"), None, false, false, None),
        Err(SignError::MissingKey)
    );
    assert_eq!(
        SignerOptions::new(s("k"), None, s("m"), None, false, false, None),
        Err(SignError::MissingCert)
    );
    assert_eq!(
        SignerOptions::new(s("k"), s("c"), None, None, false, false, None),
        Err(SignError::MissingModule)
    );
}

#[test]
fn options_default_destination_replaces_module() {
    let o = SignerOptions::new(s("k.pem"), s("c.pem"), s("a.ko"), None, true, false, None).unwrap();
    assert_eq!(o.key_file, "k.pem");
    assert_eq!(o.x509_file, "c.pem");
    assert_eq!(o.module, "a.ko");
    assert!(!o.raw_sig);
    assert_eq!(o.raw_sigfile, "");
    assert!(o.save_sig);
    assert!(!o.sign_only);
    assert!(o.replace_orig);
    assert_eq!(o.dest, "a.ko.~signed~");
}

#[test]
fn options_explicit_destination_and_raw_signature() {
    let o = SignerOptions::new(s("k"), s("c"), s("a.ko"), s("a.sig"), false, true, s("out.ko"))
        .unwrap();
    assert!(o.raw_sig);
    assert_eq!(o.raw_sigfile, "a.sig");
    assert!(o.sign_only);
    assert!(!o.replace_orig);
    assert_eq!(o.dest, "out.ko");
}
