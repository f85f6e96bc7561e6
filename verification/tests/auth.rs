use std::cmp::Ordering;

use openssl::asn1::Asn1Time;
use openssl::hash::MessageDigest;
use openssl::pkey::{PKey, Private};
use openssl::rsa::Rsa;
use openssl::x509::X509;

use stevedore::auth::client::CertificateAuthorityClientError;
use stevedore::auth::expiry::{
    certificate_validity, Validity, CERTIFICATE_ENCRYPTED, CERTIFICATE_TOO_LARGE,
};
use stevedore::auth::{
    cached_identity, get_ca_certificate, get_certificate, BootstrapError, Identity,
    IdentityChoice, RootChoice, RootOfTrust, CERTIFICATE_FILE, KEY_FILE, ROOT_FILE,
};
use stevedore::crypto::CryptoError;

/// A certificate in PEM that is valid from `not_before` to `not_after`, both
/// in seconds since the epoch.
fn certificate(not_before: i64, not_after: i64) -> (Vec<u8>, PKey<Private>) {
    let key = PKey::from_rsa(Rsa::generate(2048).unwrap()).unwrap();
    let mut builder = X509::builder().unwrap();
    builder.set_version(2).unwrap();
    builder.set_pubkey(&key).unwrap();
    builder.set_not_before(&Asn1Time::from_unix(not_before).unwrap()).unwrap();
    builder.set_not_after(&Asn1Time::from_unix(not_after).unwrap()).unwrap();
    builder.sign(&key, MessageDigest::sha256()).unwrap();
    (builder.build().to_pem().unwrap(), key)
}

fn now() -> i64 {
    std::time::SystemTime::now()
        .duration_since(std::time::UNIX_EPOCH)
        .unwrap()
        .as_secs() as i64
}

fn transport() -> CertificateAuthorityClientError {
    CertificateAuthorityClientError::Transport(String::from("connection refused"))
}

#[test]
fn persisted_files_have_their_names() {
    assert_eq!(ROOT_FILE, "ca_cert.pem");
    assert_eq!(CERTIFICATE_FILE, "cert.pem");
    assert_eq!(KEY_FILE, "key.pem");
}

#[test]
fn new_root_replaces_the_cached_one() {
    let choice = get_ca_certificate(Some(vec![1, 2]), Ok(Some(vec![3, 4]))).unwrap();
    assert_eq!(
        choice,
        RootChoice { root: RootOfTrust { certificate: vec![3, 4] }, replaced: true }
    );
}

#[test]
fn new_root_is_used_without_a_cached_one() {
    let choice = get_ca_certificate(None, Ok(Some(vec![3, 4]))).unwrap();
    assert_eq!(
        choice,
        RootChoice { root: RootOfTrust { certificate: vec![3, 4] }, replaced: true }
    );
}

#[test]
fn empty_answer_keeps_the_cached_root() {
    let choice = get_ca_certificate(Some(vec![1, 2]), Ok(None)).unwrap();
    assert_eq!(
        choice,
        RootChoice { root: RootOfTrust { certificate: vec![1, 2] }, replaced: false }
    );
}

#[test]
fn failed_fetch_falls_back_to_the_cached_root() {
    let choice = get_ca_certificate(Some(vec![1, 2]), Err(transport())).unwrap();
    assert_eq!(
        choice,
        RootChoice { root: RootOfTrust { certificate: vec![1, 2] }, replaced: false }
    );
}

#[test]
fn no_root_at_all_is_fatal() {
    let e = get_ca_certificate(None, Ok(None)).unwrap_err();
    assert_eq!(e, BootstrapError::NoRootOfTrust(None));
}

#[test]
fn failed_fetch_without_cached_root_is_fatal_and_keeps_the_cause() {
    let e = get_ca_certificate(None, Err(transport())).unwrap_err();
    assert_eq!(e, BootstrapError::NoRootOfTrust(Some(transport())));
}

#[test]
fn validity_is_current_only_strictly_before_the_end() {
    assert_eq!(Validity::from_order(Ordering::Less), Validity::Current);
    assert_eq!(Validity::from_order(Ordering::Equal), Validity::Lapsed);
    assert_eq!(Validity::from_order(Ordering::Greater), Validity::Lapsed);
}

#[test]
fn current_identity_is_reused() {
    let choice = cached_identity(Some(vec![1]), Some(vec![2]), Ok(Validity::Current)).unwrap();
    assert_eq!(
        choice,
        IdentityChoice::Reuse(Identity { certificate: vec![1], private_key: vec![2] })
    );
}

#[test]
fn lapsed_identity_is_renewed() {
    let choice = cached_identity(Some(vec![1]), Some(vec![2]), Ok(Validity::Lapsed)).unwrap();
    assert_eq!(choice, IdentityChoice::Renew);
}

#[test]
fn incomplete_identity_is_renewed_whatever_the_check_says() {
    let failed = || Err(CryptoError { message: String::from("unused") });
    assert_eq!(cached_identity(None, None, Ok(Validity::Current)).unwrap(), IdentityChoice::Renew);
    assert_eq!(cached_identity(Some(vec![1]), None, failed()).unwrap(), IdentityChoice::Renew);
    assert_eq!(cached_identity(None, Some(vec![2]), failed()).unwrap(), IdentityChoice::Renew);
}

#[test]
fn unreadable_certificate_is_an_error() {
    let failure = CryptoError { message: String::from("bad pem") };
    let e = cached_identity(Some(vec![1]), Some(vec![2]), Err(failure.clone())).unwrap_err();
    assert_eq!(e, BootstrapError::Crypto(failure));
}

#[test]
fn certificate_ending_in_the_future_is_current() {
    let (pem, _) = certificate(now() - 3600, now() + 3600);
    assert_eq!(certificate_validity(&pem).unwrap(), Validity::Current);
}

#[test]
fn certificate_ended_in_the_past_is_lapsed() {
    let (pem, _) = certificate(now() - 7200, now() - 3600);
    assert_eq!(certificate_validity(&pem).unwrap(), Validity::Lapsed);
}

#[test]
fn certificate_that_does_not_parse_is_an_error() {
    assert!(certificate_validity(b"not a certificate").is_err());
    assert!(certificate_validity(b"").is_err());
}

#[test]
fn failure_carries_the_description_of_the_library() {
    let e = certificate_validity(b"not a certificate").unwrap_err();
    let refused = X509::from_pem(b"not a certificate").unwrap_err();
    assert_eq!(e.message, refused.to_string());
    assert!(!e.message.is_empty());
    assert_ne!(e.message, "not a certificate");
}

#[test]
fn certificate_marked_as_encrypted_is_refused() {
    assert_eq!(CERTIFICATE_ENCRYPTED, "certificate is encrypted");
    assert_eq!(CERTIFICATE_TOO_LARGE, "certificate is too large");
    let (pem, key) = certificate(now() - 3600, now() + 3600);
    let text = String::from_utf8(pem).unwrap();
    let marked = text.replacen(
        "-----BEGIN CERTIFICATE-----\n",
        "-----BEGIN CERTIFICATE-----\nProc-Type: 4,ENCRYPTED\nDEK-Info: AES-128-CBC,00\n\n",
        1,
    );
    assert_ne!(marked, text);
    let e = certificate_validity(marked.as_bytes()).unwrap_err();
    assert_eq!(e.message, "certificate is encrypted");
    let key = key.private_key_to_pem_pkcs8().unwrap();
    let e = get_certificate(Some(marked.into_bytes()), Some(key)).unwrap_err();
    assert_eq!(
        e,
        BootstrapError::Crypto(CryptoError { message: String::from("certificate is encrypted") })
    );
}

#[test]
fn get_certificate_never_reuses_what_it_cannot_read() {
    for bytes in [&b""[..], &b"not a certificate"[..], &b"Proc-Type: 4,ENCRYPTED"[..]] {
        let r = get_certificate(Some(bytes.to_vec()), Some(b"key".to_vec()));
        assert!(matches!(r, Err(BootstrapError::Crypto(_))));
    }
}

#[test]
fn a_key_is_not_read_as_a_certificate() {
    let (_, key) = certificate(now() - 3600, now() + 3600);
    let pem = key.private_key_to_pem_pkcs8().unwrap();
    assert!(certificate_validity(&pem).is_err());
}

#[test]
fn get_certificate_reuses_a_current_identity() {
    let (pem, key) = certificate(now() - 3600, now() + 3600);
    let key = key.private_key_to_pem_pkcs8().unwrap();
    let choice = get_certificate(Some(pem.clone()), Some(key.clone())).unwrap();
    assert_eq!(choice, IdentityChoice::Reuse(Identity { certificate: pem, private_key: key }));
}

#[test]
fn get_certificate_renews_a_lapsed_identity() {
    let (pem, key) = certificate(now() - 7200, now() - 1);
    let key = key.private_key_to_pem_pkcs8().unwrap();
    assert_eq!(get_certificate(Some(pem), Some(key)).unwrap(), IdentityChoice::Renew);
}

#[test]
fn get_certificate_renews_without_a_cached_identity() {
    assert_eq!(get_certificate(None, None).unwrap(), IdentityChoice::Renew);
    assert_eq!(get_certificate(None, Some(vec![1])).unwrap(), IdentityChoice::Renew);
}

#[test]
fn get_certificate_does_not_examine_a_certificate_without_key() {
    let choice = get_certificate(Some(b"not a certificate".to_vec()), None).unwrap();
    assert_eq!(choice, IdentityChoice::Renew);
}

#[test]
fn get_certificate_fails_on_a_certificate_that_does_not_parse() {
    let e = get_certificate(Some(b"not a certificate".to_vec()), Some(vec![1])).unwrap_err();
    assert!(matches!(e, BootstrapError::Crypto(_)));
}
