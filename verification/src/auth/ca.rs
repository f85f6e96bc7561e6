//! A self-signed certificate authority for the service.

use vstd::prelude::*;
use super::client::{
    distinguished_name, entry, has_key_of, key_size, NameEntry, KEY_NOT_AS_ASKED, NAME_TOO_LONG,
};
use crate::crypto::{
    asn1_days_from_now, bignum_from_u32, bignum_new, bignum_rand, bignum_to_asn1_integer,
    crypto_error, digest_sha256, pkey_from_rsa, private_key_to_pem, rsa_generate_with_e,
    x509_build, x509_builder_new, x509_set_issuer_name, x509_set_not_after, x509_set_not_before,
    x509_set_pubkey, x509_set_serial_number, x509_set_subject_name, x509_set_version, x509_sign,
    x509_to_pem, CryptoError, NameField, TopBits,
};
use crate::crypto::{from_library, opens_with, CERTIFICATE_HEADER, PRIVATE_KEY_HEADER};

verus! {

/// The size of the authority's RSA key, in bits.
pub const CA_KEY_BITS: u32 = 4096;

/// The public exponent of the authority's RSA key.
pub const CA_PUBLIC_EXPONENT: u32 = 65537;

/// The version field of the authority's certificate: 2 stands for X.509 v3.
pub const CA_VERSION: i32 = 2;

/// The size of the random serial number, in bits.
pub const CA_SERIAL_BITS: i32 = 159;

/// How long the authority's certificate is valid, in days from its making.
pub const CA_VALIDITY_DAYS: u32 = 365;

/// The name of the file that holds the authority's private key.
pub const CA_KEY_FILE: &'static str = "ca_key.pem";

/// The name of the file that holds the authority's certificate.
pub const CA_CERTIFICATE_FILE: &'static str = "ca_cert.prm";

/// A certificate authority: its private key and its certificate, in PEM.
#[derive(Clone, Debug, PartialEq, Eq)]
pub struct CA {
    key: Vec<u8>,
    cert: Vec<u8>,
}

/// The mathematical content of a [`CA`].
pub struct CAView {
    pub key: Seq<u8>,
    pub cert: Seq<u8>,
}

impl View for CA {
    type V = CAView;

    closed spec fn view(&self) -> CAView {
        CAView { key: self.key@, cert: self.cert@ }
    }
}

impl CA {
    /// The authority with this private key and certificate.
    pub fn new(key: Vec<u8>, cert: Vec<u8>) -> (ca: CA)
        ensures
            ca@ == (CAView { key: key@, cert: cert@ }),
    {
        CA { key, cert }
    }

    /// The private key, in PEM.
    pub fn key(&self) -> (key: &Vec<u8>)
        ensures
            key@ == self@.key,
    {
        &self.key
    }

    /// The certificate, in PEM.
    pub fn cert(&self) -> (cert: &Vec<u8>)
        ensures
            cert@ == self@.cert,
    {
        &self.cert
    }
}

/// The distinguished name of the authority, which is both subject and issuer
/// of its certificate.
pub open spec fn authority_subject() -> Seq<(NameField, Seq<char>)> {
    seq![
        (NameField::Country, "US"@),
        (NameField::StateOrProvince, "California"@),
        (NameField::Locality, "Los Angeles"@),
        (NameField::Organization, "Stevedore"@),
        (NameField::CommonName, "Stevedore"@),
    ]
}

/// The distinguished name of the authority, entry by entry.
pub fn authority_name() -> (subject: Vec<NameEntry>)
    ensures
        subject.deep_view() == authority_subject(),
{
    let mut subject: Vec<NameEntry> = Vec::new();
    subject.push(entry(NameField::Country, "US"));
    subject.push(entry(NameField::StateOrProvince, "California"));
    subject.push(entry(NameField::Locality, "Los Angeles"));
    subject.push(entry(NameField::Organization, "Stevedore"));
    subject.push(entry(NameField::CommonName, "Stevedore"));
    assert(subject.deep_view() =~= authority_subject());
    subject
}

/// What [`generate_ca`] may return.
///
/// An authority that is returned holds its private key in PEM and its
/// certificate in PEM, each opening with the line of its kind, and the key
/// that is read back from that PEM has [`CA_KEY_BITS`] bits. A failure is
/// [`NAME_TOO_LONG`], [`KEY_NOT_AS_ASKED`] or one of the cryptographic
/// library.
pub open spec fn generated(made: Result<CAView, Seq<char>>) -> bool {
    match made {
        Ok(ca) => {
            &&& opens_with(ca.key, PRIVATE_KEY_HEADER)
            &&& opens_with(ca.cert, CERTIFICATE_HEADER)
            &&& key_size(ca.key) == Some(CA_KEY_BITS)
        },
        Err(e) => e == NAME_TOO_LONG@ || e == KEY_NOT_AS_ASKED@ || from_library(e),
    }
}

/// Generates a new certificate authority.
///
/// The key is a new RSA key of [`CA_KEY_BITS`] bits; it is read back from
/// its encoding to make sure. The certificate is self-signed: subject and
/// issuer are [`authority_subject`], the serial number is random, and it is
/// valid from now for [`CA_VALIDITY_DAYS`] days. What is returned is the
/// private key in PEM and the certificate in PEM. No more is promised of the
/// bytes, which the cryptographic library produces.
pub fn generate_ca() -> (r: Result<CA, CryptoError>)
    ensures
        generated(
            match r {
                Ok(ca) => Ok(ca@),
                Err(e) => Err(e@),
            },
        ),
{
    let exponent = match bignum_from_u32(CA_PUBLIC_EXPONENT) {
        Ok(exponent) => exponent,
        Err(e) => return Err(crypto_error(&e)),
    };
    let rsa = match rsa_generate_with_e(CA_KEY_BITS, &exponent) {
        Ok(rsa) => rsa,
        Err(e) => return Err(crypto_error(&e)),
    };
    let key = match pkey_from_rsa(rsa) {
        Ok(key) => key,
        Err(e) => return Err(crypto_error(&e)),
    };
    let name = match distinguished_name(&authority_name()) {
        Ok(name) => name,
        Err(e) => return Err(e),
    };
    let mut builder = match x509_builder_new() {
        Ok(builder) => builder,
        Err(e) => return Err(crypto_error(&e)),
    };
    match x509_set_version(&mut builder, CA_VERSION) {
        Ok(_) => {},
        Err(e) => return Err(crypto_error(&e)),
    }
    match x509_set_subject_name(&mut builder, &name) {
        Ok(_) => {},
        Err(e) => return Err(crypto_error(&e)),
    }
    match x509_set_issuer_name(&mut builder, &name) {
        Ok(_) => {},
        Err(e) => return Err(crypto_error(&e)),
    }
    match x509_set_pubkey(&mut builder, &key) {
        Ok(_) => {},
        Err(e) => return Err(crypto_error(&e)),
    }
    let mut number = match bignum_new() {
        Ok(number) => number,
        Err(e) => return Err(crypto_error(&e)),
    };
    match bignum_rand(&mut number, CA_SERIAL_BITS, TopBits::MaybeZero, false) {
        Ok(_) => {},
        Err(e) => return Err(crypto_error(&e)),
    }
    let serial = match bignum_to_asn1_integer(&number) {
        Ok(serial) => serial,
        Err(e) => return Err(crypto_error(&e)),
    };
    match x509_set_serial_number(&mut builder, &serial) {
        Ok(_) => {},
        Err(e) => return Err(crypto_error(&e)),
    }
    let not_before = match asn1_days_from_now(0) {
        Ok(time) => time,
        Err(e) => return Err(crypto_error(&e)),
    };
    let not_after = match asn1_days_from_now(CA_VALIDITY_DAYS) {
        Ok(time) => time,
        Err(e) => return Err(crypto_error(&e)),
    };
    match x509_set_not_before(&mut builder, &not_before) {
        Ok(_) => {},
        Err(e) => return Err(crypto_error(&e)),
    }
    match x509_set_not_after(&mut builder, &not_after) {
        Ok(_) => {},
        Err(e) => return Err(crypto_error(&e)),
    }
    match x509_sign(&mut builder, &key, digest_sha256()) {
        Ok(_) => {},
        Err(e) => return Err(crypto_error(&e)),
    }
    let certificate = x509_build(builder);
    let key = match private_key_to_pem(&key) {
        Ok(pem) => pem,
        Err(e) => return Err(crypto_error(&e)),
    };
    let cert = match x509_to_pem(&certificate) {
        Ok(pem) => pem,
        Err(e) => return Err(crypto_error(&e)),
    };
    if !has_key_of(&key, CA_KEY_BITS) {
        return Err(CryptoError { message: String::from_str(KEY_NOT_AS_ASKED) });
    }
    Ok(CA::new(key, cert))
}

} // verus!
