//! Whether a certificate is still valid at the present moment.

use std::cmp::Ordering;
use vstd::prelude::*;
use vstd::string::StringSliceAdditionalSpecFns;
use crate::bytes::contains;
use crate::crypto::{
    asn1_days_from_now, asn1_time_compare, asks_for_pass_phrase, crypto_error, from_library,
    reads_as_certificate, x509_from_pem, x509_not_after, CryptoError, ENCRYPTION_MARK, MAX_BUFFER,
};

verus! {

/// Whether a certificate may still be used.
#[derive(Clone, Copy, Debug, PartialEq, Eq, Structural)]
pub enum Validity {
    /// The end of the validity lies strictly in the future.
    Current,
    /// The end of the validity has been reached or passed.
    Lapsed,
}

/// The validity of a certificate, given how the present moment stands to the
/// end of its validity: current only while the present is strictly earlier.
/// No grace period is applied.
pub open spec fn validity_of(now_to_not_after: Ordering) -> Validity {
    match now_to_not_after {
        Ordering::Less => Validity::Current,
        Ordering::Equal => Validity::Lapsed,
        Ordering::Greater => Validity::Lapsed,
    }
}

impl Validity {
    /// The validity of a certificate, given how the present moment stands to
    /// the end of its validity.
    pub fn from_order(now_to_not_after: Ordering) -> (validity: Validity)
        ensures
            validity == validity_of(now_to_not_after),
    {
        match now_to_not_after {
            Ordering::Less => Validity::Current,
            Ordering::Equal => Validity::Lapsed,
            Ordering::Greater => Validity::Lapsed,
        }
    }
}

/// The text of the failure to examine a certificate that is too large.
pub const CERTIFICATE_TOO_LARGE: &'static str = "certificate is too large";

/// The text of the failure to examine a certificate that is encrypted.
pub const CERTIFICATE_ENCRYPTED: &'static str = "certificate is encrypted";

/// Why a certificate is refused before the cryptographic library sees it,
/// if it is: because it is too large for that library, or because it is
/// marked as encrypted, which a certificate never is.
pub open spec fn refusal(certificate: Seq<u8>) -> Option<Seq<char>> {
    if certificate.len() > MAX_BUFFER {
        Some(CERTIFICATE_TOO_LARGE@)
    } else if asks_for_pass_phrase(certificate) {
        Some(CERTIFICATE_ENCRYPTED@)
    } else {
        None
    }
}

/// Whether the cryptographic library can read `certificate` as one: it is
/// not refused beforehand, and the library reads it.
pub open spec fn readable(certificate: Seq<u8>) -> bool {
    refusal(certificate) is None && reads_as_certificate(certificate)
}

/// What the check of `certificate` against the clock may give.
///
/// A certificate that is refused beforehand gives the failure that says
/// why. One that the library does not read gives a failure of the library.
/// A validity is given only for a certificate that was read; which one
/// depends on the clock.
pub open spec fn checked_for(certificate: Seq<u8>, checked: Result<Validity, Seq<char>>) -> bool {
    match refusal(certificate) {
        Some(reason) => checked == Err::<Validity, Seq<char>>(reason),
        None => match checked {
            Ok(_) => reads_as_certificate(certificate),
            Err(e) => from_library(e),
        },
    }
}

/// The content of the outcome of a check.
pub open spec fn checked_of(checked: Result<Validity, CryptoError>) -> Result<
    Validity,
    Seq<char>,
> {
    match checked {
        Ok(validity) => Ok(validity),
        Err(e) => Err(e@),
    }
}

/// Compares the present moment with the end of validity of a PEM-encoded
/// certificate.
///
/// Which validity is returned depends on the clock. Whatever the clock
/// says, the outcome is one that [`checked_for`] admits: bytes too many for
/// the cryptographic library and bytes marked as encrypted are refused with
/// a failure of their own, bytes that the library does not read as a
/// certificate give its failure, and a validity is returned only for a
/// certificate that was read.
pub fn certificate_validity(certificate: &[u8]) -> (r: Result<Validity, CryptoError>)
    ensures
        checked_for(certificate@, checked_of(r)),
{
    if certificate.len() > MAX_BUFFER {
        return Err(CryptoError { message: String::from_str(CERTIFICATE_TOO_LARGE) });
    }
    if contains(certificate, ENCRYPTION_MARK.as_bytes()) {
        return Err(CryptoError { message: String::from_str(CERTIFICATE_ENCRYPTED) });
    }
    let now = match asn1_days_from_now(0) {
        Ok(now) => now,
        Err(e) => return Err(crypto_error(&e)),
    };
    let parsed = match x509_from_pem(certificate) {
        Ok(parsed) => parsed,
        Err(e) => return Err(crypto_error(&e)),
    };
    match asn1_time_compare(&now, x509_not_after(&parsed)) {
        Ok(order) => Ok(Validity::from_order(order)),
        Err(e) => Err(crypto_error(&e)),
    }
}

} // verus!
