//! The TLS identity of the server: how it is obtained at start-up and
//! renewed when it expires.
//!
//! Two decisions are taken here. [`get_ca_certificate`] settles which root of
//! trust to use, given the cached one and the authority's answer.
//! [`get_certificate`] settles whether the cached identity can be used again
//! or a new one has to be signed. [`bootstrap`] strings them together.

pub mod bootstrap;
pub mod ca;
pub mod client;
pub mod expiry;
pub mod model;

use vstd::prelude::*;
use crate::crypto::CryptoError;
use client::{CertificateAuthorityClientError, CertificateAuthorityClientErrorView};
use expiry::{certificate_validity, checked_for, checked_of, readable, Validity};

verus! {

/// The name of the file that holds the cached root of trust.
pub const ROOT_FILE: &'static str = "ca_cert.pem";

/// The name of the file that holds the cached leaf certificate.
pub const CERTIFICATE_FILE: &'static str = "cert.pem";

/// The name of the file that holds the cached private key.
pub const KEY_FILE: &'static str = "key.pem";

/// A private key and the certificate that vouches for its public key, both
/// in PEM. The end of validity is read from the certificate whenever it is
/// needed, and stored nowhere else.
#[derive(Clone, Debug, PartialEq, Eq)]
pub struct Identity {
    pub certificate: Vec<u8>,
    pub private_key: Vec<u8>,
}

/// The mathematical content of an [`Identity`].
pub struct IdentityView {
    pub certificate: Seq<u8>,
    pub private_key: Seq<u8>,
}

impl View for Identity {
    type V = IdentityView;

    open spec fn view(&self) -> IdentityView {
        IdentityView { certificate: self.certificate@, private_key: self.private_key@ }
    }
}

/// The certificate of the authority against which peers are validated.
#[derive(Clone, Debug, PartialEq, Eq)]
pub struct RootOfTrust {
    pub certificate: Vec<u8>,
}

impl View for RootOfTrust {
    type V = Seq<u8>;

    open spec fn view(&self) -> Seq<u8> {
        self.certificate@
    }
}

/// Why the identity could not be established.
#[derive(Clone, Debug, PartialEq, Eq)]
pub enum BootstrapError {
    /// An exchange with the authority, or persisting its result, failed.
    Client(CertificateAuthorityClientError),
    /// The cryptographic library failed.
    Crypto(CryptoError),
    /// No root of trust is cached and none could be fetched, for the reason
    /// given if the fetch failed. Trust cannot be established.
    NoRootOfTrust(Option<CertificateAuthorityClientError>),
    /// An event arrived that does not answer the action asked for.
    UnexpectedEvent,
}

/// The mathematical content of a [`BootstrapError`].
pub enum BootstrapErrorView {
    Client(CertificateAuthorityClientErrorView),
    Crypto(Seq<char>),
    NoRootOfTrust(Option<CertificateAuthorityClientErrorView>),
    UnexpectedEvent,
}

impl View for BootstrapError {
    type V = BootstrapErrorView;

    open spec fn view(&self) -> BootstrapErrorView {
        match self {
            BootstrapError::Client(e) => BootstrapErrorView::Client(e@),
            BootstrapError::Crypto(e) => BootstrapErrorView::Crypto(e@),
            BootstrapError::NoRootOfTrust(cause) => BootstrapErrorView::NoRootOfTrust(
                match cause {
                    Some(e) => Some(e@),
                    None => None,
                },
            ),
            BootstrapError::UnexpectedEvent => BootstrapErrorView::UnexpectedEvent,
        }
    }
}

/// The root of trust to use, and whether it replaces the cached one and so
/// has to be persisted.
#[derive(Clone, Debug, PartialEq, Eq)]
pub struct RootChoice {
    pub root: RootOfTrust,
    pub replaced: bool,
}

/// The mathematical content of a [`RootChoice`].
pub struct RootChoiceView {
    pub root: Seq<u8>,
    pub replaced: bool,
}

impl View for RootChoice {
    type V = RootChoiceView;

    open spec fn view(&self) -> RootChoiceView {
        RootChoiceView { root: self.root@, replaced: self.replaced }
    }
}

/// What to do about the server's identity.
#[derive(Clone, Debug, PartialEq, Eq)]
pub enum IdentityChoice {
    /// Use the cached identity again.
    Reuse(Identity),
    /// Have a new identity signed.
    Renew,
}

/// The mathematical content of an [`IdentityChoice`].
pub enum IdentityChoiceView {
    Reuse(IdentityView),
    Renew,
}

impl View for IdentityChoice {
    type V = IdentityChoiceView;

    open spec fn view(&self) -> IdentityChoiceView {
        match self {
            IdentityChoice::Reuse(identity) => IdentityChoiceView::Reuse(identity@),
            IdentityChoice::Renew => IdentityChoiceView::Renew,
        }
    }
}

/// The content of bytes that may be absent.
pub open spec fn bytes_of(bytes: Option<Vec<u8>>) -> Option<Seq<u8>> {
    match bytes {
        Some(b) => Some(b@),
        None => None,
    }
}

/// The content of the authority's answer to a request for its root.
pub open spec fn fetched_of(
    fetched: Result<Option<Vec<u8>>, CertificateAuthorityClientError>,
) -> Result<Option<Seq<u8>>, CertificateAuthorityClientErrorView> {
    match fetched {
        Ok(root) => Ok(bytes_of(root)),
        Err(e) => Err(e@),
    }
}

/// Which root of trust to use.
///
/// A root sent by the authority replaces the cached one. If the authority
/// sends none, or cannot be asked, the cached root stays in use. Without a
/// cached root and without one from the authority there is no root of trust.
pub open spec fn root_choice(
    cached: Option<Seq<u8>>,
    fetched: Result<Option<Seq<u8>>, CertificateAuthorityClientErrorView>,
) -> Result<RootChoiceView, BootstrapErrorView> {
    match fetched {
        Ok(Some(root)) => Ok(RootChoiceView { root, replaced: true }),
        Ok(None) => match cached {
            Some(root) => Ok(RootChoiceView { root, replaced: false }),
            None => Err(BootstrapErrorView::NoRootOfTrust(None)),
        },
        Err(e) => match cached {
            Some(root) => Ok(RootChoiceView { root, replaced: false }),
            None => Err(BootstrapErrorView::NoRootOfTrust(Some(e))),
        },
    }
}

/// What to do about the identity.
///
/// A cached identity is one whose certificate and key are both present. It
/// is used again if its certificate is still valid. If the certificate has
/// lapsed, or no identity is cached, a new one is signed. A cached
/// certificate whose validity cannot be determined is an error.
pub open spec fn identity_choice(
    certificate: Option<Seq<u8>>,
    private_key: Option<Seq<u8>>,
    checked: Result<Validity, Seq<char>>,
) -> Result<IdentityChoiceView, BootstrapErrorView> {
    if certificate is Some && private_key is Some {
        match checked {
            Ok(Validity::Current) => Ok(
                IdentityChoiceView::Reuse(
                    IdentityView {
                        certificate: certificate->Some_0,
                        private_key: private_key->Some_0,
                    },
                ),
            ),
            Ok(Validity::Lapsed) => Ok(IdentityChoiceView::Renew),
            Err(e) => Err(BootstrapErrorView::Crypto(e)),
        }
    } else {
        Ok(IdentityChoiceView::Renew)
    }
}

/// Settles which root of trust to use, given the cached root and the
/// authority's answer to the request for its root.
pub fn get_ca_certificate(
    cached: Option<Vec<u8>>,
    fetched: Result<Option<Vec<u8>>, CertificateAuthorityClientError>,
) -> (r: Result<RootChoice, BootstrapError>)
    ensures
        match r {
            Ok(choice) => root_choice(bytes_of(cached), fetched_of(fetched)) == Ok::<
                RootChoiceView,
                BootstrapErrorView,
            >(choice@),
            Err(e) => root_choice(bytes_of(cached), fetched_of(fetched)) == Err::<
                RootChoiceView,
                BootstrapErrorView,
            >(e@),
        },
{
    match fetched {
        Ok(Some(certificate)) => Ok(
            RootChoice { root: RootOfTrust { certificate }, replaced: true },
        ),
        Ok(None) => match cached {
            Some(certificate) => Ok(
                RootChoice { root: RootOfTrust { certificate }, replaced: false },
            ),
            None => Err(BootstrapError::NoRootOfTrust(None)),
        },
        Err(e) => match cached {
            Some(certificate) => Ok(
                RootChoice { root: RootOfTrust { certificate }, replaced: false },
            ),
            None => Err(BootstrapError::NoRootOfTrust(Some(e))),
        },
    }
}

/// Settles what to do about the identity, given the cached certificate and
/// key and the outcome of the validity check of that certificate.
pub fn cached_identity(
    certificate: Option<Vec<u8>>,
    private_key: Option<Vec<u8>>,
    checked: Result<Validity, CryptoError>,
) -> (r: Result<IdentityChoice, BootstrapError>)
    ensures
        match r {
            Ok(choice) => identity_choice(
                bytes_of(certificate),
                bytes_of(private_key),
                checked_of(checked),
            ) == Ok::<IdentityChoiceView, BootstrapErrorView>(choice@),
            Err(e) => identity_choice(
                bytes_of(certificate),
                bytes_of(private_key),
                checked_of(checked),
            ) == Err::<IdentityChoiceView, BootstrapErrorView>(e@),
        },
{
    match (certificate, private_key) {
        (Some(certificate), Some(private_key)) => match checked {
            Ok(Validity::Current) => Ok(
                IdentityChoice::Reuse(Identity { certificate, private_key }),
            ),
            Ok(Validity::Lapsed) => Ok(IdentityChoice::Renew),
            Err(e) => Err(BootstrapError::Crypto(e)),
        },
        _ => Ok(IdentityChoice::Renew),
    }
}

/// The content of a settled identity.
pub open spec fn choice_of(r: Result<IdentityChoice, BootstrapError>) -> Result<
    IdentityChoiceView,
    BootstrapErrorView,
> {
    match r {
        Ok(choice) => Ok(choice@),
        Err(e) => Err(e@),
    }
}

/// Whether `verdict` is what examining the cached certificate and key gives
/// when the check of the certificate comes out as `checked`, and whether
/// that outcome is one the check may have for this certificate.
pub open spec fn examined(
    certificate: Option<Seq<u8>>,
    private_key: Option<Seq<u8>>,
    checked: Result<Validity, Seq<char>>,
    verdict: Result<IdentityChoiceView, BootstrapErrorView>,
) -> bool {
    &&& verdict == identity_choice(certificate, private_key, checked)
    &&& certificate is Some && private_key is Some ==> checked_for(certificate->Some_0, checked)
}

/// Settles what to do about the identity, given the cached certificate and
/// key. The validity of the certificate is checked against the clock, and
/// only if both are present.
///
/// Without a complete cached identity the answer is to renew. With one, the
/// certificate that is examined is the cached one, and the answer is what
/// [`cached_identity`] gives for an outcome that the check may have for it.
/// So a cached certificate that cannot be read is always an error, and is
/// never used again; one that can be read is used again with its key, or
/// renewed, as the clock decides.
pub fn get_certificate(certificate: Option<Vec<u8>>, private_key: Option<Vec<u8>>) -> (r: Result<
    IdentityChoice,
    BootstrapError,
>)
    ensures
        exists|checked: Result<Validity, Seq<char>>| #[trigger]
            examined(bytes_of(certificate), bytes_of(private_key), checked, choice_of(r)),
        certificate is None || private_key is None ==> r matches Ok(IdentityChoice::Renew),
        certificate is Some && private_key is Some && !readable(certificate->Some_0@)
            ==> r matches Err(BootstrapError::Crypto(_)),
        r matches Ok(IdentityChoice::Reuse(identity)) ==> Some(identity.certificate@) == bytes_of(
            certificate,
        ) && Some(identity.private_key@) == bytes_of(private_key) && readable(
            identity.certificate@,
        ),
{
    let checked = match (&certificate, &private_key) {
        (Some(pem), Some(_)) => certificate_validity(pem.as_slice()),
        _ => Ok(Validity::Lapsed),
    };
    let ghost witness = checked_of(checked);
    let r = cached_identity(certificate, private_key, checked);
    assert(examined(bytes_of(certificate), bytes_of(private_key), witness, choice_of(r)));
    r
}

} // verus!
