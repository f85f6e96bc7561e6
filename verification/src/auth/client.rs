//! The client side of the exchange with the certificate authority: the
//! failures it distinguishes, and the signing request it submits.

use vstd::prelude::*;
use vstd::string::StringSliceAdditionalSpecFns;
use vstd::utf8::encode_utf8;
use crate::crypto::{
    bignum_to_owned, crypto_error, digest_sha256, pkey_from_rsa, private_key_to_pem, rsa_exponent,
    rsa_from_public_components, rsa_generate, rsa_modulus, x509_name_append, x509_name_build,
    x509_name_builder_new, x509_req_build, x509_req_builder_new, x509_req_set_pubkey,
    x509_req_set_subject_name, x509_req_set_version, x509_req_sign, x509_req_to_pem, CryptoError,
    NameField, MAX_BUFFER,
};
use crate::crypto::{
    builder_entries, encoded_size, from_library, key_bits_of, name_entries, name_fits, opens_with,
    private_key_bits, ENTRY_OVERHEAD, MAX_NAME_SIZE, PRIVATE_KEY_HEADER, REQUEST_HEADER,
};
use openssl::x509::X509Name;

verus! {

/// Why an exchange with the certificate authority failed.
#[derive(Clone, Debug, PartialEq, Eq)]
pub enum CertificateAuthorityClientError {
    /// The authority could not be reached.
    Transport(String),
    /// The authority declined the request.
    Request(String),
    /// Persisted material could not be read or written.
    FileSystem(String),
}

/// The mathematical content of a [`CertificateAuthorityClientError`].
pub enum CertificateAuthorityClientErrorView {
    Transport(Seq<char>),
    Request(Seq<char>),
    FileSystem(Seq<char>),
}

impl View for CertificateAuthorityClientError {
    type V = CertificateAuthorityClientErrorView;

    open spec fn view(&self) -> CertificateAuthorityClientErrorView {
        match self {
            CertificateAuthorityClientError::Transport(message) => {
                CertificateAuthorityClientErrorView::Transport(message@)
            },
            CertificateAuthorityClientError::Request(message) => {
                CertificateAuthorityClientErrorView::Request(message@)
            },
            CertificateAuthorityClientError::FileSystem(message) => {
                CertificateAuthorityClientErrorView::FileSystem(message@)
            },
        }
    }
}

/// The least size of an RSA key that the service accepts for itself, in bits.
pub const MIN_KEY_BITS: u32 = 4096;

/// The size of the RSA key that is generated for each signing request, in bits.
pub const KEY_BITS: u32 = 4096;

/// The version field of a signing request.
pub const REQUEST_VERSION: i32 = 2;

/// One attribute of a distinguished name.
#[derive(Clone, Debug, PartialEq, Eq)]
pub struct NameEntry {
    pub field: NameField,
    pub value: String,
}

impl View for NameEntry {
    type V = (NameField, Seq<char>);

    open spec fn view(&self) -> (NameField, Seq<char>) {
        (self.field, self.value@)
    }
}

/// What is asked of the authority: a certificate for a new key of
/// `key_bits` bits, issued to `subject`.
#[derive(Clone, Debug, PartialEq, Eq)]
pub struct SigningRequest {
    pub subject: Vec<NameEntry>,
    pub key_bits: u32,
    pub version: i32,
}

/// The mathematical content of a [`SigningRequest`].
pub struct SigningRequestView {
    pub subject: Seq<(NameField, Seq<char>)>,
    pub key_bits: u32,
    pub version: i32,
}

impl View for SigningRequest {
    type V = SigningRequestView;

    open spec fn view(&self) -> SigningRequestView {
        SigningRequestView {
            subject: self.subject.deep_view(),
            key_bits: self.key_bits,
            version: self.version,
        }
    }
}

impl DeepView for NameEntry {
    type V = (NameField, Seq<char>);

    open spec fn deep_view(&self) -> (NameField, Seq<char>) {
        self@
    }
}

/// The distinguished name under which the service asks for its certificate.
pub open spec fn service_subject() -> Seq<(NameField, Seq<char>)> {
    seq![
        (NameField::Country, "US"@),
        (NameField::StateOrProvince, "California"@),
        (NameField::Locality, "Los Angeles"@),
        (NameField::Org, "Stevedore"@),
        (NameField::CommonName, "Stevedore"@),
    ]
}

/// The request that the service makes for itself.
pub open spec fn service_request() -> SigningRequestView {
    SigningRequestView {
        subject: service_subject(),
        key_bits: KEY_BITS,
        version: REQUEST_VERSION,
    }
}

/// A new private key and the signing request made with it, both in PEM.
#[derive(Clone, Debug, PartialEq, Eq)]
pub struct SigningMaterial {
    pub csr: Vec<u8>,
    pub private_key: Vec<u8>,
}

/// The mathematical content of a [`SigningMaterial`].
pub struct SigningMaterialView {
    pub csr: Seq<u8>,
    pub private_key: Seq<u8>,
}

impl View for SigningMaterial {
    type V = SigningMaterialView;

    open spec fn view(&self) -> SigningMaterialView {
        SigningMaterialView { csr: self.csr@, private_key: self.private_key@ }
    }
}

pub(crate) fn entry(field: NameField, value: &str) -> (e: NameEntry)
    ensures
        e@ == (field, value@),
{
    NameEntry { field, value: String::from_str(value) }
}

/// The request that the service makes for itself: a key of at least
/// [`MIN_KEY_BITS`] bits, and a subject that names the service.
pub fn signing_request() -> (request: SigningRequest)
    ensures
        request@ == service_request(),
        request.key_bits >= MIN_KEY_BITS,
{
    let mut subject: Vec<NameEntry> = Vec::new();
    subject.push(entry(NameField::Country, "US"));
    subject.push(entry(NameField::StateOrProvince, "California"));
    subject.push(entry(NameField::Locality, "Los Angeles"));
    subject.push(entry(NameField::Org, "Stevedore"));
    subject.push(entry(NameField::CommonName, "Stevedore"));
    assert(subject.deep_view() =~= service_subject());
    SigningRequest { subject, key_bits: KEY_BITS, version: REQUEST_VERSION }
}

/// The text of the failure to build a name that is too long.
pub const NAME_TOO_LONG: &'static str = "name is too long";

/// The text of the failure to make a request for a key that is too small.
pub const KEY_TOO_SMALL: &'static str = "key is too small";

/// The text of the failure of a generated key to have the size asked for.
pub const KEY_NOT_AS_ASKED: &'static str = "key does not have the size asked for";

/// The size in bits of the private key held in `pem` without encryption;
/// nothing if `pem` holds no such key.
pub open spec fn key_size(pem: Seq<u8>) -> Option<u32> {
    key_bits_of(pem, Seq::empty())
}

/// The bound on a name of one entry more is the bound on the name so far,
/// the bytes of the text of the new entry, and the overhead of an entry.
proof fn lemma_size_of_one_more(entries: Seq<(NameField, Seq<char>)>, i: int)
    requires
        0 <= i < entries.len(),
    ensures
        encoded_size(entries.take(i + 1)) == encoded_size(entries.take(i)) + encode_utf8(
            entries[i].1,
        ).len() + ENTRY_OVERHEAD,
        encoded_size(entries.take(i)) >= 0,
    decreases i,
{
    assert(entries.take(i + 1).drop_last() =~= entries.take(i));
    if i > 0 {
        lemma_size_of_one_more(entries, i - 1);
    }
}

/// The bound on a part of a name is at most the bound on the whole.
proof fn lemma_size_grows(entries: Seq<(NameField, Seq<char>)>, i: int)
    requires
        0 <= i <= entries.len(),
    ensures
        encoded_size(entries.take(i)) <= encoded_size(entries),
    decreases entries.len() - i,
{
    if i == entries.len() {
        assert(entries.take(i) =~= entries);
    } else {
        lemma_size_of_one_more(entries, i);
        lemma_size_grows(entries, i + 1);
    }
}

/// What [`distinguished_name`] may return for `subject`: a name only if the
/// subject fits, and then one with exactly its entries; the failure
/// [`NAME_TOO_LONG`] if the subject does not fit; and otherwise only a
/// failure of the cryptographic library.
pub open spec fn named(
    subject: Seq<(NameField, Seq<char>)>,
    entries: Result<Seq<(NameField, Seq<char>)>, Seq<char>>,
) -> bool {
    if !name_fits(subject) {
        entries == Err::<Seq<(NameField, Seq<char>)>, Seq<char>>(NAME_TOO_LONG@)
    } else {
        match entries {
            Ok(held) => held == subject,
            Err(e) => from_library(e),
        }
    }
}

/// Builds the distinguished name with the entries of `subject`, in order.
///
/// A name that is returned holds exactly the entries of `subject`, field by
/// field and text by text, in the same order. A subject whose encoding may
/// exceed [`MAX_NAME_SIZE`] bytes is refused with [`NAME_TOO_LONG`], before
/// anything is built. Any other failure is one of the cryptographic library.
pub(crate) fn distinguished_name(subject: &Vec<NameEntry>) -> (r: Result<X509Name, CryptoError>)
    ensures
        named(
            subject.deep_view(),
            match r {
                Ok(name) => Ok(name_entries(name)),
                Err(e) => Err(e@),
            },
        ),
{
    let ghost entries = subject.deep_view();
    let mut total: usize = 0;
    let mut i: usize = 0;
    proof {
        assert(entries.take(0) =~= Seq::<(NameField, Seq<char>)>::empty());
    }
    while i < subject.len()
        invariant
            i <= subject.len(),
            entries == subject.deep_view(),
            total == encoded_size(entries.take(i as int)),
            total <= MAX_NAME_SIZE,
            forall|j: int|
                0 <= j < i ==> encode_utf8((#[trigger] subject[j]).value@).len() <= MAX_NAME_SIZE,
        decreases subject.len() - i,
    {
        let size = subject[i].value.as_str().as_bytes().len();
        proof {
            lemma_size_of_one_more(entries, i as int);
            lemma_size_grows(entries, i + 1);
        }
        if size > MAX_NAME_SIZE || total + size + ENTRY_OVERHEAD > MAX_NAME_SIZE {
            return Err(CryptoError { message: String::from_str(NAME_TOO_LONG) });
        }
        total = total + size + ENTRY_OVERHEAD;
        i += 1;
    }
    assert(entries.take(i as int) =~= entries);
    let mut builder = match x509_name_builder_new() {
        Ok(builder) => builder,
        Err(e) => return Err(crypto_error(&e)),
    };
    assert(builder_entries(builder) =~= entries.take(0));
    let mut k: usize = 0;
    while k < subject.len()
        invariant
            k <= subject.len(),
            entries == subject.deep_view(),
            name_fits(entries),
            forall|j: int|
                0 <= j < subject.len() ==> encode_utf8((#[trigger] subject[j]).value@).len()
                    <= MAX_NAME_SIZE,
            builder_entries(builder) == entries.take(k as int),
        decreases subject.len() - k,
    {
        match x509_name_append(&mut builder, subject[k].field, subject[k].value.as_str()) {
            Ok(_) => {},
            Err(e) => return Err(crypto_error(&e)),
        }
        assert(entries.take(k + 1) =~= entries.take(k as int).push(
            (subject[k as int].field, subject[k as int].value@),
        ));
        k += 1;
    }
    assert(entries.take(k as int) =~= entries);
    Ok(x509_name_build(builder))
}

/// What [`sign`] may return for `request`.
///
/// A request for a key of less than [`MIN_KEY_BITS`] bits is refused with
/// [`KEY_TOO_SMALL`], and one whose subject does not fit with
/// [`NAME_TOO_LONG`]. Material that is returned is a signing request and a
/// private key in PEM, each opening with the line of its kind, and the key
/// that is read back from that PEM has the size asked for. Any other failure
/// is [`KEY_NOT_AS_ASKED`] or one of the cryptographic library.
pub open spec fn signed_for(
    request: SigningRequestView,
    created: Result<SigningMaterialView, Seq<char>>,
) -> bool {
    if request.key_bits < MIN_KEY_BITS {
        created == Err::<SigningMaterialView, Seq<char>>(KEY_TOO_SMALL@)
    } else if !name_fits(request.subject) {
        created == Err::<SigningMaterialView, Seq<char>>(NAME_TOO_LONG@)
    } else {
        match created {
            Ok(material) => {
                &&& opens_with(material.csr, REQUEST_HEADER)
                &&& opens_with(material.private_key, PRIVATE_KEY_HEADER)
                &&& key_size(material.private_key) == Some(request.key_bits)
            },
            Err(e) => e == KEY_NOT_AS_ASKED@ || from_library(e),
        }
    }
}

/// The content of what [`sign`] returned.
pub open spec fn created_of(created: Result<SigningMaterial, CryptoError>) -> Result<
    SigningMaterialView,
    Seq<char>,
> {
    match created {
        Ok(material) => Ok(material@),
        Err(e) => Err(e@),
    }
}

/// Generates a new key pair and the signing request that `request` describes.
///
/// Every call generates a key of its own; no key is used twice. The key has
/// the size that the request asks for, which must be at least
/// [`MIN_KEY_BITS`] bits: the key is read back from its encoding to make
/// sure. The request is made for the name that `distinguished_name` builds
/// from the subject, and signed with the new key. What is returned is the
/// request in PEM and the private key in PEM. No more is promised of the
/// bytes, which the cryptographic library produces.
pub fn sign(request: &SigningRequest) -> (r: Result<SigningMaterial, CryptoError>)
    ensures
        signed_for(request@, created_of(r)),
{
    if request.key_bits < MIN_KEY_BITS {
        return Err(CryptoError { message: String::from_str(KEY_TOO_SMALL) });
    }
    let name = match distinguished_name(&request.subject) {
        Ok(name) => name,
        Err(e) => return Err(e),
    };
    let rsa = match rsa_generate(request.key_bits) {
        Ok(rsa) => rsa,
        Err(e) => return Err(crypto_error(&e)),
    };
    let n = match bignum_to_owned(rsa_modulus(&rsa)) {
        Ok(n) => n,
        Err(e) => return Err(crypto_error(&e)),
    };
    let e = match bignum_to_owned(rsa_exponent(&rsa)) {
        Ok(e) => e,
        Err(e) => return Err(crypto_error(&e)),
    };
    let public_rsa = match rsa_from_public_components(n, e) {
        Ok(key) => key,
        Err(e) => return Err(crypto_error(&e)),
    };
    let public_key = match pkey_from_rsa(public_rsa) {
        Ok(key) => key,
        Err(e) => return Err(crypto_error(&e)),
    };
    let private_key = match pkey_from_rsa(rsa) {
        Ok(key) => key,
        Err(e) => return Err(crypto_error(&e)),
    };
    let mut builder = match x509_req_builder_new() {
        Ok(builder) => builder,
        Err(e) => return Err(crypto_error(&e)),
    };
    match x509_req_set_subject_name(&mut builder, &name) {
        Ok(_) => {},
        Err(e) => return Err(crypto_error(&e)),
    }
    match x509_req_set_version(&mut builder, request.version) {
        Ok(_) => {},
        Err(e) => return Err(crypto_error(&e)),
    }
    match x509_req_set_pubkey(&mut builder, &public_key) {
        Ok(_) => {},
        Err(e) => return Err(crypto_error(&e)),
    }
    match x509_req_sign(&mut builder, &private_key, digest_sha256()) {
        Ok(_) => {},
        Err(e) => return Err(crypto_error(&e)),
    }
    let csr = match x509_req_to_pem(&x509_req_build(builder)) {
        Ok(pem) => pem,
        Err(e) => return Err(crypto_error(&e)),
    };
    let private_key = match private_key_to_pem(&private_key) {
        Ok(pem) => pem,
        Err(e) => return Err(crypto_error(&e)),
    };
    if !has_key_of(&private_key, request.key_bits) {
        return Err(CryptoError { message: String::from_str(KEY_NOT_AS_ASKED) });
    }
    Ok(SigningMaterial { csr, private_key })
}

/// Whether `pem` is small enough for the cryptographic library and holds,
/// without encryption, a private key of `bits` bits.
pub fn has_key_of(pem: &Vec<u8>, bits: u32) -> (has: bool)
    ensures
        has == (pem@.len() <= MAX_BUFFER && key_size(pem@) == Some(bits)),
{
    if pem.len() > MAX_BUFFER {
        return false;
    }
    let none: [u8; 0] = [];
    assert(none@ =~= Seq::<u8>::empty());
    match private_key_bits(pem.as_slice(), none.as_slice()) {
        Some(found) => found == bits,
        None => false,
    }
}

} // verus!
