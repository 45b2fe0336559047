//! Credential material: a trust anchor, a certificate chain and a private
//! key are accepted only together, for one device and at one time.

use crate::display;
use crate::identity::{DeviceIdentity, IdentityView};
use crate::text;
use rustls::pki_types::{CertificateDer, PrivateKeyDer, UnixTime};
use rustls::server::danger::ClientCertVerifier;
use std::sync::Arc;
use vstd::prelude::*;
use x509_parser::prelude::FromDer;

verus! {

#[derive(Clone, Copy, Debug, PartialEq, Eq, Structural)]
pub enum CredentialError {
    Unavailable,
    Malformed,
    Untrusted,
    InsecurePrivateKey,
    IdentityMismatch,
}

impl CredentialError {
    /// The text that describes the failure.
    pub open spec fn message(self) -> Seq<char> {
        match self {
            CredentialError::Unavailable => "credential material is unavailable"@,
            CredentialError::Malformed => "credential material is malformed"@,
            CredentialError::Untrusted => "credential chain is untrusted or expired"@,
            CredentialError::InsecurePrivateKey =>
                "credential private key permissions are not owner-only"@,
            CredentialError::IdentityMismatch =>
                "credential identity does not match the authenticated device scope"@,
        }
    }

    pub fn text(self) -> (r: &'static str)
        ensures
            r@ == self.message(),
    {
        match self {
            CredentialError::Unavailable => "credential material is unavailable",
            CredentialError::Malformed => "credential material is malformed",
            CredentialError::Untrusted => "credential chain is untrusted or expired",
            CredentialError::InsecurePrivateKey =>
                "credential private key permissions are not owner-only",
            CredentialError::IdentityMismatch =>
                "credential identity does not match the authenticated device scope",
        }
    }
}

impl core::fmt::Display for CredentialError {
    fn fmt(&self, formatter: &mut core::fmt::Formatter<'_>) -> (r: Result<(), core::fmt::Error>)
        ensures
            r is Ok ==> display::wrote(*old(formatter), *final(formatter), self.message()),
    {
        formatter.write_str(self.text())
    }
}

impl std::error::Error for CredentialError {

}

/// How a private key is encoded.
#[derive(Clone, Copy, Debug, PartialEq, Eq, Structural)]
pub enum KeyFormat {
    Pkcs1,
    Sec1,
    Pkcs8,
}

/// What the check of a client chain against its anchors came to.
#[derive(Clone, Copy, Debug, PartialEq, Eq, Structural)]
pub enum ChainCheck {
    /// No verifier can be built from the anchors.
    NoVerifier,
    Rejected,
    Accepted,
}

/// The bytes of each encoded certificate.
pub open spec fn ders(certificates: Seq<Vec<u8>>) -> Seq<Seq<u8>> {
    certificates.map_values(|der: Vec<u8>| der@)
}

/// The texts of the names that have one.
pub open spec fn names_view(names: Seq<Option<String>>) -> Seq<Option<Seq<char>>> {
    names.map_values(
        |name: Option<String>| match name {
            Some(name) => Some(name@),
            None => None,
        },
    )
}

/// The certificates of a PEM text, in order; nothing if a section cannot be read.
pub uninterp spec fn pem_certificates(pem: Seq<u8>) -> Option<Seq<Seq<u8>>>;

/// `rustls_pemfile::certs` yields the DER bytes of every certificate section,
/// or an error for a section that cannot be read.
#[verifier::external_body]
fn read_certificates(pem: &[u8]) -> (r: Option<Vec<Vec<u8>>>)
    ensures
        match pem_certificates(pem@) {
            Some(certificates) => r is Some && ders(r->0@) == certificates,
            None => r is None,
        },
{
    let mut reader = std::io::Cursor::new(pem);
    let certificates: Vec<CertificateDer<'static>> = rustls_pemfile::certs(&mut reader).collect::<
        Result<Vec<CertificateDer<'static>>, std::io::Error>,
    >().ok()?;
    Some(certificates.iter().map(|certificate| certificate.as_ref().to_vec()).collect())
}

/// The first private key of a PEM text.
pub uninterp spec fn pem_private_key(pem: Seq<u8>) -> Option<(KeyFormat, Seq<u8>)>;

/// `rustls_pemfile::private_key` returns the first private key section with
/// its encoding; a section that cannot be read and a text without one both
/// give nothing here.
#[verifier::external_body]
fn read_private_key(pem: &[u8]) -> (r: Option<(KeyFormat, Vec<u8>)>)
    ensures
        match pem_private_key(pem@) {
            Some((format, der)) => r matches Some((f, d)) && f == format && d@ == der,
            None => r is None,
        },
{
    let mut reader = std::io::Cursor::new(pem);
    match rustls_pemfile::private_key(&mut reader) {
        Ok(Some(PrivateKeyDer::Pkcs1(key))) => Some(
            (KeyFormat::Pkcs1, key.secret_pkcs1_der().to_vec()),
        ),
        Ok(Some(PrivateKeyDer::Sec1(key))) => Some(
            (KeyFormat::Sec1, key.secret_sec1_der().to_vec()),
        ),
        Ok(Some(PrivateKeyDer::Pkcs8(key))) => Some(
            (KeyFormat::Pkcs8, key.secret_pkcs8_der().to_vec()),
        ),
        _ => None,
    }
}

/// The private key is the one that the first certificate of the chain certifies.
pub uninterp spec fn key_certified(chain: Seq<Seq<u8>>, format: KeyFormat, key: Seq<u8>) -> bool;

/// `rustls::sign::CertifiedKey::from_der` loads the key beside the chain, and
/// `CertifiedKey::keys_match` compares it with the first certificate.
#[verifier::external_body]
fn key_matches(chain: &Vec<Vec<u8>>, format: KeyFormat, key: &Vec<u8>) -> (r: bool)
    ensures
        r == key_certified(ders(chain@), format, key@),
{
    let provider = rustls::crypto::aws_lc_rs::default_provider();
    let chain = chain.iter().map(|der| CertificateDer::from(der.clone())).collect();
    let key = match format {
        KeyFormat::Pkcs1 => PrivateKeyDer::Pkcs1(key.clone().into()),
        KeyFormat::Sec1 => PrivateKeyDer::Sec1(key.clone().into()),
        KeyFormat::Pkcs8 => PrivateKeyDer::Pkcs8(key.clone().into()),
    };
    rustls::sign::CertifiedKey::from_der(chain, key, &provider).and_then(
        |certified| certified.keys_match(),
    ).is_ok()
}

/// How many of the certificates can serve as trust anchors.
pub uninterp spec fn anchor_count(roots: Seq<Seq<u8>>) -> nat;

/// `rustls::RootCertStore::add_parsable_certificates` adds what it can parse
/// and returns how many certificates that was.
#[verifier::external_body]
fn usable_anchors(roots: &Vec<Vec<u8>>) -> (r: usize)
    ensures
        r == anchor_count(ders(roots@)),
{
    let mut store = rustls::RootCertStore::empty();
    let certificates = roots.iter().map(|der| CertificateDer::from(der.as_slice()));
    store.add_parsable_certificates(certificates).0
}

/// What the check of a client chain at a time comes to.
pub uninterp spec fn chain_check(
    roots: Seq<Seq<u8>>,
    end_entity: Seq<u8>,
    intermediates: Seq<Seq<u8>>,
    now: u64,
) -> ChainCheck;

/// `rustls::server::WebPkiClientVerifier`, built over the anchors that
/// `rustls::RootCertStore::add_parsable_certificates` takes, checks the end
/// entity for client authentication at the given time. Nothing is said here of
/// which chains it accepts.
#[verifier::external_body]
fn check_chain(
    roots: &Vec<Vec<u8>>,
    end_entity: &Vec<u8>,
    intermediates: &Vec<Vec<u8>>,
    now: u64,
) -> (r: ChainCheck)
    ensures
        r == chain_check(ders(roots@), end_entity@, ders(intermediates@), now),
{
    let mut store = rustls::RootCertStore::empty();
    store.add_parsable_certificates(roots.iter().map(|d| CertificateDer::from(d.as_slice())));
    let provider = Arc::new(rustls::crypto::aws_lc_rs::default_provider());
    let rest: Vec<_> = intermediates.iter().map(|d| CertificateDer::from(d.as_slice())).collect();
    let time = UnixTime::since_unix_epoch(core::time::Duration::from_secs(now));
    let end = CertificateDer::from(end_entity.as_slice());
    match rustls::server::WebPkiClientVerifier::builder_with_provider(Arc::new(store), provider)
        .build() {
        Err(_) => ChainCheck::NoVerifier,
        Ok(verifier) => match verifier.verify_client_cert(&end, &rest, time) {
            Ok(_) => ChainCheck::Accepted,
            Err(_) => ChainCheck::Rejected,
        },
    }
}

/// The subject alternative names of a certificate: the text of each URI, and
/// a gap for a name of another kind.
pub uninterp spec fn subject_names(der: Seq<u8>) -> Option<Seq<Option<Seq<char>>>>;

/// `X509Certificate::from_der` and `subject_alternative_name` of
/// `x509_parser` read the extension's names, or fail on either.
#[verifier::external_body]
fn read_subject_names(der: &Vec<u8>) -> (r: Option<Vec<Option<String>>>)
    ensures
        match subject_names(der@) {
            Some(names) => r is Some && names_view(r->0@) == names,
            None => r is None,
        },
{
    let (_, certificate) = x509_parser::prelude::X509Certificate::from_der(der).ok()?;
    let extension = certificate.subject_alternative_name().ok()?;
    let names = extension.iter().flat_map(|extension| extension.value.general_names.iter());
    Some(
        names.map(
            |name|
                match name {
                    x509_parser::extensions::GeneralName::URI(uri) => Some((*uri).to_owned()),
                    _ => None,
                },
        ).collect(),
    )
}

/// The end of a certificate's validity in Unix time.
pub uninterp spec fn validity_end(der: Seq<u8>) -> Option<i64>;

/// `X509Certificate::from_der` and `validity` of `x509_parser` give the end
/// of the validity as a Unix timestamp.
#[verifier::external_body]
fn read_validity_end(der: &Vec<u8>) -> (r: Option<i64>)
    ensures
        r == validity_end(der@),
{
    let (_, certificate) = x509_parser::prelude::X509Certificate::from_der(der).ok()?;
    Some(certificate.validity().not_after.timestamp())
}

/// What a credential file must hold: at least one certificate.
pub open spec fn certificates_found(parsed: Option<Seq<Seq<u8>>>) -> bool {
    parsed matches Some(certificates) && certificates.len() > 0
}

/// Takes what a PEM text was read as.
pub fn require_certificates(parsed: Option<Vec<Vec<u8>>>) -> (r: Result<
    Vec<Vec<u8>>,
    CredentialError,
>)
    ensures
        match parsed {
            Some(certificates) => if certificates@.len() > 0 {
                r == Ok::<Vec<Vec<u8>>, CredentialError>(certificates)
            } else {
                r == Err::<Vec<Vec<u8>>, CredentialError>(CredentialError::Malformed)
            },
            None => r == Err::<Vec<Vec<u8>>, CredentialError>(CredentialError::Malformed),
        },
{
    match parsed {
        Some(certificates) => if certificates.len() > 0 {
            Ok(certificates)
        } else {
            Err(CredentialError::Malformed)
        },
        None => Err(CredentialError::Malformed),
    }
}

fn parse_certificates(pem: &[u8]) -> (r: Result<Vec<Vec<u8>>, CredentialError>)
    ensures
        certificates_found(pem_certificates(pem@)) ==> r is Ok && ders(r->Ok_0@)
            == pem_certificates(pem@)->0 && r->Ok_0@.len() > 0,
        !certificates_found(pem_certificates(pem@)) ==> r == Err::<Vec<Vec<u8>>, CredentialError>(
            CredentialError::Malformed,
        ),
{
    require_certificates(read_certificates(pem))
}

/// The verdict on a chain: anchors that cannot be used are malformed
/// material, a chain that does not lead to them is untrusted.
pub open spec fn chain_error(anchors: nat, check: ChainCheck) -> Option<CredentialError> {
    if anchors == 0 {
        Some(CredentialError::Malformed)
    } else {
        match check {
            ChainCheck::NoVerifier => Some(CredentialError::Malformed),
            ChainCheck::Rejected => Some(CredentialError::Untrusted),
            ChainCheck::Accepted => None,
        }
    }
}

pub fn judge_chain(anchors: usize, check: ChainCheck) -> (r: Result<(), CredentialError>)
    ensures
        match chain_error(anchors as nat, check) {
            Some(error) => r == Err::<(), CredentialError>(error),
            None => r is Ok,
        },
{
    if anchors == 0 {
        return Err(CredentialError::Malformed);
    }
    match check {
        ChainCheck::NoVerifier => Err(CredentialError::Malformed),
        ChainCheck::Rejected => Err(CredentialError::Untrusted),
        ChainCheck::Accepted => Ok(()),
    }
}

pub open spec fn names_principal(names: Seq<Option<Seq<char>>>, principal: Seq<char>) -> bool {
    exists|i: int| 0 <= i < names.len() && #[trigger] names[i] == Some(principal)
}

/// The verdict on the identity that a certificate names.
pub open spec fn identity_verdict(
    names: Option<Seq<Option<Seq<char>>>>,
    expires_at: Option<i64>,
    principal: Seq<char>,
) -> Result<i64, CredentialError> {
    match names {
        None => Err(CredentialError::Malformed),
        Some(names) => if !names_principal(names, principal) {
            Err(CredentialError::IdentityMismatch)
        } else {
            match expires_at {
                Some(expires_at) => Ok(expires_at),
                None => Err(CredentialError::Malformed),
            }
        },
    }
}

/// The end of validity of a certificate that names the principal.
pub fn judge_identity(
    names: Option<Vec<Option<String>>>,
    expires_at: Option<i64>,
    principal: &str,
) -> (r: Result<i64, CredentialError>)
    ensures
        r == identity_verdict(
            match names {
                Some(names) => Some(names_view(names@)),
                None => None,
            },
            expires_at,
            principal@,
        ),
{
    match names {
        None => Err(CredentialError::Malformed),
        Some(listed) => {
            if !lists_principal(&listed, principal) {
                return Err(CredentialError::IdentityMismatch);
            }
            match expires_at {
                Some(expires_at) => Ok(expires_at),
                None => Err(CredentialError::Malformed),
            }
        },
    }
}

fn lists_principal(names: &Vec<Option<String>>, principal: &str) -> (r: bool)
    ensures
        r == names_principal(names_view(names@), principal@),
{
    let ghost all = names_view(names@);
    let mut i: usize = 0;
    while i < names.len()
        invariant
            all == names_view(names@),
            i <= names@.len() == all.len(),
            forall|a: int| 0 <= a < i ==> #[trigger] all[a] != Some(principal@),
        decreases names@.len() - i,
    {
        let hit = match &names[i] {
            Some(name) => text::same(name.as_str(), principal),
            None => false,
        };
        if hit {
            assert(all[i as int] == Some(principal@));
            return true;
        }
        i = i + 1;
    }
    false
}

pub struct ValidatedCredential {
    pub ca: Vec<u8>,
    pub certificate: Vec<u8>,
    pub private_key: Vec<u8>,
    pub expires_at: i64,
}

/// What becomes of a credential: the end of its validity, or the first of
/// these that fails: anchors, chain, key, key and chain together, trust at
/// the given time, identity.
pub open spec fn credential_verdict(
    ca: Seq<u8>,
    certificate: Seq<u8>,
    private_key: Seq<u8>,
    identity: IdentityView,
    now: u64,
) -> Result<i64, CredentialError> {
    if !certificates_found(pem_certificates(ca)) || !certificates_found(
        pem_certificates(certificate),
    ) || pem_private_key(private_key) is None {
        Err(CredentialError::Malformed)
    } else {
        let roots = pem_certificates(ca)->0;
        let chain = pem_certificates(certificate)->0;
        let (format, key) = pem_private_key(private_key)->0;
        if !key_certified(chain, format, key) {
            Err(CredentialError::Malformed)
        } else {
            match chain_error(
                anchor_count(roots),
                chain_check(roots, chain[0], chain.drop_first(), now),
            ) {
                Some(error) => Err(error),
                None => identity_verdict(
                    subject_names(chain[0]),
                    validity_end(chain[0]),
                    identity.principal_urn(),
                ),
            }
        }
    }
}

/// Accepts credential material for a device at a time.
pub fn validate_credential_bytes(
    ca: Vec<u8>,
    certificate: Vec<u8>,
    private_key: Vec<u8>,
    identity: &DeviceIdentity,
    now_epoch_seconds: u64,
) -> (r: Result<ValidatedCredential, CredentialError>)
    ensures
        match credential_verdict(
            ca@,
            certificate@,
            private_key@,
            identity@,
            now_epoch_seconds,
        ) {
            Ok(expires_at) => r == Ok::<ValidatedCredential, CredentialError>(
                (ValidatedCredential { ca, certificate, private_key, expires_at }),
            ),
            Err(error) => r == Err::<ValidatedCredential, CredentialError>(error),
        },
{
    let roots = match parse_certificates(ca.as_slice()) {
        Ok(roots) => roots,
        Err(error) => {
            return Err(error);
        },
    };
    let mut chain = match parse_certificates(certificate.as_slice()) {
        Ok(chain) => chain,
        Err(error) => {
            return Err(error);
        },
    };
    let (format, key) = match read_private_key(private_key.as_slice()) {
        Some(key) => key,
        None => {
            return Err(CredentialError::Malformed);
        },
    };
    if !key_matches(&chain, format, &key) {
        return Err(CredentialError::Malformed);
    }
    let ghost whole = ders(chain@);
    let end_entity = chain.remove(0);
    assert(end_entity@ == whole[0]);
    assert(ders(chain@) =~= whole.drop_first());
    match judge_chain(
        usable_anchors(&roots),
        check_chain(&roots, &end_entity, &chain, now_epoch_seconds),
    ) {
        Ok(()) => {},
        Err(error) => {
            return Err(error);
        },
    }
    let principal = identity.principal_urn();
    match judge_identity(
        read_subject_names(&end_entity),
        read_validity_end(&end_entity),
        principal.as_str(),
    ) {
        Ok(expires_at) => Ok(ValidatedCredential { ca, certificate, private_key, expires_at }),
        Err(error) => Err(error),
    }
}

/// No permission bit is set for group or others.
pub open spec fn is_owner_only(mode: u32) -> bool {
    mode & 0o077 == 0
}

/// The mode that a private key file must have.
pub fn require_private_key_mode(mode: u32) -> (r: Result<(), CredentialError>)
    ensures
        is_owner_only(mode) ==> r is Ok,
        !is_owner_only(mode) ==> r == Err::<(), CredentialError>(
            CredentialError::InsecurePrivateKey,
        ),
{
    if mode & 0o077 == 0 {
        Ok(())
    } else {
        Err(CredentialError::InsecurePrivateKey)
    }
}

} // verus!
