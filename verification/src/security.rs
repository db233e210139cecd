//! The endpoint's TLS identity: where it comes from and how it is put together.
//!
//! An identity is a private key with its certificate chain. It is either read
//! from two files that the operator names, or kept in a cache directory, where
//! it is generated once and reused from then on.
//!
//! The provisioner touches no file itself. It says which file to read or to
//! write next, is told what came of it, and ends with the identity or with the
//! reason why there is none.

use vstd::prelude::*;

verus! {

/// `quinn::PrivateKey`, a private key in the form the endpoint takes. Opaque.
#[verifier::external_type_specification]
#[verifier::external_body]
pub struct ExPrivateKey(quinn::PrivateKey);

/// `quinn::Certificate`, one certificate. Opaque.
#[verifier::external_type_specification]
#[verifier::external_body]
pub struct ExCertificate(quinn::Certificate);

/// `quinn::CertificateChain`, a chain of certificates. Opaque.
#[verifier::external_type_specification]
#[verifier::external_body]
pub struct ExCertificateChain(quinn::CertificateChain);

/// `quinn::ParseError`, why key material was not accepted. Opaque.
#[verifier::external_type_specification]
#[verifier::external_body]
pub struct ExParseError(quinn::ParseError);

/// The DER bytes that a private key holds.
pub uninterp spec fn private_key_der(key: quinn::PrivateKey) -> Seq<u8>;

/// The DER bytes that a certificate holds.
pub uninterp spec fn certificate_der(certificate: quinn::Certificate) -> Seq<u8>;

/// The certificates that a chain holds, each by its DER bytes, in order.
pub uninterp spec fn chain_certificates(chain: quinn::CertificateChain) -> Seq<Seq<u8>>;

/// The DER bytes of the private key that `quinn::PrivateKey::from_pem` finds in
/// a PEM file, or `None` where it finds none.
pub uninterp spec fn pem_private_key(pem: Seq<u8>) -> Option<Seq<u8>>;

/// The certificates that `quinn::CertificateChain::from_pem` finds in a PEM
/// file, each by its DER bytes, or `None` where the file is malformed.
pub uninterp spec fn pem_certificates(pem: Seq<u8>) -> Option<Seq<Seq<u8>>>;

/// `quinn::PrivateKey::from_der` takes the bytes as they are and never fails.
pub assume_specification[ quinn::PrivateKey::from_der ](der: &[u8]) -> (parsed: Result<
    quinn::PrivateKey,
    quinn::ParseError,
>)
    ensures
        parsed is Ok,
        private_key_der(parsed->Ok_0) == der@,
;

/// `quinn::PrivateKey::from_pem` holds the key it finds in the file, and fails
/// where it finds none.
pub assume_specification[ quinn::PrivateKey::from_pem ](pem: &[u8]) -> (parsed: Result<
    quinn::PrivateKey,
    quinn::ParseError,
>)
    ensures
        match parsed {
            Ok(key) => pem_private_key(pem@) == Some(private_key_der(key)),
            Err(_) => pem_private_key(pem@) is None,
        },
;

/// `quinn::Certificate::from_der` takes the bytes as they are and never fails.
pub assume_specification[ quinn::Certificate::from_der ](der: &[u8]) -> (parsed: Result<
    quinn::Certificate,
    quinn::ParseError,
>)
    ensures
        parsed is Ok,
        certificate_der(parsed->Ok_0) == der@,
;

/// `quinn::CertificateChain::from_pem` holds the certificates it finds in the
/// file, in order, and fails where the file is malformed.
pub assume_specification[ quinn::CertificateChain::from_pem ](pem: &[u8]) -> (parsed: Result<
    quinn::CertificateChain,
    quinn::ParseError,
>)
    ensures
        match parsed {
            Ok(chain) => pem_certificates(pem@) == Some(chain_certificates(chain)),
            Err(_) => pem_certificates(pem@) is None,
        },
;

/// Calls `quinn::CertificateChain::from_certs`: the chain holds the given
/// certificates, in order.
#[verifier::external_body]
fn chain_from_certs(certificates: Vec<quinn::Certificate>) -> (chain: quinn::CertificateChain)
    ensures
        chain_certificates(chain) == certificates@.map_values(
            |certificate: quinn::Certificate| certificate_der(certificate),
        ),
{
    quinn::CertificateChain::from_certs(certificates)
}

/// Calls `quinn::CertificateChain::iter` and counts what it yields: the number
/// of certificates that the chain holds.
#[verifier::external_body]
fn chain_length(chain: &quinn::CertificateChain) -> (length: usize)
    ensures
        length == chain_certificates(*chain).len(),
{
    chain.iter().count()
}

/// Calls `rcgen::generate_simple_self_signed` for the given subject names and
/// hands out what it made as bytes, by `serialize_der` and
/// `serialize_private_key_der`: the certificate's DER bytes first, the private
/// key's second. `None` where generating or signing failed.
///
/// `serialize_private_key_der` panics on a certificate whose key is held
/// elsewhere; the one generated here holds its own.
///
/// Nothing is claimed of the bytes: the key is drawn at random.
#[verifier::external_body]
fn generate_self_signed(subject_names: Vec<String>) -> (material: Option<(Vec<u8>, Vec<u8>)>)
{
    let certificate = rcgen::generate_simple_self_signed(subject_names).ok()?;
    let private_key = certificate.serialize_private_key_der();
    let der = certificate.serialize_der().ok()?;
    Some((der, private_key))
}

/// A private key with its certificate chain. The endpoint is never handed one
/// without the other.
///
/// Whether the key is the one that the first certificate certifies is not
/// looked into here: that takes the TLS layer's own cryptography.
#[derive(Debug)]
pub struct Identity {
    pub private_key: quinn::PrivateKey,
    pub certificate_chain: quinn::CertificateChain,
}

/// An identity by its bytes.
pub struct IdentityView {
    /// The private key, DER encoded.
    pub private_key: Seq<u8>,
    /// The certificates of the chain, each DER encoded, in order.
    pub certificate_chain: Seq<Seq<u8>>,
}

impl IdentityView {
    /// Whether the identity has both its parts: a private key, which it
    /// always has, and at least one certificate.
    pub open spec fn is_pair(self) -> bool {
        self.certificate_chain.len() > 0
    }
}

impl View for Identity {
    type V = IdentityView;

    open spec fn view(&self) -> IdentityView {
        IdentityView {
            private_key: private_key_der(self.private_key),
            certificate_chain: chain_certificates(self.certificate_chain),
        }
    }
}

/// The startup options name only one of the two identity files.
#[derive(Clone, Copy, Debug, PartialEq, Eq, Structural)]
pub enum ConfigurationError {
    /// A private key was named, but no certificate.
    KeyWithoutCertificate,
    /// A certificate was named, but no private key.
    CertificateWithoutKey,
}

/// One step of storing a generated identity in the cache directory.
#[derive(Clone, Copy, Debug, PartialEq, Eq, Structural)]
pub enum PersistStep {
    CreateDirectory,
    WriteCertificate,
    WritePrivateKey,
}

/// Why no identity could be provided.
#[derive(Clone, Debug, PartialEq, Eq)]
pub enum IdentityError {
    /// The private key file could not be read.
    KeyUnreadable,
    /// The private key file held no key that could be decoded.
    KeyMalformed,
    /// The certificate file could not be read.
    ChainUnreadable,
    /// The certificate file could not be decoded, or held no certificate.
    ChainMalformed,
    /// A cached file is there but could not be read; the message says why.
    CacheUnreadable(String),
    /// No identity could be generated.
    GenerationFailed,
    /// The TLS layer did not accept the key with its chain.
    Rejected,
    /// The generated identity could not be stored; this step failed.
    CacheUnwritable(PersistStep),
}

/// Why no identity could be provided, with the reason by its characters.
pub enum IdentityErrorView {
    KeyUnreadable,
    KeyMalformed,
    ChainUnreadable,
    ChainMalformed,
    CacheUnreadable(Seq<char>),
    GenerationFailed,
    Rejected,
    CacheUnwritable(PersistStep),
}

impl View for IdentityError {
    type V = IdentityErrorView;

    open spec fn view(&self) -> IdentityErrorView {
        match *self {
            IdentityError::KeyUnreadable => IdentityErrorView::KeyUnreadable,
            IdentityError::KeyMalformed => IdentityErrorView::KeyMalformed,
            IdentityError::ChainUnreadable => IdentityErrorView::ChainUnreadable,
            IdentityError::ChainMalformed => IdentityErrorView::ChainMalformed,
            IdentityError::CacheUnreadable(why) => IdentityErrorView::CacheUnreadable(why@),
            IdentityError::GenerationFailed => IdentityErrorView::GenerationFailed,
            IdentityError::Rejected => IdentityErrorView::Rejected,
            IdentityError::CacheUnwritable(step) => IdentityErrorView::CacheUnwritable(step),
        }
    }
}

/// A file that the operator named.
///
/// `P` is what names a file.
#[derive(Clone, Debug, PartialEq, Eq)]
pub struct SuppliedFile<P> {
    pub path: P,
    /// The extension of the file's name, if it has one.
    pub extension: Option<String>,
}

/// A file of the cache directory.
#[derive(Clone, Copy, Debug, PartialEq, Eq, Structural)]
pub enum CacheFile {
    /// The certificate, DER encoded.
    Certificate,
    /// The private key, DER encoded.
    PrivateKey,
}

/// How a file of key material is encoded.
#[derive(Clone, Copy, Debug, PartialEq, Eq, Structural)]
pub enum Encoding {
    Der,
    Pem,
}

/// What came of reading a file.
#[derive(Clone, Debug, PartialEq, Eq)]
pub enum FileRead {
    /// The file's contents.
    Found(Vec<u8>),
    /// There is no such file.
    Missing,
    /// The file could not be read for another reason; the message says why.
    Failed(String),
}

/// What came of reading a file, with the contents by their bytes and the
/// failure by its message.
pub enum FileReadView {
    Found(Seq<u8>),
    Missing,
    Failed(Seq<char>),
}

impl View for FileRead {
    type V = FileReadView;

    open spec fn view(&self) -> FileReadView {
        match *self {
            FileRead::Found(contents) => FileReadView::Found(contents@),
            FileRead::Missing => FileReadView::Missing,
            FileRead::Failed(why) => FileReadView::Failed(why@),
        }
    }
}

/// Name of the certificate file in the cache directory.
pub const CERTIFICATE_FILE: &'static str = "cert.der";

/// Name of the private key file in the cache directory.
pub const PRIVATE_KEY_FILE: &'static str = "key.der";

/// The encoding that a file name's extension stands for: DER for `der`, PEM
/// for anything else and for no extension at all.
pub open spec fn encoding_for(extension: Option<String>) -> Encoding {
    if extension matches Some(e) && e@ == "der"@ {
        Encoding::Der
    } else {
        Encoding::Pem
    }
}

/// Tells from a file name's extension how the file is encoded.
pub fn encoding_of(extension: Option<String>) -> (encoding: Encoding)
    ensures
        encoding == encoding_for(extension),
{
    match extension {
        Some(e) => {
            let der = "der".to_owned();
            if e == der {
                Encoding::Der
            } else {
                Encoding::Pem
            }
        },
        None => Encoding::Pem,
    }
}

/// The private key that a file's contents hold under an encoding, by its DER
/// bytes, or `None` where they hold none.
pub open spec fn decoded_key(contents: Seq<u8>, encoding: Encoding) -> Option<Seq<u8>> {
    match encoding {
        Encoding::Der => Some(contents),
        Encoding::Pem => pem_private_key(contents),
    }
}

/// The certificate chain that a file's contents hold under an encoding, each
/// certificate by its DER bytes, or `None` where the contents are malformed
/// or hold no certificate at all. A DER file holds one certificate.
pub open spec fn decoded_chain(contents: Seq<u8>, encoding: Encoding) -> Option<Seq<Seq<u8>>> {
    match encoding {
        Encoding::Der => Some(seq![contents]),
        Encoding::Pem => match pem_certificates(contents) {
            Some(certificates) => if certificates.len() > 0 {
                Some(certificates)
            } else {
                None
            },
            None => None,
        },
    }
}

/// A chain that was decoded holds at least one certificate.
pub proof fn lemma_decoded_chain_is_not_empty(contents: Seq<u8>, encoding: Encoding)
    ensures
        decoded_chain(contents, encoding) matches Some(certificates) ==> certificates.len() > 0,
{
}

/// The chain that holds one certificate, given by its DER bytes.
fn single_certificate_chain(der: &[u8]) -> (chain: quinn::CertificateChain)
    ensures
        chain_certificates(chain) == seq![der@],
{
    let mut certificates: Vec<quinn::Certificate> = Vec::new();
    match quinn::Certificate::from_der(der) {
        Ok(certificate) => {
            certificates.push(certificate);
        },
        Err(_) => {},
    }
    let chain = chain_from_certs(certificates);
    assert(chain_certificates(chain) =~= seq![der@]);
    chain
}

/// Takes the private key from what was read of the file the operator named.
///
/// Fails with `KeyUnreadable` where the file could not be read, and with
/// `KeyMalformed` where its contents hold no key under `encoding`.
pub fn supplied_key(read: FileRead, encoding: Encoding) -> (key: Result<
    quinn::PrivateKey,
    IdentityError,
>)
    ensures
        match read {
            FileRead::Found(contents) => match decoded_key(contents@, encoding) {
                Some(der) => key matches Ok(k) && private_key_der(k) == der,
                None => key matches Err(IdentityError::KeyMalformed),
            },
            _ => key matches Err(IdentityError::KeyUnreadable),
        },
{
    match read {
        FileRead::Found(contents) => {
            let parsed = match encoding {
                Encoding::Der => quinn::PrivateKey::from_der(contents.as_slice()),
                Encoding::Pem => quinn::PrivateKey::from_pem(contents.as_slice()),
            };
            match parsed {
                Ok(key) => Ok(key),
                Err(_) => Err(IdentityError::KeyMalformed),
            }
        },
        _ => Err(IdentityError::KeyUnreadable),
    }
}

/// Takes the certificate chain from what was read of the file the operator
/// named.
///
/// Fails with `ChainUnreadable` where the file could not be read, and with
/// `ChainMalformed` where its contents cannot be decoded under `encoding` or
/// hold no certificate. A chain that comes back is never empty: a key is not
/// handed on without a certificate.
pub fn supplied_chain(read: FileRead, encoding: Encoding) -> (chain: Result<
    quinn::CertificateChain,
    IdentityError,
>)
    ensures
        match read {
            FileRead::Found(contents) => match decoded_chain(contents@, encoding) {
                Some(certificates) => chain matches Ok(c) && chain_certificates(c)
                    == certificates,
                None => chain matches Err(IdentityError::ChainMalformed),
            },
            _ => chain matches Err(IdentityError::ChainUnreadable),
        },
        chain matches Ok(c) ==> chain_certificates(c).len() > 0,
{
    match read {
        FileRead::Found(contents) => match encoding {
            Encoding::Der => Ok(single_certificate_chain(contents.as_slice())),
            Encoding::Pem => match quinn::CertificateChain::from_pem(contents.as_slice()) {
                Ok(chain) => if chain_length(&chain) > 0 {
                    Ok(chain)
                } else {
                    Err(IdentityError::ChainMalformed)
                },
                Err(_) => Err(IdentityError::ChainMalformed),
            },
        },
        _ => Err(IdentityError::ChainUnreadable),
    }
}

/// The identity made of a DER private key and one DER certificate.
fn identity_from_der(certificate: &[u8], private_key: &[u8]) -> (identity: Identity)
    ensures
        identity@ == (IdentityView {
            private_key: private_key@,
            certificate_chain: seq![certificate@],
        }),
{
    let chain = single_certificate_chain(certificate);
    match quinn::PrivateKey::from_der(private_key) {
        Ok(key) => Identity { private_key: key, certificate_chain: chain },
        Err(_) => vstd::pervasive::unreached(),
    }
}

/// A freshly generated identity, with the two files to store in the cache.
#[derive(Debug)]
pub struct Generated {
    pub identity: Identity,
    /// Contents of the certificate file.
    pub certificate: Vec<u8>,
    /// Contents of the private key file.
    pub private_key: Vec<u8>,
}

impl Generated {
    /// The identity is the one that the two files hold.
    pub open spec fn consistent(self) -> bool {
        self.identity@ == (IdentityView {
            private_key: self.private_key@,
            certificate_chain: seq![self.certificate@],
        })
    }
}

/// The subject names of a generated certificate.
pub open spec fn subject_names() -> Seq<Seq<char>> {
    seq!["localhost"@]
}

/// Puts a generated DER certificate and its DER private key together: the
/// identity to use, and the same bytes to store.
pub fn fresh_identity(certificate: Vec<u8>, private_key: Vec<u8>) -> (generated: Generated)
    ensures
        generated.certificate == certificate,
        generated.private_key == private_key,
        generated.consistent(),
{
    let identity = identity_from_der(certificate.as_slice(), private_key.as_slice());
    Generated { identity, certificate, private_key }
}

/// The subject names to generate a certificate for.
pub fn certificate_subjects() -> (names: Vec<String>)
    ensures
        names.deep_view() == subject_names(),
{
    let mut names: Vec<String> = Vec::new();
    names.push("localhost".to_owned());
    assert(names.deep_view() =~= subject_names());
    names
}

/// Generates a self-signed identity for `localhost`.
///
/// Generation draws a random key and may fail, so all that is promised is
/// that an identity, where one comes back, is the one its two files hold.
pub fn generate_identity() -> (generated: Result<Generated, IdentityError>)
    ensures
        match generated {
            Ok(fresh) => fresh.consistent(),
            Err(error) => error is GenerationFailed,
        },
{
    match generate_self_signed(certificate_subjects()) {
        Some((certificate, private_key)) => Ok(fresh_identity(certificate, private_key)),
        None => Err(IdentityError::GenerationFailed),
    }
}

/// Where a provisioning is.
#[derive(Debug)]
#[allow(inconsistent_fields)]
pub enum Stage<P> {
    /// The private key file that the operator named is being read.
    ReadingKey { key_encoding: Encoding, certificate: P, chain_encoding: Encoding },
    /// The certificate file that the operator named is being read.
    ReadingChain { private_key: quinn::PrivateKey, chain_encoding: Encoding },
    /// The certificate file of the cache is being read.
    ReadingCachedCertificate,
    /// The private key file of the cache is being read.
    ReadingCachedKey { certificate: Vec<u8> },
    /// An identity was generated; the cache directory is being created.
    CreatingDirectory { generated: Generated },
    /// The generated certificate is being written to the cache.
    WritingCertificate { identity: Identity, private_key: Vec<u8> },
    /// The generated private key is being written to the cache.
    WritingPrivateKey { identity: Identity },
    /// The provisioning is over.
    Finished,
}

/// A stage, with key material by its bytes.
#[allow(inconsistent_fields)]
pub enum StageView<P> {
    ReadingKey { key_encoding: Encoding, certificate: P, chain_encoding: Encoding },
    ReadingChain { private_key: Seq<u8>, chain_encoding: Encoding },
    ReadingCachedCertificate,
    ReadingCachedKey { certificate: Seq<u8> },
    CreatingDirectory { certificate: Seq<u8>, private_key: Seq<u8> },
    WritingCertificate { identity: IdentityView, private_key: Seq<u8> },
    WritingPrivateKey { identity: IdentityView },
    Finished,
}

impl<P> View for Stage<P> {
    type V = StageView<P>;

    open spec fn view(&self) -> StageView<P> {
        match *self {
            Stage::ReadingKey { key_encoding, certificate, chain_encoding } => {
                StageView::ReadingKey { key_encoding, certificate, chain_encoding }
            },
            Stage::ReadingChain { private_key, chain_encoding } => StageView::ReadingChain {
                private_key: private_key_der(private_key),
                chain_encoding,
            },
            Stage::ReadingCachedCertificate => StageView::ReadingCachedCertificate,
            Stage::ReadingCachedKey { certificate } => StageView::ReadingCachedKey {
                certificate: certificate@,
            },
            Stage::CreatingDirectory { generated } => StageView::CreatingDirectory {
                certificate: generated.certificate@,
                private_key: generated.private_key@,
            },
            Stage::WritingCertificate { identity, private_key } => StageView::WritingCertificate {
                identity: identity@,
                private_key: private_key@,
            },
            Stage::WritingPrivateKey { identity } => StageView::WritingPrivateKey {
                identity: identity@,
            },
            Stage::Finished => StageView::Finished,
        }
    }
}

/// Something that happened to a file.
#[derive(Clone, Debug, PartialEq, Eq)]
pub enum ProvisionEvent {
    /// The file asked for was read, or not.
    Read(FileRead),
    /// The directory was created, or the file written.
    Stored,
    /// The directory could not be created, or the file not written.
    StoreFailed,
}

/// An event, with what was read by its bytes.
pub enum ProvisionEventView {
    Read(FileReadView),
    Stored,
    StoreFailed,
}

impl View for ProvisionEvent {
    type V = ProvisionEventView;

    open spec fn view(&self) -> ProvisionEventView {
        match *self {
            ProvisionEvent::Read(read) => ProvisionEventView::Read(read@),
            ProvisionEvent::Stored => ProvisionEventView::Stored,
            ProvisionEvent::StoreFailed => ProvisionEventView::StoreFailed,
        }
    }
}

/// What to do next for the identity.
#[derive(Debug)]
pub enum ProvisionAction<P> {
    /// Read this file, which the operator named.
    ReadSupplied(P),
    /// Read this file of the cache directory.
    ReadCached(CacheFile),
    /// Create the cache directory, with the directories above it.
    CreateDirectory,
    /// Write these bytes to this file of the cache directory.
    WriteCached(CacheFile, Vec<u8>),
    /// The provisioning is over, with this result.
    Complete(Result<Identity, IdentityError>),
    /// The event does not belong to the stage the provisioning is in; do nothing.
    Ignore,
}

/// An action, with key material by its bytes.
pub enum ProvisionActionView<P> {
    ReadSupplied(P),
    ReadCached(CacheFile),
    CreateDirectory,
    WriteCached(CacheFile, Seq<u8>),
    Complete(Result<IdentityView, IdentityErrorView>),
    Ignore,
}

impl<P> View for ProvisionAction<P> {
    type V = ProvisionActionView<P>;

    open spec fn view(&self) -> ProvisionActionView<P> {
        match *self {
            ProvisionAction::ReadSupplied(path) => ProvisionActionView::ReadSupplied(path),
            ProvisionAction::ReadCached(file) => ProvisionActionView::ReadCached(file),
            ProvisionAction::CreateDirectory => ProvisionActionView::CreateDirectory,
            ProvisionAction::WriteCached(file, contents) => ProvisionActionView::WriteCached(
                file,
                contents@,
            ),
            ProvisionAction::Complete(result) => ProvisionActionView::Complete(
                match result {
                    Ok(identity) => Ok(identity@),
                    Err(error) => Err(error@),
                },
            ),
            ProvisionAction::Ignore => ProvisionActionView::Ignore,
        }
    }
}

/// The stage and the action that end a provisioning with `result`.
pub open spec fn finished<P>(result: Result<IdentityView, IdentityErrorView>) -> (
    StageView<P>,
    ProvisionActionView<P>,
) {
    (StageView::Finished, ProvisionActionView::Complete(result))
}

/// What a generation leads to: with a certificate and its private key, to the
/// creation of the cache directory; with nothing, to failure.
pub open spec fn generation<P>(fresh: Option<(Seq<u8>, Seq<u8>)>) -> (
    StageView<P>,
    ProvisionActionView<P>,
) {
    match fresh {
        Some((certificate, private_key)) => (
            StageView::CreatingDirectory { certificate, private_key },
            ProvisionActionView::CreateDirectory,
        ),
        None => finished(Err(IdentityErrorView::GenerationFailed)),
    }
}

/// The stage that follows `stage` on `event`, and the action to take. `fresh`
/// is what a generation yields, should the step need one: a DER certificate
/// and its DER private key, or nothing where generating fails.
///
/// The operator's files are read key first, then chain; either failing ends
/// the provisioning. Of the cache, the certificate is read first and the key
/// only where the certificate was found. A cached file that is missing leads
/// to a generation; one that is there but unreadable ends the provisioning. A
/// generated identity is stored before it is used: directory, certificate,
/// private key, in this order, and any of the three failing ends the
/// provisioning.
pub open spec fn provision_step<P>(
    stage: StageView<P>,
    event: ProvisionEventView,
    fresh: Option<(Seq<u8>, Seq<u8>)>,
) -> (StageView<P>, ProvisionActionView<P>) {
    match (stage, event) {
        (
            StageView::ReadingKey { key_encoding, certificate, chain_encoding },
            ProvisionEventView::Read(read),
        ) => match read {
            FileReadView::Found(contents) => match decoded_key(contents, key_encoding) {
                Some(private_key) => (
                    StageView::ReadingChain { private_key, chain_encoding },
                    ProvisionActionView::ReadSupplied(certificate),
                ),
                None => finished(Err(IdentityErrorView::KeyMalformed)),
            },
            _ => finished(Err(IdentityErrorView::KeyUnreadable)),
        },
        (
            StageView::ReadingChain { private_key, chain_encoding },
            ProvisionEventView::Read(read),
        ) => match read {
            FileReadView::Found(contents) => match decoded_chain(contents, chain_encoding) {
                Some(certificate_chain) => finished(
                    Ok(IdentityView { private_key, certificate_chain }),
                ),
                None => finished(Err(IdentityErrorView::ChainMalformed)),
            },
            _ => finished(Err(IdentityErrorView::ChainUnreadable)),
        },
        (StageView::ReadingCachedCertificate, ProvisionEventView::Read(read)) => match read {
            FileReadView::Found(certificate) => (
                StageView::ReadingCachedKey { certificate },
                ProvisionActionView::ReadCached(CacheFile::PrivateKey),
            ),
            FileReadView::Missing => generation(fresh),
            FileReadView::Failed(why) => finished(Err(IdentityErrorView::CacheUnreadable(why))),
        },
        (StageView::ReadingCachedKey { certificate }, ProvisionEventView::Read(read)) => match read {
            FileReadView::Found(private_key) => finished(
                Ok(IdentityView { private_key, certificate_chain: seq![certificate] }),
            ),
            FileReadView::Missing => generation(fresh),
            FileReadView::Failed(why) => finished(Err(IdentityErrorView::CacheUnreadable(why))),
        },
        (StageView::CreatingDirectory { certificate, private_key }, ProvisionEventView::Stored) => (
            StageView::WritingCertificate {
                identity: IdentityView { private_key, certificate_chain: seq![certificate] },
                private_key,
            },
            ProvisionActionView::WriteCached(CacheFile::Certificate, certificate),
        ),
        (StageView::CreatingDirectory { .. }, ProvisionEventView::StoreFailed) => finished(
            Err(IdentityErrorView::CacheUnwritable(PersistStep::CreateDirectory)),
        ),
        (StageView::WritingCertificate { identity, private_key }, ProvisionEventView::Stored) => (
            StageView::WritingPrivateKey { identity },
            ProvisionActionView::WriteCached(CacheFile::PrivateKey, private_key),
        ),
        (StageView::WritingCertificate { .. }, ProvisionEventView::StoreFailed) => finished(
            Err(IdentityErrorView::CacheUnwritable(PersistStep::WriteCertificate)),
        ),
        (StageView::WritingPrivateKey { identity }, ProvisionEventView::Stored) => finished(
            Ok(identity),
        ),
        (StageView::WritingPrivateKey { .. }, ProvisionEventView::StoreFailed) => finished(
            Err(IdentityErrorView::CacheUnwritable(PersistStep::WritePrivateKey)),
        ),
        _ => (stage, ProvisionActionView::Ignore),
    }
}

/// Whether every identity that `stage` holds has both its parts.
pub open spec fn holds_pairs<P>(stage: StageView<P>) -> bool {
    match stage {
        StageView::WritingCertificate { identity, .. } => identity.is_pair(),
        StageView::WritingPrivateKey { identity } => identity.is_pair(),
        _ => true,
    }
}

/// Whether the step from `stage` on `event` generates an identity.
pub open spec fn generates<P>(stage: StageView<P>, event: ProvisionEventView) -> bool {
    (stage is ReadingCachedCertificate || stage is ReadingCachedKey) && event
        == ProvisionEventView::Read(FileReadView::Missing)
}

/// Whether `next` and `action` are what follows `stage` on `event`, whatever a
/// generation may have yielded.
pub open spec fn follows_step<P>(
    stage: StageView<P>,
    event: ProvisionEventView,
    next: StageView<P>,
    action: ProvisionActionView<P>,
) -> bool {
    exists|fresh: Option<(Seq<u8>, Seq<u8>)>| #[trigger]
        provision_step(stage, event, fresh) == (next, action)
}

/// The name of a file of the cache directory.
pub fn cache_file_name(file: CacheFile) -> (name: &'static str)
    ensures
        name@ == match file {
            CacheFile::Certificate => CERTIFICATE_FILE@,
            CacheFile::PrivateKey => PRIVATE_KEY_FILE@,
        },
{
    match file {
        CacheFile::Certificate => CERTIFICATE_FILE,
        CacheFile::PrivateKey => PRIVATE_KEY_FILE,
    }
}

/// A provisioning of the endpoint's identity, under way or over.
#[derive(Debug)]
pub struct Provisioner<P> {
    stage: Stage<P>,
}

impl<P> View for Provisioner<P> {
    type V = StageView<P>;

    closed spec fn view(&self) -> StageView<P> {
        self.stage@
    }
}

/// Begins a provisioning: chooses where the identity comes from and says what
/// to read first.
///
/// The two files are named together or not at all. With both, the identity is
/// read from them, each decoded as its extension says. With neither, it comes
/// from the cache directory. With only one, the configuration is refused.
pub fn init_security<P>(
    private_key: Option<SuppliedFile<P>>,
    certificate: Option<SuppliedFile<P>>,
) -> (start: Result<(Provisioner<P>, ProvisionAction<P>), ConfigurationError>)
    ensures
        match (private_key, certificate) {
            (Some(key), Some(chain)) => start matches Ok((provisioner, action)) && provisioner@
                == (StageView::ReadingKey {
                key_encoding: encoding_for(key.extension),
                certificate: chain.path,
                chain_encoding: encoding_for(chain.extension),
            }) && action@ == ProvisionActionView::ReadSupplied(key.path),
            (None, None) => start matches Ok((provisioner, action)) && provisioner@
                == StageView::<P>::ReadingCachedCertificate && action@
                == ProvisionActionView::<P>::ReadCached(CacheFile::Certificate),
            (Some(_), None) => start matches Err(ConfigurationError::KeyWithoutCertificate),
            (None, Some(_)) => start matches Err(ConfigurationError::CertificateWithoutKey),
        },
{
    match (private_key, certificate) {
        (Some(key), Some(chain)) => {
            let stage = Stage::ReadingKey {
                key_encoding: encoding_of(key.extension),
                certificate: chain.path,
                chain_encoding: encoding_of(chain.extension),
            };
            Ok((Provisioner { stage }, ProvisionAction::ReadSupplied(key.path)))
        },
        (None, None) => Ok(
            (
                Provisioner { stage: Stage::ReadingCachedCertificate },
                ProvisionAction::ReadCached(CacheFile::Certificate),
            ),
        ),
        (Some(_), None) => Err(ConfigurationError::KeyWithoutCertificate),
        (None, Some(_)) => Err(ConfigurationError::CertificateWithoutKey),
    }
}

impl<P> Provisioner<P> {
    #[verifier::type_invariant]
    spec fn consistent(self) -> bool {
        &&& self.stage matches Stage::CreatingDirectory { generated } ==> generated.consistent()
        &&& holds_pairs(self.stage@)
    }

    /// Whether the provisioning is over.
    pub fn is_over(&self) -> (over: bool)
        ensures
            over == (self@ is Finished),
    {
        match self.stage {
            Stage::Finished => true,
            _ => false,
        }
    }

    /// Generates an identity and begins to store it.
    fn generate() -> (next: (Provisioner<P>, ProvisionAction<P>))
        ensures
            exists|fresh: Option<(Seq<u8>, Seq<u8>)>| #[trigger]
                generation::<P>(fresh) == (next.0@, next.1@),
    {
        match generate_identity() {
            Ok(generated) => {
                proof {
                    let fresh = Some((generated.certificate@, generated.private_key@));
                    assert(generation::<P>(fresh) == (
                        StageView::<P>::CreatingDirectory {
                            certificate: generated.certificate@,
                            private_key: generated.private_key@,
                        },
                        ProvisionActionView::<P>::CreateDirectory,
                    ));
                }
                (
                    Provisioner { stage: Stage::CreatingDirectory { generated } },
                    ProvisionAction::CreateDirectory,
                )
            },
            Err(error) => {
                proof {
                    assert(generation::<P>(None) == finished::<P>(
                        Err(IdentityErrorView::GenerationFailed),
                    ));
                }
                (Provisioner { stage: Stage::Finished }, ProvisionAction::Complete(Err(error)))
            },
        }
    }

    /// Ends the provisioning with `result`.
    fn finish(result: Result<Identity, IdentityError>) -> (next: (
        Provisioner<P>,
        ProvisionAction<P>,
    ))
        ensures
            (next.0@, next.1@) == finished::<P>(
                match result {
                    Ok(identity) => Ok(identity@),
                    Err(error) => Err(error@),
                },
            ),
    {
        (Provisioner { stage: Stage::Finished }, ProvisionAction::Complete(result))
    }

    /// Takes in what happened to the file last asked for: the provisioning
    /// that follows, and what to do next.
    ///
    /// Where the step generates an identity, its bytes are drawn at random and
    /// the generation may fail; what follows is then `provision_step` for
    /// whatever the generation yielded. Every other step is `provision_step`
    /// exactly, in which nothing is generated.
    pub fn on_event(self, event: ProvisionEvent) -> (next: (Provisioner<P>, ProvisionAction<P>))
        ensures
            follows_step(self@, event@, next.0@, next.1@),
            !generates(self@, event@) ==> (next.0@, next.1@) == provision_step(
                self@,
                event@,
                None,
            ),
            holds_pairs(next.0@),
            next.1@ matches ProvisionActionView::Complete(Ok(identity)) ==> identity.is_pair(),
    {
        proof {
            use_type_invariant(&self);
        }
        let ghost before = self@;
        let next = match (self.stage, event) {
            (
                Stage::ReadingKey { key_encoding, certificate, chain_encoding },
                ProvisionEvent::Read(read),
            ) => match supplied_key(read, key_encoding) {
                Ok(private_key) => (
                    Provisioner { stage: Stage::ReadingChain { private_key, chain_encoding } },
                    ProvisionAction::ReadSupplied(certificate),
                ),
                Err(error) => Self::finish(Err(error)),
            },
            (Stage::ReadingChain { private_key, chain_encoding }, ProvisionEvent::Read(read)) => {
                match supplied_chain(read, chain_encoding) {
                    Ok(certificate_chain) => Self::finish(
                        Ok(Identity { private_key, certificate_chain }),
                    ),
                    Err(error) => Self::finish(Err(error)),
                }
            },
            (Stage::ReadingCachedCertificate, ProvisionEvent::Read(read)) => match read {
                FileRead::Found(certificate) => (
                    Provisioner { stage: Stage::ReadingCachedKey { certificate } },
                    ProvisionAction::ReadCached(CacheFile::PrivateKey),
                ),
                FileRead::Missing => Self::generate(),
                FileRead::Failed(why) => Self::finish(Err(IdentityError::CacheUnreadable(why))),
            },
            (Stage::ReadingCachedKey { certificate }, ProvisionEvent::Read(read)) => match read {
                FileRead::Found(private_key) => Self::finish(
                    Ok(identity_from_der(certificate.as_slice(), private_key.as_slice())),
                ),
                FileRead::Missing => Self::generate(),
                FileRead::Failed(why) => Self::finish(Err(IdentityError::CacheUnreadable(why))),
            },
            (Stage::CreatingDirectory { generated }, ProvisionEvent::Stored) => {
                let Generated { identity, certificate, private_key } = generated;
                (
                    Provisioner { stage: Stage::WritingCertificate { identity, private_key } },
                    ProvisionAction::WriteCached(CacheFile::Certificate, certificate),
                )
            },
            (Stage::CreatingDirectory { .. }, ProvisionEvent::StoreFailed) => Self::finish(
                Err(IdentityError::CacheUnwritable(PersistStep::CreateDirectory)),
            ),
            (Stage::WritingCertificate { identity, private_key }, ProvisionEvent::Stored) => (
                Provisioner { stage: Stage::WritingPrivateKey { identity } },
                ProvisionAction::WriteCached(CacheFile::PrivateKey, private_key),
            ),
            (Stage::WritingCertificate { .. }, ProvisionEvent::StoreFailed) => Self::finish(
                Err(IdentityError::CacheUnwritable(PersistStep::WriteCertificate)),
            ),
            (Stage::WritingPrivateKey { identity }, ProvisionEvent::Stored) => Self::finish(
                Ok(identity),
            ),
            (Stage::WritingPrivateKey { .. }, ProvisionEvent::StoreFailed) => Self::finish(
                Err(IdentityError::CacheUnwritable(PersistStep::WritePrivateKey)),
            ),
            (stage, _) => (Provisioner { stage }, ProvisionAction::Ignore),
        };
        proof {
            if generates(before, event@) {
                let fresh = choose|fresh: Option<(Seq<u8>, Seq<u8>)>| #[trigger]
                    generation::<P>(fresh) == (next.0@, next.1@);
                assert(provision_step(before, event@, fresh) == (next.0@, next.1@));
            } else {
                assert(provision_step(before, event@, None) == (next.0@, next.1@));
            }
        }
        next
    }
}

/// A provisioning never ends with a key alone: from a stage whose identities
/// have both their parts, every step leads to such a stage, and an identity
/// that the provisioning completes with has at least one certificate.
pub proof fn lemma_identity_is_a_pair<P>(
    stage: StageView<P>,
    event: ProvisionEventView,
    fresh: Option<(Seq<u8>, Seq<u8>)>,
)
    requires
        holds_pairs(stage),
    ensures
        holds_pairs(provision_step(stage, event, fresh).0),
        provision_step(stage, event, fresh).1 matches ProvisionActionView::Complete(
            Ok(identity),
        ) ==> identity.is_pair(),
{
}

/// The cache directory, as the two files it may hold.
pub struct CacheFiles {
    pub certificate: Option<Seq<u8>>,
    pub private_key: Option<Seq<u8>>,
}

/// What reading a file of the cache gives.
pub open spec fn read_cached(file: Option<Seq<u8>>) -> FileReadView {
    match file {
        Some(contents) => FileReadView::Found(contents),
        None => FileReadView::Missing,
    }
}

/// What carrying out `action` on a cache directory leaves of it, and what is
/// to be told to the provisioner. Reading and writing succeed; an action that
/// is none on the cache changes nothing and has no answer.
pub open spec fn carry_out<P>(cache: CacheFiles, action: ProvisionActionView<P>) -> (
    CacheFiles,
    Option<ProvisionEventView>,
) {
    match action {
        ProvisionActionView::ReadCached(CacheFile::Certificate) => (
            cache,
            Some(ProvisionEventView::Read(read_cached(cache.certificate))),
        ),
        ProvisionActionView::ReadCached(CacheFile::PrivateKey) => (
            cache,
            Some(ProvisionEventView::Read(read_cached(cache.private_key))),
        ),
        ProvisionActionView::CreateDirectory => (cache, Some(ProvisionEventView::Stored)),
        ProvisionActionView::WriteCached(CacheFile::Certificate, contents) => (
            CacheFiles { certificate: Some(contents), ..cache },
            Some(ProvisionEventView::Stored),
        ),
        ProvisionActionView::WriteCached(CacheFile::PrivateKey, contents) => (
            CacheFiles { private_key: Some(contents), ..cache },
            Some(ProvisionEventView::Stored),
        ),
        _ => (cache, None),
    }
}

/// A provisioning run against a cache directory, from `stage` with `action`
/// to carry out, for at most `steps` steps: the result it completes with, if
/// it completes, and the cache it leaves.
pub open spec fn run_on_cache<P>(
    stage: StageView<P>,
    action: ProvisionActionView<P>,
    cache: CacheFiles,
    fresh: Option<(Seq<u8>, Seq<u8>)>,
    steps: nat,
) -> (Option<Result<IdentityView, IdentityErrorView>>, CacheFiles)
    decreases steps,
{
    match action {
        ProvisionActionView::Complete(result) => (Some(result), cache),
        _ => if steps == 0 {
            (None, cache)
        } else {
            let (changed, answer) = carry_out(cache, action);
            match answer {
                Some(event) => {
                    let (next, then) = provision_step(stage, event, fresh);
                    run_on_cache(next, then, changed, fresh, (steps - 1) as nat)
                },
                None => (None, cache),
            }
        },
    }
}

/// One provisioning from the cache directory, from beginning to end: the
/// result and the cache it leaves. `fresh` is what a generation yields,
/// should one be needed.
pub open spec fn provision_from_cache(cache: CacheFiles, fresh: (Seq<u8>, Seq<u8>)) -> (
    Option<Result<IdentityView, IdentityErrorView>>,
    CacheFiles,
) {
    run_on_cache(
        StageView::<()>::ReadingCachedCertificate,
        ProvisionActionView::<()>::ReadCached(CacheFile::Certificate),
        cache,
        Some(fresh),
        8,
    )
}

/// Provisioning from the cache is idempotent. A first run ends with an
/// identity; on an empty cache it is the generated one, and it is stored. A
/// second run, on the cache that the first left, ends with the identity of
/// the first, not with a newly generated one, and leaves the cache as it
/// found it.
pub proof fn lemma_provisioning_is_idempotent(
    cache: CacheFiles,
    first: (Seq<u8>, Seq<u8>),
    second: (Seq<u8>, Seq<u8>),
)
    ensures
        ({
            let (first_result, first_cache) = provision_from_cache(cache, first);
            let (second_result, second_cache) = provision_from_cache(first_cache, second);
            &&& first_result matches Some(Ok(identity))
            &&& second_result == first_result
            &&& second_cache == first_cache
            &&& cache.certificate is None ==> first_result == Some(
                Ok::<IdentityView, IdentityErrorView>(
                    IdentityView { private_key: first.1, certificate_chain: seq![first.0] },
                ),
            ) && first_cache == (CacheFiles {
                certificate: Some(first.0),
                private_key: Some(first.1),
            })
        }),
{
    reveal_with_fuel(run_on_cache, 9);
}

} // verus!
