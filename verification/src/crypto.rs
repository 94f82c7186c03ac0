//! The certificate-issuance engine: key-pair generation, assembly of
//! the X.509 body for a role, signing, and serialization of the
//! finished certificate and its private key.

use vstd::prelude::*;
use vstd::string::StrSliceExecFns;
use crate::backend;
use crate::cert::{Certificate, CertificateInfo, Digest, Role, ValidityWindow, extension_profile,
    spec_extension_profile};
use crate::error::{Error, SignerLoadFailure};
use crate::serial::{SerialNumber, fresh_serial};
use crate::signer::{ExternalSigner, load_signer, spec_path_encoding};

verus! {

/// The byte encoding of the two output artifacts.
#[derive(Clone, Copy, Debug, PartialEq, Eq, Structural)]
pub enum FileFormat {
    Der,
    Pem,
}

/// The asymmetric key algorithm: EC on curve P-256, or RSA with a
/// 2048-bit modulus.
#[derive(Clone, Copy, Debug, PartialEq, Eq, Structural)]
pub enum KeyType {
    Ec,
    Rsa,
}

/// One issuance operation's input, constructed once and immutable.
pub struct Config {
    /// The subject's common name.
    pub common_name: String,
    /// How many whole days from issuance the certificate stays valid.
    pub days_valid: u32,
    pub key_type: KeyType,
    /// Applies identically to the certificate and the private key.
    pub output_format: FileFormat,
    /// The path of an existing signer certificate, present exactly when
    /// not self-signing.
    pub signer_certificate_path: Option<String>,
    /// The path of the signer's private key, present together with the
    /// certificate path.
    pub signer_private_key_path: Option<String>,
    /// True exactly when no external signer is supplied.
    pub self_signed: bool,
}

impl Config {
    /// The invariant the configuration layer establishes before the
    /// engine runs: self-signing exactly when no signer certificate is
    /// named, and the two signer paths named together.
    pub open spec fn wf(self) -> bool {
        &&& self.self_signed <==> self.signer_certificate_path is None
        &&& self.signer_certificate_path is Some <==> self.signer_private_key_path is Some
    }
}

fn str_eq2(s: &str, c0: char, c1: char) -> (r: bool)
    ensures
        r <==> s@ == seq![c0, c1],
{
    proof {
        assert(seq![c0, c1][0] == c0 && seq![c0, c1][1] == c1);
    }
    if s.unicode_len() != 2 {
        return false;
    }
    let r = s.get_char(0) == c0 && s.get_char(1) == c1;
    proof {
        if r {
            assert(s@ =~= seq![c0, c1]);
        }
    }
    r
}

fn str_eq3(s: &str, c0: char, c1: char, c2: char) -> (r: bool)
    ensures
        r <==> s@ == seq![c0, c1, c2],
{
    proof {
        assert(seq![c0, c1, c2][0] == c0 && seq![c0, c1, c2][1] == c1 && seq![c0, c1, c2][2]
            == c2);
    }
    if s.unicode_len() != 3 {
        return false;
    }
    let r = s.get_char(0) == c0 && s.get_char(1) == c1 && s.get_char(2) == c2;
    proof {
        if r {
            assert(s@ =~= seq![c0, c1, c2]);
        }
    }
    r
}

/// What [`resolve_output_format`] returns for a given raw token.
pub open spec fn spec_resolve_output_format(s: Seq<char>) -> Result<FileFormat, Error> {
    if s == seq!['d', 'e', 'r'] {
        Ok(FileFormat::Der)
    } else if s == seq!['p', 'e', 'm'] {
        Ok(FileFormat::Pem)
    } else {
        Err(Error::ConfigurationError)
    }
}

/// Parses the output-format token: `der` or `pem`, anything else being
/// a recoverable configuration error, never an abort.
pub fn resolve_output_format(raw_output_format: Option<&str>) -> (r: Result<FileFormat, Error>)
    ensures
        r == (match raw_output_format {
            Some(s) => spec_resolve_output_format(s@),
            None => Err::<FileFormat, Error>(Error::ConfigurationError),
        }),
{
    match raw_output_format {
        Some(s) => {
            if str_eq3(s, 'd', 'e', 'r') {
                Ok(FileFormat::Der)
            } else if str_eq3(s, 'p', 'e', 'm') {
                Ok(FileFormat::Pem)
            } else {
                Err(Error::ConfigurationError)
            }
        },
        None => Err(Error::ConfigurationError),
    }
}

/// What [`resolve_key_type`] returns for a given raw token.
pub open spec fn spec_resolve_key_type(s: Seq<char>) -> Result<KeyType, Error> {
    if s == seq!['e', 'c'] {
        Ok(KeyType::Ec)
    } else if s == seq!['r', 's', 'a'] {
        Ok(KeyType::Rsa)
    } else {
        Err(Error::ConfigurationError)
    }
}

/// Parses the key-type token: `ec` or `rsa`, anything else being a
/// recoverable configuration error, never an abort.
pub fn resolve_key_type(raw_key_type: Option<&str>) -> (r: Result<KeyType, Error>)
    ensures
        r == (match raw_key_type {
            Some(s) => spec_resolve_key_type(s@),
            None => Err::<KeyType, Error>(Error::ConfigurationError),
        }),
{
    match raw_key_type {
        Some(s) => {
            if str_eq2(s, 'e', 'c') {
                Ok(KeyType::Ec)
            } else if str_eq3(s, 'r', 's', 'a') {
                Ok(KeyType::Rsa)
            } else {
                Err(Error::ConfigurationError)
            }
        },
        None => Err(Error::ConfigurationError),
    }
}

/// A fresh key pair: the private key (which carries its public half)
/// and the algorithm it was generated for. It exists only for one
/// issuance and is never persisted except through [`encode`].
pub struct KeyPair {
    pub key: openssl::pkey::PKey<openssl::pkey::Private>,
    pub key_type: KeyType,
}

/// Generates a fresh key pair of the requested algorithm: EC keys on
/// curve P-256, RSA keys with a 2048-bit modulus.
pub fn generate(key_type: KeyType) -> (r: Result<KeyPair, Error>)
    ensures
        r matches Ok(kp) ==> kp.key_type == key_type,
        r matches Err(e) ==> e == Error::CryptoFailure,
{
    let generated = match key_type {
        KeyType::Ec => backend::generate_ec_p256_key(),
        KeyType::Rsa => backend::generate_rsa_2048_key(),
    };
    match generated {
        Ok(key) => Ok(KeyPair { key, key_type }),
        Err(_) => Err(Error::CryptoFailure),
    }
}

/// A certificate signing request built on the leaf path: it binds the
/// subject name to the key pair through a self-signature and is
/// discarded after the certificate is assembled.
struct Csr {
    req: openssl::x509::X509Req,
    subject_cn: String,
    digest: Digest,
}

/// Builds the leaf path's signing request: the key pair's public key
/// and the configured common name, self-signed with the same private
/// key under SHA-256.
fn mk_request(config: &Config, private_key: &openssl::pkey::PKey<openssl::pkey::Private>) -> (r:
    Result<Csr, Error>)
    ensures
        r matches Ok(c) ==> c.subject_cn@ == config.common_name@ && c.digest == Digest::Sha256,
        r matches Err(e) ==> e == Error::CryptoFailure,
{
    let name = match backend::name_with_entry("CN", config.common_name.as_str()) {
        Ok(n) => n,
        Err(_) => {
            return Err(Error::CryptoFailure);
        },
    };
    let req = match backend::make_csr(private_key, &name, Digest::Sha256) {
        Ok(q) => q,
        Err(_) => {
            return Err(Error::CryptoFailure);
        },
    };
    Ok(Csr { req, subject_cn: config.common_name.clone(), digest: Digest::Sha256 })
}

/// Where the certificate's subject name comes from: a name built
/// directly on the CA path, the signing request on the leaf path.
enum SubjectSource {
    FromName(openssl::x509::X509Name),
    FromRequest(Csr),
}

/// The common-name views of an optional name.
pub open spec fn opt_cn_view(o: Option<String>) -> Option<Seq<char>> {
    match o {
        Some(s) => Some(s@),
        None => None,
    }
}

/// Everything the engine decides on its own about a certificate built
/// from `config` for `role`: the subject is the configured common name,
/// a self-signed certificate is its own issuer, the serial is well
/// formed, the validity window opens at issuance and closes
/// `days_valid` whole days later, the extension set is the role's, and
/// the signature digest is SHA-384.
pub open spec fn spec_built_core(info: CertificateInfo, config: Config, role: Role) -> bool {
    &&& info.role == role
    &&& info.subject_cn@ == config.common_name@
    &&& (config.self_signed ==> opt_cn_view(info.issuer_cn) == Some(config.common_name@))
    &&& info.serial.wf()
    &&& info.validity.not_before_offset_days == 0
    &&& info.validity.not_after_offset_days == config.days_valid
    &&& info.extensions == spec_extension_profile(role)
    &&& info.signature_digest == Digest::Sha384
    &&& info.self_signed == config.self_signed
}

/// When a certificate is issued self-signed, its issuer name is its own
/// subject name.
pub proof fn lemma_self_signed_issuer_is_subject(info: CertificateInfo, config: Config, role: Role)
    requires
        spec_built_core(info, config, role),
        config.self_signed,
    ensures
        opt_cn_view(info.issuer_cn) == Some(info.subject_cn@),
{
}

/// Assembles the X.509 body for `role` and signs it: with the subject's
/// own key when self-signed, with the external signer's key when
/// chained. The issuer name is the subject's own name when self-signed
/// and the signer certificate's subject name when chained; the
/// extension set is exactly what the role determines; the certificate
/// is signed under SHA-384.
pub fn assemble_and_sign(
    config: &Config,
    role: Role,
    key_pair: &KeyPair,
    external: Option<&ExternalSigner>,
    serial: SerialNumber,
) -> (r: Result<Certificate, Error>)
    requires
        serial.wf(),
        config.self_signed <==> external is None,
    ensures
        r matches Ok(c) ==> {
            &&& spec_built_core(c.info, *config, role)
            &&& c.info.serial == serial
            &&& (external matches Some(es) ==> opt_cn_view(c.info.issuer_cn) == opt_cn_view(
                es.subject_cn,
            ))
        },
        r matches Err(e) ==> e == Error::CryptoFailure,
{
    let mut builder = match backend::new_cert_builder() {
        Ok(b) => b,
        Err(_) => {
            return Err(Error::CryptoFailure);
        },
    };
    if backend::set_version(&mut builder, 2).is_err() {
        return Err(Error::CryptoFailure);
    }
    if backend::set_serial(&mut builder, serial.bytes.as_slice()).is_err() {
        return Err(Error::CryptoFailure);
    }
    let subject = match role {
        Role::Ca => {
            let name = match backend::name_with_entry("CN", config.common_name.as_str()) {
                Ok(n) => n,
                Err(_) => {
                    return Err(Error::CryptoFailure);
                },
            };
            SubjectSource::FromName(name)
        },
        Role::Leaf => {
            let csr = match mk_request(config, &key_pair.key) {
                Ok(c) => c,
                Err(e) => {
                    return Err(e);
                },
            };
            SubjectSource::FromRequest(csr)
        },
    };
    let subject_set = match &subject {
        SubjectSource::FromName(name) => backend::set_subject_name(&mut builder, name),
        SubjectSource::FromRequest(csr) => backend::set_subject_from_req(&mut builder, &csr.req),
    };
    if subject_set.is_err() {
        return Err(Error::CryptoFailure);
    }
    if backend::set_pubkey(&mut builder, &key_pair.key).is_err() {
        return Err(Error::CryptoFailure);
    }
    let validity = ValidityWindow::from_days_valid(config.days_valid);
    if backend::set_not_before_days_from_now(&mut builder, validity.not_before_offset_days).is_err()
    {
        return Err(Error::CryptoFailure);
    }
    if backend::set_not_after_days_from_now(&mut builder, validity.not_after_offset_days).is_err() {
        return Err(Error::CryptoFailure);
    }
    let profile = extension_profile(role);
    if backend::append_basic_constraints(
        &mut builder,
        profile.basic_constraints.ca,
        profile.basic_constraints.critical,
    ).is_err() {
        return Err(Error::CryptoFailure);
    }
    if backend::append_key_usage(
        &mut builder,
        profile.key_usage.critical,
        profile.key_usage.digital_signature,
        profile.key_usage.non_repudiation,
        profile.key_usage.key_encipherment,
        profile.key_usage.key_cert_sign,
        profile.key_usage.crl_sign,
    ).is_err() {
        return Err(Error::CryptoFailure);
    }
    let ski_context: Option<&openssl::x509::X509> = match (role, external) {
        (Role::Leaf, Some(es)) => Some(&es.certificate),
        _ => None,
    };
    if backend::append_subject_key_identifier(&mut builder, ski_context).is_err() {
        return Err(Error::CryptoFailure);
    }
    let issuer_set = match external {
        Some(es) => backend::set_issuer_from_cert_subject(&mut builder, &es.certificate),
        None => match &subject {
            SubjectSource::FromName(name) => backend::set_issuer_name(&mut builder, name),
            SubjectSource::FromRequest(csr) => backend::set_issuer_from_req(
                &mut builder,
                &csr.req,
            ),
        },
    };
    if issuer_set.is_err() {
        return Err(Error::CryptoFailure);
    }
    let akid_context: Option<&openssl::x509::X509> = match external {
        Some(es) => Some(&es.certificate),
        None => None,
    };
    if backend::append_authority_key_identifier(
        &mut builder,
        profile.authority_key_identifier.keyid,
        profile.authority_key_identifier.issuer,
        akid_context,
    ).is_err() {
        return Err(Error::CryptoFailure);
    }
    let signed = match external {
        Some(es) => backend::sign_builder(&mut builder, &es.private_key, Digest::Sha384),
        None => backend::sign_builder(&mut builder, &key_pair.key, Digest::Sha384),
    };
    if signed.is_err() {
        return Err(Error::CryptoFailure);
    }
    let handle = backend::build_certificate_handle(builder);
    let issuer_cn: Option<String> = match external {
        Some(es) => match &es.subject_cn {
            Some(cn) => Some(cn.clone()),
            None => None,
        },
        None => Some(config.common_name.clone()),
    };
    let info = CertificateInfo {
        subject_cn: config.common_name.clone(),
        issuer_cn,
        serial,
        validity,
        role,
        extensions: profile,
        signature_digest: Digest::Sha384,
        self_signed: config.self_signed,
    };
    Ok(Certificate { handle, info })
}

/// Serializes the certificate and the private key into the requested
/// encoding: a PEM certificate block and a PKCS#8 PEM key block, or raw
/// DER for both. A pure transformation with no side effects; a backend
/// serialization failure is reported, never a crash.
pub fn encode(certificate: &Certificate, key_pair: &KeyPair, format: FileFormat) -> (r: Result<
    (Vec<u8>, Vec<u8>),
    Error,
>)
    ensures
        r matches Err(e) ==> e == Error::EncodingFailure,
{
    match format {
        FileFormat::Pem => {
            let certificate_bytes = match backend::cert_to_pem(&certificate.handle) {
                Ok(b) => b,
                Err(_) => {
                    return Err(Error::EncodingFailure);
                },
            };
            let private_key_bytes = match backend::key_to_pem_pkcs8(&key_pair.key) {
                Ok(b) => b,
                Err(_) => {
                    return Err(Error::EncodingFailure);
                },
            };
            Ok((certificate_bytes, private_key_bytes))
        },
        FileFormat::Der => {
            let certificate_bytes = match backend::cert_to_der(&certificate.handle) {
                Ok(b) => b,
                Err(_) => {
                    return Err(Error::EncodingFailure);
                },
            };
            let private_key_bytes = match backend::key_to_der(&key_pair.key) {
                Ok(b) => b,
                Err(_) => {
                    return Err(Error::EncodingFailure);
                },
            };
            Ok((certificate_bytes, private_key_bytes))
        },
    }
}

/// The raw bytes of the external signer's two files, read by the
/// caller; the paths that name them stay in the [`Config`].
pub struct SignerBytes {
    pub certificate_bytes: Vec<u8>,
    pub private_key_bytes: Vec<u8>,
}

/// One finished issuance: the serialized certificate and private key,
/// and the built certificate with its verified description.
pub struct IssuedCertificate {
    pub certificate_bytes: Vec<u8>,
    pub private_key_bytes: Vec<u8>,
    pub certificate: Certificate,
}

/// Everything an issuance promises about its outcome, whichever role it
/// ran for: a successful result describes a certificate built from the
/// configuration; a failure is one of the engine's typed failures; an
/// unrecognized signer-file extension is rejected, exactly and only
/// when chaining was requested and an extension is unrecognized.
pub open spec fn spec_issue_post(
    r: Result<IssuedCertificate, Error>,
    config: Config,
    role: Role,
) -> bool {
    &&& (r matches Ok(iss) ==> spec_built_core(iss.certificate.info, config, role))
    &&& (r matches Err(e) ==> (e == Error::CryptoFailure || e == Error::UnsupportedEncoding || e
        == Error::InvalidSignerReference(SignerLoadFailure::Crypto) || e == Error::EncodingFailure))
    &&& (config.self_signed ==> r != Err::<IssuedCertificate, Error>(Error::UnsupportedEncoding))
    &&& (!config.self_signed ==> ((spec_path_encoding(config.signer_private_key_path->Some_0@)
        is None || spec_path_encoding(config.signer_certificate_path->Some_0@) is None) <==> r
        == Err::<IssuedCertificate, Error>(Error::UnsupportedEncoding)))
}

/// Runs one issuance for `role`: loads the external signer if one is
/// named, generates the key pair, draws the serial, assembles and signs
/// the certificate, and serializes both artifacts.
fn issue(config: &Config, role: Role, signer: Option<&SignerBytes>) -> (r: Result<
    IssuedCertificate,
    Error,
>)
    requires
        config.wf(),
        config.self_signed <==> signer is None,
    ensures
        spec_issue_post(r, *config, role),
{
    let external: Option<ExternalSigner> = match signer {
        Some(bytes) => {
            let certificate_path = config.signer_certificate_path.as_ref().unwrap();
            let private_key_path = config.signer_private_key_path.as_ref().unwrap();
            let loaded = load_signer(
                certificate_path.as_str(),
                bytes.certificate_bytes.as_slice(),
                private_key_path.as_str(),
                bytes.private_key_bytes.as_slice(),
            );
            match loaded {
                Ok(es) => Some(es),
                Err(Error::UnsupportedEncoding) => {
                    return Err(Error::UnsupportedEncoding);
                },
                Err(_) => {
                    return Err(Error::InvalidSignerReference(SignerLoadFailure::Crypto));
                },
            }
        },
        None => None,
    };
    let key_pair = match generate(config.key_type) {
        Ok(kp) => kp,
        Err(e) => {
            return Err(e);
        },
    };
    let serial = match fresh_serial() {
        Ok(s) => s,
        Err(e) => {
            return Err(e);
        },
    };
    let certificate = match assemble_and_sign(config, role, &key_pair, external.as_ref(), serial) {
        Ok(c) => c,
        Err(e) => {
            return Err(e);
        },
    };
    let encoded = match encode(&certificate, &key_pair, config.output_format) {
        Ok(p) => p,
        Err(e) => {
            return Err(e);
        },
    };
    Ok(IssuedCertificate {
        certificate_bytes: encoded.0,
        private_key_bytes: encoded.1,
        certificate,
    })
}

/// Makes a CA certificate and private key: critical basic constraints
/// with `ca` set, the certificate- and CRL-signing usages, and the
/// configured subject, serial, validity and output encoding.
pub fn create_ca_certificate(config: &Config, signer: Option<&SignerBytes>) -> (r: Result<
    IssuedCertificate,
    Error,
>)
    requires
        config.wf(),
        config.self_signed <==> signer is None,
    ensures
        spec_issue_post(r, *config, Role::Ca),
{
    issue(config, Role::Ca, signer)
}

/// Makes a leaf certificate and private key: the subject name bound
/// through a SHA-256 self-signed signing request, non-critical basic
/// constraints without `ca`, and the digital-signature,
/// non-repudiation and key-encipherment usages.
pub fn create_certificate(config: &Config, signer: Option<&SignerBytes>) -> (r: Result<
    IssuedCertificate,
    Error,
>)
    requires
        config.wf(),
        config.self_signed <==> signer is None,
    ensures
        spec_issue_post(r, *config, Role::Leaf),
{
    issue(config, Role::Leaf, signer)
}

} // verus!
