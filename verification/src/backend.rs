//! The trusted boundary to the OpenSSL backend. Every function here is
//! a thin wrapper around one operation of the `openssl` crate; Verus
//! believes the stated contracts and does not read the bodies. Nothing
//! in this module decides anything: the verified callers choose every
//! flag, name, digest and byte that is handed in.

use vstd::prelude::*;
use crate::cert::Digest;

verus! {

#[verifier::external_type_specification]
#[verifier::external_body]
pub struct ExErrorStack(openssl::error::ErrorStack);

#[verifier::external_type_specification]
#[verifier::external_body]
pub struct ExX509(openssl::x509::X509);

#[verifier::external_type_specification]
#[verifier::external_body]
pub struct ExX509Builder(openssl::x509::X509Builder);

#[verifier::external_type_specification]
#[verifier::external_body]
pub struct ExX509Name(openssl::x509::X509Name);

#[verifier::external_type_specification]
#[verifier::external_body]
pub struct ExX509Req(openssl::x509::X509Req);

#[verifier::external_type_specification]
#[verifier::external_body]
#[verifier::reject_recursive_types(T)]
pub struct ExPKey<T>(openssl::pkey::PKey<T>);

#[verifier::external_type_specification]
#[verifier::external_body]
pub struct ExPrivate(openssl::pkey::Private);

/// Relies on `EcGroup::from_curve_name` with the P-256 curve,
/// `EcKey::generate` and `PKey::from_ec_key`: a fresh EC key pair on
/// curve P-256.
#[verifier::external_body]
pub(crate) fn generate_ec_p256_key() -> Result<
    openssl::pkey::PKey<openssl::pkey::Private>,
    openssl::error::ErrorStack,
> {
    let group = openssl::ec::EcGroup::from_curve_name(openssl::nid::Nid::X9_62_PRIME256V1)?;
    let ec = openssl::ec::EcKey::generate(&group)?;
    openssl::pkey::PKey::from_ec_key(ec)
}

/// Relies on `Rsa::generate` with a 2048-bit modulus and
/// `PKey::from_rsa`: a fresh RSA-2048 key pair.
#[verifier::external_body]
pub(crate) fn generate_rsa_2048_key() -> Result<
    openssl::pkey::PKey<openssl::pkey::Private>,
    openssl::error::ErrorStack,
> {
    let rsa = openssl::rsa::Rsa::generate(2048)?;
    openssl::pkey::PKey::from_rsa(rsa)
}

/// Relies on `BigNumRef::rand` with 159 bits and a possibly-zero top
/// bit, and on `BigNumRef::to_vec`, which returns the big-endian
/// magnitude without leading zero bytes: a value below 2^159 takes at
/// most 20 bytes, and a 20-byte magnitude keeps its top bit clear.
#[verifier::external_body]
pub(crate) fn random_serial_bytes() -> (r: Result<Vec<u8>, openssl::error::ErrorStack>)
    ensures
        r matches Ok(b) ==> b@.len() <= 20 && (b@.len() == 20 ==> b@.first() < 0x80),
{
    let mut serial = openssl::bn::BigNum::new()?;
    serial.rand(159, openssl::bn::MsbOption::MAYBE_ZERO, false)?;
    Ok(serial.to_vec())
}

/// Relies on `X509::builder`: an empty certificate builder.
#[verifier::external_body]
pub(crate) fn new_cert_builder() -> Result<openssl::x509::X509Builder, openssl::error::ErrorStack> {
    openssl::x509::X509::builder()
}

/// Relies on `X509Builder::set_version`; the version value is
/// zero-based, so X.509v3 is the value 2.
#[verifier::external_body]
pub(crate) fn set_version(
    builder: &mut openssl::x509::X509Builder,
    version: i32,
) -> Result<(), openssl::error::ErrorStack> {
    builder.set_version(version)
}

/// Relies on `BigNum::from_slice`, which reads a big-endian magnitude as
/// a non-negative integer, on `BigNumRef::to_asn1_integer` and on
/// `X509Builder::set_serial_number`.
#[verifier::external_body]
pub(crate) fn set_serial(
    builder: &mut openssl::x509::X509Builder,
    big_endian: &[u8],
) -> Result<(), openssl::error::ErrorStack> {
    let bn = openssl::bn::BigNum::from_slice(big_endian)?;
    let serial = bn.to_asn1_integer()?;
    builder.set_serial_number(&serial)
}

/// Relies on `X509NameBuilder::new`, `append_entry_by_text` and
/// `build`: an X.509 name holding the one given attribute.
#[verifier::external_body]
pub(crate) fn name_with_entry(
    field: &str,
    value: &str,
) -> Result<openssl::x509::X509Name, openssl::error::ErrorStack> {
    let mut name = openssl::x509::X509NameBuilder::new()?;
    name.append_entry_by_text(field, value)?;
    Ok(name.build())
}

/// Relies on `X509Builder::set_subject_name`.
#[verifier::external_body]
pub(crate) fn set_subject_name(
    builder: &mut openssl::x509::X509Builder,
    name: &openssl::x509::X509Name,
) -> Result<(), openssl::error::ErrorStack> {
    builder.set_subject_name(name)
}

/// Relies on `X509Builder::set_issuer_name`.
#[verifier::external_body]
pub(crate) fn set_issuer_name(
    builder: &mut openssl::x509::X509Builder,
    name: &openssl::x509::X509Name,
) -> Result<(), openssl::error::ErrorStack> {
    builder.set_issuer_name(name)
}

/// Relies on `X509Ref::subject_name` and
/// `X509Builder::set_issuer_name`: the issuer becomes the given
/// certificate's subject name.
#[verifier::external_body]
pub(crate) fn set_issuer_from_cert_subject(
    builder: &mut openssl::x509::X509Builder,
    certificate: &openssl::x509::X509,
) -> Result<(), openssl::error::ErrorStack> {
    builder.set_issuer_name(certificate.subject_name())
}

/// Relies on `X509ReqRef::subject_name` and
/// `X509Builder::set_subject_name`: the subject becomes the signing
/// request's subject name.
#[verifier::external_body]
pub(crate) fn set_subject_from_req(
    builder: &mut openssl::x509::X509Builder,
    request: &openssl::x509::X509Req,
) -> Result<(), openssl::error::ErrorStack> {
    builder.set_subject_name(request.subject_name())
}

/// Relies on `X509ReqRef::subject_name` and
/// `X509Builder::set_issuer_name`: the issuer becomes the signing
/// request's subject name.
#[verifier::external_body]
pub(crate) fn set_issuer_from_req(
    builder: &mut openssl::x509::X509Builder,
    request: &openssl::x509::X509Req,
) -> Result<(), openssl::error::ErrorStack> {
    builder.set_issuer_name(request.subject_name())
}

/// Relies on `X509Builder::set_pubkey`: the certificate embeds the
/// public half of the given key.
#[verifier::external_body]
pub(crate) fn set_pubkey(
    builder: &mut openssl::x509::X509Builder,
    key: &openssl::pkey::PKey<openssl::pkey::Private>,
) -> Result<(), openssl::error::ErrorStack> {
    builder.set_pubkey(key)
}

/// Relies on `Asn1Time::days_from_now` and
/// `X509Builder::set_not_before`: the window opens the given number of
/// whole days from now.
#[verifier::external_body]
pub(crate) fn set_not_before_days_from_now(
    builder: &mut openssl::x509::X509Builder,
    days: u32,
) -> Result<(), openssl::error::ErrorStack> {
    let time = openssl::asn1::Asn1Time::days_from_now(days)?;
    builder.set_not_before(&time)
}

/// Relies on `Asn1Time::days_from_now` and
/// `X509Builder::set_not_after`: the window closes the given number of
/// whole days from now.
#[verifier::external_body]
pub(crate) fn set_not_after_days_from_now(
    builder: &mut openssl::x509::X509Builder,
    days: u32,
) -> Result<(), openssl::error::ErrorStack> {
    let time = openssl::asn1::Asn1Time::days_from_now(days)?;
    builder.set_not_after(&time)
}

/// Relies on the `BasicConstraints` extension builder and
/// `X509Builder::append_extension`: appends basic constraints with
/// exactly the given flags.
#[verifier::external_body]
pub(crate) fn append_basic_constraints(
    builder: &mut openssl::x509::X509Builder,
    ca: bool,
    critical: bool,
) -> Result<(), openssl::error::ErrorStack> {
    let mut bc = openssl::x509::extension::BasicConstraints::new();
    if ca {
        bc.ca();
    }
    if critical {
        bc.critical();
    }
    builder.append_extension(bc.build()?)
}

/// Relies on the `KeyUsage` extension builder and
/// `X509Builder::append_extension`: appends a key-usage extension with
/// exactly the given bits.
#[verifier::external_body]
pub(crate) fn append_key_usage(
    builder: &mut openssl::x509::X509Builder,
    critical: bool,
    digital_signature: bool,
    non_repudiation: bool,
    key_encipherment: bool,
    key_cert_sign: bool,
    crl_sign: bool,
) -> Result<(), openssl::error::ErrorStack> {
    let mut ku = openssl::x509::extension::KeyUsage::new();
    if critical { ku.critical(); }
    if digital_signature { ku.digital_signature(); }
    if non_repudiation { ku.non_repudiation(); }
    if key_encipherment { ku.key_encipherment(); }
    if key_cert_sign { ku.key_cert_sign(); }
    if crl_sign { ku.crl_sign(); }
    builder.append_extension(ku.build()?)
}

/// Relies on the `SubjectKeyIdentifier` extension builder, on
/// `X509Builder::x509v3_context` with the given issuer certificate, and
/// on `append_extension`: the identifier is computed from the builder's
/// own public key.
#[verifier::external_body]
pub(crate) fn append_subject_key_identifier(
    builder: &mut openssl::x509::X509Builder,
    issuer: Option<&openssl::x509::X509>,
) -> Result<(), openssl::error::ErrorStack> {
    let extension = {
        let context = builder.x509v3_context(issuer.map(|c| &**c), None);
        openssl::x509::extension::SubjectKeyIdentifier::new().build(&context)?
    };
    builder.append_extension(extension)
}

/// Relies on the `AuthorityKeyIdentifier` extension builder, whose
/// `keyid` and `issuer` methods take the given flags as their `always`
/// arguments, on `X509Builder::x509v3_context` with the given issuer
/// certificate, and on `append_extension`.
#[verifier::external_body]
pub(crate) fn append_authority_key_identifier(
    builder: &mut openssl::x509::X509Builder,
    keyid: bool,
    issuer_flag: bool,
    issuer: Option<&openssl::x509::X509>,
) -> Result<(), openssl::error::ErrorStack> {
    let extension = {
        let context = builder.x509v3_context(issuer.map(|c| &**c), None);
        openssl::x509::extension::AuthorityKeyIdentifier::new()
            .keyid(keyid)
            .issuer(issuer_flag)
            .build(&context)?
    };
    builder.append_extension(extension)
}

/// Relies on `X509Builder::sign` with `MessageDigest::sha256` or
/// `MessageDigest::sha384`, as the given digest selects.
#[verifier::external_body]
pub(crate) fn sign_builder(
    builder: &mut openssl::x509::X509Builder,
    key: &openssl::pkey::PKey<openssl::pkey::Private>,
    digest: Digest,
) -> Result<(), openssl::error::ErrorStack> {
    let md = match digest {
        Digest::Sha256 => openssl::hash::MessageDigest::sha256(),
        Digest::Sha384 => openssl::hash::MessageDigest::sha384(),
    };
    builder.sign(key, md)
}

/// Relies on `X509Builder::build`: the finished certificate.
#[verifier::external_body]
pub(crate) fn build_certificate_handle(
    builder: openssl::x509::X509Builder,
) -> openssl::x509::X509 {
    builder.build()
}

/// Relies on `X509ReqBuilder`: a certificate signing request carrying
/// the key's public half and the given subject name, self-signed with
/// that same key under the given digest.
#[verifier::external_body]
pub(crate) fn make_csr(
    key: &openssl::pkey::PKey<openssl::pkey::Private>,
    name: &openssl::x509::X509Name,
    digest: Digest,
) -> Result<openssl::x509::X509Req, openssl::error::ErrorStack> {
    let md = match digest {
        Digest::Sha256 => openssl::hash::MessageDigest::sha256(),
        Digest::Sha384 => openssl::hash::MessageDigest::sha384(),
    };
    let mut req = openssl::x509::X509ReqBuilder::new()?;
    req.set_pubkey(key)?;
    req.set_subject_name(name)?;
    req.sign(key, md)?;
    Ok(req.build())
}

/// Relies on `X509::from_pem`: decodes a PEM-encoded certificate.
#[verifier::external_body]
pub(crate) fn x509_from_pem(
    bytes: &[u8],
) -> Result<openssl::x509::X509, openssl::error::ErrorStack> {
    openssl::x509::X509::from_pem(bytes)
}

/// Relies on `X509::from_der`: decodes a DER-encoded certificate.
#[verifier::external_body]
pub(crate) fn x509_from_der(
    bytes: &[u8],
) -> Result<openssl::x509::X509, openssl::error::ErrorStack> {
    openssl::x509::X509::from_der(bytes)
}

/// Relies on `PKey::private_key_from_pem`: decodes a PEM-encoded
/// private key.
#[verifier::external_body]
pub(crate) fn pkey_from_pem(
    bytes: &[u8],
) -> Result<openssl::pkey::PKey<openssl::pkey::Private>, openssl::error::ErrorStack> {
    openssl::pkey::PKey::private_key_from_pem(bytes)
}

/// Relies on `PKey::private_key_from_der`: decodes a DER-encoded
/// private key.
#[verifier::external_body]
pub(crate) fn pkey_from_der(
    bytes: &[u8],
) -> Result<openssl::pkey::PKey<openssl::pkey::Private>, openssl::error::ErrorStack> {
    openssl::pkey::PKey::private_key_from_der(bytes)
}

/// Relies on `X509Ref::subject_name`, `X509NameRef::entries_by_nid`
/// with the common-name identifier, and `Asn1StringRef::as_utf8`: the
/// certificate subject's first common-name attribute as text, if it has
/// one and it is well-formed text.
#[verifier::external_body]
#[allow(deprecated)]
pub(crate) fn subject_cn_of(certificate: &openssl::x509::X509) -> Option<String> {
    let entry = certificate
        .subject_name()
        .entries_by_nid(openssl::nid::Nid::COMMONNAME)
        .next()?;
    match entry.data().as_utf8() {
        Ok(text) => Some(text.to_string()),
        Err(_) => None,
    }
}

/// Relies on `X509Ref::to_pem`: the certificate as a PEM block.
#[verifier::external_body]
pub(crate) fn cert_to_pem(
    certificate: &openssl::x509::X509,
) -> Result<Vec<u8>, openssl::error::ErrorStack> {
    certificate.to_pem()
}

/// Relies on `X509Ref::to_der`: the certificate as raw DER.
#[verifier::external_body]
pub(crate) fn cert_to_der(
    certificate: &openssl::x509::X509,
) -> Result<Vec<u8>, openssl::error::ErrorStack> {
    certificate.to_der()
}

/// Relies on `PKeyRef::private_key_to_pem_pkcs8`: the private key as a
/// PKCS#8 PEM block.
#[verifier::external_body]
pub(crate) fn key_to_pem_pkcs8(
    key: &openssl::pkey::PKey<openssl::pkey::Private>,
) -> Result<Vec<u8>, openssl::error::ErrorStack> {
    key.private_key_to_pem_pkcs8()
}

/// Relies on `PKeyRef::private_key_to_der`: the private key in the
/// backend's native DER form.
#[verifier::external_body]
pub(crate) fn key_to_der(
    key: &openssl::pkey::PKey<openssl::pkey::Private>,
) -> Result<Vec<u8>, openssl::error::ErrorStack> {
    key.private_key_to_der()
}

} // verus!
