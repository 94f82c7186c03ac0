//! The in-memory model of a certificate: its role, the digest it is
//! signed with, the extension set its role determines, its validity
//! window, and the plain description of a built certificate.

use vstd::prelude::*;
use crate::serial::SerialNumber;

verus! {

/// The role a certificate is issued for.
#[derive(Clone, Copy, Debug, PartialEq, Eq, Structural)]
pub enum Role {
    /// A certificate authority: authorized to sign other certificates.
    Ca,
    /// An end-entity certificate.
    Leaf,
}

/// The digest algorithms the engine signs with. Certificates are always
/// signed with SHA-384; the leaf path's signing request with SHA-256.
#[derive(Clone, Copy, Debug, PartialEq, Eq, Structural)]
pub enum Digest {
    Sha256,
    Sha384,
}

/// The basic-constraints extension: whether the subject is a CA, and
/// whether the extension is marked critical.
#[derive(Clone, Copy, Debug, PartialEq, Eq, Structural)]
pub struct BasicConstraintsProfile {
    pub ca: bool,
    pub critical: bool,
}

/// The key-usage bits a certificate asserts, and the extension's
/// criticality.
#[derive(Clone, Copy, Debug, PartialEq, Eq, Structural)]
pub struct KeyUsageProfile {
    pub critical: bool,
    pub digital_signature: bool,
    pub non_repudiation: bool,
    pub key_encipherment: bool,
    pub key_cert_sign: bool,
    pub crl_sign: bool,
}

/// The authority-key-identifier extension's requested sub-fields: the
/// key-id hint and the issuer/serial hint. The engine disables both, so
/// the extension is present in its minimal form; this omits the usual
/// chain-linking hint and is kept deliberately for compatibility.
#[derive(Clone, Copy, Debug, PartialEq, Eq, Structural)]
pub struct AuthorityKeyIdentifierProfile {
    pub keyid: bool,
    pub issuer: bool,
}

/// The full extension set of a certificate, in the order the engine
/// appends them: basic constraints, key usage, subject key identifier,
/// authority key identifier.
#[derive(Clone, Copy, Debug, PartialEq, Eq, Structural)]
pub struct ExtensionProfile {
    pub basic_constraints: BasicConstraintsProfile,
    pub key_usage: KeyUsageProfile,
    pub subject_key_identifier: bool,
    pub authority_key_identifier: AuthorityKeyIdentifierProfile,
}

/// The extension set that a role determines. A CA certificate carries
/// critical basic constraints with `ca` set and the certificate- and
/// CRL-signing usages; a leaf carries non-critical basic constraints
/// without `ca` and the digital-signature, non-repudiation and
/// key-encipherment usages. Both carry a subject key identifier and the
/// minimal authority key identifier.
pub open spec fn spec_extension_profile(role: Role) -> ExtensionProfile {
    match role {
        Role::Ca => ExtensionProfile {
            basic_constraints: BasicConstraintsProfile { ca: true, critical: true },
            key_usage: KeyUsageProfile {
                critical: true,
                digital_signature: false,
                non_repudiation: false,
                key_encipherment: false,
                key_cert_sign: true,
                crl_sign: true,
            },
            subject_key_identifier: true,
            authority_key_identifier: AuthorityKeyIdentifierProfile {
                keyid: false,
                issuer: false,
            },
        },
        Role::Leaf => ExtensionProfile {
            basic_constraints: BasicConstraintsProfile { ca: false, critical: false },
            key_usage: KeyUsageProfile {
                critical: true,
                digital_signature: true,
                non_repudiation: true,
                key_encipherment: true,
                key_cert_sign: false,
                crl_sign: false,
            },
            subject_key_identifier: true,
            authority_key_identifier: AuthorityKeyIdentifierProfile {
                keyid: false,
                issuer: false,
            },
        },
    }
}

/// The executable extension table, pinned to [`spec_extension_profile`].
pub fn extension_profile(role: Role) -> (p: ExtensionProfile)
    ensures
        p == spec_extension_profile(role),
{
    match role {
        Role::Ca => ExtensionProfile {
            basic_constraints: BasicConstraintsProfile { ca: true, critical: true },
            key_usage: KeyUsageProfile {
                critical: true,
                digital_signature: false,
                non_repudiation: false,
                key_encipherment: false,
                key_cert_sign: true,
                crl_sign: true,
            },
            subject_key_identifier: true,
            authority_key_identifier: AuthorityKeyIdentifierProfile {
                keyid: false,
                issuer: false,
            },
        },
        Role::Leaf => ExtensionProfile {
            basic_constraints: BasicConstraintsProfile { ca: false, critical: false },
            key_usage: KeyUsageProfile {
                critical: true,
                digital_signature: true,
                non_repudiation: true,
                key_encipherment: true,
                key_cert_sign: false,
                crl_sign: false,
            },
            subject_key_identifier: true,
            authority_key_identifier: AuthorityKeyIdentifierProfile {
                keyid: false,
                issuer: false,
            },
        },
    }
}

/// The role determines the extension set deterministically: a CA-role
/// certificate always carries basic constraints with `ca` set together
/// with the certificate- and CRL-signing usages, and a leaf-role
/// certificate always carries basic constraints without `ca`, the
/// digital-signature, key-encipherment and non-repudiation usages, and
/// never the certificate-signing usage.
pub proof fn lemma_role_determines_extensions(role: Role)
    ensures
        role == Role::Ca ==> {
            &&& spec_extension_profile(role).basic_constraints.ca
            &&& spec_extension_profile(role).basic_constraints.critical
            &&& spec_extension_profile(role).key_usage.key_cert_sign
            &&& spec_extension_profile(role).key_usage.crl_sign
        },
        role == Role::Leaf ==> {
            &&& !spec_extension_profile(role).basic_constraints.ca
            &&& spec_extension_profile(role).key_usage.digital_signature
            &&& spec_extension_profile(role).key_usage.key_encipherment
            &&& spec_extension_profile(role).key_usage.non_repudiation
            &&& !spec_extension_profile(role).key_usage.key_cert_sign
        },
{
}

/// A certificate's validity window, as whole-day offsets from the moment
/// of issuance.
#[derive(Clone, Copy, Debug, PartialEq, Eq, Structural)]
pub struct ValidityWindow {
    pub not_before_offset_days: u32,
    pub not_after_offset_days: u32,
}

impl ValidityWindow {
    /// The window the engine gives every certificate: it becomes valid at
    /// issuance and stays valid for `days_valid` days, so the window's
    /// length is exactly `days_valid` whole days. A `days_valid` of zero
    /// is accepted and yields a certificate valid only at the issuance
    /// instant.
    pub fn from_days_valid(days_valid: u32) -> (w: ValidityWindow)
        ensures
            w.not_before_offset_days == 0,
            w.not_after_offset_days == days_valid,
            w.not_after_offset_days - w.not_before_offset_days == days_valid,
    {
        ValidityWindow { not_before_offset_days: 0, not_after_offset_days: days_valid }
    }
}

/// The plain description of a built certificate: everything the engine
/// decided about it, stated over values Verus can reason about.
pub struct CertificateInfo {
    /// The single common-name attribute of the subject.
    pub subject_cn: String,
    /// The issuer's common name: the subject's own when self-signed, the
    /// external signer certificate's when chained, absent when the signer
    /// certificate carries no common name.
    pub issuer_cn: Option<String>,
    /// The random serial number, as a non-negative big-endian integer.
    pub serial: SerialNumber,
    pub validity: ValidityWindow,
    pub role: Role,
    pub extensions: ExtensionProfile,
    /// The digest the certificate is signed with.
    pub signature_digest: Digest,
    /// Whether the certificate was signed with its own key.
    pub self_signed: bool,
}

/// A built and signed certificate: the backend's handle together with
/// the verified description of what was put into it.
pub struct Certificate {
    pub handle: openssl::x509::X509,
    pub info: CertificateInfo,
}

} // verus!
