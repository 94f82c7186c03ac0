//! Issuance of X.509 certificates and their asymmetric key pairs.
//!
//! The library builds a certificate for one of two roles (certificate
//! authority or leaf), either self-signed or chained under an existing
//! signer, and serializes the certificate and its private key to PEM or
//! DER. The cryptographic backend is OpenSSL; every call into it stands
//! behind a small trusted wrapper in [`backend`], and the logic that
//! decides what the certificate holds is verified.

pub mod backend;
pub mod cert;
pub mod crypto;
pub mod error;
pub mod serial;
pub mod signer;
