//! The failure taxonomy of the issuance engine.

use vstd::prelude::*;

verus! {

/// The underlying reason an external signer's material could not be used,
/// recorded inside [`Error::InvalidSignerReference`].
#[derive(Clone, Copy, Debug, PartialEq, Eq, Structural)]
pub enum SignerLoadFailure {
    /// A signer file could not be read.
    Io,
    /// The signer certificate or private-key bytes could not be decoded.
    Crypto,
}

/// Every way an issuance operation can fail. No failure is retried: each
/// one aborts the whole operation, and no partial artifact is returned.
#[derive(Clone, Copy, Debug, PartialEq, Eq, Structural)]
pub enum Error {
    /// The cryptographic backend rejected an operation (key generation,
    /// signing, extension construction, or decoding).
    CryptoFailure,
    /// A required file could not be read.
    IoFailure,
    /// A signer file's extension is neither `pem` nor `der`.
    UnsupportedEncoding,
    /// The backend could not serialize the certificate or the private key.
    EncodingFailure,
    /// A textual key-type or output-format token was not recognized.
    ConfigurationError,
    /// Chaining was requested but the external signer's material was
    /// missing, unreadable, or undecodable.
    InvalidSignerReference(SignerLoadFailure),
}

impl Error {
    /// What [`Error::message`] returns for each variant.
    pub open spec fn spec_message(self) -> Seq<char> {
        match self {
            Error::CryptoFailure => "the cryptographic backend rejected an operation"@,
            Error::IoFailure => "a required file could not be read"@,
            Error::UnsupportedEncoding => "a signer file's extension is neither pem nor der"@,
            Error::EncodingFailure => "the backend could not serialize the output"@,
            Error::ConfigurationError => "an option held an unrecognized value"@,
            Error::InvalidSignerReference(SignerLoadFailure::Io) => {
                "the external signer's files could not be read"@
            },
            Error::InvalidSignerReference(SignerLoadFailure::Crypto) => {
                "the external signer's material could not be decoded"@
            },
        }
    }

    /// A human-readable description of the failure.
    pub fn message(&self) -> (m: String)
        ensures
            m@ == self.spec_message(),
    {
        match self {
            Error::CryptoFailure => "the cryptographic backend rejected an operation".to_owned(),
            Error::IoFailure => "a required file could not be read".to_owned(),
            Error::UnsupportedEncoding => {
                "a signer file's extension is neither pem nor der".to_owned()
            },
            Error::EncodingFailure => "the backend could not serialize the output".to_owned(),
            Error::ConfigurationError => "an option held an unrecognized value".to_owned(),
            Error::InvalidSignerReference(SignerLoadFailure::Io) => {
                "the external signer's files could not be read".to_owned()
            },
            Error::InvalidSignerReference(SignerLoadFailure::Crypto) => {
                "the external signer's material could not be decoded".to_owned()
            },
        }
    }
}

} // verus!
