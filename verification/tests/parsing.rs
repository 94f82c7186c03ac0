//! The typed parse functions, the signer loader's encoding rules, and
//! the failure messages.

use certgen::crypto::{resolve_key_type, resolve_output_format, FileFormat, KeyType};
use certgen::error::{Error, SignerLoadFailure};
use certgen::signer::{load_signer, path_encoding};

#[test]
fn key_type_tokens() {
    assert_eq!(resolve_key_type(Some("ec")), Ok(KeyType::Ec));
    assert_eq!(resolve_key_type(Some("rsa")), Ok(KeyType::Rsa));
    assert_eq!(resolve_key_type(Some("dsa")), Err(Error::ConfigurationError));
    assert_eq!(resolve_key_type(Some("EC")), Err(Error::ConfigurationError));
    assert_eq!(resolve_key_type(Some("")), Err(Error::ConfigurationError));
    assert_eq!(resolve_key_type(None), Err(Error::ConfigurationError));
}

#[test]
fn output_format_tokens() {
    assert_eq!(resolve_output_format(Some("der")), Ok(FileFormat::Der));
    assert_eq!(resolve_output_format(Some("pem")), Ok(FileFormat::Pem));
    assert_eq!(resolve_output_format(Some("txt")), Err(Error::ConfigurationError));
    assert_eq!(resolve_output_format(Some("pemm")), Err(Error::ConfigurationError));
    assert_eq!(resolve_output_format(None), Err(Error::ConfigurationError));
}

#[test]
fn path_encodings() {
    assert_eq!(path_encoding("signer.pem"), Some(FileFormat::Pem));
    assert_eq!(path_encoding("dir/signer.der"), Some(FileFormat::Der));
    assert_eq!(path_encoding("a.b.pem"), Some(FileFormat::Pem));
    assert_eq!(path_encoding("signer.txt"), None);
    assert_eq!(path_encoding("signer.PEM"), None);
    assert_eq!(path_encoding("pem"), None);
    assert_eq!(path_encoding(""), None);
}

#[test]
fn loader_rejects_unknown_extensions_before_decoding() {
    let result = load_signer("signer.pem", b"irrelevant", "signer.txt", b"irrelevant");
    assert!(matches!(result, Err(Error::UnsupportedEncoding)));
    let result = load_signer("signer.doc", b"irrelevant", "signer.pem", b"irrelevant");
    assert!(matches!(result, Err(Error::UnsupportedEncoding)));
}

#[test]
fn loader_reports_undecodable_bytes() {
    let result = load_signer("signer.pem", b"garbage", "signer.pem", b"garbage");
    assert!(matches!(result, Err(Error::CryptoFailure)));
}

#[test]
fn failure_messages_are_distinct() {
    let variants = [
        Error::CryptoFailure,
        Error::IoFailure,
        Error::UnsupportedEncoding,
        Error::EncodingFailure,
        Error::ConfigurationError,
        Error::InvalidSignerReference(SignerLoadFailure::Io),
        Error::InvalidSignerReference(SignerLoadFailure::Crypto),
    ];
    for (i, a) in variants.iter().enumerate() {
        assert!(!a.message().is_empty());
        for b in variants.iter().skip(i + 1) {
            assert_ne!(a.message(), b.message());
        }
    }
}
