//! Loading of an external signer: the certificate and private key that
//! an issuance chains under when it is not self-signed. The caller
//! hands in the raw file bytes; the declared encoding of each file is
//! read from its path's extension alone, with no content sniffing.

use vstd::prelude::*;
use vstd::string::StrSliceExecFns;
use crate::backend;
use crate::crypto::FileFormat;
use crate::error::Error;

verus! {

/// The encoding a path declares: `.pem` or `.der`, or nothing
/// recognized.
pub open spec fn spec_path_encoding(path: Seq<char>) -> Option<FileFormat> {
    if path.len() >= 4 && path.subrange(path.len() - 4, path.len() as int) == seq![
        '.',
        'p',
        'e',
        'm',
    ] {
        Some(FileFormat::Pem)
    } else if path.len() >= 4 && path.subrange(path.len() - 4, path.len() as int) == seq![
        '.',
        'd',
        'e',
        'r',
    ] {
        Some(FileFormat::Der)
    } else {
        None
    }
}

/// Reads the encoding a path declares through its extension.
pub fn path_encoding(path: &str) -> (r: Option<FileFormat>)
    ensures
        r == spec_path_encoding(path@),
{
    let n = path.unicode_len();
    if n < 4 {
        return None;
    }
    let c0 = path.get_char(n - 4);
    let c1 = path.get_char(n - 3);
    let c2 = path.get_char(n - 2);
    let c3 = path.get_char(n - 1);
    proof {
        let tail = path@.subrange(path@.len() - 4, path@.len() as int);
        assert(tail =~= seq![c0, c1, c2, c3]);
        assert(seq!['.', 'p', 'e', 'm'][0] == '.' && seq!['.', 'p', 'e', 'm'][1] == 'p'
            && seq!['.', 'p', 'e', 'm'][2] == 'e' && seq!['.', 'p', 'e', 'm'][3] == 'm');
        assert(seq!['.', 'd', 'e', 'r'][0] == '.' && seq!['.', 'd', 'e', 'r'][1] == 'd'
            && seq!['.', 'd', 'e', 'r'][2] == 'e' && seq!['.', 'd', 'e', 'r'][3] == 'r');
    }
    if c0 == '.' && c1 == 'p' && c2 == 'e' && c3 == 'm' {
        proof {
            assert(seq![c0, c1, c2, c3] =~= seq!['.', 'p', 'e', 'm']);
        }
        Some(FileFormat::Pem)
    } else if c0 == '.' && c1 == 'd' && c2 == 'e' && c3 == 'r' {
        proof {
            assert(seq![c0, c1, c2, c3] =~= seq!['.', 'd', 'e', 'r']);
        }
        Some(FileFormat::Der)
    } else {
        None
    }
}

/// An external signer, loaded for a single signing operation and never
/// mutated: the signer's certificate and private key, with the
/// certificate subject's common name read out once for the issuance
/// logic.
pub struct ExternalSigner {
    pub certificate: openssl::x509::X509,
    pub private_key: openssl::pkey::PKey<openssl::pkey::Private>,
    /// The signer certificate's subject common name, absent when the
    /// certificate carries none.
    pub subject_cn: Option<String>,
}

/// Decodes an external signer from the raw bytes of its two files. The
/// encoding of each file is determined independently from its path's
/// extension; an unrecognized extension on either path is rejected
/// before any decoding, exactly when [`spec_path_encoding`] reads none,
/// and bytes the backend cannot decode are a crypto failure.
pub fn load_signer(
    certificate_path: &str,
    certificate_bytes: &[u8],
    private_key_path: &str,
    private_key_bytes: &[u8],
) -> (r: Result<ExternalSigner, Error>)
    ensures
        (spec_path_encoding(private_key_path@) is None || spec_path_encoding(certificate_path@)
            is None) <==> r == Err::<ExternalSigner, Error>(Error::UnsupportedEncoding),
        r matches Err(e) ==> e == Error::UnsupportedEncoding || e == Error::CryptoFailure,
{
    let key_format = match path_encoding(private_key_path) {
        Some(f) => f,
        None => {
            return Err(Error::UnsupportedEncoding);
        },
    };
    let certificate_format = match path_encoding(certificate_path) {
        Some(f) => f,
        None => {
            return Err(Error::UnsupportedEncoding);
        },
    };
    let decoded_key = match key_format {
        FileFormat::Der => backend::pkey_from_der(private_key_bytes),
        FileFormat::Pem => backend::pkey_from_pem(private_key_bytes),
    };
    let private_key = match decoded_key {
        Ok(k) => k,
        Err(_) => {
            return Err(Error::CryptoFailure);
        },
    };
    let decoded_certificate = match certificate_format {
        FileFormat::Der => backend::x509_from_der(certificate_bytes),
        FileFormat::Pem => backend::x509_from_pem(certificate_bytes),
    };
    let certificate = match decoded_certificate {
        Ok(c) => c,
        Err(_) => {
            return Err(Error::CryptoFailure);
        },
    };
    let subject_cn = backend::subject_cn_of(&certificate);
    Ok(ExternalSigner { certificate, private_key, subject_cn })
}

} // verus!
