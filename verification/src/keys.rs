//! Certificates and private keys out of PEM text, as the secure web server
//! loads them.

use vstd::prelude::*;

verus! {

/// Why no certificate or key came out of a PEM text.
#[derive(Clone, Copy, Debug, PartialEq, Eq, Structural)]
pub enum PemError {
    /// The certificates could not be decoded.
    BadCertificates,
    /// The keys could be decoded in neither format.
    BadKeys,
    /// The text was decoded and holds no key.
    NoKeys,
}

/// What `rustls::internal::pemfile::certs` finds in a PEM text: the DER
/// contents of its certificate sections in order, or nothing where a section
/// does not decode.
pub uninterp spec fn certs_in(pem: Seq<u8>) -> Option<Seq<Seq<u8>>>;

/// What `rustls::internal::pemfile::pkcs8_private_keys` finds in a PEM text:
/// the DER contents of its PKCS#8 key sections in order, or nothing where a
/// section does not decode.
pub uninterp spec fn pkcs8_keys_in(pem: Seq<u8>) -> Option<Seq<Seq<u8>>>;

/// What `rustls::internal::pemfile::rsa_private_keys` finds in a PEM text:
/// the DER contents of its RSA key sections in order, or nothing where a
/// section does not decode.
pub uninterp spec fn rsa_keys_in(pem: Seq<u8>) -> Option<Seq<Seq<u8>>>;

/// Calls `rustls::internal::pemfile::certs` on the text. The result is what
/// `certs_in` names, the error turned into `None`.
#[verifier::external_body]
fn pem_certs(pem: &[u8]) -> (certs: Option<Vec<Vec<u8>>>)
    ensures
        certs.deep_view() == certs_in(pem@),
{
    let mut reader: &[u8] = pem;
    match rustls::internal::pemfile::certs(&mut reader) {
        Ok(certs) => Some(certs.into_iter().map(|cert| cert.0).collect()),
        Err(()) => None,
    }
}

/// Calls `rustls::internal::pemfile::pkcs8_private_keys` on the text. The
/// result is what `pkcs8_keys_in` names, the error turned into `None`.
#[verifier::external_body]
fn pem_pkcs8_keys(pem: &[u8]) -> (keys: Option<Vec<Vec<u8>>>)
    ensures
        keys.deep_view() == pkcs8_keys_in(pem@),
{
    let mut reader: &[u8] = pem;
    match rustls::internal::pemfile::pkcs8_private_keys(&mut reader) {
        Ok(keys) => Some(keys.into_iter().map(|key| key.0).collect()),
        Err(()) => None,
    }
}

/// Calls `rustls::internal::pemfile::rsa_private_keys` on the text. The
/// result is what `rsa_keys_in` names, the error turned into `None`.
#[verifier::external_body]
fn pem_rsa_keys(pem: &[u8]) -> (keys: Option<Vec<Vec<u8>>>)
    ensures
        keys.deep_view() == rsa_keys_in(pem@),
{
    let mut reader: &[u8] = pem;
    match rustls::internal::pemfile::rsa_private_keys(&mut reader) {
        Ok(keys) => Some(keys.into_iter().map(|key| key.0).collect()),
        Err(()) => None,
    }
}

/// The certificates to serve: those found, or the failure to decode them.
pub open spec fn certs_choice(found: Option<Seq<Seq<u8>>>) -> Result<Seq<Seq<u8>>, PemError> {
    match found {
        Some(certs) => Ok(certs),
        None => Err(PemError::BadCertificates),
    }
}

/// The key to serve with. The PKCS#8 keys are taken where that format
/// decoded, whether or not it holds a key; only where it did not decode are
/// the RSA keys taken. Of the keys taken the first is chosen.
pub open spec fn key_choice(
    pkcs8: Option<Seq<Seq<u8>>>,
    rsa: Option<Seq<Seq<u8>>>,
) -> Result<Seq<u8>, PemError> {
    let keys = if pkcs8 is Some {
        pkcs8
    } else {
        rsa
    };
    match keys {
        None => Err(PemError::BadKeys),
        Some(keys) => if keys.len() == 0 {
            Err(PemError::NoKeys)
        } else {
            Ok(keys[0])
        },
    }
}

/// Chooses the key to serve with from what the two formats gave.
pub fn select_key(pkcs8: Option<Vec<Vec<u8>>>, rsa: Option<Vec<Vec<u8>>>) -> (key: Result<
    Vec<u8>,
    PemError,
>)
    ensures
        key matches Ok(k) ==> key_choice(pkcs8.deep_view(), rsa.deep_view()) == Ok::<
            Seq<u8>,
            PemError,
        >(k@),
        key matches Err(e) ==> key_choice(pkcs8.deep_view(), rsa.deep_view()) == Err::<
            Seq<u8>,
            PemError,
        >(e),
{
    let keys: Option<Vec<Vec<u8>>> = if pkcs8.is_some() {
        pkcs8
    } else {
        rsa
    };
    match keys {
        None => Err(PemError::BadKeys),
        Some(mut keys) => {
            if keys.len() == 0 {
                Err(PemError::NoKeys)
            } else {
                let ghost all = keys.deep_view();
                let key: Vec<u8> = keys.swap_remove(0);
                proof {
                    assert(key.deep_view() == all[0]);
                    assert(key.deep_view() =~= key@);
                }
                Ok(key)
            }
        },
    }
}

/// Takes the certificates found, or reports that none could be decoded.
pub fn select_certs(found: Option<Vec<Vec<u8>>>) -> (certs: Result<Vec<Vec<u8>>, PemError>)
    ensures
        certs matches Ok(c) ==> certs_choice(found.deep_view()) == Ok::<Seq<Seq<u8>>, PemError>(
            c.deep_view(),
        ),
        certs matches Err(e) ==> certs_choice(found.deep_view()) == Err::<
            Seq<Seq<u8>>,
            PemError,
        >(e),
{
    match found {
        Some(certs) => Ok(certs),
        None => Err(PemError::BadCertificates),
    }
}

/// Reads the certificates out of a PEM text.
pub fn load_certs(pem: &[u8]) -> (certs: Result<Vec<Vec<u8>>, PemError>)
    ensures
        certs matches Ok(c) ==> certs_choice(certs_in(pem@)) == Ok::<Seq<Seq<u8>>, PemError>(
            c.deep_view(),
        ),
        certs matches Err(e) ==> certs_choice(certs_in(pem@)) == Err::<Seq<Seq<u8>>, PemError>(e),
{
    select_certs(pem_certs(pem))
}

/// Reads the private key out of a PEM text: PKCS#8 first, RSA where that
/// does not decode.
pub fn load_private_key(pem: &[u8]) -> (key: Result<Vec<u8>, PemError>)
    ensures
        key matches Ok(k) ==> key_choice(pkcs8_keys_in(pem@), rsa_keys_in(pem@)) == Ok::<
            Seq<u8>,
            PemError,
        >(k@),
        key matches Err(e) ==> key_choice(pkcs8_keys_in(pem@), rsa_keys_in(pem@)) == Err::<
            Seq<u8>,
            PemError,
        >(e),
{
    let pkcs8: Option<Vec<Vec<u8>>> = pem_pkcs8_keys(pem);
    let rsa: Option<Vec<Vec<u8>>> = if pkcs8.is_some() {
        None
    } else {
        pem_rsa_keys(pem)
    };
    select_key(pkcs8, rsa)
}

impl PemError {
    /// The message that goes with the error.
    pub fn message(&self) -> (text: String)
        ensures
            text@ == match *self {
                PemError::BadCertificates => "Failed to parse certificate file"@,
                PemError::BadKeys => "Failed to parse private key file"@,
                PemError::NoKeys => "No private keys found in key file"@,
            },
    {
        match self {
            PemError::BadCertificates => "Failed to parse certificate file".to_owned(),
            PemError::BadKeys => "Failed to parse private key file".to_owned(),
            PemError::NoKeys => "No private keys found in key file".to_owned(),
        }
    }
}

} // verus!
