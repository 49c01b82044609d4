//! Choosing the TLS private key and certificate chain from PEM text.
use vstd::prelude::*;

verus! {

/// The DER bytes of each PKCS#8 private key in a PEM text, in order; `None`
/// when a section does not decode.
pub uninterp spec fn pkcs8_keys_of(pem: Seq<u8>) -> Option<Seq<Seq<u8>>>;

/// The DER bytes of each certificate in a PEM text, in order; `None` when a
/// section does not decode.
pub uninterp spec fn certs_of(pem: Seq<u8>) -> Option<Seq<Seq<u8>>>;

/// Relies on `rustls::internal::pemfile::pkcs8_private_keys`: the keys of the
/// PEM text, read from the bytes alone.
#[verifier::external_body]
fn pkcs8_keys(pem: &[u8]) -> (r: Option<Vec<Vec<u8>>>)
    ensures
        r.deep_view() == pkcs8_keys_of(pem@),
{
    let mut rd: &[u8] = pem;
    rustls::internal::pemfile::pkcs8_private_keys(&mut rd).ok().map(
        |ks| ks.into_iter().map(|k| k.0).collect(),
    )
}

/// Relies on `rustls::internal::pemfile::certs`: the certificates of the PEM
/// text, read from the bytes alone.
#[verifier::external_body]
fn certs(pem: &[u8]) -> (r: Option<Vec<Vec<u8>>>)
    ensures
        r.deep_view() == certs_of(pem@),
{
    let mut rd: &[u8] = pem;
    rustls::internal::pemfile::certs(&mut rd).ok().map(
        |cs| cs.into_iter().map(|c| c.0).collect(),
    )
}

/// Why the server's credentials cannot be loaded.
#[derive(Clone, Copy, Debug, PartialEq, Eq, Structural)]
pub enum CredentialError {
    /// The private key file does not parse.
    KeyUnparseable,
    /// The private key file holds no PKCS#8 key.
    NoKey,
    /// The certificate file does not parse.
    CertsUnparseable,
}

/// What choosing a key from parsed keys gives: the first key.
pub open spec fn chosen_key(keys: Option<Seq<Seq<u8>>>, r: Result<Vec<u8>, CredentialError>) -> bool {
    match keys {
        None => r == Err::<Vec<u8>, CredentialError>(CredentialError::KeyUnparseable),
        Some(ks) => if ks.len() == 0 {
            r == Err::<Vec<u8>, CredentialError>(CredentialError::NoKey)
        } else {
            r matches Ok(k) && k@ == ks[0]
        },
    }
}

/// Takes the first of the keys parsed from the key file.
pub fn choose_key(keys: Option<Vec<Vec<u8>>>) -> (r: Result<Vec<u8>, CredentialError>)
    ensures
        chosen_key(keys.deep_view(), r),
{
    match keys {
        None => Err(CredentialError::KeyUnparseable),
        Some(ks) => {
            if ks.len() == 0 {
                Err(CredentialError::NoKey)
            } else {
                let ghost dv = ks.deep_view();
                let mut ks = ks;
                let k = ks.remove(0);
                assert(dv[0] == k@);
                Ok(k)
            }
        },
    }
}

/// Loads the private key, the first PKCS#8 key of `key_pem`, and the
/// certificate chain, every certificate of `cert_pem`. Key errors come first.
pub fn load_key_and_cert(key_pem: &[u8], cert_pem: &[u8]) -> (r: Result<
    (Vec<u8>, Vec<Vec<u8>>),
    CredentialError,
>)
    ensures
        match pkcs8_keys_of(key_pem@) {
            None => r == Err::<(Vec<u8>, Vec<Vec<u8>>), CredentialError>(
                CredentialError::KeyUnparseable,
            ),
            Some(ks) => if ks.len() == 0 {
                r == Err::<(Vec<u8>, Vec<Vec<u8>>), CredentialError>(CredentialError::NoKey)
            } else {
                match certs_of(cert_pem@) {
                    None => r == Err::<(Vec<u8>, Vec<Vec<u8>>), CredentialError>(
                        CredentialError::CertsUnparseable,
                    ),
                    Some(cs) => r matches Ok((k, c)) && k@ == ks[0] && c.deep_view() == cs,
                }
            },
        },
{
    let key = match choose_key(pkcs8_keys(key_pem)) {
        Ok(k) => k,
        Err(e) => return Err(e),
    };
    match certs(cert_pem) {
        None => Err(CredentialError::CertsUnparseable),
        Some(chain) => Ok((key, chain)),
    }
}

} // verus!
