//! The certificate installer: turns the issued key and certificate
//! material into the configuration the long-lived TLS listener consumes,
//! rejecting a private key that does not correspond to the leaf
//! certificate.

use vstd::prelude::*;

use crate::errors::ProvisionError;

verus! {

/// The end artifact of a provisioning run, all DER-encoded: the
/// certificate's private key, the leaf certificate, and the issuer's
/// intermediate certificate fetched separately.
#[derive(Clone, Debug, PartialEq, Eq)]
pub struct Certificate {
    pub private_key_der: Vec<u8>,
    pub leaf_der: Vec<u8>,
    pub intermediate_der: Vec<u8>,
}

/// The configuration handed to the TLS listener: the private key and the
/// certificate chain, leaf first.
#[derive(Clone, Debug, PartialEq, Eq)]
pub struct TlsConfig {
    pub private_key_der: Vec<u8>,
    pub chain_der: Vec<Vec<u8>>,
}

/// Whether the DER-encoded private key and the DER-encoded certificate
/// hold matching key material: both parse, and the certificate's public
/// key is the public part of the private key.
pub uninterp spec fn key_matches_cert(key_der: Seq<u8>, cert_der: Seq<u8>) -> bool;

/// Relies on openssl: `PKey::private_key_from_der`, `X509::from_der`,
/// `X509::public_key` and `PKeyRef::public_eq` (`EVP_PKEY_cmp`) together
/// decide, from the two DER byte strings alone, whether the certificate's
/// public key matches the private key; a string that does not parse
/// matches nothing.
#[verifier::external_body]
fn check_key_matches_cert(key_der: &Vec<u8>, cert_der: &Vec<u8>) -> (r: bool)
    ensures
        r == key_matches_cert(key_der@, cert_der@),
{
    match (
        openssl::pkey::PKey::private_key_from_der(key_der),
        openssl::x509::X509::from_der(cert_der),
    ) {
        (Ok(key), Ok(cert)) => match cert.public_key() {
            Ok(cert_key) => cert_key.public_eq(&key),
            Err(_) => false,
        },
        _ => false,
    }
}

/// A byte-for-byte copy.
fn copy_bytes(v: &Vec<u8>) -> (r: Vec<u8>)
    ensures
        r@ == v@,
{
    let mut r: Vec<u8> = Vec::new();
    let mut i: usize = 0;
    while i < v.len()
        invariant
            i <= v@.len(),
            r@ == v@.take(i as int),
        decreases v@.len() - i,
    {
        r.push(v[i]);
        proof {
            assert(v@.take(i as int).push(v@[i as int]) =~= v@.take(i as int + 1));
        }
        i = i + 1;
    }
    proof {
        assert(v@.take(v@.len() as int) =~= v@);
    }
    r
}

/// Builds the listener configuration from the issued material and the
/// outcome of the key/certificate consistency check: with a matching
/// pair it carries the private key and the chain, leaf first then the
/// intermediate; a mismatched pair is rejected.
pub fn assemble_config(cert: &Certificate, key_matches: bool) -> (r: Result<
    TlsConfig,
    ProvisionError,
>)
    ensures
        r is Ok <==> key_matches,
        r is Ok ==> r->Ok_0.private_key_der@ == cert.private_key_der@
            && r->Ok_0.chain_der@.len() == 2 && r->Ok_0.chain_der@[0]@ == cert.leaf_der@
            && r->Ok_0.chain_der@[1]@ == cert.intermediate_der@,
        r is Err ==> r->Err_0 == ProvisionError::KeyCertMismatch,
{
    if key_matches {
        let mut chain_der: Vec<Vec<u8>> = Vec::new();
        chain_der.push(copy_bytes(&cert.leaf_der));
        chain_der.push(copy_bytes(&cert.intermediate_der));
        Ok(TlsConfig { private_key_der: copy_bytes(&cert.private_key_der), chain_der })
    } else {
        Err(ProvisionError::KeyCertMismatch)
    }
}

/// Converts the issued material into the listener configuration. The
/// conversion succeeds exactly when the private key corresponds to the
/// leaf certificate; a mismatched pair is rejected with
/// `KeyCertMismatch`, never installed.
pub fn install(cert: &Certificate) -> (r: Result<TlsConfig, ProvisionError>)
    ensures
        r is Ok <==> key_matches_cert(cert.private_key_der@, cert.leaf_der@),
        r is Ok ==> r->Ok_0.private_key_der@ == cert.private_key_der@
            && r->Ok_0.chain_der@.len() == 2 && r->Ok_0.chain_der@[0]@ == cert.leaf_der@
            && r->Ok_0.chain_der@[1]@ == cert.intermediate_der@,
        r is Err ==> r->Err_0 == ProvisionError::KeyCertMismatch,
{
    let key_matches = check_key_matches_cert(&cert.private_key_der, &cert.leaf_der);
    assemble_config(cert, key_matches)
}

} // verus!
