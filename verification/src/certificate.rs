//! Certificate module.
use str0m::change::DtlsCert;
use vstd::prelude::*;

use crate::fingerprint::{Fingerprint, RtcFingerprint, DIGEST_LEN, SHA256};

verus! {

/// A certificate for DTLS, with its key.
#[verifier::external_type_specification]
#[verifier::external_body]
pub struct ExDtlsCert(DtlsCert);

/// The SHA-256 digest of a certificate for DTLS.
pub uninterp spec fn dtls_digest(cert: DtlsCert) -> Seq<u8>;

/// `DtlsCert::new_openssl` of `str0m`, which makes a new key and certifies it. All that is known of
/// the certificate beforehand is how long its SHA-256 digest is; the rest is a matter of chance.
#[verifier::external_body]
fn new_certificate() -> (r: DtlsCert)
    ensures
        dtls_digest(r).len() == 32,
{
    DtlsCert::new_openssl()
}

/// `DtlsCert::fingerprint` of `str0m`: the SHA-256 digest of the certificate, which is all that it
/// depends on.
#[verifier::external_body]
fn dtls_fingerprint(cert: &DtlsCert) -> (r: RtcFingerprint)
    ensures
        r.hash_func@ == SHA256@,
        r.bytes@ == dtls_digest(*cert),
        r.bytes@.len() == 32,
{
    let fp = cert.fingerprint();
    RtcFingerprint { hash_func: fp.hash_func, bytes: fp.bytes }
}

/// `DtlsCert::clone` of `str0m`: another handle on the same certificate.
#[verifier::external_body]
pub(crate) fn copy_certificate(cert: &DtlsCert) -> (r: DtlsCert)
    ensures
        dtls_digest(r) == dtls_digest(*cert),
{
    cert.clone()
}

/// A certificate.
pub struct Certificate {
    inner: DtlsCert,
}

impl Certificate {
    /// The SHA-256 digest of this certificate.
    pub closed spec fn digest(&self) -> Seq<u8> {
        dtls_digest(self.inner)
    }

    /// Generate new certificate.
    ///
    /// Which one is a matter of chance: `fingerprint` tells. It has a digest of full length.
    pub fn generate() -> (r: Certificate)
        ensures
            r.digest().len() == DIGEST_LEN,
    {
        Certificate { inner: new_certificate() }
    }

    /// Returns SHA-256 fingerprint of this certificate.
    pub fn fingerprint(&self) -> (r: Option<Fingerprint>)
        ensures
            r matches Some(fp) && fp@ == self.digest(),
    {
        let fp = dtls_fingerprint(&self.inner);
        Fingerprint::try_from_rtc_dtls(&fp)
    }

    /// Extract the certificate for DTLS from this wrapper.
    pub fn extract(&self) -> (r: DtlsCert)
        ensures
            dtls_digest(r) == self.digest(),
    {
        copy_certificate(&self.inner)
    }
}

} // verus!
