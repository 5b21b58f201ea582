//! The shared certificate store.
//!
//! The TLS handshake layer queries this store on every inbound
//! connection; the background driver is its only writer. It holds the
//! current best certificate for the configured domain set, and, during a
//! validation window, the self-signed challenge certificates keyed by SNI
//! name. A certificate is always installed and observed as one value —
//! private key and chain together — never field by field, so a reader
//! racing an update can only ever see the old certificate or the new one
//! whole.

use vstd::prelude::*;

use crate::kvmap::KvMap;

verus! {

/// A certificate as the TLS layer serves it: the private key and the
/// certificate chain, carried as one value.
#[derive(PartialEq, Eq, Debug)]
pub struct Certificate {
    pub key: Vec<u8>,
    pub chain: Vec<u8>,
}

/// The mapping from SNI name to the certificate to present, shared
/// between the driver (writer) and the accept path (readers).
pub struct CertificateResolver {
    certificate: Option<Certificate>,
    challenges: KvMap<Certificate>,
}

impl CertificateResolver {
    /// The current best certificate for the configured domain set.
    pub closed spec fn spec_certificate(&self) -> Option<Certificate> {
        self.certificate
    }

    /// The challenge certificates, keyed by SNI name.
    pub closed spec fn spec_challenges(&self) -> Map<Seq<char>, Certificate> {
        self.challenges@
    }

    /// An empty resolver: no certificate yet, no pending challenges.
    pub fn new() -> (r: Self)
        ensures
            r.spec_certificate() is None,
            r.spec_challenges() == Map::<Seq<char>, Certificate>::empty(),
    {
        CertificateResolver { certificate: None, challenges: KvMap::new() }
    }

    /// A resolver seeded from the certificate found in the cache, if any.
    pub fn seeded(certificate: Option<Certificate>) -> (r: Self)
        ensures
            r.spec_certificate() == certificate,
            r.spec_challenges() == Map::<Seq<char>, Certificate>::empty(),
    {
        CertificateResolver { certificate, challenges: KvMap::new() }
    }

    /// Install a newly issued certificate, replacing the previous one as
    /// a whole.
    pub fn set_certificate(&mut self, certificate: Certificate)
        ensures
            final(self).spec_certificate() == Some(certificate),
            final(self).spec_challenges() == old(self).spec_challenges(),
    {
        self.certificate = Some(certificate);
    }

    /// Publish the challenge certificate to present for `sni` while its
    /// validation is pending.
    pub fn set_challenge(&mut self, sni: String, certificate: Certificate)
        ensures
            final(self).spec_certificate() == old(self).spec_certificate(),
            final(self).spec_challenges() == old(self).spec_challenges().insert(
                sni@,
                certificate,
            ),
    {
        self.challenges.set(sni, certificate);
    }

    /// Drop every pending challenge certificate; the validation window is
    /// over.
    pub fn clear_challenges(&mut self)
        ensures
            final(self).spec_certificate() == old(self).spec_certificate(),
            final(self).spec_challenges() == Map::<Seq<char>, Certificate>::empty(),
    {
        self.challenges.clear();
    }

    /// The certificate to present for a handshake: the challenge
    /// certificate of the requested SNI name when the connection
    /// negotiated the validation protocol, the current certificate
    /// otherwise.
    pub fn resolve(&self, sni: &String, validation: bool) -> (r: Option<&Certificate>)
        ensures
            validation ==> (match r {
                Some(c) => self.spec_challenges().contains_key(sni@) && *c
                    == self.spec_challenges()[sni@],
                None => !self.spec_challenges().contains_key(sni@),
            }),
            !validation ==> (match self.spec_certificate() {
                Some(c) => (r matches Some(rc) && *rc == c),
                None => r is None,
            }),
    {
        if validation {
            self.challenges.get(sni)
        } else {
            self.certificate.as_ref()
        }
    }
}

/// Installing a certificate swaps one whole value: a reader that races
/// the update — it queries the resolver as it was before the swap or as
/// it is after — observes the old certificate or the new one, each with
/// its own key and chain together; no observable value pairs the key of
/// one certificate with the chain of the other.
pub proof fn lemma_certificate_swap_atomic(
    before: CertificateResolver,
    after: CertificateResolver,
    cold: Certificate,
    cnew: Certificate,
    observed: Option<Certificate>,
)
    requires
        before.spec_certificate() == Some(cold),
        after.spec_certificate() == Some(cnew),
        observed == before.spec_certificate() || observed == after.spec_certificate(),
    ensures
        (observed matches Some(c) ==> c == cold || c == cnew),
        (observed matches Some(c) ==> (c.key == cold.key && c.chain == cold.chain) || (c.key
            == cnew.key && c.chain == cnew.chain)),
{
}

} // verus!
