//! TLS peer certificates
use vstd::prelude::*;
use crate::route::Route;

verus! {

/// A certificate that a TLS peer presented, in DER form.
#[derive(Debug)]
pub struct Certificate(Vec<u8>);

impl Certificate {
    pub closed spec fn spec_der(&self) -> Seq<u8> {
        self.0@
    }

    /// The DER bytes of the certificate.
    pub fn as_ref(&self) -> (b: &[u8])
        ensures
            b@ == self.spec_der(),
    {
        self.0.as_slice()
    }

    /// The DER bytes of the certificate.
    pub fn into_bytes(self) -> (b: Vec<u8>)
        ensures
            b@ == self.spec_der(),
    {
        self.0
    }
}

/// Extracts the certificates that the TLS peer presented, if any; never
/// rejects.
pub fn peer_certificates(route: &Route) -> (r: Option<Vec<Certificate>>)
    ensures
        match route.spec_peer_certificates() {
            Some(c) => r matches Some(v) && v@.len() == c.len() && forall|i: int|
                0 <= i < c.len() ==> #[trigger] v@[i].spec_der() == c[i],
            None => r is None,
        },
{
    match route.peer_certificates() {
        Some(certs) => {
            let mut out: Vec<Certificate> = Vec::new();
            let mut i: usize = 0;
            while i < certs.len()
                invariant
                    i <= certs@.len(),
                    out@.len() == i,
                    forall|j: int| 0 <= j < i ==> #[trigger] out@[j].spec_der() == certs@[j]@,
                decreases certs@.len() - i,
            {
                out.push(Certificate(certs[i].clone()));
                i = i + 1;
            }
            Some(out)
        },
        None => None,
    }
}

} // verus!
