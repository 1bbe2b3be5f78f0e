//! Mutual TLS: the certificates of the client.
use vstd::prelude::*;
use crate::route::Route;

verus! {

/// Owned copies of the peer's certificates, as DER bytes.
pub fn peer_certs_into_owned(certs: &Vec<Vec<u8>>) -> (r: Vec<Vec<u8>>)
    ensures
        r@.len() == certs@.len(),
        forall|i: int| 0 <= i < certs@.len() ==> #[trigger] r@[i]@ == certs@[i]@,
{
    let mut out: Vec<Vec<u8>> = Vec::new();
    let mut i: usize = 0;
    while i < certs.len()
        invariant
            i <= certs@.len(),
            out@.len() == i,
            forall|j: int| 0 <= j < i ==> #[trigger] out@[j]@ == certs@[j]@,
        decreases certs@.len() - i,
    {
        out.push(certs[i].clone());
        i = i + 1;
    }
    out
}

/// Extracts the certificates of the client, if it presented any; never
/// rejects.
pub fn peer_certificates(route: &Route) -> (r: Option<Vec<Vec<u8>>>)
    ensures
        match route.spec_peer_certificates() {
            Some(c) => r matches Some(v) && v@.len() == c.len() && forall|i: int|
                0 <= i < c.len() ==> #[trigger] v@[i]@ == c[i],
            None => r is None,
        },
{
    match route.peer_certificates() {
        Some(certs) => Some(peer_certs_into_owned(certs)),
        None => None,
    }
}

} // verus!
