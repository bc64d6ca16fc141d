//! The fingerprint that the network keeps of a blob.

use crate::namespace::{is_namespace, Namespace};
use vstd::prelude::*;

verus! {

/// The share commitment of the blob that holds `data` under `namespace`: the
/// root of the Merkle structure that the network builds over the blob's
/// shares. It is a function of the two and of nothing else.
pub uninterp spec fn share_commitment(namespace: Seq<u8>, data: Seq<u8>) -> Seq<u8>;

/// Whether the network's rules let `data` form a blob: its length fits in 32
/// bits.
pub open spec fn can_form_blob(data: Seq<u8>) -> bool {
    data.len() <= u32::MAX
}

/// `celestia_types::Blob::new`, of which the commitment and the data are kept.
/// Trusted: under a namespace that the network knows the call succeeds exactly
/// on data whose length fits in 32 bits, the commitment it computes is the
/// share commitment of the namespace and the data, and the blob holds the data
/// as given.
#[verifier::external_body]
fn new_blob(namespace: &[u8; 29], data: Vec<u8>) -> (r: Result<([u8; 32], Vec<u8>), celestia_types::Error>)
    ensures
        r is Ok <==> (is_namespace(namespace@) && can_form_blob(data@)),
        r matches Ok(blob) ==> blob.0@ == share_commitment(namespace@, data@),
        r matches Ok(blob) ==> blob.1@ == data@,
{
    celestia_types::nmt::Namespace::from_raw(namespace)
        .and_then(|ns| celestia_types::Blob::new(ns, data))
        .map(|blob| (blob.commitment.0, blob.data))
}

/// The fingerprint of a blob: thirty-two bytes.
#[derive(Clone, Copy, Debug, PartialEq, Eq)]
pub struct Commitment(pub [u8; 32]);

impl View for Commitment {
    type V = Seq<u8>;

    open spec fn view(&self) -> Seq<u8> {
        self.0@
    }
}

impl Commitment {
    /// The commitment of the blob that holds `data` under `namespace`, and the
    /// data handed back; nothing where the data cannot form a blob.
    pub fn from_blob(namespace: &Namespace, data: Vec<u8>) -> (r: Option<(Commitment, Vec<u8>)>)
        ensures
            r is Some <==> can_form_blob(data@),
            r matches Some((commitment, payload)) ==> commitment@ == share_commitment(
                namespace@,
                data@,
            ) && payload@ == data@,
    {
        match new_blob(namespace.as_bytes(), data) {
            Ok((hash, payload)) => Some((Commitment(hash), payload)),
            Err(_) => None,
        }
    }
}

} // verus!
