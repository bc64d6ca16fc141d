//! The identifier that joins a submission to the later question about it, and
//! the text that callers keep of it.

use crate::blob::Commitment;
use crate::hex_text::{decode, encode, hex_text, lemma_hex_round_trip, parse_hex};
use crate::namespace::{is_namespace, Namespace};
use vstd::prelude::*;
use vstd::string::*;
use vstd::utf8::*;

verus! {

/// The bytes that stand for an identifier: its commitment and its namespace,
/// each as a length-prefixed field, then the height in eight bytes.
pub uninterp spec fn blob_id_bytes(commitment: Seq<u8>, namespace: Seq<u8>, height: u64) -> Seq<u8>;

/// The commitment, namespace and height that `bytes` are read as, where they
/// can be read as an identifier.
pub uninterp spec fn blob_id_parts(bytes: Seq<u8>) -> Option<(Seq<u8>, Seq<u8>, u64)>;

/// The error of `bincode`, carried through unread.
#[verifier::external_type_specification]
#[verifier::external_body]
pub struct ExBincodeErrorKind(bincode::ErrorKind);

/// `bincode::serialize`, on a commitment, a namespace and a height in the
/// network's own types. Trusted: with a namespace that the network knows the
/// call succeeds, its result is the bytes of the three, and those bytes are
/// read back as the same three.
#[verifier::external_body]
fn serialize_parts(commitment: &[u8; 32], namespace: &[u8; 29], height: u64) -> (r: Result<Vec<u8>, Box<bincode::ErrorKind>>)
    ensures
        is_namespace(namespace@) ==> r is Ok,
        r matches Ok(bytes) ==> bytes@ == blob_id_bytes(commitment@, namespace@, height),
        r matches Ok(bytes) ==> blob_id_parts(bytes@) == Some((commitment@, namespace@, height)),
{
    let ns = celestia_types::nmt::Namespace::from_raw(namespace)
        .map_err(|e| Box::new(bincode::ErrorKind::Custom(e.to_string())))?;
    bincode::serialize(&(celestia_types::blob::Commitment(*commitment), ns, height))
}

/// `bincode::deserialize`, to a commitment, a namespace and a height in the
/// network's own types. Trusted: the call succeeds exactly where the bytes can
/// be read as the three, and the namespace it returns is one that the network
/// knows.
#[verifier::external_body]
fn deserialize_parts(bytes: &[u8]) -> (r: Result<([u8; 32], [u8; 29], u64), Box<bincode::ErrorKind>>)
    ensures
        r is Ok <==> blob_id_parts(bytes@) is Some,
        r matches Ok(parts) ==> blob_id_parts(bytes@) == Some((parts.0@, parts.1@, parts.2)),
        r matches Ok(parts) ==> is_namespace(parts.1@),
{
    bincode::deserialize::<(celestia_types::blob::Commitment, celestia_types::nmt::Namespace, u64)>(bytes)
        .map(|(c, n, h)| (c.0, (*n).0, h))
}

/// The durable identifier of a blob that the network has taken: what the blob
/// holds, where it is filed, and the height at which it was included.
#[derive(Clone, Copy, Debug, PartialEq, Eq)]
pub struct BlobId {
    pub commitment: Commitment,
    pub namespace: Namespace,
    pub height: u64,
}

/// An identifier over mathematical sequences.
pub struct BlobIdView {
    pub commitment: Seq<u8>,
    pub namespace: Seq<u8>,
    pub height: u64,
}

impl View for BlobId {
    type V = BlobIdView;

    open spec fn view(&self) -> BlobIdView {
        BlobIdView { commitment: self.commitment@, namespace: self.namespace@, height: self.height }
    }
}

/// Whether `id` is an identifier: a commitment of thirty-two bytes under a
/// namespace that the network knows.
pub open spec fn is_blob_id(id: BlobIdView) -> bool {
    id.commitment.len() == 32 && is_namespace(id.namespace)
}

/// The bytes of an identifier.
pub open spec fn id_bytes(id: BlobIdView) -> Seq<u8> {
    blob_id_bytes(id.commitment, id.namespace, id.height)
}

/// The identifier that `bytes` are read as, where they can be.
pub open spec fn parse_id_bytes(bytes: Seq<u8>) -> Option<BlobIdView> {
    match blob_id_parts(bytes) {
        Some((commitment, namespace, height)) => Some(BlobIdView { commitment, namespace, height }),
        None => None,
    }
}

/// The text that callers keep of an identifier: its bytes in hexadecimal.
pub open spec fn blob_id_text(id: BlobIdView) -> Seq<char> {
    hex_text(id_bytes(id))
}

/// The identifier that a text stands for: the text is hexadecimal, and the
/// bytes it spells can be read as an identifier.
pub open spec fn parse_blob_id(text: Seq<char>) -> Option<BlobIdView> {
    match parse_hex(encode_utf8(text)) {
        Some(bytes) => parse_id_bytes(bytes),
        None => None,
    }
}

impl BlobId {
    /// The bytes of this identifier. They are read back as this identifier.
    pub fn to_bytes(&self) -> (bytes: Vec<u8>)
        ensures
            bytes@ == id_bytes(self@),
            parse_id_bytes(bytes@) == Some(self@),
            is_blob_id(self@),
    {
        let namespace = self.namespace.as_bytes();
        match serialize_parts(&self.commitment.0, namespace, self.height) {
            Ok(bytes) => bytes,
            Err(_) => unreached(),
        }
    }

    /// The identifier that `bytes` are read as, where they can be.
    pub fn from_bytes(bytes: &[u8]) -> (r: Option<BlobId>)
        ensures
            r is Some <==> parse_id_bytes(bytes@) is Some,
            r matches Some(id) ==> parse_id_bytes(bytes@) == Some(id@) && is_blob_id(id@),
    {
        match deserialize_parts(bytes) {
            Ok((commitment, namespace, height)) => Some(
                BlobId {
                    commitment: Commitment(commitment),
                    namespace: Namespace::from_array(namespace),
                    height,
                },
            ),
            Err(_) => None,
        }
    }

    /// The text that callers keep of this identifier. Decoding it gives this
    /// identifier back.
    pub fn encode(&self) -> (text: String)
        ensures
            text@ == blob_id_text(self@),
            parse_blob_id(text@) == Some(self@),
            is_blob_id(self@),
    {
        let bytes = self.to_bytes();
        proof {
            lemma_hex_round_trip(bytes@);
        }
        encode(bytes.as_slice())
    }

    /// The identifier that `text` stands for, where it stands for one.
    pub fn decode(text: &str) -> (r: Option<BlobId>)
        ensures
            r is Some <==> parse_blob_id(text@) is Some,
            r matches Some(id) ==> parse_blob_id(text@) == Some(id@) && is_blob_id(id@),
    {
        match decode(text.as_bytes()) {
            Ok(bytes) => BlobId::from_bytes(bytes.as_slice()),
            Err(_) => None,
        }
    }
}

} // verus!
