//! The partition of the network that a blob is filed under.

use vstd::prelude::*;

verus! {

/// Whether `bytes` are a namespace that the network knows: version 0 with an
/// id that starts with eighteen zero bytes, or version 255 with an id that
/// starts with twenty-seven bytes of 255.
pub open spec fn is_namespace(bytes: Seq<u8>) -> bool {
    &&& bytes.len() == 29
    &&& {
        ||| bytes[0] == 0 && forall|i: int| 1 <= i < 19 ==> #[trigger] bytes[i] == 0
        ||| bytes[0] == 255 && forall|i: int| 1 <= i < 28 ==> #[trigger] bytes[i] == 255
    }
}

/// Whether `id` can name a version-0 namespace: a suffix of at most ten bytes,
/// or a full id of twenty-eight that starts with eighteen zero bytes.
pub open spec fn is_v0_id(id: Seq<u8>) -> bool {
    ||| id.len() <= 10
    ||| id.len() == 28 && forall|i: int| 0 <= i < 18 ==> #[trigger] id[i] == 0
}

/// The version-0 namespace that `id` names: its last ten bytes at most, behind
/// as many zero bytes as fill the twenty-nine.
pub open spec fn v0_namespace(id: Seq<u8>) -> Seq<u8>
    recommends
        is_v0_id(id),
{
    let suffix = if id.len() == 28 {
        id.subrange(18, 28)
    } else {
        id
    };
    Seq::new(
        29,
        |i: int|
            if i < 29 - suffix.len() {
                0u8
            } else {
                suffix[i - (29 - suffix.len())]
            },
    )
}

/// The error of `celestia_types`, carried through unread.
#[verifier::external_type_specification]
#[verifier::external_body]
pub struct ExCelestiaError(celestia_types::Error);

/// `celestia_types::nmt::Namespace::new_v0`. Trusted: the call takes a suffix
/// of at most ten bytes or a full id with eighteen leading zero bytes, refuses
/// every other id, and pads the suffix with zero bytes on the left.
#[verifier::external_body]
fn namespace_v0(id: &[u8]) -> (r: Result<[u8; 29], celestia_types::Error>)
    ensures
        r is Ok <==> is_v0_id(id@),
        r matches Ok(bytes) ==> bytes@ == v0_namespace(id@),
{
    celestia_types::nmt::Namespace::new_v0(id).map(|ns| (*ns).0)
}

/// `celestia_types::nmt::Namespace::from_raw`. Trusted: the call takes exactly
/// the twenty-nine bytes of a version-0 or version-255 namespace and hands
/// them back unchanged.
#[verifier::external_body]
fn namespace_from_raw(bytes: &[u8]) -> (r: Result<[u8; 29], celestia_types::Error>)
    ensures
        r is Ok <==> is_namespace(bytes@),
        r matches Ok(raw) ==> raw@ == bytes@,
{
    celestia_types::nmt::Namespace::from_raw(bytes).map(|ns| (*ns).0)
}

/// A namespace of the network. Every value of this type is one that the
/// network knows.
#[derive(Clone, Copy, Debug, PartialEq, Eq)]
pub struct Namespace {
    bytes: [u8; 29],
}

impl View for Namespace {
    type V = Seq<u8>;

    closed spec fn view(&self) -> Seq<u8> {
        self.bytes@
    }
}

impl Namespace {
    #[verifier::type_invariant]
    spec fn valid(self) -> bool {
        is_namespace(self.bytes@)
    }

    /// Whether this value is a namespace that the network knows. It holds of
    /// every value that the functions of this library hand out.
    pub open spec fn wf(self) -> bool {
        is_namespace(self@)
    }

    /// The version-0 namespace that `id` names, unless `id` names none.
    pub fn new_v0(id: &[u8]) -> (r: Option<Namespace>)
        ensures
            r is Some <==> is_v0_id(id@),
            r matches Some(ns) ==> ns@ == v0_namespace(id@) && ns.wf(),
    {
        match namespace_v0(id) {
            Ok(bytes) => {
                proof {
                    lemma_v0_namespace_is_namespace(id@);
                }
                Some(Namespace { bytes })
            },
            Err(_) => None,
        }
    }

    /// The namespace with these twenty-nine bytes, unless they are none.
    pub fn from_raw(bytes: &[u8]) -> (r: Option<Namespace>)
        ensures
            r is Some <==> is_namespace(bytes@),
            r matches Some(ns) ==> ns@ == bytes@ && ns.wf(),
    {
        match namespace_from_raw(bytes) {
            Ok(raw) => Some(Namespace { bytes: raw }),
            Err(_) => None,
        }
    }

    /// The namespace with these bytes, which are known to be one.
    pub(crate) fn from_array(bytes: [u8; 29]) -> (ns: Namespace)
        requires
            is_namespace(bytes@),
        ensures
            ns@ == bytes@,
    {
        Namespace { bytes }
    }

    /// The twenty-nine bytes: the version, then the id.
    pub fn as_bytes(&self) -> (bytes: &[u8; 29])
        ensures
            bytes@ == self@,
            self.wf(),
    {
        proof {
            use_type_invariant(self);
        }
        &self.bytes
    }
}

/// A version-0 namespace made of a suffix or of a full id is a namespace.
pub proof fn lemma_v0_namespace_is_namespace(id: Seq<u8>)
    requires
        is_v0_id(id),
    ensures
        is_namespace(v0_namespace(id)),
        v0_namespace(id)[0] == 0,
{
}

} // verus!
