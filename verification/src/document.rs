//! Resolved documents: the state of an identifier at one point of the ledger.

use crate::address::Address;
use crate::hexbytes::same_bytes;
use vstd::prelude::*;

verus! {

/// What the registry reports for an identifier, as the resolver hands it
/// over.
#[derive(Debug)]
pub struct Resolution {
    /// The address that controls the identifier.
    pub controller: Address,
    /// The installation keys registered so far.
    pub installations: Vec<Vec<u8>>,
    /// Whether the identifier has been deactivated.
    pub deactivated: bool,
    /// The height of the block at which the registry was read.
    pub block_height: u64,
}

/// A document as plain values.
pub struct Snapshot {
    pub controller: Seq<u8>,
    pub installations: Set<Seq<u8>>,
    pub active: bool,
    pub version: u64,
}

/// The set of keys that a list of keys holds.
pub open spec fn key_set(keys: Seq<Vec<u8>>) -> Set<Seq<u8>> {
    Set::new(|k: Seq<u8>| exists|i: int| 0 <= i < keys.len() && (#[trigger] keys[i])@ == k)
}

/// The document that a resolution describes.
pub open spec fn snapshot_of(r: Resolution) -> Snapshot {
    Snapshot {
        controller: r.controller@,
        installations: key_set(r.installations@),
        active: !r.deactivated,
        version: r.block_height,
    }
}

/// Whether two documents are equal in every field but the version marker.
pub open spec fn same_content(a: Snapshot, b: Snapshot) -> bool {
    &&& a.controller == b.controller
    &&& a.installations == b.installations
    &&& a.active == b.active
}

/// Two resolutions between which the registry was not written report the
/// same controller, keys and deactivation; the documents made of them are
/// then equal in every field but the version marker.
pub proof fn lemma_resolution_repeatable(first: Resolution, second: Resolution)
    requires
        first.controller@ == second.controller@,
        key_set(first.installations@) == key_set(second.installations@),
        first.deactivated == second.deactivated,
    ensures
        same_content(snapshot_of(first), snapshot_of(second)),
{
}

/// Equality but for the version marker is an equivalence.
pub proof fn lemma_same_content_equivalence(a: Snapshot, b: Snapshot, c: Snapshot)
    ensures
        same_content(a, a),
        same_content(a, b) ==> same_content(b, a),
        same_content(a, b) && same_content(b, c) ==> same_content(a, c),
{
}

/// The resolved state of an identifier. A document is made from a resolution
/// and never changed afterwards.
#[derive(Debug)]
pub struct DidDocument {
    controller: Address,
    installations: Vec<Vec<u8>>,
    active: bool,
    version: u64,
}

impl View for DidDocument {
    type V = Snapshot;

    closed spec fn view(&self) -> Snapshot {
        Snapshot {
            controller: self.controller@,
            installations: key_set(self.installations@),
            active: self.active,
            version: self.version,
        }
    }
}

impl DidDocument {
    /// The document that a resolution describes.
    pub fn from_resolution(resolution: Resolution) -> (document: DidDocument)
        ensures
            document@ == snapshot_of(resolution),
    {
        DidDocument {
            controller: resolution.controller,
            installations: resolution.installations,
            active: !resolution.deactivated,
            version: resolution.block_height,
        }
    }

    /// Whether the identifier was active when the document was resolved.
    pub fn is_active(&self) -> (active: bool)
        ensures
            active == self@.active,
    {
        self.active
    }

    /// The address that controls the identifier.
    pub fn controller(&self) -> (controller: Address)
        ensures
            controller@ == self@.controller,
    {
        self.controller
    }

    /// The height of the block at which the document was resolved.
    pub fn version(&self) -> (version: u64)
        ensures
            version == self@.version,
    {
        self.version
    }

    /// Whether this document was resolved at a lower block than `other`, so
    /// that `other` is the one to go by.
    pub fn is_stale_against(&self, other: &DidDocument) -> (stale: bool)
        ensures
            stale == (self@.version < other@.version),
    {
        self.version < other.version
    }

    /// Whether the given installation key is registered in the document.
    pub fn has_installation(&self, key: &[u8]) -> (found: bool)
        ensures
            found == self@.installations.contains(key@),
    {
        let mut i: usize = 0;
        while i < self.installations.len()
            invariant
                i <= self.installations@.len(),
                forall|j: int| 0 <= j < i ==> (#[trigger] self.installations@[j])@ != key@,
            decreases self.installations@.len() - i,
        {
            if same_bytes(self.installations[i].as_slice(), key) {
                assert(self.installations@[i as int]@ == key@);
                return true;
            }
            i += 1;
        }
        false
    }

    /// Whether two documents are equal in every field but the version
    /// marker. The keys are compared as sets: neither their order nor a
    /// repeated key counts.
    pub fn same_content_as(&self, other: &DidDocument) -> (same: bool)
        ensures
            same == same_content(self@, other@),
    {
        if !self.controller.same_as(&other.controller) || self.active != other.active {
            return false;
        }
        let forth = self.keys_within(other);
        let back = other.keys_within(self);
        proof {
            if forth && back {
                assert(self@.installations =~= other@.installations);
            }
        }
        forth && back
    }

    /// Whether every key of this document is registered in `other`.
    fn keys_within(&self, other: &DidDocument) -> (within: bool)
        ensures
            within == self@.installations.subset_of(other@.installations),
    {
        let mut i: usize = 0;
        while i < self.installations.len()
            invariant
                i <= self.installations@.len(),
                forall|j: int|
                    0 <= j < i ==> other@.installations.contains(
                        (#[trigger] self.installations@[j])@,
                    ),
            decreases self.installations@.len() - i,
        {
            if !other.has_installation(self.installations[i].as_slice()) {
                assert(self@.installations.contains(self.installations@[i as int]@));
                return false;
            }
            i += 1;
        }
        true
    }
}

/// Whether a document allows operations on its identifier: a pure reading of
/// the snapshot.
pub fn is_active(document: &DidDocument) -> (active: bool)
    ensures
        active == document@.active,
{
    document.is_active()
}

} // verus!
