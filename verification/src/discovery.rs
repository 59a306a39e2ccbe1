//! Device discovery policy.
//!
//! The driver accepts exactly one USB identity. Enumeration walks the
//! candidates in order; a candidate is selected when its identity matches
//! and it can be opened, and a matching candidate that fails to open is
//! skipped rather than aborting the scan. The selection rule itself is a
//! verified function over plain candidate data, so its behaviour holds for
//! any bus contents.

use vstd::prelude::*;

verus! {

/// Vendor ID of the uDMX interface (VOTI shared space).
pub const USBDEV_SHARED_VENDOR: u16 = 0x16c0;

/// Product ID of the uDMX interface.
pub const USBDEV_SHARED_PRODUCT: u16 = 0x05dc;

/// The vendor/product identity read from one device descriptor.
#[derive(Clone, Copy, Debug, PartialEq, Eq, Structural)]
pub struct DeviceIdentity {
    pub vendor_id: u16,
    pub product_id: u16,
}

/// The sole selection criterion during enumeration: an exact match on the
/// fixed vendor/product identity.
pub open spec fn is_udmx_identity(identity: DeviceIdentity) -> bool {
    identity.vendor_id == USBDEV_SHARED_VENDOR && identity.product_id == USBDEV_SHARED_PRODUCT
}

pub fn matches_udmx_identity(identity: &DeviceIdentity) -> (r: bool)
    ensures
        r == is_udmx_identity(*identity),
{
    identity.vendor_id == USBDEV_SHARED_VENDOR && identity.product_id == USBDEV_SHARED_PRODUCT
}

/// One enumerated device as discovery sees it: its identity, and whether an
/// attempt to open it would succeed.
#[derive(Clone, Copy, Debug, PartialEq, Eq, Structural)]
pub struct Candidate {
    pub identity: DeviceIdentity,
    pub openable: bool,
}

/// A candidate that discovery would bind to: identity-matching and openable.
pub open spec fn is_viable(candidate: Candidate) -> bool {
    is_udmx_identity(candidate.identity) && candidate.openable
}

/// The discovery selection rule over an enumerated candidate list.
///
/// Returns the position of the first viable candidate. The contract is the
/// discovery policy in full: a selected candidate is viable and nothing
/// before it is (so a matching entry that fails to open is skipped, and the
/// scan goes on past it); whenever any viable candidate exists one is
/// selected; and a list without a single identity match selects nothing,
/// which discovery reports as the device not being found.
pub fn select_candidate(candidates: &Vec<Candidate>) -> (r: Option<usize>)
    ensures
        r matches Some(i) ==> i < candidates@.len() && is_viable(candidates@[i as int])
            && (forall|j: int| 0 <= j < i ==> !is_viable(candidates@[j])),
        (exists|j: int| 0 <= j < candidates@.len() && is_viable(candidates@[j])) ==> r is Some,
        (forall|j: int|
            0 <= j < candidates@.len() ==> !is_udmx_identity(candidates@[j].identity)) ==> r
            is None,
{
    let mut i: usize = 0;
    while i < candidates.len()
        invariant
            i <= candidates@.len(),
            forall|j: int| 0 <= j < i ==> !is_viable(candidates@[j]),
        decreases candidates@.len() - i,
    {
        let candidate = candidates[i];
        if matches_udmx_identity(&candidate.identity) && candidate.openable {
            return Some(i);
        }
        i = i + 1;
    }
    None
}

} // verus!
