//! Address-change notifications of the network stack, and the filter that
//! decides which of them describe a usable global address of the monitored
//! interface.
use vstd::prelude::*;

verus! {

/// The `IFA_F_TENTATIVE` bit of an address's flags: the address is still
/// undergoing duplicate-address detection and must not be advertised.
pub const TENTATIVE_FLAG: u8 = 0x40;

/// How far an address is valid, as the kernel classifies it.
#[derive(Clone, Copy, Debug, PartialEq, Eq, Structural)]
pub enum AddressScope {
    /// Routable on the public internet.
    Universe,
    Site,
    Link,
    Host,
    Nowhere,
    Other(u8),
}

/// What a notification reports about an address.
#[derive(Clone, Copy, Debug, PartialEq, Eq, Structural)]
pub enum EventKind {
    /// An address was assigned (or its properties refreshed).
    NewAddress,
    /// An address was removed.
    DelAddress,
    /// Any other notification of the routing subsystem.
    Other,
}

/// One notification: the interface it concerns, the address it carries (as
/// the 128-bit big-endian value of an IPv6 address, if it carries one), the
/// address's scope and its flag bits.
#[derive(Clone, Copy, Debug, PartialEq, Eq, Structural)]
pub struct AddressEvent {
    pub kind: EventKind,
    pub index: u32,
    pub scope: AddressScope,
    pub flags: u8,
    pub address: Option<u128>,
}

/// The event's flags mark its address as tentative.
pub open spec fn is_tentative(e: AddressEvent) -> bool {
    e.flags & TENTATIVE_FLAG != 0
}

/// The event assigns an address to interface `monitored`, with global scope,
/// past duplicate-address detection.
pub open spec fn is_relevant(e: AddressEvent, monitored: u32) -> bool {
    &&& e.kind == EventKind::NewAddress
    &&& e.index == monitored
    &&& e.scope == AddressScope::Universe
    &&& !is_tentative(e)
    &&& e.address is Some
}

/// The address a relevant event carries; nothing for any other event.
pub open spec fn relevant_address_of(e: AddressEvent, monitored: u32) -> Option<u128> {
    if is_relevant(e, monitored) {
        e.address
    } else {
        None
    }
}

/// Classifies `e` against the monitored interface index: the address it
/// carries when it is relevant, `None` when it is to be ignored.
pub fn relevant_address(e: &AddressEvent, monitored: u32) -> (r: Option<u128>)
    ensures
        r == relevant_address_of(*e, monitored),
{
    if e.kind != EventKind::NewAddress || e.index != monitored || e.scope != AddressScope::Universe
        || e.flags & TENTATIVE_FLAG != 0 {
        None
    } else {
        e.address
    }
}

} // verus!
