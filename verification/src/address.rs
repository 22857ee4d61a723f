//! Device addresses: non-zero 64-bit GPU virtual addresses.

use vstd::prelude::*;

verus! {

/// A non-zero 64-bit GPU virtual address, used by build commands and shaders
/// to reference buffer memory without descriptor indirection.
#[derive(Clone, Copy, Debug, PartialEq, Eq, Structural)]
pub struct DeviceAddress(pub u64);

impl DeviceAddress {
    /// True of every address handed out by the device: zero is the null
    /// address and is never a valid buffer address.
    pub open spec fn wf(self) -> bool {
        self.0 != 0
    }

    /// Wraps a raw address. The null address is rejected by the caller, so
    /// zero is left out here.
    pub fn new(address: u64) -> (r: DeviceAddress)
        requires
            address != 0,
        ensures
            r.0 == address,
            r.wf(),
    {
        DeviceAddress(address)
    }

    /// The address `offset` bytes past `self`. Offsets that would overflow
    /// the 64-bit address space are left out; `checked_offset` accepts them
    /// and reports the overflow instead.
    pub fn offset(&mut self, offset: u64) -> (r: DeviceAddress)
        requires
            old(self).0 + offset <= u64::MAX,
        ensures
            *final(self) == *old(self),
            r == spec_offset(*old(self), offset),
            r.0 == old(self).0 + offset,
            old(self).wf() ==> r.wf(),
    {
        let value = self.0 + offset;
        DeviceAddress(value)
    }

    /// Like `offset`, but returns `None` exactly when the addition would
    /// overflow, rather than wrapping around the address space.
    pub fn checked_offset(&self, offset: u64) -> (r: Option<DeviceAddress>)
        ensures
            self.0 + offset <= u64::MAX ==> r == Some(DeviceAddress((self.0 + offset) as u64)),
            self.0 + offset > u64::MAX ==> r is None,
    {
        match self.0.checked_add(offset) {
            Some(value) => Some(DeviceAddress(value)),
            None => None,
        }
    }
}

/// The address `offset` bytes past `a`, as `offset` returns it.
pub open spec fn spec_offset(a: DeviceAddress, offset: u64) -> DeviceAddress {
    DeviceAddress((a.0 + offset) as u64)
}

/// An accepted offset is computed exactly, never reduced modulo the address
/// space; an offset that would overflow is not computed at all: `offset`
/// excludes it, and `checked_offset` returns `None` for it.
pub proof fn lemma_offset_never_wraps(a: DeviceAddress, x: u64)
    requires
        a.0 + x <= u64::MAX,
    ensures
        spec_offset(a, x).0 == a.0 + x,
        spec_offset(a, x).0 >= a.0,
{
}

/// Offsetting twice agrees with offsetting once by the plain integer sum:
/// for offsets whose sum does not overflow, `(a + x) + y == a + (x + y)`.
pub proof fn lemma_offset_associative(a: DeviceAddress, x: u64, y: u64)
    requires
        a.0 + x + y <= u64::MAX,
    ensures
        spec_offset(spec_offset(a, x), y) == spec_offset(a, (x + y) as u64),
{
}

} // verus!
