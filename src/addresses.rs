//! Virtual and physical addresses, held in canonical form.

use vstd::prelude::*;

verus! {

/// Bits 47 to 63 of an address, as one number.
pub open spec fn upper_bits(address: u64) -> u64 {
    address >> 47
}

/// Whether `address` can be made canonical: bits 47 to 63 are all clear, all
/// set, or only bit 47 is set (and is then copied into the bits above it).
pub open spec fn is_canonical_candidate(address: u64) -> bool {
    upper_bits(address) == 0 || upper_bits(address) == 1 || upper_bits(address) == 0x1ffff
}

/// `address` with bits 48 to 63 made copies of bit 47.
pub open spec fn sign_extended(address: u64) -> u64 {
    if address & 0x8000_0000_0000 != 0 {
        address | 0xffff_0000_0000_0000
    } else {
        address & 0x0000_ffff_ffff_ffff
    }
}

/// The canonical form that `try_new` gives a candidate address.
pub open spec fn canonical(address: u64) -> u64 {
    if upper_bits(address) == 1 {
        sign_extended(address)
    } else {
        address
    }
}

/// A canonical 64-bit virtual address.
#[derive(Clone, Copy, Debug, PartialEq, Eq, Structural)]
pub struct VirtualAddress(u64);

/// An address whose bits 47 to 63 are neither all equal nor only bit 47 set.
#[derive(Clone, Copy, Debug, PartialEq, Eq, Structural)]
pub struct InvalidVirtualAddress(pub u64);

impl View for VirtualAddress {
    type V = u64;

    closed spec fn view(&self) -> u64 {
        self.0
    }
}

impl VirtualAddress {
    /// The canonical address for `address`, which must be a candidate.
    pub fn new(address: u64) -> (r: VirtualAddress)
        requires
            is_canonical_candidate(address),
        ensures
            r@ == canonical(address),
    {
        match VirtualAddress::try_new(address) {
            Ok(r) => r,
            Err(_) => VirtualAddress(address),
        }
    }

    /// The canonical address for `address`, or an error naming it when bits 47
    /// to 63 are none of the accepted patterns.
    pub fn try_new(address: u64) -> (r: Result<VirtualAddress, InvalidVirtualAddress>)
        ensures
            is_canonical_candidate(address) <==> r is Ok,
            r matches Ok(v) ==> v@ == canonical(address),
            r matches Err(e) ==> e.0 == address,
    {
        let upper = address >> 47u64;
        if upper == 0 || upper == 0x1ffff {
            Ok(VirtualAddress(address))
        } else if upper == 1 {
            Ok(VirtualAddress::truncate(address))
        } else {
            Err(InvalidVirtualAddress(address))
        }
    }

    /// `address` with bits 48 to 63 replaced by copies of bit 47.
    pub fn truncate(address: u64) -> (r: VirtualAddress)
        ensures
            r@ == sign_extended(address),
    {
        if address & 0x8000_0000_0000 != 0 {
            VirtualAddress(address | 0xffff_0000_0000_0000)
        } else {
            VirtualAddress(address & 0x0000_ffff_ffff_ffff)
        }
    }

    /// The null address.
    pub fn zero() -> (r: VirtualAddress)
        ensures
            r@ == 0,
    {
        VirtualAddress(0)
    }

    /// The address as a number.
    pub fn as_u64(self) -> (r: u64)
        ensures
            r == self@,
    {
        self.0
    }

    /// The address `offset` bytes further on; the sum must be a candidate.
    pub fn add(self, offset: u64) -> (r: VirtualAddress)
        requires
            self@ + offset <= u64::MAX,
            is_canonical_candidate((self@ + offset) as u64),
        ensures
            r@ == canonical((self@ + offset) as u64),
    {
        VirtualAddress::new(self.0 + offset)
    }
}

/// Whether a physical address fits the 52 bits the architecture allows.
pub open spec fn is_physical(address: u64) -> bool {
    address >> 52 == 0
}

/// A physical address of at most 52 bits.
#[derive(Clone, Copy, Debug, PartialEq, Eq, Structural)]
pub struct PhysicalAddress(u64);

impl View for PhysicalAddress {
    type V = u64;

    closed spec fn view(&self) -> u64 {
        self.0
    }
}

impl PhysicalAddress {
    /// The physical address `address`, which must fit in 52 bits.
    pub fn new(address: u64) -> (r: PhysicalAddress)
        requires
            is_physical(address),
        ensures
            r@ == address,
    {
        PhysicalAddress(address)
    }

    /// The physical address `address`, or an error when bits 52 to 63 are not clear.
    pub fn try_new(address: u64) -> (r: Result<PhysicalAddress, ()>)
        ensures
            is_physical(address) <==> r is Ok,
            r matches Ok(p) ==> p@ == address,
    {
        if address >> 52u64 == 0 {
            Ok(PhysicalAddress(address))
        } else {
            Err(())
        }
    }

    /// The address as a number.
    pub fn as_u64(self) -> (r: u64)
        ensures
            r == self@,
    {
        self.0
    }

    /// The address `offset` bytes further on; the sum must fit in 52 bits.
    pub fn add(self, offset: u64) -> (r: PhysicalAddress)
        requires
            self@ + offset <= u64::MAX,
            is_physical((self@ + offset) as u64),
        ensures
            r@ == self@ + offset,
    {
        PhysicalAddress::new(self.0 + offset)
    }
}

} // verus!
