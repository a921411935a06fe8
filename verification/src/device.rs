//! Device classification bitmask types.
//!
//! A device reports a single type word that is its device kind OR'd with its
//! location kind; the mask types below select one half or the other.  Each
//! type here is a bitmask over a fixed set of defined flags, with the
//! invariant that no undefined bit is ever set, and every operation carries
//! an exact statement of the resulting bit pattern.

use vstd::prelude::*;

verus! {

/// Camera device.
#[allow(non_upper_case_globals)]
pub const ICDeviceTypeCamera: u64 = 0x00000001;

/// Scanner device.
#[allow(non_upper_case_globals)]
pub const ICDeviceTypeScanner: u64 = 0x00000002;

/// Union of every defined `ICDeviceType` flag.
#[allow(non_upper_case_globals)]
pub const ICDeviceTypeAllBits: u64 = ICDeviceTypeCamera | ICDeviceTypeScanner;

/// Classification of a capture device: the device-kind half of the
/// type word a device reports.
#[derive(Clone, Copy, Debug, PartialEq, Eq, Structural)]
pub struct ICDeviceType {
    bits: u64,
}

impl ICDeviceType {
    /// The raw bit pattern of this value.
    pub closed spec fn spec_bits(self) -> u64 {
        self.bits
    }

    /// No bit outside the defined flags is set.
    pub closed spec fn wf(self) -> bool {
        self.bits & !ICDeviceTypeAllBits == 0
    }

    /// The raw bit pattern of this value.
    pub fn bits(self) -> (r: u64)
        ensures
            r == self.spec_bits(),
    {
        self.bits
    }

    /// The value with no flag set.
    pub fn empty() -> (r: Self)
        ensures
            r.spec_bits() == 0,
            r.wf(),
    {
        proof { crate::bits::lemma_u64_empty_in_mask(ICDeviceTypeAllBits); }
        ICDeviceType { bits: 0 }
    }

    /// The value with every defined flag set.
    pub fn all() -> (r: Self)
        ensures
            r.spec_bits() == ICDeviceTypeAllBits,
            r.wf(),
    {
        proof { crate::bits::lemma_u64_mask_in_mask(ICDeviceTypeAllBits); }
        ICDeviceType { bits: ICDeviceTypeAllBits }
    }

    /// Camera device.
    pub fn camera() -> (r: Self)
        ensures
            r.spec_bits() == ICDeviceTypeCamera,
            r.wf(),
    {
        proof { assert(ICDeviceTypeCamera & !ICDeviceTypeAllBits == 0) by (bit_vector); }
        ICDeviceType { bits: ICDeviceTypeCamera }
    }

    /// Scanner device.
    pub fn scanner() -> (r: Self)
        ensures
            r.spec_bits() == ICDeviceTypeScanner,
            r.wf(),
    {
        proof { assert(ICDeviceTypeScanner & !ICDeviceTypeAllBits == 0) by (bit_vector); }
        ICDeviceType { bits: ICDeviceTypeScanner }
    }

    /// The value holding exactly `bits`, or `None` exactly when `bits`
    /// has a bit set outside the defined flags.
    pub fn from_bits(bits: u64) -> (r: Option<Self>)
        ensures
            r matches Some(f) ==> f.spec_bits() == bits && f.wf(),
            r is None <==> bits & !ICDeviceTypeAllBits != 0,
    {
        if bits & !ICDeviceTypeAllBits == 0 {
            Some(ICDeviceType { bits })
        } else {
            None
        }
    }

    /// The value holding `bits` with any undefined bit cleared.
    pub fn from_bits_truncate(bits: u64) -> (r: Self)
        ensures
            r.spec_bits() == bits & ICDeviceTypeAllBits,
            r.wf(),
    {
        proof { crate::bits::lemma_u64_truncate_in_mask(bits, ICDeviceTypeAllBits); }
        ICDeviceType { bits: bits & ICDeviceTypeAllBits }
    }

    /// Whether no flag is set.
    pub fn is_empty(self) -> (r: bool)
        ensures
            r == (self.spec_bits() == 0),
    {
        self.bits == 0
    }

    /// Whether every defined flag is set.
    pub fn is_all(self) -> (r: bool)
        ensures
            r == (self.spec_bits() == ICDeviceTypeAllBits),
    {
        self.bits == ICDeviceTypeAllBits
    }

    /// Whether every flag of `other` is also set in `self`.
    pub fn contains(self, other: Self) -> (r: bool)
        ensures
            r == (self.spec_bits() & other.spec_bits() == other.spec_bits()),
    {
        self.bits & other.bits == other.bits
    }

    /// Whether `self` and `other` share at least one set flag.
    pub fn intersects(self, other: Self) -> (r: bool)
        ensures
            r == (self.spec_bits() & other.spec_bits() != 0),
    {
        self.bits & other.bits != 0
    }

    /// The union of the flags of `self` and `other`.
    pub fn union(self, other: Self) -> (r: Self)
        requires
            self.wf(),
            other.wf(),
        ensures
            r.spec_bits() == self.spec_bits() | other.spec_bits(),
            r.wf(),
    {
        proof { crate::bits::lemma_u64_or_in_mask(self.bits, other.bits, ICDeviceTypeAllBits); }
        ICDeviceType { bits: self.bits | other.bits }
    }

    /// The flags set in both `self` and `other`.
    pub fn intersection(self, other: Self) -> (r: Self)
        requires
            self.wf(),
        ensures
            r.spec_bits() == self.spec_bits() & other.spec_bits(),
            r.wf(),
    {
        proof { crate::bits::lemma_u64_and_in_mask(self.bits, other.bits, ICDeviceTypeAllBits); }
        ICDeviceType { bits: self.bits & other.bits }
    }

    /// The flags set in `self` but not in `other`.
    pub fn difference(self, other: Self) -> (r: Self)
        requires
            self.wf(),
        ensures
            r.spec_bits() == self.spec_bits() & !other.spec_bits(),
            r.wf(),
    {
        proof { crate::bits::lemma_u64_diff_in_mask(self.bits, other.bits, ICDeviceTypeAllBits); }
        ICDeviceType { bits: self.bits & !other.bits }
    }

    /// The flags set in exactly one of `self` and `other`.
    pub fn symmetric_difference(self, other: Self) -> (r: Self)
        requires
            self.wf(),
            other.wf(),
        ensures
            r.spec_bits() == self.spec_bits() ^ other.spec_bits(),
            r.wf(),
    {
        proof { crate::bits::lemma_u64_xor_in_mask(self.bits, other.bits, ICDeviceTypeAllBits); }
        ICDeviceType { bits: self.bits ^ other.bits }
    }

    /// Set every flag of `other` in `self`.
    pub fn insert(&mut self, other: Self)
        requires
            old(self).wf(),
            other.wf(),
        ensures
            final(self).spec_bits() == old(self).spec_bits() | other.spec_bits(),
            final(self).wf(),
    {
        proof { crate::bits::lemma_u64_or_in_mask(old(self).bits, other.bits, ICDeviceTypeAllBits); }
        self.bits = self.bits | other.bits;
    }

    /// Clear every flag of `other` in `self`.
    pub fn remove(&mut self, other: Self)
        requires
            old(self).wf(),
        ensures
            final(self).spec_bits() == old(self).spec_bits() & !other.spec_bits(),
            final(self).wf(),
    {
        proof { crate::bits::lemma_u64_diff_in_mask(old(self).bits, other.bits, ICDeviceTypeAllBits); }
        self.bits = self.bits & !other.bits;
    }

    /// Flip every flag of `other` in `self`.
    pub fn toggle(&mut self, other: Self)
        requires
            old(self).wf(),
            other.wf(),
        ensures
            final(self).spec_bits() == old(self).spec_bits() ^ other.spec_bits(),
            final(self).wf(),
    {
        proof { crate::bits::lemma_u64_xor_in_mask(old(self).bits, other.bits, ICDeviceTypeAllBits); }
        self.bits = self.bits ^ other.bits;
    }

    /// Set or clear every flag of `other` in `self`, as `value` says.
    pub fn set(&mut self, other: Self, value: bool)
        requires
            old(self).wf(),
            other.wf(),
        ensures
            final(self).spec_bits() == (if value {
                old(self).spec_bits() | other.spec_bits()
            } else {
                old(self).spec_bits() & !other.spec_bits()
            }),
            final(self).wf(),
    {
        if value {
            self.insert(other);
        } else {
            self.remove(other);
        }
    }
}

/// Device attached directly to the host over USB or FireWire.
#[allow(non_upper_case_globals)]
pub const ICDeviceLocationTypeLocal: u64 = 0x00000100;

/// Device found over the network, shared by another host.
#[allow(non_upper_case_globals)]
pub const ICDeviceLocationTypeShared: u64 = 0x00000200;

/// Device found over the network through a Bonjour service.
#[allow(non_upper_case_globals)]
pub const ICDeviceLocationTypeBonjour: u64 = 0x00000400;

/// Device found as a paired Bluetooth device.
#[allow(non_upper_case_globals)]
pub const ICDeviceLocationTypeBluetooth: u64 = 0x00000800;

/// Union of every defined `ICDeviceLocationType` flag.
#[allow(non_upper_case_globals)]
pub const ICDeviceLocationTypeAllBits: u64 = ICDeviceLocationTypeLocal | ICDeviceLocationTypeShared | ICDeviceLocationTypeBonjour | ICDeviceLocationTypeBluetooth;

/// Location classification of a capture device: the location half of
/// the type word a device reports.
#[derive(Clone, Copy, Debug, PartialEq, Eq, Structural)]
pub struct ICDeviceLocationType {
    bits: u64,
}

impl ICDeviceLocationType {
    /// The raw bit pattern of this value.
    pub closed spec fn spec_bits(self) -> u64 {
        self.bits
    }

    /// No bit outside the defined flags is set.
    pub closed spec fn wf(self) -> bool {
        self.bits & !ICDeviceLocationTypeAllBits == 0
    }

    /// The raw bit pattern of this value.
    pub fn bits(self) -> (r: u64)
        ensures
            r == self.spec_bits(),
    {
        self.bits
    }

    /// The value with no flag set.
    pub fn empty() -> (r: Self)
        ensures
            r.spec_bits() == 0,
            r.wf(),
    {
        proof { crate::bits::lemma_u64_empty_in_mask(ICDeviceLocationTypeAllBits); }
        ICDeviceLocationType { bits: 0 }
    }

    /// The value with every defined flag set.
    pub fn all() -> (r: Self)
        ensures
            r.spec_bits() == ICDeviceLocationTypeAllBits,
            r.wf(),
    {
        proof { crate::bits::lemma_u64_mask_in_mask(ICDeviceLocationTypeAllBits); }
        ICDeviceLocationType { bits: ICDeviceLocationTypeAllBits }
    }

    /// Device attached directly to the host over USB or FireWire.
    pub fn local() -> (r: Self)
        ensures
            r.spec_bits() == ICDeviceLocationTypeLocal,
            r.wf(),
    {
        proof { assert(ICDeviceLocationTypeLocal & !ICDeviceLocationTypeAllBits == 0) by (bit_vector); }
        ICDeviceLocationType { bits: ICDeviceLocationTypeLocal }
    }

    /// Device found over the network, shared by another host.
    pub fn shared() -> (r: Self)
        ensures
            r.spec_bits() == ICDeviceLocationTypeShared,
            r.wf(),
    {
        proof { assert(ICDeviceLocationTypeShared & !ICDeviceLocationTypeAllBits == 0) by (bit_vector); }
        ICDeviceLocationType { bits: ICDeviceLocationTypeShared }
    }

    /// Device found over the network through a Bonjour service.
    pub fn bonjour() -> (r: Self)
        ensures
            r.spec_bits() == ICDeviceLocationTypeBonjour,
            r.wf(),
    {
        proof { assert(ICDeviceLocationTypeBonjour & !ICDeviceLocationTypeAllBits == 0) by (bit_vector); }
        ICDeviceLocationType { bits: ICDeviceLocationTypeBonjour }
    }

    /// Device found as a paired Bluetooth device.
    pub fn bluetooth() -> (r: Self)
        ensures
            r.spec_bits() == ICDeviceLocationTypeBluetooth,
            r.wf(),
    {
        proof { assert(ICDeviceLocationTypeBluetooth & !ICDeviceLocationTypeAllBits == 0) by (bit_vector); }
        ICDeviceLocationType { bits: ICDeviceLocationTypeBluetooth }
    }

    /// The value holding exactly `bits`, or `None` exactly when `bits`
    /// has a bit set outside the defined flags.
    pub fn from_bits(bits: u64) -> (r: Option<Self>)
        ensures
            r matches Some(f) ==> f.spec_bits() == bits && f.wf(),
            r is None <==> bits & !ICDeviceLocationTypeAllBits != 0,
    {
        if bits & !ICDeviceLocationTypeAllBits == 0 {
            Some(ICDeviceLocationType { bits })
        } else {
            None
        }
    }

    /// The value holding `bits` with any undefined bit cleared.
    pub fn from_bits_truncate(bits: u64) -> (r: Self)
        ensures
            r.spec_bits() == bits & ICDeviceLocationTypeAllBits,
            r.wf(),
    {
        proof { crate::bits::lemma_u64_truncate_in_mask(bits, ICDeviceLocationTypeAllBits); }
        ICDeviceLocationType { bits: bits & ICDeviceLocationTypeAllBits }
    }

    /// Whether no flag is set.
    pub fn is_empty(self) -> (r: bool)
        ensures
            r == (self.spec_bits() == 0),
    {
        self.bits == 0
    }

    /// Whether every defined flag is set.
    pub fn is_all(self) -> (r: bool)
        ensures
            r == (self.spec_bits() == ICDeviceLocationTypeAllBits),
    {
        self.bits == ICDeviceLocationTypeAllBits
    }

    /// Whether every flag of `other` is also set in `self`.
    pub fn contains(self, other: Self) -> (r: bool)
        ensures
            r == (self.spec_bits() & other.spec_bits() == other.spec_bits()),
    {
        self.bits & other.bits == other.bits
    }

    /// Whether `self` and `other` share at least one set flag.
    pub fn intersects(self, other: Self) -> (r: bool)
        ensures
            r == (self.spec_bits() & other.spec_bits() != 0),
    {
        self.bits & other.bits != 0
    }

    /// The union of the flags of `self` and `other`.
    pub fn union(self, other: Self) -> (r: Self)
        requires
            self.wf(),
            other.wf(),
        ensures
            r.spec_bits() == self.spec_bits() | other.spec_bits(),
            r.wf(),
    {
        proof { crate::bits::lemma_u64_or_in_mask(self.bits, other.bits, ICDeviceLocationTypeAllBits); }
        ICDeviceLocationType { bits: self.bits | other.bits }
    }

    /// The flags set in both `self` and `other`.
    pub fn intersection(self, other: Self) -> (r: Self)
        requires
            self.wf(),
        ensures
            r.spec_bits() == self.spec_bits() & other.spec_bits(),
            r.wf(),
    {
        proof { crate::bits::lemma_u64_and_in_mask(self.bits, other.bits, ICDeviceLocationTypeAllBits); }
        ICDeviceLocationType { bits: self.bits & other.bits }
    }

    /// The flags set in `self` but not in `other`.
    pub fn difference(self, other: Self) -> (r: Self)
        requires
            self.wf(),
        ensures
            r.spec_bits() == self.spec_bits() & !other.spec_bits(),
            r.wf(),
    {
        proof { crate::bits::lemma_u64_diff_in_mask(self.bits, other.bits, ICDeviceLocationTypeAllBits); }
        ICDeviceLocationType { bits: self.bits & !other.bits }
    }

    /// The flags set in exactly one of `self` and `other`.
    pub fn symmetric_difference(self, other: Self) -> (r: Self)
        requires
            self.wf(),
            other.wf(),
        ensures
            r.spec_bits() == self.spec_bits() ^ other.spec_bits(),
            r.wf(),
    {
        proof { crate::bits::lemma_u64_xor_in_mask(self.bits, other.bits, ICDeviceLocationTypeAllBits); }
        ICDeviceLocationType { bits: self.bits ^ other.bits }
    }

    /// Set every flag of `other` in `self`.
    pub fn insert(&mut self, other: Self)
        requires
            old(self).wf(),
            other.wf(),
        ensures
            final(self).spec_bits() == old(self).spec_bits() | other.spec_bits(),
            final(self).wf(),
    {
        proof { crate::bits::lemma_u64_or_in_mask(old(self).bits, other.bits, ICDeviceLocationTypeAllBits); }
        self.bits = self.bits | other.bits;
    }

    /// Clear every flag of `other` in `self`.
    pub fn remove(&mut self, other: Self)
        requires
            old(self).wf(),
        ensures
            final(self).spec_bits() == old(self).spec_bits() & !other.spec_bits(),
            final(self).wf(),
    {
        proof { crate::bits::lemma_u64_diff_in_mask(old(self).bits, other.bits, ICDeviceLocationTypeAllBits); }
        self.bits = self.bits & !other.bits;
    }

    /// Flip every flag of `other` in `self`.
    pub fn toggle(&mut self, other: Self)
        requires
            old(self).wf(),
            other.wf(),
        ensures
            final(self).spec_bits() == old(self).spec_bits() ^ other.spec_bits(),
            final(self).wf(),
    {
        proof { crate::bits::lemma_u64_xor_in_mask(old(self).bits, other.bits, ICDeviceLocationTypeAllBits); }
        self.bits = self.bits ^ other.bits;
    }

    /// Set or clear every flag of `other` in `self`, as `value` says.
    pub fn set(&mut self, other: Self, value: bool)
        requires
            old(self).wf(),
            other.wf(),
        ensures
            final(self).spec_bits() == (if value {
                old(self).spec_bits() | other.spec_bits()
            } else {
                old(self).spec_bits() & !other.spec_bits()
            }),
            final(self).wf(),
    {
        if value {
            self.insert(other);
        } else {
            self.remove(other);
        }
    }
}

/// Mask to detect a camera device.
#[allow(non_upper_case_globals)]
pub const ICDeviceTypeMaskCamera: u64 = 0x00000001;

/// Mask to detect a scanner device.
#[allow(non_upper_case_globals)]
pub const ICDeviceTypeMaskScanner: u64 = 0x00000002;

/// Union of every defined `ICDeviceTypeMask` flag.
#[allow(non_upper_case_globals)]
pub const ICDeviceTypeMaskAllBits: u64 = ICDeviceTypeMaskCamera | ICDeviceTypeMaskScanner;

/// Mask applied to a device's type word to test its device kind.
#[derive(Clone, Copy, Debug, PartialEq, Eq, Structural)]
pub struct ICDeviceTypeMask {
    bits: u64,
}

impl ICDeviceTypeMask {
    /// The raw bit pattern of this value.
    pub closed spec fn spec_bits(self) -> u64 {
        self.bits
    }

    /// No bit outside the defined flags is set.
    pub closed spec fn wf(self) -> bool {
        self.bits & !ICDeviceTypeMaskAllBits == 0
    }

    /// The raw bit pattern of this value.
    pub fn bits(self) -> (r: u64)
        ensures
            r == self.spec_bits(),
    {
        self.bits
    }

    /// The value with no flag set.
    pub fn empty() -> (r: Self)
        ensures
            r.spec_bits() == 0,
            r.wf(),
    {
        proof { crate::bits::lemma_u64_empty_in_mask(ICDeviceTypeMaskAllBits); }
        ICDeviceTypeMask { bits: 0 }
    }

    /// The value with every defined flag set.
    pub fn all() -> (r: Self)
        ensures
            r.spec_bits() == ICDeviceTypeMaskAllBits,
            r.wf(),
    {
        proof { crate::bits::lemma_u64_mask_in_mask(ICDeviceTypeMaskAllBits); }
        ICDeviceTypeMask { bits: ICDeviceTypeMaskAllBits }
    }

    /// Mask to detect a camera device.
    pub fn camera() -> (r: Self)
        ensures
            r.spec_bits() == ICDeviceTypeMaskCamera,
            r.wf(),
    {
        proof { assert(ICDeviceTypeMaskCamera & !ICDeviceTypeMaskAllBits == 0) by (bit_vector); }
        ICDeviceTypeMask { bits: ICDeviceTypeMaskCamera }
    }

    /// Mask to detect a scanner device.
    pub fn scanner() -> (r: Self)
        ensures
            r.spec_bits() == ICDeviceTypeMaskScanner,
            r.wf(),
    {
        proof { assert(ICDeviceTypeMaskScanner & !ICDeviceTypeMaskAllBits == 0) by (bit_vector); }
        ICDeviceTypeMask { bits: ICDeviceTypeMaskScanner }
    }

    /// The value holding exactly `bits`, or `None` exactly when `bits`
    /// has a bit set outside the defined flags.
    pub fn from_bits(bits: u64) -> (r: Option<Self>)
        ensures
            r matches Some(f) ==> f.spec_bits() == bits && f.wf(),
            r is None <==> bits & !ICDeviceTypeMaskAllBits != 0,
    {
        if bits & !ICDeviceTypeMaskAllBits == 0 {
            Some(ICDeviceTypeMask { bits })
        } else {
            None
        }
    }

    /// The value holding `bits` with any undefined bit cleared.
    pub fn from_bits_truncate(bits: u64) -> (r: Self)
        ensures
            r.spec_bits() == bits & ICDeviceTypeMaskAllBits,
            r.wf(),
    {
        proof { crate::bits::lemma_u64_truncate_in_mask(bits, ICDeviceTypeMaskAllBits); }
        ICDeviceTypeMask { bits: bits & ICDeviceTypeMaskAllBits }
    }

    /// Whether no flag is set.
    pub fn is_empty(self) -> (r: bool)
        ensures
            r == (self.spec_bits() == 0),
    {
        self.bits == 0
    }

    /// Whether every defined flag is set.
    pub fn is_all(self) -> (r: bool)
        ensures
            r == (self.spec_bits() == ICDeviceTypeMaskAllBits),
    {
        self.bits == ICDeviceTypeMaskAllBits
    }

    /// Whether every flag of `other` is also set in `self`.
    pub fn contains(self, other: Self) -> (r: bool)
        ensures
            r == (self.spec_bits() & other.spec_bits() == other.spec_bits()),
    {
        self.bits & other.bits == other.bits
    }

    /// Whether `self` and `other` share at least one set flag.
    pub fn intersects(self, other: Self) -> (r: bool)
        ensures
            r == (self.spec_bits() & other.spec_bits() != 0),
    {
        self.bits & other.bits != 0
    }

    /// The union of the flags of `self` and `other`.
    pub fn union(self, other: Self) -> (r: Self)
        requires
            self.wf(),
            other.wf(),
        ensures
            r.spec_bits() == self.spec_bits() | other.spec_bits(),
            r.wf(),
    {
        proof { crate::bits::lemma_u64_or_in_mask(self.bits, other.bits, ICDeviceTypeMaskAllBits); }
        ICDeviceTypeMask { bits: self.bits | other.bits }
    }

    /// The flags set in both `self` and `other`.
    pub fn intersection(self, other: Self) -> (r: Self)
        requires
            self.wf(),
        ensures
            r.spec_bits() == self.spec_bits() & other.spec_bits(),
            r.wf(),
    {
        proof { crate::bits::lemma_u64_and_in_mask(self.bits, other.bits, ICDeviceTypeMaskAllBits); }
        ICDeviceTypeMask { bits: self.bits & other.bits }
    }

    /// The flags set in `self` but not in `other`.
    pub fn difference(self, other: Self) -> (r: Self)
        requires
            self.wf(),
        ensures
            r.spec_bits() == self.spec_bits() & !other.spec_bits(),
            r.wf(),
    {
        proof { crate::bits::lemma_u64_diff_in_mask(self.bits, other.bits, ICDeviceTypeMaskAllBits); }
        ICDeviceTypeMask { bits: self.bits & !other.bits }
    }

    /// The flags set in exactly one of `self` and `other`.
    pub fn symmetric_difference(self, other: Self) -> (r: Self)
        requires
            self.wf(),
            other.wf(),
        ensures
            r.spec_bits() == self.spec_bits() ^ other.spec_bits(),
            r.wf(),
    {
        proof { crate::bits::lemma_u64_xor_in_mask(self.bits, other.bits, ICDeviceTypeMaskAllBits); }
        ICDeviceTypeMask { bits: self.bits ^ other.bits }
    }

    /// Set every flag of `other` in `self`.
    pub fn insert(&mut self, other: Self)
        requires
            old(self).wf(),
            other.wf(),
        ensures
            final(self).spec_bits() == old(self).spec_bits() | other.spec_bits(),
            final(self).wf(),
    {
        proof { crate::bits::lemma_u64_or_in_mask(old(self).bits, other.bits, ICDeviceTypeMaskAllBits); }
        self.bits = self.bits | other.bits;
    }

    /// Clear every flag of `other` in `self`.
    pub fn remove(&mut self, other: Self)
        requires
            old(self).wf(),
        ensures
            final(self).spec_bits() == old(self).spec_bits() & !other.spec_bits(),
            final(self).wf(),
    {
        proof { crate::bits::lemma_u64_diff_in_mask(old(self).bits, other.bits, ICDeviceTypeMaskAllBits); }
        self.bits = self.bits & !other.bits;
    }

    /// Flip every flag of `other` in `self`.
    pub fn toggle(&mut self, other: Self)
        requires
            old(self).wf(),
            other.wf(),
        ensures
            final(self).spec_bits() == old(self).spec_bits() ^ other.spec_bits(),
            final(self).wf(),
    {
        proof { crate::bits::lemma_u64_xor_in_mask(old(self).bits, other.bits, ICDeviceTypeMaskAllBits); }
        self.bits = self.bits ^ other.bits;
    }

    /// Set or clear every flag of `other` in `self`, as `value` says.
    pub fn set(&mut self, other: Self, value: bool)
        requires
            old(self).wf(),
            other.wf(),
        ensures
            final(self).spec_bits() == (if value {
                old(self).spec_bits() | other.spec_bits()
            } else {
                old(self).spec_bits() & !other.spec_bits()
            }),
            final(self).wf(),
    {
        if value {
            self.insert(other);
        } else {
            self.remove(other);
        }
    }
}

/// Mask to detect a local (USB or FireWire) device.
#[allow(non_upper_case_globals)]
pub const ICDeviceLocationTypeMaskLocal: u64 = 0x00000100;

/// Mask to detect a device shared by another host.
#[allow(non_upper_case_globals)]
pub const ICDeviceLocationTypeMaskShared: u64 = 0x00000200;

/// Mask to detect a network device that publishes a Bonjour service.
#[allow(non_upper_case_globals)]
pub const ICDeviceLocationTypeMaskBonjour: u64 = 0x00000400;

/// Mask to detect a paired Bluetooth device.
#[allow(non_upper_case_globals)]
pub const ICDeviceLocationTypeMaskBluetooth: u64 = 0x00000800;

/// Mask to detect any remote (shared, Bonjour, Bluetooth) device.
#[allow(non_upper_case_globals)]
pub const ICDeviceLocationTypeMaskRemote: u64 = 0x0000FE00;

/// Union of every defined `ICDeviceLocationTypeMask` flag.
#[allow(non_upper_case_globals)]
pub const ICDeviceLocationTypeMaskAllBits: u64 = ICDeviceLocationTypeMaskLocal | ICDeviceLocationTypeMaskShared | ICDeviceLocationTypeMaskBonjour | ICDeviceLocationTypeMaskBluetooth | ICDeviceLocationTypeMaskRemote;

/// Mask applied to a device's type word to test where the device was
/// found.
#[derive(Clone, Copy, Debug, PartialEq, Eq, Structural)]
pub struct ICDeviceLocationTypeMask {
    bits: u64,
}

impl ICDeviceLocationTypeMask {
    /// The raw bit pattern of this value.
    pub closed spec fn spec_bits(self) -> u64 {
        self.bits
    }

    /// No bit outside the defined flags is set.
    pub closed spec fn wf(self) -> bool {
        self.bits & !ICDeviceLocationTypeMaskAllBits == 0
    }

    /// The raw bit pattern of this value.
    pub fn bits(self) -> (r: u64)
        ensures
            r == self.spec_bits(),
    {
        self.bits
    }

    /// The value with no flag set.
    pub fn empty() -> (r: Self)
        ensures
            r.spec_bits() == 0,
            r.wf(),
    {
        proof { crate::bits::lemma_u64_empty_in_mask(ICDeviceLocationTypeMaskAllBits); }
        ICDeviceLocationTypeMask { bits: 0 }
    }

    /// The value with every defined flag set.
    pub fn all() -> (r: Self)
        ensures
            r.spec_bits() == ICDeviceLocationTypeMaskAllBits,
            r.wf(),
    {
        proof { crate::bits::lemma_u64_mask_in_mask(ICDeviceLocationTypeMaskAllBits); }
        ICDeviceLocationTypeMask { bits: ICDeviceLocationTypeMaskAllBits }
    }

    /// Mask to detect a local (USB or FireWire) device.
    pub fn local() -> (r: Self)
        ensures
            r.spec_bits() == ICDeviceLocationTypeMaskLocal,
            r.wf(),
    {
        proof { assert(ICDeviceLocationTypeMaskLocal & !ICDeviceLocationTypeMaskAllBits == 0) by (bit_vector); }
        ICDeviceLocationTypeMask { bits: ICDeviceLocationTypeMaskLocal }
    }

    /// Mask to detect a device shared by another host.
    pub fn shared() -> (r: Self)
        ensures
            r.spec_bits() == ICDeviceLocationTypeMaskShared,
            r.wf(),
    {
        proof { assert(ICDeviceLocationTypeMaskShared & !ICDeviceLocationTypeMaskAllBits == 0) by (bit_vector); }
        ICDeviceLocationTypeMask { bits: ICDeviceLocationTypeMaskShared }
    }

    /// Mask to detect a network device that publishes a Bonjour service.
    pub fn bonjour() -> (r: Self)
        ensures
            r.spec_bits() == ICDeviceLocationTypeMaskBonjour,
            r.wf(),
    {
        proof { assert(ICDeviceLocationTypeMaskBonjour & !ICDeviceLocationTypeMaskAllBits == 0) by (bit_vector); }
        ICDeviceLocationTypeMask { bits: ICDeviceLocationTypeMaskBonjour }
    }

    /// Mask to detect a paired Bluetooth device.
    pub fn bluetooth() -> (r: Self)
        ensures
            r.spec_bits() == ICDeviceLocationTypeMaskBluetooth,
            r.wf(),
    {
        proof { assert(ICDeviceLocationTypeMaskBluetooth & !ICDeviceLocationTypeMaskAllBits == 0) by (bit_vector); }
        ICDeviceLocationTypeMask { bits: ICDeviceLocationTypeMaskBluetooth }
    }

    /// Mask to detect any remote (shared, Bonjour, Bluetooth) device.
    pub fn remote() -> (r: Self)
        ensures
            r.spec_bits() == ICDeviceLocationTypeMaskRemote,
            r.wf(),
    {
        proof { assert(ICDeviceLocationTypeMaskRemote & !ICDeviceLocationTypeMaskAllBits == 0) by (bit_vector); }
        ICDeviceLocationTypeMask { bits: ICDeviceLocationTypeMaskRemote }
    }

    /// The value holding exactly `bits`, or `None` exactly when `bits`
    /// has a bit set outside the defined flags.
    pub fn from_bits(bits: u64) -> (r: Option<Self>)
        ensures
            r matches Some(f) ==> f.spec_bits() == bits && f.wf(),
            r is None <==> bits & !ICDeviceLocationTypeMaskAllBits != 0,
    {
        if bits & !ICDeviceLocationTypeMaskAllBits == 0 {
            Some(ICDeviceLocationTypeMask { bits })
        } else {
            None
        }
    }

    /// The value holding `bits` with any undefined bit cleared.
    pub fn from_bits_truncate(bits: u64) -> (r: Self)
        ensures
            r.spec_bits() == bits & ICDeviceLocationTypeMaskAllBits,
            r.wf(),
    {
        proof { crate::bits::lemma_u64_truncate_in_mask(bits, ICDeviceLocationTypeMaskAllBits); }
        ICDeviceLocationTypeMask { bits: bits & ICDeviceLocationTypeMaskAllBits }
    }

    /// Whether no flag is set.
    pub fn is_empty(self) -> (r: bool)
        ensures
            r == (self.spec_bits() == 0),
    {
        self.bits == 0
    }

    /// Whether every defined flag is set.
    pub fn is_all(self) -> (r: bool)
        ensures
            r == (self.spec_bits() == ICDeviceLocationTypeMaskAllBits),
    {
        self.bits == ICDeviceLocationTypeMaskAllBits
    }

    /// Whether every flag of `other` is also set in `self`.
    pub fn contains(self, other: Self) -> (r: bool)
        ensures
            r == (self.spec_bits() & other.spec_bits() == other.spec_bits()),
    {
        self.bits & other.bits == other.bits
    }

    /// Whether `self` and `other` share at least one set flag.
    pub fn intersects(self, other: Self) -> (r: bool)
        ensures
            r == (self.spec_bits() & other.spec_bits() != 0),
    {
        self.bits & other.bits != 0
    }

    /// The union of the flags of `self` and `other`.
    pub fn union(self, other: Self) -> (r: Self)
        requires
            self.wf(),
            other.wf(),
        ensures
            r.spec_bits() == self.spec_bits() | other.spec_bits(),
            r.wf(),
    {
        proof { crate::bits::lemma_u64_or_in_mask(self.bits, other.bits, ICDeviceLocationTypeMaskAllBits); }
        ICDeviceLocationTypeMask { bits: self.bits | other.bits }
    }

    /// The flags set in both `self` and `other`.
    pub fn intersection(self, other: Self) -> (r: Self)
        requires
            self.wf(),
        ensures
            r.spec_bits() == self.spec_bits() & other.spec_bits(),
            r.wf(),
    {
        proof { crate::bits::lemma_u64_and_in_mask(self.bits, other.bits, ICDeviceLocationTypeMaskAllBits); }
        ICDeviceLocationTypeMask { bits: self.bits & other.bits }
    }

    /// The flags set in `self` but not in `other`.
    pub fn difference(self, other: Self) -> (r: Self)
        requires
            self.wf(),
        ensures
            r.spec_bits() == self.spec_bits() & !other.spec_bits(),
            r.wf(),
    {
        proof { crate::bits::lemma_u64_diff_in_mask(self.bits, other.bits, ICDeviceLocationTypeMaskAllBits); }
        ICDeviceLocationTypeMask { bits: self.bits & !other.bits }
    }

    /// The flags set in exactly one of `self` and `other`.
    pub fn symmetric_difference(self, other: Self) -> (r: Self)
        requires
            self.wf(),
            other.wf(),
        ensures
            r.spec_bits() == self.spec_bits() ^ other.spec_bits(),
            r.wf(),
    {
        proof { crate::bits::lemma_u64_xor_in_mask(self.bits, other.bits, ICDeviceLocationTypeMaskAllBits); }
        ICDeviceLocationTypeMask { bits: self.bits ^ other.bits }
    }

    /// Set every flag of `other` in `self`.
    pub fn insert(&mut self, other: Self)
        requires
            old(self).wf(),
            other.wf(),
        ensures
            final(self).spec_bits() == old(self).spec_bits() | other.spec_bits(),
            final(self).wf(),
    {
        proof { crate::bits::lemma_u64_or_in_mask(old(self).bits, other.bits, ICDeviceLocationTypeMaskAllBits); }
        self.bits = self.bits | other.bits;
    }

    /// Clear every flag of `other` in `self`.
    pub fn remove(&mut self, other: Self)
        requires
            old(self).wf(),
        ensures
            final(self).spec_bits() == old(self).spec_bits() & !other.spec_bits(),
            final(self).wf(),
    {
        proof { crate::bits::lemma_u64_diff_in_mask(old(self).bits, other.bits, ICDeviceLocationTypeMaskAllBits); }
        self.bits = self.bits & !other.bits;
    }

    /// Flip every flag of `other` in `self`.
    pub fn toggle(&mut self, other: Self)
        requires
            old(self).wf(),
            other.wf(),
        ensures
            final(self).spec_bits() == old(self).spec_bits() ^ other.spec_bits(),
            final(self).wf(),
    {
        proof { crate::bits::lemma_u64_xor_in_mask(old(self).bits, other.bits, ICDeviceLocationTypeMaskAllBits); }
        self.bits = self.bits ^ other.bits;
    }

    /// Set or clear every flag of `other` in `self`, as `value` says.
    pub fn set(&mut self, other: Self, value: bool)
        requires
            old(self).wf(),
            other.wf(),
        ensures
            final(self).spec_bits() == (if value {
                old(self).spec_bits() | other.spec_bits()
            } else {
                old(self).spec_bits() & !other.spec_bits()
            }),
            final(self).wf(),
    {
        if value {
            self.insert(other);
        } else {
            self.remove(other);
        }
    }
}

} // verus!
