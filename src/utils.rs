//! Bit flags over a `u32`, numbered from 1 (bit 0) to 32 (bit 31), as netlink
//! multicast groups are.
use vstd::prelude::*;

verus! {

/// The mask that has only the bit of flag number `grp` set.
pub open spec fn set_mask(grp: u32) -> u32
    recommends
        1 <= grp <= 32,
{
    1u32 << ((grp - 1) as u32)
}

/// Conversion between a group number and the necessary bitmask
/// to perform a bitwise OR that will set the bit
fn num_to_set_mask(grp: u32) -> (r: u32)
    requires
        1 <= grp <= 32,
    ensures
        r == set_mask(grp),
{
    1u32 << (grp - 1)
}

/// Struct representing a single bit flag
pub struct U32BitFlag(u32);

impl U32BitFlag {
    /// The flag number.
    pub closed spec fn spec_num(self) -> u32 {
        self.0
    }

    /// The flag with number `bit_num`. Only numbers from 1 to 32 name a
    /// bit; the masks that use a flag require that.
    pub fn new(bit_num: u32) -> (r: Self)
        ensures
            r.spec_num() == bit_num,
    {
        U32BitFlag(bit_num)
    }

    /// The mask that has only this flag set.
    fn into_bitmask(self) -> (r: U32Bitmask)
        requires
            1 <= self.spec_num() <= 32,
        ensures
            r.spec_bits() == set_mask(self.spec_num()),
    {
        U32Bitmask::from_bits(num_to_set_mask(self.0))
    }
}

/// Struct for handling `u32` bitmask operations
pub struct U32Bitmask(u32);

impl U32Bitmask {
    /// The bits of the mask.
    pub closed spec fn spec_bits(self) -> u32 {
        self.0
    }

    /// The mask with no bit set.
    pub fn empty() -> (r: Self)
        ensures
            r.spec_bits() == 0,
    {
        U32Bitmask(0)
    }

    /// The mask with exactly the bits of `v`.
    pub closed spec fn spec_from_bits(v: u32) -> Self {
        U32Bitmask(v)
    }

    /// The mask with exactly the bits of `v`.
    pub fn from_bits(v: u32) -> (r: Self)
        ensures
            r == Self::spec_from_bits(v),
            r.spec_bits() == v,
    {
        U32Bitmask(v)
    }

    /// The bits of the mask.
    pub fn bits(&self) -> (r: u32)
        ensures
            r == self.spec_bits(),
    {
        self.0
    }

    /// Whether no bit is set.
    pub fn is_empty(&self) -> (r: bool)
        ensures
            r == (self.spec_bits() == 0),
    {
        self.0 == 0
    }

    /// Whether the bit of flag number `bit` is set.
    pub fn is_set(&self, bit: u32) -> (r: bool)
        requires
            1 <= bit <= 32,
        ensures
            r == (self.spec_bits() & set_mask(bit) == set_mask(bit)),
    {
        let set_mask = num_to_set_mask(bit);
        let bits = self.0;
        assert(set_mask & bits == bits & set_mask) by (bit_vector);
        set_mask & bits == set_mask
    }

    /// The bits set in either mask.
    pub fn union(self, rhs: U32Bitmask) -> (r: U32Bitmask)
        ensures
            r.spec_bits() == self.spec_bits() | rhs.spec_bits(),
    {
        U32Bitmask(self.0 | rhs.0)
    }

    /// This mask with `flag` set as well.
    pub fn with_flag(self, flag: U32BitFlag) -> (r: U32Bitmask)
        requires
            1 <= flag.spec_num() <= 32,
        ensures
            r.spec_bits() == self.spec_bits() | set_mask(flag.spec_num()),
    {
        self.union(flag.into_bitmask())
    }

    /// Set the bit of `flag`.
    pub fn set(&mut self, flag: U32BitFlag)
        requires
            1 <= flag.spec_num() <= 32,
        ensures
            final(self).spec_bits() == old(self).spec_bits() | set_mask(flag.spec_num()),
    {
        self.0 = self.0 | flag.into_bitmask().0;
    }

    /// The bits of this mask that are not set in `rhs`.
    pub fn difference(self, rhs: U32Bitmask) -> (r: U32Bitmask)
        ensures
            r.spec_bits() == self.spec_bits() & !rhs.spec_bits(),
    {
        U32Bitmask(self.0 & !rhs.0)
    }

    /// This mask with the bit of `flag` cleared.
    pub fn without_flag(self, flag: U32BitFlag) -> (r: U32Bitmask)
        requires
            1 <= flag.spec_num() <= 32,
        ensures
            r.spec_bits() == self.spec_bits() & !set_mask(flag.spec_num()),
    {
        self.difference(flag.into_bitmask())
    }

    /// Clear the bit of `flag`.
    pub fn unset(&mut self, flag: U32BitFlag)
        requires
            1 <= flag.spec_num() <= 32,
        ensures
            final(self).spec_bits() == old(self).spec_bits() & !set_mask(flag.spec_num()),
    {
        self.0 = self.0 & !flag.into_bitmask().0;
    }
}

impl From<u32> for U32Bitmask {
    fn from(v: u32) -> (r: Self) {
        U32Bitmask::from_bits(v)
    }
}

impl vstd::std_specs::convert::FromSpecImpl<u32> for U32Bitmask {
    open spec fn obeys_from_spec() -> bool {
        true
    }

    open spec fn from_spec(v: u32) -> Self {
        U32Bitmask::spec_from_bits(v)
    }
}

} // verus!
