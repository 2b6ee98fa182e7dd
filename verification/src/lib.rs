//! A minimal entity-component data store with a small fixed-size
//! linear-algebra companion.
//!
//! The store allocates unique entity identities, registers component
//! types, and keeps per-component columns of optional values indexed
//! by an entity's numeric identity.

use vstd::prelude::*;

pub mod component;
pub mod entity;
pub mod matrix;
pub mod scalar;
pub mod system;
pub mod vector;
pub mod world;

verus! {

/// A fixed-width numeric handle used to build both entity and component
/// identities. The raw value 0 is the null identity, reserved to mean
/// "no identity"; the allocators never hand it out.
///
/// Besides acting as a counter, an `Id` supports testing, setting and
/// clearing single bits of its raw value, reserved for flag-style
/// annotation.
#[derive(Clone, Copy, Debug, PartialEq, Eq, Structural, PartialOrd, Ord, Hash)]
pub struct Id(u64);

impl View for Id {
    type V = u64;

    closed spec fn view(&self) -> u64 {
        self.0
    }
}

impl Id {
    /// Wrap a raw value as an identity.
    pub fn new(val: u64) -> (r: Self)
        ensures
            r@ == val,
    {
        Id(val)
    }

    /// The raw numeric value of this identity.
    pub fn raw(&self) -> (r: u64)
        ensures
            r == self@,
    {
        self.0
    }

    /// The sum of two identities. The store only ever adds one, to
    /// step a counter; with 64 bits of width, exhaustion of the
    /// counters is of no practical concern, so wraparound is left out
    /// rather than handled.
    pub fn add(self, rhs: Self) -> (r: Self)
        requires
            self@ + rhs@ <= u64::MAX,
        ensures
            r@ == self@ + rhs@,
    {
        Id(self.0 + rhs.0)
    }

    /// Whether the given bit of the raw value is one.
    pub open spec fn spec_bit(self, bit: u8) -> bool {
        self@ & (1u64 << (bit as u64)) != 0
    }

    /// Test a single bit of the raw value.
    pub fn is_set(&self, bit: u8) -> (r: bool)
        requires
            bit < 64,
        ensures
            r == self.spec_bit(bit),
    {
        let mask: u64 = 1u64 << (bit as u64);
        (self.0 & mask) != 0
    }

    /// Test that a single bit of the raw value is zero.
    pub fn is_unset(&self, bit: u8) -> (r: bool)
        requires
            bit < 64,
        ensures
            r == !self.spec_bit(bit),
    {
        let mask: u64 = 1u64 << (bit as u64);
        (self.0 & mask) == 0
    }

    /// Set a single bit of the raw value to one, leaving every other
    /// bit as it was.
    pub fn set(&mut self, bit: u8)
        requires
            bit < 64,
        ensures
            final(self)@ == old(self)@ | (1u64 << (bit as u64)),
            final(self).spec_bit(bit),
            forall|b: u8| b < 64 && b != bit ==> final(self).spec_bit(b) == old(self).spec_bit(b),
    {
        let mask: u64 = 1u64 << (bit as u64);
        self.0 = self.0 | mask;
        proof {
            assert(self.spec_bit(bit)) by {
                lemma_or_mask_sets_bit(old(self)@, bit);
            }
            assert forall|b: u8| b < 64 && b != bit implies self.spec_bit(b) == old(
                self,
            ).spec_bit(b) by {
                lemma_or_mask_keeps_bit(old(self)@, bit, b);
            }
        }
    }

    /// Clear a single bit of the raw value to zero, leaving every other
    /// bit as it was.
    pub fn unset(&mut self, bit: u8)
        requires
            bit < 64,
        ensures
            final(self)@ == old(self)@ & !(1u64 << (bit as u64)),
            !final(self).spec_bit(bit),
            forall|b: u8| b < 64 && b != bit ==> final(self).spec_bit(b) == old(self).spec_bit(b),
    {
        let mask: u64 = 1u64 << (bit as u64);
        self.0 = self.0 & !mask;
        proof {
            assert(!self.spec_bit(bit)) by {
                lemma_and_not_mask_clears_bit(old(self)@, bit);
            }
            assert forall|b: u8| b < 64 && b != bit implies self.spec_bit(b) == old(
                self,
            ).spec_bit(b) by {
                lemma_and_not_mask_keeps_bit(old(self)@, bit, b);
            }
        }
    }
}

/// Setting a bit by an or-mask turns that bit on.
proof fn lemma_or_mask_sets_bit(x: u64, bit: u8)
    requires
        bit < 64,
    ensures
        (x | (1u64 << (bit as u64))) & (1u64 << (bit as u64)) != 0,
{
    assert((x | (1u64 << (bit as u64))) & (1u64 << (bit as u64)) != 0) by (bit_vector)
        requires
            bit < 64,
    ;
}

/// Setting a bit by an or-mask leaves every other bit unchanged.
proof fn lemma_or_mask_keeps_bit(x: u64, bit: u8, b: u8)
    requires
        bit < 64,
        b < 64,
        b != bit,
    ensures
        ((x | (1u64 << (bit as u64))) & (1u64 << (b as u64)) != 0) == (x & (1u64 << (b as u64))
            != 0),
{
    assert(((x | (1u64 << (bit as u64))) & (1u64 << (b as u64)) != 0) == (x & (1u64 << (b as u64))
        != 0)) by (bit_vector)
        requires
            bit < 64,
            b < 64,
            b != bit,
    ;
}

/// Clearing a bit by an and-not-mask turns that bit off.
proof fn lemma_and_not_mask_clears_bit(x: u64, bit: u8)
    requires
        bit < 64,
    ensures
        (x & !(1u64 << (bit as u64))) & (1u64 << (bit as u64)) == 0,
{
    assert((x & !(1u64 << (bit as u64))) & (1u64 << (bit as u64)) == 0) by (bit_vector)
        requires
            bit < 64,
    ;
}

/// Clearing a bit by an and-not-mask leaves every other bit unchanged.
proof fn lemma_and_not_mask_keeps_bit(x: u64, bit: u8, b: u8)
    requires
        bit < 64,
        b < 64,
        b != bit,
    ensures
        ((x & !(1u64 << (bit as u64))) & (1u64 << (b as u64)) != 0) == (x & (1u64 << (b as u64))
            != 0),
{
    assert(((x & !(1u64 << (bit as u64))) & (1u64 << (b as u64)) != 0) == (x & (1u64 << (b as u64))
        != 0)) by (bit_vector)
        requires
            bit < 64,
            b < 64,
            b != bit,
    ;
}

} // verus!
