//! Bit-flag sets used by the nfqws parameters.

use vstd::prelude::*;

verus! {

/// Ways of fixing the choice of outgoing interface for generated IP
/// packets; a set of the flags `v1` and `v2`.
#[derive(Debug, Copy, Clone)]
pub struct BindFix {
    bits: u8,
}

impl View for BindFix {
    type V = u8;

    closed spec fn view(&self) -> u8 {
        self.bits
    }
}

impl BindFix {
    /// The bits of all known flags.
    pub open spec fn all_bits() -> u8 {
        6u8
    }

    /// The first fixing method.
    pub fn v1() -> (res: Self)
        ensures
            res@ == 2u8,
    {
        BindFix { bits: 2u8 }
    }

    /// The second fixing method.
    pub fn v2() -> (res: Self)
        ensures
            res@ == 4u8,
    {
        BindFix { bits: 4u8 }
    }

    /// The empty set.
    pub fn empty() -> (res: Self)
        ensures
            res@ == 0u8,
    {
        BindFix { bits: 0u8 }
    }

    /// The set of all known flags.
    pub fn all() -> (res: Self)
        ensures
            res@ == Self::all_bits(),
    {
        BindFix { bits: 6u8 }
    }

    /// The raw bits of the set.
    pub fn bits(&self) -> (res: u8)
        ensures
            res == self@,
    {
        self.bits
    }

    /// The set with exactly the given bits, or `None` when some bit is not
    /// a known flag.
    pub fn from_bits(bits: u8) -> (res: Option<Self>)
        ensures
            res is Some <==> bits & !Self::all_bits() == 0u8,
            res matches Some(f) ==> f@ == bits,
    {
        if bits & !6u8 == 0 {
            Some(BindFix { bits })
        } else {
            None
        }
    }

    /// The set of the known flags among the given bits.
    pub fn from_bits_truncate(bits: u8) -> (res: Self)
        ensures
            res@ == bits & Self::all_bits(),
    {
        BindFix { bits: bits & 6u8 }
    }

    /// Whether no flag is set.
    pub fn is_empty(&self) -> (res: bool)
        ensures
            res == (self@ == 0u8),
    {
        self.bits == 0
    }

    /// Whether every flag of `other` is set in `self`.
    pub fn contains(&self, other: Self) -> (res: bool)
        ensures
            res == (self@ & other@ == other@),
    {
        self.bits & other.bits == other.bits
    }

    /// Whether `self` and `other` share a flag.
    pub fn intersects(&self, other: Self) -> (res: bool)
        ensures
            res == (self@ & other@ != 0u8),
    {
        self.bits & other.bits != 0
    }

    /// The flags set in `self` or in `other`.
    pub fn union(self, other: Self) -> (res: Self)
        ensures
            res@ == self@ | other@,
    {
        BindFix { bits: self.bits | other.bits }
    }

    /// The flags set in both `self` and `other`.
    pub fn intersection(self, other: Self) -> (res: Self)
        ensures
            res@ == self@ & other@,
    {
        BindFix { bits: self.bits & other.bits }
    }

    /// Sets the flags of `other`.
    pub fn insert(&mut self, other: Self)
        ensures
            final(self)@ == old(self)@ | other@,
    {
        self.bits = self.bits | other.bits;
    }

    /// Clears the flags of `other`.
    pub fn remove(&mut self, other: Self)
        ensures
            final(self)@ == old(self)@ & !other@,
    {
        self.bits = self.bits & !other.bits;
    }
}

/// Kinds of packets after which the window size is no longer changed;
/// a set of the flags `outgoint_packets`, `data_packets` and
/// `relative_sequences`.
#[derive(Debug, Copy, Clone)]
pub struct WindowSizeCutoff {
    bits: u8,
}

impl View for WindowSizeCutoff {
    type V = u8;

    closed spec fn view(&self) -> u8 {
        self.bits
    }
}

impl WindowSizeCutoff {
    /// The bits of all known flags.
    pub open spec fn all_bits() -> u8 {
        14u8
    }

    /// Cut off after a number of outgoing packets.
    pub fn outgoint_packets() -> (res: Self)
        ensures
            res@ == 2u8,
    {
        WindowSizeCutoff { bits: 2u8 }
    }

    /// Cut off after a number of data packets.
    pub fn data_packets() -> (res: Self)
        ensures
            res@ == 4u8,
    {
        WindowSizeCutoff { bits: 4u8 }
    }

    /// Cut off after a relative sequence number.
    pub fn relative_sequences() -> (res: Self)
        ensures
            res@ == 8u8,
    {
        WindowSizeCutoff { bits: 8u8 }
    }

    /// The empty set.
    pub fn empty() -> (res: Self)
        ensures
            res@ == 0u8,
    {
        WindowSizeCutoff { bits: 0u8 }
    }

    /// The set of all known flags.
    pub fn all() -> (res: Self)
        ensures
            res@ == Self::all_bits(),
    {
        WindowSizeCutoff { bits: 14u8 }
    }

    /// The raw bits of the set.
    pub fn bits(&self) -> (res: u8)
        ensures
            res == self@,
    {
        self.bits
    }

    /// The set with exactly the given bits, or `None` when some bit is not
    /// a known flag.
    pub fn from_bits(bits: u8) -> (res: Option<Self>)
        ensures
            res is Some <==> bits & !Self::all_bits() == 0u8,
            res matches Some(f) ==> f@ == bits,
    {
        if bits & !14u8 == 0 {
            Some(WindowSizeCutoff { bits })
        } else {
            None
        }
    }

    /// The set of the known flags among the given bits.
    pub fn from_bits_truncate(bits: u8) -> (res: Self)
        ensures
            res@ == bits & Self::all_bits(),
    {
        WindowSizeCutoff { bits: bits & 14u8 }
    }

    /// Whether no flag is set.
    pub fn is_empty(&self) -> (res: bool)
        ensures
            res == (self@ == 0u8),
    {
        self.bits == 0
    }

    /// Whether every flag of `other` is set in `self`.
    pub fn contains(&self, other: Self) -> (res: bool)
        ensures
            res == (self@ & other@ == other@),
    {
        self.bits & other.bits == other.bits
    }

    /// Whether `self` and `other` share a flag.
    pub fn intersects(&self, other: Self) -> (res: bool)
        ensures
            res == (self@ & other@ != 0u8),
    {
        self.bits & other.bits != 0
    }

    /// The flags set in `self` or in `other`.
    pub fn union(self, other: Self) -> (res: Self)
        ensures
            res@ == self@ | other@,
    {
        WindowSizeCutoff { bits: self.bits | other.bits }
    }

    /// The flags set in both `self` and `other`.
    pub fn intersection(self, other: Self) -> (res: Self)
        ensures
            res@ == self@ & other@,
    {
        WindowSizeCutoff { bits: self.bits & other.bits }
    }

    /// Sets the flags of `other`.
    pub fn insert(&mut self, other: Self)
        ensures
            final(self)@ == old(self)@ | other@,
    {
        self.bits = self.bits | other.bits;
    }

    /// Clears the flags of `other`.
    pub fn remove(&mut self, other: Self)
        ensures
            final(self)@ == old(self)@ & !other@,
    {
        self.bits = self.bits & !other.bits;
    }
}

/// Laws of every flag set: a union contains both operands, inserted flags
/// are contained, and removed flags are no longer set.
pub proof fn lemma_flag_set_laws(a: u8, b: u8)
    ensures
        (a | b) & a == a,
        (a | b) & b == b,
        (a & !b) & b == 0u8,
        (a & b) & b == a & b,
        a & !0u8 == a,
{
    assert((a | b) & a == a) by (bit_vector);
    assert((a | b) & b == b) by (bit_vector);
    assert((a & !b) & b == 0u8) by (bit_vector);
    assert((a & b) & b == a & b) by (bit_vector);
    assert(a & !0u8 == a) by (bit_vector);
}

} // verus!
