//! Bit sets over the two native window style words.
use vstd::prelude::*;

verus! {

/// The standard window style word.
#[derive(Clone, Copy, Debug, PartialEq, Eq, Structural)]
pub struct GwlStyle {
    pub bits: u32,
}

/// The extended window style word.
#[derive(Clone, Copy, Debug, PartialEq, Eq, Structural)]
pub struct GwlExStyle {
    pub bits: u32,
}

pub const WS_BORDER: u32 = 0x0080_0000;
pub const WS_CAPTION: u32 = 0x00C0_0000;
pub const WS_THICKFRAME: u32 = 0x0004_0000;
pub const WS_MAXIMIZE: u32 = 0x0100_0000;
pub const WS_MINIMIZE: u32 = 0x2000_0000;
pub const WS_VISIBLE: u32 = 0x1000_0000;
pub const WS_SYSMENU: u32 = 0x0008_0000;
pub const WS_EX_TOPMOST: u32 = 0x0000_0008;
pub const WS_EX_TOOLWINDOW: u32 = 0x0000_0080;
pub const WS_EX_WINDOWEDGE: u32 = 0x0000_0100;

impl GwlStyle {
    /// Takes the raw native encoding as it is, without dropping unknown bits.
    pub fn from_bits(bits: u32) -> (r: GwlStyle)
        ensures
            r.bits == bits,
    {
        GwlStyle { bits }
    }

    /// The raw native encoding.
    pub fn bits(&self) -> (r: u32)
        ensures
            r == self.bits,
    {
        self.bits
    }

    pub fn empty() -> (r: GwlStyle)
        ensures
            r.bits == 0,
    {
        GwlStyle { bits: 0 }
    }

    pub fn contains(&self, flag: u32) -> (r: bool)
        ensures
            r == (self.bits & flag == flag),
    {
        self.bits & flag == flag
    }

    pub fn insert(&mut self, flag: u32)
        ensures
            final(self).bits == old(self).bits | flag,
    {
        self.bits = self.bits | flag;
    }

    pub fn remove(&mut self, flag: u32)
        ensures
            final(self).bits == old(self).bits & !flag,
    {
        self.bits = self.bits & !flag;
    }
}

impl GwlExStyle {
    /// Takes the raw native encoding as it is, without dropping unknown bits.
    pub fn from_bits(bits: u32) -> (r: GwlExStyle)
        ensures
            r.bits == bits,
    {
        GwlExStyle { bits }
    }

    /// The raw native encoding.
    pub fn bits(&self) -> (r: u32)
        ensures
            r == self.bits,
    {
        self.bits
    }

    pub fn empty() -> (r: GwlExStyle)
        ensures
            r.bits == 0,
    {
        GwlExStyle { bits: 0 }
    }

    pub fn contains(&self, flag: u32) -> (r: bool)
        ensures
            r == (self.bits & flag == flag),
    {
        self.bits & flag == flag
    }

    pub fn insert(&mut self, flag: u32)
        ensures
            final(self).bits == old(self).bits | flag,
    {
        self.bits = self.bits | flag;
    }

    pub fn remove(&mut self, flag: u32)
        ensures
            final(self).bits == old(self).bits & !flag,
    {
        self.bits = self.bits & !flag;
    }
}

/// Inserting a flag makes the set contain it; removing it makes the set lose
/// every bit of it; both are idempotent.
pub proof fn lemma_insert_remove_bits(s: u32, f: u32)
    ensures
        (s | f) & f == f,
        (s & !f) & f == 0,
        (s | f) | f == s | f,
        (s & !f) & !f == s & !f,
{
    assert((s | f) & f == f) by (bit_vector);
    assert((s & !f) & f == 0) by (bit_vector);
    assert((s | f) | f == s | f) by (bit_vector);
    assert((s & !f) & !f == s & !f) by (bit_vector);
}

} // verus!
