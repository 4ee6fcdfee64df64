//! The bits that configure the debugger's overlay.

use vstd::prelude::*;

verus! {

/// The overlay is enabled.
pub const OVERLAY_ENABLED: u32 = 0x1;

/// The overlay shows the average, minimum and maximum sampled frame rate.
pub const OVERLAY_FRAME_RATE: u32 = 0x2;

/// The overlay shows the current frame number.
pub const OVERLAY_FRAME_NUMBER: u32 = 0x4;

/// The overlay shows a list of recent captures.
pub const OVERLAY_CAPTURE_LIST: u32 = 0x8;

/// The overlay's default configuration: the four bits above.
pub const OVERLAY_DEFAULT: u32 = 0xF;

/// Every bit.
pub const OVERLAY_ALL: u32 = 0xFFFF_FFFF;

/// No bit.
pub const OVERLAY_NONE: u32 = 0;

/// A set of overlay bits. Every bit pattern is a value: the debugger may use
/// bits that this crate has no name for.
#[derive(Clone, Copy, Debug, PartialEq, Eq, Hash, Structural)]
pub struct OverlayBits {
    pub bits: u32,
}

impl View for OverlayBits {
    type V = u32;

    open spec fn view(&self) -> u32 {
        self.bits
    }
}

impl OverlayBits {
    /// The set with exactly the given bits.
    pub fn from_bits(bits: u32) -> (set: OverlayBits)
        ensures
            set@ == bits,
    {
        OverlayBits { bits }
    }

    /// The bits of this set.
    pub fn bits(self) -> (bits: u32)
        ensures
            bits == self@,
    {
        self.bits
    }

    /// The bit that enables the overlay.
    pub fn enabled() -> (set: OverlayBits)
        ensures
            set@ == OVERLAY_ENABLED,
    {
        OverlayBits { bits: OVERLAY_ENABLED }
    }

    /// The bit that shows the frame rate.
    pub fn frame_rate() -> (set: OverlayBits)
        ensures
            set@ == OVERLAY_FRAME_RATE,
    {
        OverlayBits { bits: OVERLAY_FRAME_RATE }
    }

    /// The bit that shows the frame number.
    pub fn frame_number() -> (set: OverlayBits)
        ensures
            set@ == OVERLAY_FRAME_NUMBER,
    {
        OverlayBits { bits: OVERLAY_FRAME_NUMBER }
    }

    /// The bit that shows the list of captures.
    pub fn capture_list() -> (set: OverlayBits)
        ensures
            set@ == OVERLAY_CAPTURE_LIST,
    {
        OverlayBits { bits: OVERLAY_CAPTURE_LIST }
    }

    /// Every bit.
    pub fn all() -> (set: OverlayBits)
        ensures
            set@ == OVERLAY_ALL,
    {
        OverlayBits { bits: OVERLAY_ALL }
    }

    /// No bit.
    pub fn none() -> (set: OverlayBits)
        ensures
            set@ == OVERLAY_NONE,
    {
        OverlayBits { bits: OVERLAY_NONE }
    }

    /// Whether no bit is set.
    pub fn is_empty(self) -> (b: bool)
        ensures
            b == (self@ == 0),
    {
        self.bits == 0
    }

    /// Whether every bit of `other` is set in this set.
    pub fn contains(self, other: OverlayBits) -> (b: bool)
        ensures
            b == (self@ & other@ == other@),
    {
        self.bits & other.bits == other.bits
    }

    /// The bits set in this set or in `other`.
    pub fn union(self, other: OverlayBits) -> (set: OverlayBits)
        ensures
            set@ == self@ | other@,
    {
        OverlayBits { bits: self.bits | other.bits }
    }

    /// The bits set in this set and in `other`.
    pub fn intersection(self, other: OverlayBits) -> (set: OverlayBits)
        ensures
            set@ == self@ & other@,
    {
        OverlayBits { bits: self.bits & other.bits }
    }

    /// The bits set in this set and not in `other`.
    pub fn difference(self, other: OverlayBits) -> (set: OverlayBits)
        ensures
            set@ == self@ & !other@,
    {
        OverlayBits { bits: self.bits & !other.bits }
    }
}

impl Default for OverlayBits {
    /// The overlay's default configuration.
    fn default() -> (set: OverlayBits)
        ensures
            set@ == OVERLAY_DEFAULT,
    {
        OverlayBits { bits: OVERLAY_DEFAULT }
    }
}

/// The default configuration is the four named bits together, and they are
/// four different bits; the empty set is in every set, and every set is in
/// the set of all bits.
pub proof fn lemma_named_overlay_bits(set: u32)
    ensures
        OVERLAY_DEFAULT == OVERLAY_ENABLED | OVERLAY_FRAME_RATE | OVERLAY_FRAME_NUMBER
            | OVERLAY_CAPTURE_LIST,
        OVERLAY_ENABLED & OVERLAY_FRAME_RATE == 0,
        OVERLAY_ENABLED & OVERLAY_FRAME_NUMBER == 0,
        OVERLAY_ENABLED & OVERLAY_CAPTURE_LIST == 0,
        OVERLAY_FRAME_RATE & OVERLAY_FRAME_NUMBER == 0,
        OVERLAY_FRAME_RATE & OVERLAY_CAPTURE_LIST == 0,
        OVERLAY_FRAME_NUMBER & OVERLAY_CAPTURE_LIST == 0,
        set & OVERLAY_NONE == OVERLAY_NONE,
        OVERLAY_ALL & set == set,
{
    assert(0xFu32 == 0x1u32 | 0x2u32 | 0x4u32 | 0x8u32) by (bit_vector);
    assert(0x1u32 & 0x2u32 == 0) by (bit_vector);
    assert(0x1u32 & 0x4u32 == 0) by (bit_vector);
    assert(0x1u32 & 0x8u32 == 0) by (bit_vector);
    assert(0x2u32 & 0x4u32 == 0) by (bit_vector);
    assert(0x2u32 & 0x8u32 == 0) by (bit_vector);
    assert(0x4u32 & 0x8u32 == 0) by (bit_vector);
    assert(set & 0u32 == 0u32) by (bit_vector);
    assert(0xFFFF_FFFFu32 & set == set) by (bit_vector);
}

} // verus!
