//! The capability-data codec: the single word of badge or guard
//! configuration attached to an endpoint or CNode capability.
//!
//! The word is read in one of two ways. As a badge it carries one
//! 28-bit value in the low bits. As guard configuration it carries
//! the guard's bit pattern (18 bits, at bit 5) above the guard's
//! depth in bits (5 bits, at bit 0). There is no cross-field
//! invariant beyond each field fitting its bit range; out-of-range
//! inputs are a caller contract violation, never clamped.
use vstd::prelude::*;

use crate::types::seL4_Word;

verus! {

/// Largest badge value: badges are 28 bits wide.
pub const seL4_BadgeBits: usize = 28;

/// Largest value of the guard's bit pattern: 18 bits wide.
pub const seL4_GuardBits: usize = 18;

/// Largest value of the guard's size field: 5 bits wide.
pub const seL4_GuardSizeBits: usize = 5;

/// The badge of a capability-data word: its low 28 bits.
pub open spec fn badge_of(w: seL4_Word) -> seL4_Word {
    w & 0xFFF_FFFF
}

/// The guard bit pattern of a capability-data word: bits 5 to 22.
pub open spec fn guard_of(w: seL4_Word) -> seL4_Word {
    (w >> 5) & 0x3_FFFF
}

/// The guard size of a capability-data word: its low 5 bits.
pub open spec fn guard_size_of(w: seL4_Word) -> seL4_Word {
    w & 0x1f
}

/// The capability-data word carrying a badge.
pub open spec fn badge_encode(badge: seL4_Word) -> seL4_Word {
    badge & 0xFFF_FFFF
}

/// The capability-data word carrying a guard configuration.
pub open spec fn guard_encode(guard: seL4_Word, guard_size: seL4_Word) -> seL4_Word {
    (guard << 5) | guard_size
}

/// One word of capability data in its packed wire form.
#[derive(Clone, Copy, PartialEq, Eq, Debug)]
pub struct seL4_CapData {
    pub words: [seL4_Word; 1],
}

impl seL4_CapData {
    /// Packs a badge. The badge must fit its 28-bit field; the codec
    /// never truncates.
    pub fn new_badge(badge: seL4_Word) -> (r: Self)
        requires
            badge < 0x1000_0000,
        ensures
            r.words[0] == badge_encode(badge),
            r.get_badge_spec() == badge,
    {
        proof {
            lemma_badge_round_trip(badge);
        }
        seL4_CapData { words: [badge & 0xFFF_FFFF] }
    }

    /// Packs a guard configuration: the guard's bit pattern and how
    /// many bits of it apply. Each field must fit its bit range.
    pub fn new_guard(guard: seL4_Word, guard_size: seL4_Word) -> (r: Self)
        requires
            guard < 0x4_0000,
            guard_size < 32,
        ensures
            r.words[0] == guard_encode(guard, guard_size),
            r.get_guard_spec() == guard,
            r.get_guard_size_spec() == guard_size,
    {
        proof {
            lemma_guard_round_trip(guard, guard_size);
        }
        seL4_CapData { words: [(guard << 5u32) | guard_size] }
    }

    /// Wraps a capability-data word received from the kernel.
    pub fn from_word(w: seL4_Word) -> (r: Self)
        ensures
            r.words[0] == w,
    {
        seL4_CapData { words: [w] }
    }

    /// The badge carried by this word, as a spec value.
    pub open spec fn get_badge_spec(self) -> seL4_Word {
        badge_of(self.words[0])
    }

    /// The guard bit pattern carried by this word, as a spec value.
    pub open spec fn get_guard_spec(self) -> seL4_Word {
        guard_of(self.words[0])
    }

    /// The guard size carried by this word, as a spec value.
    pub open spec fn get_guard_size_spec(self) -> seL4_Word {
        guard_size_of(self.words[0])
    }

    /// Reads the badge field.
    pub fn get_badge(&self) -> (r: seL4_Word)
        ensures
            r == self.get_badge_spec(),
            r < 0x1000_0000,
    {
        proof {
            lemma_cap_data_fields_bounded(self.words[0]);
        }
        self.words[0] & 0xFFF_FFFF
    }

    /// Reads the guard bit pattern.
    pub fn get_guard(&self) -> (r: seL4_Word)
        ensures
            r == self.get_guard_spec(),
            r < 0x4_0000,
    {
        proof {
            lemma_cap_data_fields_bounded(self.words[0]);
        }
        (self.words[0] >> 5u32) & 0x3_FFFF
    }

    /// Reads the guard size.
    pub fn get_guard_size(&self) -> (r: seL4_Word)
        ensures
            r == self.get_guard_size_spec(),
            r < 32,
    {
        proof {
            lemma_cap_data_fields_bounded(self.words[0]);
        }
        self.words[0] & 0x1f
    }
}

/// Each decoded field lies within its bit range, whatever the word.
pub proof fn lemma_cap_data_fields_bounded(w: seL4_Word)
    ensures
        badge_of(w) < 0x1000_0000,
        guard_of(w) < 0x4_0000,
        guard_size_of(w) < 32,
{
    assert((w & 0xFFF_FFFF) < 0x1000_0000 && ((w >> 5) & 0x3_FFFF) < 0x4_0000 && (w & 0x1f) < 32)
        by (bit_vector);
}

/// Decoding a packed badge word recovers the badge exactly, for every
/// badge that fits its 28-bit field.
pub proof fn lemma_badge_round_trip(badge: seL4_Word)
    requires
        badge < 0x1000_0000,
    ensures
        badge_of(badge_encode(badge)) == badge,
{
    assert(badge < 0x1000_0000 ==> ((badge & 0xFFF_FFFF) & 0xFFF_FFFF) == badge) by (bit_vector);
}

/// Decoding a packed guard word recovers both fields exactly, for
/// every pair within its bit ranges.
pub proof fn lemma_guard_round_trip(guard: seL4_Word, guard_size: seL4_Word)
    requires
        guard < 0x4_0000,
        guard_size < 32,
    ensures
        guard_of(guard_encode(guard, guard_size)) == guard,
        guard_size_of(guard_encode(guard, guard_size)) == guard_size,
{
    assert((guard < 0x4_0000 && guard_size < 32) ==> ((((guard << 5) | guard_size) >> 5) & 0x3_FFFF)
        == guard && (((guard << 5) | guard_size) & 0x1f) == guard_size) by (bit_vector);
}

} // verus!
