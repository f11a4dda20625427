//! Texture units.

use vstd::prelude::*;

verus! {

/// One of the sixteen numbered slots a texture can be bound to.
#[derive(Debug, PartialEq, Eq, Ord, PartialOrd, Hash, Copy, Clone, Structural)]
pub enum TextureUnit {
    Slot0,
    Slot1,
    Slot2,
    Slot3,
    Slot4,
    Slot5,
    Slot6,
    Slot7,
    Slot8,
    Slot9,
    Slot10,
    Slot11,
    Slot12,
    Slot13,
    Slot14,
    Slot15,
}

impl TextureUnit {
    /// Number of the slot, counted from zero.
    pub open spec fn slot(self) -> int {
        match self {
            TextureUnit::Slot0 => 0,
            TextureUnit::Slot1 => 1,
            TextureUnit::Slot2 => 2,
            TextureUnit::Slot3 => 3,
            TextureUnit::Slot4 => 4,
            TextureUnit::Slot5 => 5,
            TextureUnit::Slot6 => 6,
            TextureUnit::Slot7 => 7,
            TextureUnit::Slot8 => 8,
            TextureUnit::Slot9 => 9,
            TextureUnit::Slot10 => 10,
            TextureUnit::Slot11 => 11,
            TextureUnit::Slot12 => 12,
            TextureUnit::Slot13 => 13,
            TextureUnit::Slot14 => 14,
            TextureUnit::Slot15 => 15,
        }
    }

    /// Number of the slot, as a sampler uniform takes it.
    pub fn index(&self) -> (i: i32)
        ensures
            i == self.slot(),
            0 <= i < 16,
    {
        match self {
            TextureUnit::Slot0 => 0,
            TextureUnit::Slot1 => 1,
            TextureUnit::Slot2 => 2,
            TextureUnit::Slot3 => 3,
            TextureUnit::Slot4 => 4,
            TextureUnit::Slot5 => 5,
            TextureUnit::Slot6 => 6,
            TextureUnit::Slot7 => 7,
            TextureUnit::Slot8 => 8,
            TextureUnit::Slot9 => 9,
            TextureUnit::Slot10 => 10,
            TextureUnit::Slot11 => 11,
            TextureUnit::Slot12 => 12,
            TextureUnit::Slot13 => 13,
            TextureUnit::Slot14 => 14,
            TextureUnit::Slot15 => 15,
        }
    }
}

} // verus!
