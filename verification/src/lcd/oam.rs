//! Object attribute memory entries: four bytes per sprite, holding its
//! position, tile index and an attribute byte of packed fields.

use vstd::prelude::*;

verus! {

/// The attribute byte of a sprite, with its packed fields exposed as
/// named accessors over documented bit masks.
#[derive(PartialEq, Eq, Clone, Copy, Debug, Structural)]
pub struct SpriteAttributes(pub u8);

impl SpriteAttributes {
    /// Bit 7: when set the sprite draws under non-zero background pixels.
    pub fn obj_bg_priority(&self) -> (r: bool)
        ensures
            r == (self.0 & 0x80 != 0),
    {
        self.0 & 0x80 != 0
    }

    /// Bit 6: the sprite is flipped vertically.
    pub fn y_flip(&self) -> (r: bool)
        ensures
            r == (self.0 & 0x40 != 0),
    {
        self.0 & 0x40 != 0
    }

    /// Bit 5: the sprite is flipped horizontally.
    pub fn x_flip(&self) -> (r: bool)
        ensures
            r == (self.0 & 0x20 != 0),
    {
        self.0 & 0x20 != 0
    }

    /// Bit 4: which of the two object palettes the sprite uses.
    pub fn palette_num(&self) -> (r: bool)
        ensures
            r == (self.0 & 0x10 != 0),
    {
        self.0 & 0x10 != 0
    }

    /// Bit 3: which tile data bank the sprite reads from.
    pub fn tile_vram_bank(&self) -> (r: bool)
        ensures
            r == (self.0 & 0x08 != 0),
    {
        self.0 & 0x08 != 0
    }

    /// Bits 2..0: the extended palette number.
    pub fn palette_num_cgb(&self) -> (r: u8)
        ensures
            r == self.0 & 0x07,
    {
        self.0 & 0x07
    }
}

/// One entry of the object attribute table: the four raw bytes of a
/// sprite descriptor, in table order.
#[derive(PartialEq, Eq, Clone, Copy, Debug)]
pub struct OAMEntry(pub [u8; 4]);

impl OAMEntry {
    /// Byte 0: the sprite's Y position.
    pub fn y_pos(&self) -> (r: u8)
        ensures
            r == self.0@[0],
    {
        self.0[0]
    }

    /// Byte 1: the sprite's X position.
    pub fn x_pos(&self) -> (r: u8)
        ensures
            r == self.0@[1],
    {
        self.0[1]
    }

    /// Byte 2: the index of the tile holding the sprite's pixels.
    pub fn tile_num(&self) -> (r: u8)
        ensures
            r == self.0@[2],
    {
        self.0[2]
    }

    /// Byte 3: the packed attribute byte.
    pub fn attributes(&self) -> (r: SpriteAttributes)
        ensures
            r == (SpriteAttributes(self.0@[3])),
    {
        SpriteAttributes(self.0[3])
    }
}

} // verus!
