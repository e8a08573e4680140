//! Output framebuffer: a 160 x 144 grid of shade bytes, row-major,
//! refreshed one scanline at a time by the LCD controller.

use vstd::prelude::*;

verus! {

/// Width of the visible frame in pixels.
pub const FRAME_WIDTH: usize = 160;

/// Height of the visible frame in scanlines.
pub const FRAME_HEIGHT: usize = 144;

/// Number of shade bytes in a full frame.
pub const FRAME_SIZE: usize = FRAME_WIDTH * FRAME_HEIGHT;

/// The output framebuffer. Each byte is one of the four shades
/// 0xFF, 0x80, 0x40, 0x00 (lightest to darkest) once rendered;
/// at power-on every byte is zero.
#[derive(PartialEq, Eq, Clone, Debug)]
pub struct Frame {
    pub data: Vec<u8>,
}

impl Frame {
    /// A frame of the fixed size with every shade byte zero.
    pub fn new() -> (r: Frame)
        ensures
            r.data@.len() == FRAME_SIZE,
            forall|i: int| 0 <= i < FRAME_SIZE ==> r.data@[i] == 0u8,
    {
        let mut data: Vec<u8> = Vec::new();
        while data.len() < FRAME_SIZE
            invariant
                data@.len() <= FRAME_SIZE,
                forall|i: int| 0 <= i < data@.len() ==> data@[i] == 0u8,
            decreases FRAME_SIZE - data@.len(),
        {
            data.push(0);
        }
        Frame { data }
    }

    /// Reads one shade byte of the frame.
    pub fn get(&self, index: usize) -> (r: u8)
        requires
            index < self.data@.len(),
        ensures
            r == self.data@[index as int],
    {
        self.data[index]
    }

    /// Borrows the whole byte sequence of the frame, read-only. The result
    /// is exactly the frame's contents, so reading twice with no render in
    /// between gives identical byte sequences.
    pub fn as_bytes(&self) -> (r: &Vec<u8>)
        ensures
            r@ == self.data@,
    {
        &self.data
    }
}

/// Reading the frame is idempotent: two reads of its byte sequence with
/// no intervening render see the very same bytes.
pub proof fn lemma_frame_read_idempotent(f: Frame, first: Seq<u8>, second: Seq<u8>)
    requires
        first == f.data@,
        second == f.data@,
    ensures
        first == second,
{
}

} // verus!
