//! LCD controller (PPU): video RAM, tile maps, object attribute memory,
//! the LCD register bank, and the four-state timing automaton that renders
//! one scanline at each pixel-transfer exit.

pub mod frame;
pub mod oam;

use vstd::prelude::*;
use vstd::pervasive::VecAdditionalExecFns;

use crate::lcd::frame::{Frame, FRAME_SIZE};
use crate::lcd::oam::OAMEntry;
use crate::memory::BusError;
use crate::memory::zeroed_bytes;

verus! {

/// Bytes of tile pixel data, mapped at 0x8000..0x97FF.
pub const VRAM_TILE_DATA_SIZE: usize = 0x1800;

/// Bytes of one background tile map, mapped at 0x9800..0x9BFF and
/// 0x9C00..0x9FFF.
pub const BACKGROUND_MAP_SIZE: usize = 0x400;

/// Bytes of the object attribute table, mapped at 0xFE00..0xFE9F.
pub const OAM_TABLE_SIZE: usize = 0xA0;

/// The LCD control register, with each documented bit exposed as a named
/// accessor over its mask.
#[derive(PartialEq, Eq, Clone, Copy, Debug, Structural)]
pub struct LCDC(pub u8);

impl LCDC {
    /// Bit 7: the LCD is enabled.
    pub fn enable(&self) -> (r: bool)
        ensures
            r == (self.0 & 0x80 != 0),
    {
        self.0 & 0x80 != 0
    }

    /// Bit 6: the window reads the second tile map instead of the first.
    pub fn window_tile_map_display(&self) -> (r: bool)
        ensures
            r == (self.0 & 0x40 != 0),
    {
        self.0 & 0x40 != 0
    }

    /// Bit 5: the window layer is drawn.
    pub fn window_display_enable(&self) -> (r: bool)
        ensures
            r == (self.0 & 0x20 != 0),
    {
        self.0 & 0x20 != 0
    }

    /// Bit 4: background and window tiles are addressed from the low tile
    /// data bank instead of the high one.
    pub fn bg_window_tile_data_select(&self) -> (r: bool)
        ensures
            r == (self.0 & 0x10 != 0),
    {
        self.0 & 0x10 != 0
    }

    /// Bit 3: the background reads the second tile map instead of the first.
    pub fn bg_tile_map_display_select(&self) -> (r: bool)
        ensures
            r == (self.0 & 0x08 != 0),
    {
        self.0 & 0x08 != 0
    }

    /// Bit 2: sprites are 8x16 pixels instead of 8x8.
    pub fn obj_size(&self) -> (r: bool)
        ensures
            r == (self.0 & 0x04 != 0),
    {
        self.0 & 0x04 != 0
    }

    /// Bit 1: sprites are drawn.
    pub fn obj_display_enable(&self) -> (r: bool)
        ensures
            r == (self.0 & 0x02 != 0),
    {
        self.0 & 0x02 != 0
    }

    /// Bit 0: the background and window are drawn at all.
    pub fn bg_window_display_priority(&self) -> (r: bool)
        ensures
            r == (self.0 & 0x01 != 0),
    {
        self.0 & 0x01 != 0
    }
}

/// Bits of STAT that software may write: the interrupt-enable bits 3..6.
/// The mode bits (0..1) and the coincidence bit (2) are computed by the
/// controller and reject overwrite.
pub const STAT_WRITE_MASK: u8 = 0x78;

/// The LCD status register: interrupt-enable bits plus the read-only
/// mode and coincidence bits.
#[derive(PartialEq, Eq, Clone, Copy, Debug, Structural)]
pub struct STAT(pub u8);

impl STAT {
    /// Bit 6: interrupt when LY matches LYC.
    pub fn ly_coincidence_int(&self) -> (r: bool)
        ensures
            r == (self.0 & 0x40 != 0),
    {
        self.0 & 0x40 != 0
    }

    /// Bit 5: interrupt on entering the OAM scan state.
    pub fn mode_2_oam_int(&self) -> (r: bool)
        ensures
            r == (self.0 & 0x20 != 0),
    {
        self.0 & 0x20 != 0
    }

    /// Bit 4: interrupt on entering the vertical blank state.
    pub fn mode_1_vblank_int(&self) -> (r: bool)
        ensures
            r == (self.0 & 0x10 != 0),
    {
        self.0 & 0x10 != 0
    }

    /// Bit 3: interrupt on entering the horizontal blank state.
    pub fn mode_0_hblank_int(&self) -> (r: bool)
        ensures
            r == (self.0 & 0x08 != 0),
    {
        self.0 & 0x08 != 0
    }

    /// Bit 2: LY currently matches LYC.
    pub fn coincidence_flag(&self) -> (r: bool)
        ensures
            r == (self.0 & 0x04 != 0),
    {
        self.0 & 0x04 != 0
    }

    /// Bits 1..0: the code of the controller's current state.
    pub fn mode_flag(&self) -> (r: u8)
        ensures
            r == self.0 & 0x03,
    {
        self.0 & 0x03
    }
}

/// The LCD register bank, mapped at 0xFF40..0xFF4B.
#[derive(PartialEq, Eq, Clone, Copy, Debug, Structural)]
pub struct LCDRegisters {
    pub lcdc: LCDC,
    pub stat: STAT,
    pub scroll_y: u8,
    pub scroll_x: u8,
    pub lcdc_y: u8,
    pub ly_compare: u8,
    pub window_y: u8,
    pub window_x: u8,
    pub background_palette: u8,
    pub object_palette_0: u8,
    pub object_palette_1: u8,
}

/// True when `addr` falls in the LCD register range.
pub open spec fn lcd_reg_addr(addr: u16) -> bool {
    0xFF40 <= addr && addr <= 0xFF4B
}

/// The byte read from the register bank at `addr`. The OAM-DMA trigger
/// register (0xFF46) backs no storage here and reads as zero.
pub open spec fn spec_reg_read(r: LCDRegisters, addr: u16) -> u8 {
    if addr == 0xFF40 {
        r.lcdc.0
    } else if addr == 0xFF41 {
        r.stat.0
    } else if addr == 0xFF42 {
        r.scroll_y
    } else if addr == 0xFF43 {
        r.scroll_x
    } else if addr == 0xFF44 {
        r.lcdc_y
    } else if addr == 0xFF45 {
        r.ly_compare
    } else if addr == 0xFF46 {
        0
    } else if addr == 0xFF47 {
        r.background_palette
    } else if addr == 0xFF48 {
        r.object_palette_0
    } else if addr == 0xFF49 {
        r.object_palette_1
    } else if addr == 0xFF4A {
        r.window_y
    } else {
        r.window_x
    }
}

/// The error a register write yields, or `None` when the write is
/// accepted: LY (0xFF44) is read-only from software, and an address
/// outside the bank is unmapped.
pub open spec fn spec_reg_write_err(addr: u16) -> Option<BusError> {
    if !lcd_reg_addr(addr) {
        Some(BusError::UnmappedAddress { addr })
    } else if addr == 0xFF44 {
        Some(BusError::ReadOnlyViolation { addr })
    } else {
        None
    }
}

/// The register bank after an accepted write of `value` at `addr`.
/// A STAT write reaches only its writable bits; a write to the OAM-DMA
/// trigger register (0xFF46) is an explicit no-op, since the transfer it
/// requests is outside this core.
pub open spec fn spec_reg_write(r: LCDRegisters, addr: u16, value: u8) -> LCDRegisters {
    if addr == 0xFF40 {
        LCDRegisters { lcdc: LCDC(value), ..r }
    } else if addr == 0xFF41 {
        LCDRegisters { stat: STAT((r.stat.0 & !STAT_WRITE_MASK) | (value & STAT_WRITE_MASK)), ..r }
    } else if addr == 0xFF42 {
        LCDRegisters { scroll_y: value, ..r }
    } else if addr == 0xFF43 {
        LCDRegisters { scroll_x: value, ..r }
    } else if addr == 0xFF45 {
        LCDRegisters { ly_compare: value, ..r }
    } else if addr == 0xFF46 {
        r
    } else if addr == 0xFF47 {
        LCDRegisters { background_palette: value, ..r }
    } else if addr == 0xFF48 {
        LCDRegisters { object_palette_0: value, ..r }
    } else if addr == 0xFF49 {
        LCDRegisters { object_palette_1: value, ..r }
    } else if addr == 0xFF4A {
        LCDRegisters { window_y: value, ..r }
    } else {
        LCDRegisters { window_x: value, ..r }
    }
}

impl LCDRegisters {
    /// The register bank at power-on: every register zero.
    pub fn new() -> (r: LCDRegisters)
        ensures
            r == (LCDRegisters {
                lcdc: LCDC(0),
                stat: STAT(0),
                scroll_y: 0,
                scroll_x: 0,
                lcdc_y: 0,
                ly_compare: 0,
                window_y: 0,
                window_x: 0,
                background_palette: 0,
                object_palette_0: 0,
                object_palette_1: 0,
            }),
    {
        LCDRegisters {
            lcdc: LCDC(0),
            stat: STAT(0),
            scroll_y: 0,
            scroll_x: 0,
            lcdc_y: 0,
            ly_compare: 0,
            window_y: 0,
            window_x: 0,
            background_palette: 0,
            object_palette_0: 0,
            object_palette_1: 0,
        }
    }

    /// Writes the software-writable bits of STAT, keeping the mode and
    /// coincidence bits the controller computes.
    pub fn set_stat(&mut self, value: u8)
        ensures
            final(self).stat.0 == (old(self).stat.0 & !STAT_WRITE_MASK) | (value & STAT_WRITE_MASK),
            *final(self) == (LCDRegisters { stat: final(self).stat, ..*old(self) }),
    {
        let cur_stat = self.stat.0;
        let new_stat = (cur_stat & !STAT_WRITE_MASK) | (value & STAT_WRITE_MASK);
        self.stat = STAT(new_stat);
    }

    /// Reads the register at `addr`, exactly as `spec_reg_read` describes;
    /// an address outside the bank is unmapped.
    pub fn read(&self, addr: u16) -> (r: Result<u8, BusError>)
        ensures
            lcd_reg_addr(addr) ==> r == Ok::<u8, BusError>(spec_reg_read(*self, addr)),
            !lcd_reg_addr(addr) ==> r == Err::<u8, BusError>(BusError::UnmappedAddress { addr }),
    {
        match addr {
            0xFF40 => Ok(self.lcdc.0),
            0xFF41 => Ok(self.stat.0),
            0xFF42 => Ok(self.scroll_y),
            0xFF43 => Ok(self.scroll_x),
            0xFF44 => Ok(self.lcdc_y),
            0xFF45 => Ok(self.ly_compare),
            0xFF46 => Ok(0),
            0xFF47 => Ok(self.background_palette),
            0xFF48 => Ok(self.object_palette_0),
            0xFF49 => Ok(self.object_palette_1),
            0xFF4A => Ok(self.window_y),
            0xFF4B => Ok(self.window_x),
            _ => Err(BusError::UnmappedAddress { addr }),
        }
    }

    /// Writes the register at `addr`. LY rejects the write with
    /// `ReadOnlyViolation`; STAT takes only its writable bits; the OAM-DMA
    /// trigger register is accepted as an explicit no-op.
    pub fn write(&mut self, addr: u16, value: u8) -> (r: Result<(), BusError>)
        ensures
            match spec_reg_write_err(addr) {
                None => r is Ok && *final(self) == spec_reg_write(*old(self), addr, value),
                Some(e) => r == Err::<(), BusError>(e) && *final(self) == *old(self),
            },
    {
        match addr {
            0xFF40 => {
                self.lcdc = LCDC(value);
                Ok(())
            },
            0xFF41 => {
                self.set_stat(value);
                Ok(())
            },
            0xFF42 => {
                self.scroll_y = value;
                Ok(())
            },
            0xFF43 => {
                self.scroll_x = value;
                Ok(())
            },
            0xFF44 => Err(BusError::ReadOnlyViolation { addr }),
            0xFF45 => {
                self.ly_compare = value;
                Ok(())
            },
            0xFF46 => Ok(()),
            0xFF47 => {
                self.background_palette = value;
                Ok(())
            },
            0xFF48 => {
                self.object_palette_0 = value;
                Ok(())
            },
            0xFF49 => {
                self.object_palette_1 = value;
                Ok(())
            },
            0xFF4A => {
                self.window_y = value;
                Ok(())
            },
            0xFF4B => {
                self.window_x = value;
                Ok(())
            },
            _ => Err(BusError::UnmappedAddress { addr }),
        }
    }
}

/// Writing any LCD register other than LY and the protected bits of STAT
/// and then reading it back returns the written value unchanged; a STAT
/// write comes back unchanged on its writable bits while the protected
/// bits keep their old value.
pub proof fn lemma_lcd_register_round_trip(regs: LCDRegisters, addr: u16, value: u8)
    requires
        lcd_reg_addr(addr),
        addr != 0xFF44,
        addr != 0xFF46,
    ensures
        addr != 0xFF41 ==> spec_reg_read(spec_reg_write(regs, addr, value), addr) == value,
        addr == 0xFF41 ==> spec_reg_read(spec_reg_write(regs, addr, value), addr) & STAT_WRITE_MASK
            == value & STAT_WRITE_MASK,
        addr == 0xFF41 ==> spec_reg_read(spec_reg_write(regs, addr, value), addr) & !STAT_WRITE_MASK
            == regs.stat.0 & !STAT_WRITE_MASK,
{
    if addr == 0xFF41 {
        let s = regs.stat.0;
        assert(((s & !0x78u8) | (value & 0x78u8)) & 0x78u8 == value & 0x78u8) by (bit_vector);
        assert(((s & !0x78u8) | (value & 0x78u8)) & !0x78u8 == s & !0x78u8) by (bit_vector);
    }
}

/// The four states of the timing automaton. The controller repeats
/// OAM scan, pixel transfer and horizontal blank once per visible
/// scanline, then spends ten scanline periods in vertical blank.
#[derive(PartialEq, Eq, Clone, Copy, Debug, Structural)]
pub enum LCDMode {
    HBlank,
    VBlank,
    OamScan,
    PixelTransfer,
}

/// The two-bit code of a state, as exposed in STAT bits 1..0.
pub open spec fn mode_code(m: LCDMode) -> u8 {
    match m {
        LCDMode::HBlank => 0,
        LCDMode::VBlank => 1,
        LCDMode::OamScan => 2,
        LCDMode::PixelTransfer => 3,
    }
}

/// Cycles spent scanning the object attribute table at the start of a line.
pub const OAM_SCAN_CYCLES: usize = 80;

/// Cycles spent transferring pixels; the line is rendered on exit.
pub const PIXEL_TRANSFER_CYCLES: usize = 172;

/// Cycles of horizontal blank; with the two states above this totals the
/// canonical 456 cycles per scanline.
pub const HBLANK_CYCLES: usize = 204;

/// Cycles of one scanline period, as spent per line of vertical blank.
pub const VBLANK_LINE_CYCLES: usize = 456;

/// How many cycles the automaton stays in state `m` before its exit
/// action fires.
pub open spec fn mode_duration(m: LCDMode) -> nat {
    match m {
        LCDMode::OamScan => OAM_SCAN_CYCLES as nat,
        LCDMode::PixelTransfer => PIXEL_TRANSFER_CYCLES as nat,
        LCDMode::HBlank => HBLANK_CYCLES as nat,
        LCDMode::VBlank => VBLANK_LINE_CYCLES as nat,
    }
}

/// The LCD controller: the register bank, the video memories it owns,
/// the timing automaton's state and cycle counter, and the output frame.
#[derive(PartialEq, Eq, Clone, Debug)]
pub struct LCD {
    pub registers: LCDRegisters,
    pub vram_tile_data: Vec<u8>,
    pub background_map1: Vec<u8>,
    pub background_map2: Vec<u8>,
    pub sprite_attribute_table: Vec<u8>,
    pub ticks_since_work: usize,
    pub lcd_state: LCDMode,
    pub frame: Frame,
}

impl LCD {
    /// Well-formedness: the owned memories have their mapped sizes, the
    /// mode bits of STAT mirror the automaton's state, and LY stays on a
    /// visible line outside vertical blank and on lines 144..153 inside it.
    pub open spec fn wf(self) -> bool {
        &&& self.vram_tile_data@.len() == VRAM_TILE_DATA_SIZE
        &&& self.background_map1@.len() == BACKGROUND_MAP_SIZE
        &&& self.background_map2@.len() == BACKGROUND_MAP_SIZE
        &&& self.sprite_attribute_table@.len() == OAM_TABLE_SIZE
        &&& self.frame.data@.len() == FRAME_SIZE
        &&& self.registers.stat.0 & 0x03 == mode_code(self.lcd_state)
        &&& (self.lcd_state is VBlank ==> 144 <= self.registers.lcdc_y <= 153)
        &&& (!(self.lcd_state is VBlank) ==> self.registers.lcdc_y < 144)
    }

    /// The controller at power-on: every register and memory byte zero
    /// except the mode bits, the automaton in OAM scan at LY zero.
    pub open spec fn is_power_on(self) -> bool {
        &&& self.registers == (LCDRegisters {
            lcdc: LCDC(0),
            stat: STAT(2),
            scroll_y: 0,
            scroll_x: 0,
            lcdc_y: 0,
            ly_compare: 0,
            window_y: 0,
            window_x: 0,
            background_palette: 0,
            object_palette_0: 0,
            object_palette_1: 0,
        })
        &&& self.vram_tile_data@ =~= Seq::new(VRAM_TILE_DATA_SIZE as nat, |i: int| 0u8)
        &&& self.background_map1@ =~= Seq::new(BACKGROUND_MAP_SIZE as nat, |i: int| 0u8)
        &&& self.background_map2@ =~= Seq::new(BACKGROUND_MAP_SIZE as nat, |i: int| 0u8)
        &&& self.sprite_attribute_table@ =~= Seq::new(OAM_TABLE_SIZE as nat, |i: int| 0u8)
        &&& self.frame.data@ =~= Seq::new(FRAME_SIZE as nat, |i: int| 0u8)
        &&& self.ticks_since_work == 0
        &&& self.lcd_state is OamScan
    }

    /// The controller at power-on, in the OAM scan state with LY zero.
    pub fn new() -> (r: LCD)
        ensures
            r.wf(),
            r.is_power_on(),
    {
        let mut lcd = LCD {
            registers: LCDRegisters::new(),
            vram_tile_data: zeroed_bytes(VRAM_TILE_DATA_SIZE),
            sprite_attribute_table: zeroed_bytes(OAM_TABLE_SIZE),
            background_map1: zeroed_bytes(BACKGROUND_MAP_SIZE),
            background_map2: zeroed_bytes(BACKGROUND_MAP_SIZE),
            ticks_since_work: 0,
            lcd_state: LCDMode::OamScan,
            frame: Frame::new(),
        };
        lcd.set_mode(LCDMode::OamScan);
        proof {
            assert((0u8 & 0xFCu8) | 2u8 == 2u8) by (bit_vector);
            assert(2u8 & 0x03u8 == 2u8) by (bit_vector);
            assert(lcd.vram_tile_data@ =~= Seq::new(VRAM_TILE_DATA_SIZE as nat, |i: int| 0u8));
            assert(lcd.background_map1@ =~= Seq::new(BACKGROUND_MAP_SIZE as nat, |i: int| 0u8));
            assert(lcd.background_map2@ =~= Seq::new(BACKGROUND_MAP_SIZE as nat, |i: int| 0u8));
            assert(lcd.sprite_attribute_table@ =~= Seq::new(OAM_TABLE_SIZE as nat, |i: int| 0u8));
            assert(lcd.frame.data@ =~= Seq::new(FRAME_SIZE as nat, |i: int| 0u8));
        }
        lcd
    }

    /// Moves the automaton to `lcd_mode` and mirrors its code into the
    /// low two bits of STAT.
    pub fn set_mode(&mut self, lcd_mode: LCDMode)
        ensures
            *final(self) == (LCD {
                lcd_state: lcd_mode,
                registers: LCDRegisters {
                    stat: STAT((old(self).registers.stat.0 & 0xFC) | mode_code(lcd_mode)),
                    ..old(self).registers
                },
                ..*old(self)
            }),
    {
        self.lcd_state = lcd_mode;
        let stat_value: u8 = match lcd_mode {
            LCDMode::HBlank => 0,
            LCDMode::VBlank => 1,
            LCDMode::OamScan => 2,
            LCDMode::PixelTransfer => 3,
        };
        self.registers.stat = STAT((self.registers.stat.0 & 0xFC) | stat_value);
    }
}

/// True when the LCD controller owns the address: tile data, the two
/// background maps, the object attribute table, or the register bank.
pub open spec fn lcd_owns(addr: u16) -> bool {
    ||| (0x8000 <= addr && addr <= 0x9FFF)
    ||| (0xFE00 <= addr && addr <= 0xFE9F)
    ||| lcd_reg_addr(addr)
}

/// The byte read from the controller at an address it owns.
pub open spec fn spec_lcd_read(l: LCD, addr: u16) -> u8 {
    if 0x8000 <= addr && addr <= 0x97FF {
        l.vram_tile_data@[addr - 0x8000]
    } else if 0x9800 <= addr && addr <= 0x9BFF {
        l.background_map1@[addr - 0x9800]
    } else if 0x9C00 <= addr && addr <= 0x9FFF {
        l.background_map2@[addr - 0x9C00]
    } else if 0xFE00 <= addr && addr <= 0xFE9F {
        l.sprite_attribute_table@[addr - 0xFE00]
    } else {
        spec_reg_read(l.registers, addr)
    }
}

/// The error a controller write yields, or `None` when it is accepted.
pub open spec fn spec_lcd_write_err(addr: u16) -> Option<BusError> {
    if !lcd_owns(addr) {
        Some(BusError::UnmappedAddress { addr })
    } else if addr == 0xFF44 {
        Some(BusError::ReadOnlyViolation { addr })
    } else {
        None
    }
}

/// Relates the controller before and after an accepted write of `value`
/// at `addr`: exactly the owning byte or register changes, and the
/// automaton's state, counter and frame stay as they were.
pub open spec fn spec_lcd_write_post(pre: LCD, post: LCD, addr: u16, value: u8) -> bool {
    &&& post.lcd_state == pre.lcd_state
    &&& post.ticks_since_work == pre.ticks_since_work
    &&& post.frame == pre.frame
    &&& if 0x8000 <= addr && addr <= 0x97FF {
        &&& post.vram_tile_data@ == pre.vram_tile_data@.update(addr - 0x8000, value)
        &&& post.background_map1 == pre.background_map1
        &&& post.background_map2 == pre.background_map2
        &&& post.sprite_attribute_table == pre.sprite_attribute_table
        &&& post.registers == pre.registers
    } else if 0x9800 <= addr && addr <= 0x9BFF {
        &&& post.background_map1@ == pre.background_map1@.update(addr - 0x9800, value)
        &&& post.vram_tile_data == pre.vram_tile_data
        &&& post.background_map2 == pre.background_map2
        &&& post.sprite_attribute_table == pre.sprite_attribute_table
        &&& post.registers == pre.registers
    } else if 0x9C00 <= addr && addr <= 0x9FFF {
        &&& post.background_map2@ == pre.background_map2@.update(addr - 0x9C00, value)
        &&& post.vram_tile_data == pre.vram_tile_data
        &&& post.background_map1 == pre.background_map1
        &&& post.sprite_attribute_table == pre.sprite_attribute_table
        &&& post.registers == pre.registers
    } else if 0xFE00 <= addr && addr <= 0xFE9F {
        &&& post.sprite_attribute_table@ == pre.sprite_attribute_table@.update(addr - 0xFE00, value)
        &&& post.vram_tile_data == pre.vram_tile_data
        &&& post.background_map1 == pre.background_map1
        &&& post.background_map2 == pre.background_map2
        &&& post.registers == pre.registers
    } else {
        &&& post.registers == spec_reg_write(pre.registers, addr, value)
        &&& post.vram_tile_data == pre.vram_tile_data
        &&& post.background_map1 == pre.background_map1
        &&& post.background_map2 == pre.background_map2
        &&& post.sprite_attribute_table == pre.sprite_attribute_table
    }
}

impl LCD {
    /// Reads the byte at an address the controller owns; any other
    /// address is unmapped.
    pub fn read(&self, addr: u16) -> (r: Result<u8, BusError>)
        requires
            self.wf(),
        ensures
            lcd_owns(addr) ==> r == Ok::<u8, BusError>(spec_lcd_read(*self, addr)),
            !lcd_owns(addr) ==> r == Err::<u8, BusError>(BusError::UnmappedAddress { addr }),
    {
        match addr {
            0x8000..=0x97FF => Ok(self.vram_tile_data[(addr - 0x8000) as usize]),
            0x9800..=0x9BFF => Ok(self.background_map1[(addr - 0x9800) as usize]),
            0x9C00..=0x9FFF => Ok(self.background_map2[(addr - 0x9C00) as usize]),
            0xFE00..=0xFE9F => Ok(self.sprite_attribute_table[(addr - 0xFE00) as usize]),
            0xFF40..=0xFF4B => self.registers.read(addr),
            _ => Err(BusError::UnmappedAddress { addr }),
        }
    }

    /// Writes the byte at an address the controller owns, exactly as
    /// `spec_lcd_write_post` relates; LY rejects the write, and any
    /// address the controller does not own is unmapped.
    pub fn write(&mut self, addr: u16, value: u8) -> (r: Result<(), BusError>)
        requires
            old(self).wf(),
        ensures
            final(self).wf(),
            match spec_lcd_write_err(addr) {
                None => r is Ok && spec_lcd_write_post(*old(self), *final(self), addr, value),
                Some(e) => r == Err::<(), BusError>(e) && *final(self) == *old(self),
            },
    {
        match addr {
            0x8000..=0x97FF => {
                self.vram_tile_data.set((addr - 0x8000) as usize, value);
                Ok(())
            },
            0x9800..=0x9BFF => {
                self.background_map1.set((addr - 0x9800) as usize, value);
                Ok(())
            },
            0x9C00..=0x9FFF => {
                self.background_map2.set((addr - 0x9C00) as usize, value);
                Ok(())
            },
            0xFE00..=0xFE9F => {
                self.sprite_attribute_table.set((addr - 0xFE00) as usize, value);
                Ok(())
            },
            0xFF40..=0xFF4B => {
                let r = self.registers.write(addr, value);
                proof {
                    let s = old(self).registers.stat.0;
                    let v = value;
                    assert(((s & !0x78u8) | (v & 0x78u8)) & 0x03u8 == s & 0x03u8) by (bit_vector);
                }
                r
            },
            _ => Err(BusError::UnmappedAddress { addr }),
        }
    }
}

/// Everything the renderer reads while drawing a scanline: the control
/// register, the scroll, window and palette registers, and the video
/// memories. None of these change while the automaton consumes cycles,
/// so a render started anywhere inside one `tick` call sees one
/// consistent environment.
pub struct RenderEnv {
    pub lcdc: u8,
    pub scy: u8,
    pub scx: u8,
    pub wy: u8,
    pub wx: u8,
    pub bgp: u8,
    pub vram: Seq<u8>,
    pub map1: Seq<u8>,
    pub map2: Seq<u8>,
}

/// The renderer's view of a controller.
pub open spec fn render_env(l: LCD) -> RenderEnv {
    RenderEnv {
        lcdc: l.registers.lcdc.0,
        scy: l.registers.scroll_y,
        scx: l.registers.scroll_x,
        wy: l.registers.window_y,
        wx: l.registers.window_x,
        bgp: l.registers.background_palette,
        vram: l.vram_tile_data@,
        map1: l.background_map1@,
        map2: l.background_map2@,
    }
}

/// Index into a 32 x 32 tile map of the tile holding plane position
/// `(y, x)`; each tile covers 8 x 8 pixels.
pub open spec fn tile_index_spec(y: u8, x: u8) -> int {
    (y / 8) * 32 + (x / 8)
}

/// Offset into the tile data of the first byte of tile `tile_idx`,
/// taken from the low bank when LCDC bit 4 is set and from the high
/// bank otherwise; every tile is 16 bytes.
pub open spec fn spec_tile_start(lcdc: u8, tile_idx: u8) -> int {
    if lcdc & 0x10 != 0 {
        16 * tile_idx
    } else {
        0x800 + 16 * tile_idx
    }
}

/// The 2-bit pixel at `(y % 8, x % 8)` of the 16-byte tile starting at
/// `start`: each row is two bytes, one per bit plane, most significant
/// pixel first.
pub open spec fn spec_pixel_in_tile(vram: Seq<u8>, start: int, y: u8, x: u8) -> u8 {
    let byte1 = vram[start + 2 * (y % 8)];
    let byte2 = vram[start + 2 * (y % 8) + 1];
    let shift = (7 - (x % 8)) as u8;
    (((byte2 >> shift) & 1) << 1) | ((byte1 >> shift) & 1)
}

/// The shade a 2-bit pixel value maps to through the background palette
/// register: field `pixel` of the palette selects one of the four fixed
/// shades, lightest to darkest.
pub open spec fn spec_shade(bgp: u8, pixel: u8) -> u8 {
    let color = (bgp >> ((2 * pixel) as u8)) & 0x03;
    if color == 0 {
        0xFF
    } else if color == 1 {
        0x80
    } else if color == 2 {
        0x40
    } else {
        0x00
    }
}

/// The 2-bit background pixel at plane position `(py, px)`: the tile map
/// chosen by LCDC bit 3, then the tile's bit planes.
pub open spec fn spec_bg_pixel(env: RenderEnv, py: u8, px: u8) -> u8 {
    let map = if env.lcdc & 0x08 != 0 {
        env.map2
    } else {
        env.map1
    };
    let tile_idx = map[tile_index_spec(py, px)];
    spec_pixel_in_tile(env.vram, spec_tile_start(env.lcdc, tile_idx), py, px)
}

/// The 2-bit window pixel at window-relative position `(wy, wx)`: the
/// tile map chosen by LCDC bit 6, then the tile's bit planes.
pub open spec fn spec_window_pixel(env: RenderEnv, wy: u8, wx: u8) -> u8 {
    let map = if env.lcdc & 0x40 != 0 {
        env.map2
    } else {
        env.map1
    };
    let tile_idx = map[tile_index_spec(wy, wx)];
    spec_pixel_in_tile(env.vram, spec_tile_start(env.lcdc, tile_idx), wy, wx)
}

/// True when the window replaces the background at column `x` of line
/// `ly`: the window is enabled, the line has reached the window's top,
/// and the column has reached the window's left edge at `wx - 7`.
pub open spec fn window_covers(env: RenderEnv, ly: u8, x: u8) -> bool {
    &&& env.lcdc & 0x20 != 0
    &&& env.wy <= ly
    &&& x + 7 >= env.wx
}

/// The shade written to column `x` of line `ly`: white when background
/// and window are switched off, the window pixel where the window
/// covers the column (sampled relative to the window's own origin), and
/// otherwise the background pixel at the scrolled plane position.
pub open spec fn spec_pixel(env: RenderEnv, ly: u8, x: u8) -> u8 {
    if env.lcdc & 0x01 == 0 {
        0xFF
    } else if window_covers(env, ly, x) {
        spec_shade(env.bgp, spec_window_pixel(env, (ly - env.wy) as u8, (x + 7 - env.wx) as u8))
    } else {
        spec_shade(env.bgp, spec_bg_pixel(env, env.scy.wrapping_add(ly), env.scx.wrapping_add(x)))
    }
}

/// The frame after rendering line `ly`: the 160 bytes of that row are
/// the line's pixels and every other byte keeps its old value.
pub open spec fn spec_render_line(env: RenderEnv, ly: u8, frame: Seq<u8>) -> Seq<u8> {
    Seq::new(
        frame.len(),
        |j: int|
            if 160 * (ly as int) <= j < 160 * (ly as int) + 160 {
                spec_pixel(env, ly, (j - 160 * (ly as int)) as u8)
            } else {
                frame[j]
            },
    )
}

impl LCD {
    /// Index into a 32 x 32 tile map of the tile holding plane position
    /// `(y, x)`.
    pub fn find_tile_index(y: u8, x: u8) -> (r: u16)
        ensures
            r as int == tile_index_spec(y, x),
            r < 1024,
    {
        ((y as u16) / 8) * 32 + (x as u16) / 8
    }

    /// Offset of the first byte of tile `tile_num` of the selected map,
    /// resolved through LCDC's tile-data-select bit.
    fn find_bg_window_tile(&self, use_map2: bool, tile_num: u16) -> (start: usize)
        requires
            self.wf(),
            tile_num < 1024,
        ensures
            start as int == spec_tile_start(
                self.registers.lcdc.0,
                if use_map2 {
                    self.background_map2@[tile_num as int]
                } else {
                    self.background_map1@[tile_num as int]
                },
            ),
            start + 16 <= VRAM_TILE_DATA_SIZE,
    {
        let tile_idx = if use_map2 {
            self.background_map2[tile_num as usize]
        } else {
            self.background_map1[tile_num as usize]
        };
        let base: usize = if self.registers.lcdc.bg_window_tile_data_select() {
            0
        } else {
            0x800
        };
        base + (tile_idx as usize) * 16
    }

    /// Offset of the first byte of the background tile `tile_num`, through
    /// the background's map selection.
    fn find_bg_tile(&self, tile_num: u16) -> (start: usize)
        requires
            self.wf(),
            tile_num < 1024,
        ensures
            start as int == spec_tile_start(
                self.registers.lcdc.0,
                if self.registers.lcdc.0 & 0x08 != 0 {
                    self.background_map2@[tile_num as int]
                } else {
                    self.background_map1@[tile_num as int]
                },
            ),
            start + 16 <= VRAM_TILE_DATA_SIZE,
    {
        self.find_bg_window_tile(self.registers.lcdc.bg_tile_map_display_select(), tile_num)
    }

    /// Offset of the first byte of the window tile `tile_num`, through the
    /// window's map selection.
    fn find_window_tile(&self, tile_num: u16) -> (start: usize)
        requires
            self.wf(),
            tile_num < 1024,
        ensures
            start as int == spec_tile_start(
                self.registers.lcdc.0,
                if self.registers.lcdc.0 & 0x40 != 0 {
                    self.background_map2@[tile_num as int]
                } else {
                    self.background_map1@[tile_num as int]
                },
            ),
            start + 16 <= VRAM_TILE_DATA_SIZE,
    {
        self.find_bg_window_tile(self.registers.lcdc.window_tile_map_display(), tile_num)
    }

    /// The 2-bit pixel at `(y % 8, x % 8)` of the tile starting at `start`.
    pub fn find_pixel_in_tile(vram: &Vec<u8>, start: usize, y: u8, x: u8) -> (r: u8)
        requires
            start + 16 <= vram@.len(),
        ensures
            r == spec_pixel_in_tile(vram@, start as int, y, x),
            r < 4,
    {
        // Reading the length bounds the view within usize, which the
        // index arithmetic below needs.
        let len = vram.len();
        let row = (y % 8) as usize;
        let byte1 = vram[start + 2 * row];
        let byte2 = vram[start + 2 * row + 1];
        let shift = 7 - (x % 8);
        let lsb = (byte1 >> shift) & 0x01;
        let msb = (byte2 >> shift) & 0x01;
        proof {
            let b1 = byte1;
            let b2 = byte2;
            let s = shift;
            assert((((b2 >> s) & 1) << 1) | ((b1 >> s) & 1) < 4) by (bit_vector);
        }
        (msb << 1) | lsb
    }

    /// Maps a 2-bit background pixel through the background palette
    /// register to its shade.
    pub fn bg_pixel_to_color(&self, pixel: u8) -> (r: u8)
        requires
            pixel < 4,
        ensures
            r == spec_shade(self.registers.background_palette, pixel),
    {
        let color = (self.registers.background_palette >> (2 * pixel)) & 0x03;
        if color == 0 {
            0xFF
        } else if color == 1 {
            0x80
        } else if color == 2 {
            0x40
        } else {
            0x00
        }
    }

    /// Maps a 2-bit window pixel through the background palette register
    /// to its shade; the window shares the background's palette.
    pub fn window_pixel_to_color(&self, pixel: u8) -> (r: u8)
        requires
            pixel < 4,
        ensures
            r == spec_shade(self.registers.background_palette, pixel),
    {
        self.bg_pixel_to_color(pixel)
    }

    /// Renders the current scanline into the frame, exactly as
    /// `spec_render_line` describes: background, then the window overlay
    /// where it covers a column. Sprite pixels are not composited here;
    /// the sprite layer's collection interface is `find_tiles_to_draw`.
    fn draw_line(&mut self)
        requires
            old(self).wf(),
            old(self).registers.lcdc_y < 144,
        ensures
            final(self).wf(),
            final(self).frame.data@ == spec_render_line(
                render_env(*old(self)),
                old(self).registers.lcdc_y,
                old(self).frame.data@,
            ),
            *final(self) == (LCD { frame: final(self).frame, ..*old(self) }),
    {
        let ly = self.registers.lcdc_y;
        let base: usize = (ly as usize) * 160;
        let bg_on = self.registers.lcdc.bg_window_display_priority();
        let win_on = self.registers.lcdc.window_display_enable();
        let ghost env = render_env(*old(self));
        let ghost frame0 = old(self).frame.data@;
        let mut i: usize = 0;
        while i < 160
            invariant
                self.wf(),
                *self == (LCD { frame: self.frame, ..*old(self) }),
                ly == old(self).registers.lcdc_y,
                ly < 144,
                base == (ly as int) * 160,
                bg_on == (env.lcdc & 0x01 != 0),
                win_on == (env.lcdc & 0x20 != 0),
                env == render_env(*old(self)),
                frame0 == old(self).frame.data@,
                i <= 160,
                self.frame.data@.len() == FRAME_SIZE,
                forall|j: int|
                    0 <= j < FRAME_SIZE && !(base <= j < base + i) ==> self.frame.data@[j]
                        == frame0[j],
                forall|j: int|
                    base <= j < base + i ==> self.frame.data@[j] == spec_pixel(
                        env,
                        ly,
                        (j - base) as u8,
                    ),
            decreases 160 - i,
        {
            let x = i as u8;
            let shade: u8;
            if bg_on {
                let in_window = win_on && self.registers.window_y <= ly && (x as u16) + 7
                    >= (self.registers.window_x as u16);
                if in_window {
                    let wy = ly - self.registers.window_y;
                    let wx = ((x as u16) + 7 - (self.registers.window_x as u16)) as u8;
                    let tile_num = LCD::find_tile_index(wy, wx);
                    let start = self.find_window_tile(tile_num);
                    let pixel = LCD::find_pixel_in_tile(&self.vram_tile_data, start, wy, wx);
                    shade = self.window_pixel_to_color(pixel);
                } else {
                    let py = self.registers.scroll_y.wrapping_add(ly);
                    let px = self.registers.scroll_x.wrapping_add(x);
                    let tile_num = LCD::find_tile_index(py, px);
                    let start = self.find_bg_tile(tile_num);
                    let pixel = LCD::find_pixel_in_tile(&self.vram_tile_data, start, py, px);
                    shade = self.bg_pixel_to_color(pixel);
                }
            } else {
                shade = 0xFF;
            }
            assert(shade == spec_pixel(env, ly, x));
            self.frame.data.set(base + i, shade);
            i = i + 1;
        }
        proof {
            assert(self.frame.data@ =~= spec_render_line(env, ly, frame0));
        }
    }
}

/// Height in pixels of every sprite, from LCDC's object-size bit.
pub open spec fn spec_sprite_height(lcdc: u8) -> u16 {
    if lcdc & 0x04 != 0 {
        16
    } else {
        8
    }
}

/// True when the sprite at table index `i` covers line `y`: its Y byte
/// is at most `y` and `y` is within the sprite's height below it.
pub open spec fn sprite_covers(oam: Seq<u8>, i: int, height: u16, y: u8) -> bool {
    oam[4 * i] <= y && y <= oam[4 * i] + height
}

/// Table indices of the sprites drawn on line `y`, scanning the first
/// `n` entries in ascending index order and keeping at most the first
/// ten whose Y-range covers the line.
pub open spec fn visible_sprites(oam: Seq<u8>, height: u16, y: u8, n: nat) -> Seq<int>
    decreases n,
{
    if n == 0 {
        Seq::empty()
    } else {
        let prefix = visible_sprites(oam, height, y, (n - 1) as nat);
        if sprite_covers(oam, n - 1, height, y) && prefix.len() < 10 {
            prefix.push(n - 1)
        } else {
            prefix
        }
    }
}

impl LCD {
    /// Collects the sprites of the current line: at most ten object
    /// attribute entries whose Y-range covers line `cur_y`, in ascending
    /// table order. This is the sprite layer's collection interface; the
    /// renderer does not yet composite their pixels.
    pub fn find_tiles_to_draw(&self, cur_y: u8) -> (r: Vec<OAMEntry>)
        requires
            self.wf(),
        ensures
            ({
                let idxs = visible_sprites(
                    self.sprite_attribute_table@,
                    spec_sprite_height(self.registers.lcdc.0),
                    cur_y,
                    40,
                );
                &&& r@.len() == idxs.len()
                &&& forall|k: int|
                    0 <= k < idxs.len() ==> r@[k].0@ == self.sprite_attribute_table@.subrange(
                        4 * idxs[k],
                        4 * idxs[k] + 4,
                    )
            }),
    {
        let ghost oam = self.sprite_attribute_table@;
        let mut tiles: Vec<OAMEntry> = Vec::new();
        let sprite_height: u16 = if self.registers.lcdc.obj_size() {
            16
        } else {
            8
        };
        let mut i: usize = 0;
        while i < 40
            invariant
                self.wf(),
                oam == self.sprite_attribute_table@,
                sprite_height == spec_sprite_height(self.registers.lcdc.0),
                i <= 40,
                tiles@.len() == visible_sprites(oam, sprite_height, cur_y, i as nat).len(),
                forall|k: int|
                    0 <= k < tiles@.len() ==> tiles@[k].0@ == oam.subrange(
                        4 * visible_sprites(oam, sprite_height, cur_y, i as nat)[k],
                        4 * visible_sprites(oam, sprite_height, cur_y, i as nat)[k] + 4,
                    ),
            decreases 40 - i,
        {
            let start_idx = i * 4;
            let entry = OAMEntry(
                [
                    self.sprite_attribute_table[start_idx],
                    self.sprite_attribute_table[start_idx + 1],
                    self.sprite_attribute_table[start_idx + 2],
                    self.sprite_attribute_table[start_idx + 3],
                ],
            );
            proof {
                assert(entry.0@ =~= oam.subrange(4 * (i as int), 4 * (i as int) + 4));
            }
            if tiles.len() < 10 && (entry.y_pos() as u16) <= (cur_y as u16) && (cur_y as u16)
                <= (entry.y_pos() as u16) + sprite_height {
                tiles.push(entry);
            }
            i = i + 1;
        }
        tiles
    }
}

/// The part of the controller the timing automaton drives: its state,
/// the current scanline, the accumulated cycle counter, and the frame.
pub struct PpuTickState {
    pub mode: LCDMode,
    pub ly: u8,
    pub ticks: nat,
    pub frame: Seq<u8>,
}

/// One exit action of the automaton: OAM scan hands over to pixel
/// transfer; pixel transfer renders the line and enters horizontal
/// blank; horizontal blank advances LY, entering vertical blank at line
/// 144; vertical blank keeps advancing LY once per scanline period and
/// wraps to line zero after line 153.
pub open spec fn spec_ppu_step(env: RenderEnv, st: PpuTickState) -> PpuTickState {
    match st.mode {
        LCDMode::OamScan => PpuTickState { mode: LCDMode::PixelTransfer, ..st },
        LCDMode::PixelTransfer => PpuTickState {
            mode: LCDMode::HBlank,
            frame: spec_render_line(env, st.ly, st.frame),
            ..st
        },
        LCDMode::HBlank => if st.ly + 1 == 144 {
            PpuTickState { mode: LCDMode::VBlank, ly: 144, ..st }
        } else {
            PpuTickState { mode: LCDMode::OamScan, ly: (st.ly + 1) as u8, ..st }
        },
        LCDMode::VBlank => if st.ly == 153 {
            PpuTickState { mode: LCDMode::OamScan, ly: 0, ..st }
        } else {
            PpuTickState { ly: (st.ly + 1) as u8, ..st }
        },
    }
}

/// Runs the automaton until the counter no longer covers the active
/// state's duration: while it does, subtract the duration and perform
/// the exit action, so one call can cross several state boundaries.
pub open spec fn spec_ppu_tick(env: RenderEnv, st: PpuTickState) -> PpuTickState
    decreases st.ticks,
{
    if st.ticks >= mode_duration(st.mode) {
        spec_ppu_tick(
            env,
            spec_ppu_step(
                env,
                PpuTickState { ticks: (st.ticks - mode_duration(st.mode)) as nat, ..st },
            ),
        )
    } else {
        st
    }
}

/// The automaton's view of a controller.
pub open spec fn lcd_tick_state(l: LCD) -> PpuTickState {
    PpuTickState {
        mode: l.lcd_state,
        ly: l.registers.lcdc_y,
        ticks: l.ticks_since_work as nat,
        frame: l.frame.data@,
    }
}

/// Relates the controller before and after consuming `added` cycles:
/// state, LY, counter and frame move exactly as `spec_ppu_tick` says,
/// STAT keeps its upper bits and mirrors the final state in its mode
/// bits, and everything else is untouched.
pub open spec fn spec_tick_post(pre: LCD, post: LCD, added: nat) -> bool {
    let target = spec_ppu_tick(
        render_env(pre),
        PpuTickState { ticks: (pre.ticks_since_work + added) as nat, ..lcd_tick_state(pre) },
    );
    &&& post.lcd_state == target.mode
    &&& post.ticks_since_work as nat == target.ticks
    &&& post.frame.data@ == target.frame
    &&& post.registers == (LCDRegisters {
        stat: STAT((pre.registers.stat.0 & 0xFC) | mode_code(target.mode)),
        lcdc_y: target.ly,
        ..pre.registers
    })
    &&& post.vram_tile_data == pre.vram_tile_data
    &&& post.background_map1 == pre.background_map1
    &&& post.background_map2 == pre.background_map2
    &&& post.sprite_attribute_table == pre.sprite_attribute_table
}

/// A controller equal to `l` but moved to state `m` with counter `ticks`
/// and line `ly`, its STAT mode bits mirroring `m`.
pub open spec fn lcd_with_mode(l: LCD, m: LCDMode, ticks: usize, ly: u8) -> LCD {
    LCD {
        lcd_state: m,
        ticks_since_work: ticks,
        registers: LCDRegisters {
            stat: STAT((l.registers.stat.0 & 0xFC) | mode_code(m)),
            lcdc_y: ly,
            ..l.registers
        },
        ..l
    }
}

/// Overwriting the mode bits twice keeps only the last code.
proof fn lemma_stat_mode_update(s: u8, c1: u8, c2: u8)
    requires
        c1 <= 3,
    ensures
        (((s & 0xFC) | c1) & 0xFC) | c2 == (s & 0xFC) | c2,
{
    assert(c1 <= 3u8 ==> (((s & 0xFCu8) | c1) & 0xFCu8) | c2 == (s & 0xFCu8) | c2)
        by (bit_vector);
}

/// A STAT byte whose mode bits already hold `c` is unchanged by
/// overwriting them with `c`.
proof fn lemma_stat_mode_identity(s: u8, c: u8)
    requires
        s & 0x03 == c,
    ensures
        (s & 0xFC) | c == s,
{
    assert(s & 0x03u8 == c ==> (s & 0xFCu8) | c == s) by (bit_vector);
}

/// The mode bits written by `set_mode` read back as the written code.
proof fn lemma_stat_mode_code(s: u8, c: u8)
    requires
        c <= 3,
    ensures
        ((s & 0xFC) | c) & 0x03 == c,
{
    assert(c <= 3u8 ==> ((s & 0xFCu8) | c) & 0x03u8 == c) by (bit_vector);
}

impl LCD {
    /// OAM scan exit check: after its duration, hand over to pixel
    /// transfer.
    fn handle_mode2(&mut self) -> (cont: bool)
        requires
            old(self).wf(),
            old(self).lcd_state is OamScan,
        ensures
            final(self).wf(),
            cont == (old(self).ticks_since_work >= OAM_SCAN_CYCLES),
            cont ==> *final(self) == lcd_with_mode(
                *old(self),
                LCDMode::PixelTransfer,
                (old(self).ticks_since_work - OAM_SCAN_CYCLES) as usize,
                old(self).registers.lcdc_y,
            ),
            !cont ==> *final(self) == *old(self),
    {
        if self.ticks_since_work >= OAM_SCAN_CYCLES {
            self.ticks_since_work = self.ticks_since_work - OAM_SCAN_CYCLES;
            self.set_mode(LCDMode::PixelTransfer);
            proof {
                lemma_stat_mode_code(old(self).registers.stat.0, 3);
            }
            true
        } else {
            false
        }
    }

    /// Pixel transfer exit check: after its duration, render the current
    /// scanline and enter horizontal blank.
    fn handle_mode3(&mut self) -> (cont: bool)
        requires
            old(self).wf(),
            old(self).lcd_state is PixelTransfer,
        ensures
            final(self).wf(),
            cont == (old(self).ticks_since_work >= PIXEL_TRANSFER_CYCLES),
            cont ==> *final(self) == (LCD {
                frame: final(self).frame,
                ..lcd_with_mode(
                    *old(self),
                    LCDMode::HBlank,
                    (old(self).ticks_since_work - PIXEL_TRANSFER_CYCLES) as usize,
                    old(self).registers.lcdc_y,
                )
            }),
            cont ==> final(self).frame.data@ == spec_render_line(
                render_env(*old(self)),
                old(self).registers.lcdc_y,
                old(self).frame.data@,
            ),
            !cont ==> *final(self) == *old(self),
    {
        if self.ticks_since_work >= PIXEL_TRANSFER_CYCLES {
            self.ticks_since_work = self.ticks_since_work - PIXEL_TRANSFER_CYCLES;
            self.set_mode(LCDMode::HBlank);
            proof {
                lemma_stat_mode_code(old(self).registers.stat.0, 0);
            }
            self.draw_line();
            true
        } else {
            false
        }
    }

    /// Horizontal blank exit check: after its duration, advance LY;
    /// line 144 enters vertical blank, any earlier line starts the next
    /// OAM scan.
    fn handle_hblank(&mut self) -> (cont: bool)
        requires
            old(self).wf(),
            old(self).lcd_state is HBlank,
        ensures
            final(self).wf(),
            cont == (old(self).ticks_since_work >= HBLANK_CYCLES),
            cont ==> *final(self) == lcd_with_mode(
                *old(self),
                if old(self).registers.lcdc_y + 1 == 144 {
                    LCDMode::VBlank
                } else {
                    LCDMode::OamScan
                },
                (old(self).ticks_since_work - HBLANK_CYCLES) as usize,
                (old(self).registers.lcdc_y + 1) as u8,
            ),
            !cont ==> *final(self) == *old(self),
    {
        if self.ticks_since_work >= HBLANK_CYCLES {
            self.ticks_since_work = self.ticks_since_work - HBLANK_CYCLES;
            let new_y = self.registers.lcdc_y + 1;
            self.registers.lcdc_y = new_y;
            if new_y == 144 {
                self.set_mode(LCDMode::VBlank);
                proof {
                    lemma_stat_mode_code(old(self).registers.stat.0, 1);
                }
            } else {
                self.set_mode(LCDMode::OamScan);
                proof {
                    lemma_stat_mode_code(old(self).registers.stat.0, 2);
                }
            }
            true
        } else {
            false
        }
    }

    /// Vertical blank line check: each scanline period advances LY
    /// through lines 144..153; after line 153, LY wraps to zero and the
    /// next frame's OAM scan begins.
    fn handle_vblank(&mut self) -> (cont: bool)
        requires
            old(self).wf(),
            old(self).lcd_state is VBlank,
        ensures
            final(self).wf(),
            cont == (old(self).ticks_since_work >= VBLANK_LINE_CYCLES),
            cont ==> *final(self) == (if old(self).registers.lcdc_y == 153 {
                lcd_with_mode(
                    *old(self),
                    LCDMode::OamScan,
                    (old(self).ticks_since_work - VBLANK_LINE_CYCLES) as usize,
                    0,
                )
            } else {
                lcd_with_mode(
                    *old(self),
                    LCDMode::VBlank,
                    (old(self).ticks_since_work - VBLANK_LINE_CYCLES) as usize,
                    (old(self).registers.lcdc_y + 1) as u8,
                )
            }),
            !cont ==> *final(self) == *old(self),
    {
        if self.ticks_since_work >= VBLANK_LINE_CYCLES {
            self.ticks_since_work = self.ticks_since_work - VBLANK_LINE_CYCLES;
            if self.registers.lcdc_y == 153 {
                self.registers.lcdc_y = 0;
                self.set_mode(LCDMode::OamScan);
                proof {
                    lemma_stat_mode_code(old(self).registers.stat.0, 2);
                }
            } else {
                self.registers.lcdc_y = self.registers.lcdc_y + 1;
                proof {
                    lemma_stat_mode_identity(old(self).registers.stat.0, 1);
                }
            }
            true
        } else {
            false
        }
    }

    /// Consumes `ticks` elapsed cycles: accumulates them into the
    /// counter, then performs every exit action the counter covers, so
    /// one long instruction can cross several state boundaries. The
    /// whole effect is `spec_tick_post`.
    pub fn tick(&mut self, ticks: usize)
        requires
            old(self).wf(),
            old(self).ticks_since_work + ticks <= usize::MAX,
        ensures
            final(self).wf(),
            spec_tick_post(*old(self), *final(self), ticks as nat),
    {
        let ghost pre = *old(self);
        let ghost env0 = render_env(pre);
        let ghost target = spec_ppu_tick(
            env0,
            PpuTickState {
                ticks: (pre.ticks_since_work + ticks) as nat,
                ..lcd_tick_state(pre)
            },
        );
        self.ticks_since_work = self.ticks_since_work + ticks;
        proof {
            lemma_stat_mode_identity(pre.registers.stat.0, mode_code(pre.lcd_state));
        }
        loop
            invariant
                self.wf(),
                render_env(*self) == env0,
                self.registers == (LCDRegisters {
                    stat: self.registers.stat,
                    lcdc_y: self.registers.lcdc_y,
                    ..pre.registers
                }),
                self.registers.stat.0 == (pre.registers.stat.0 & 0xFC) | mode_code(
                    self.lcd_state,
                ),
                self.vram_tile_data == pre.vram_tile_data,
                self.background_map1 == pre.background_map1,
                self.background_map2 == pre.background_map2,
                self.sprite_attribute_table == pre.sprite_attribute_table,
                spec_ppu_tick(env0, lcd_tick_state(*self)) == target,
            ensures
                self.wf(),
                self.registers == (LCDRegisters {
                    stat: self.registers.stat,
                    lcdc_y: self.registers.lcdc_y,
                    ..pre.registers
                }),
                self.registers.stat.0 == (pre.registers.stat.0 & 0xFC) | mode_code(
                    self.lcd_state,
                ),
                self.vram_tile_data == pre.vram_tile_data,
                self.background_map1 == pre.background_map1,
                self.background_map2 == pre.background_map2,
                self.sprite_attribute_table == pre.sprite_attribute_table,
                lcd_tick_state(*self) == target,
            decreases self.ticks_since_work,
        {
            let ghost cur = *self;
            let cont = match self.lcd_state {
                LCDMode::OamScan => self.handle_mode2(),
                LCDMode::PixelTransfer => self.handle_mode3(),
                LCDMode::HBlank => self.handle_hblank(),
                LCDMode::VBlank => self.handle_vblank(),
            };
            if !cont {
                proof {
                    assert(spec_ppu_tick(env0, lcd_tick_state(*self)) == lcd_tick_state(*self));
                }
                break;
            }
            proof {
                lemma_stat_mode_update(
                    pre.registers.stat.0,
                    mode_code(cur.lcd_state),
                    mode_code(self.lcd_state),
                );
                let stepped = spec_ppu_step(
                    env0,
                    PpuTickState {
                        ticks: (cur.ticks_since_work as nat - mode_duration(cur.lcd_state)) as nat,
                        ..lcd_tick_state(cur)
                    },
                );
                assert(lcd_tick_state(*self) == stepped);
                assert(spec_ppu_tick(env0, lcd_tick_state(cur)) == spec_ppu_tick(env0, stepped));
            }
        }
    }
}

/// One scanline period: from the start of an OAM scan on a visible line
/// before the last, exactly 456 cycles run one full OAM scan, pixel
/// transfer and horizontal blank, render that line once, advance LY by
/// one and leave the automaton at the start of the next OAM scan.
pub proof fn lemma_scanline_period(env: RenderEnv, ly: u8, frame: Seq<u8>)
    requires
        ly < 143,
    ensures
        spec_ppu_tick(env, PpuTickState { mode: LCDMode::OamScan, ly, ticks: 456, frame })
            == (PpuTickState {
            mode: LCDMode::OamScan,
            ly: (ly + 1) as u8,
            ticks: 0,
            frame: spec_render_line(env, ly, frame),
        }),
{
    reveal_with_fuel(spec_ppu_tick, 5);
}

} // verus!
