//! Memory-mapped address bus: owns the cartridge image (read-only) and
//! working RAM (read/write), and routes every other mapped range to the
//! LCD controller, so that exactly one component owns each address.

use vstd::prelude::*;
use vstd::pervasive::VecAdditionalExecFns;

use crate::lcd::{LCD, lcd_owns, spec_lcd_read, spec_lcd_write_err, spec_lcd_write_post};

verus! {

/// An illegal bus access. Each variant carries the offending address so
/// a caller can report the failure with full context.
#[derive(PartialEq, Eq, Clone, Copy, Debug, Structural)]
pub enum BusError {
    /// No mapped range owns the address.
    UnmappedAddress { addr: u16 },
    /// The address is mapped but read-only: the cartridge ROM range, the
    /// LY register, or the protected bits of STAT.
    ReadOnlyViolation { addr: u16 },
}

/// A byte buffer of length `n` holding only zeroes.
pub(crate) fn zeroed_bytes(n: usize) -> (r: Vec<u8>)
    ensures
        r@.len() == n,
        forall|i: int| 0 <= i < n ==> r@[i] == 0u8,
{
    let mut data: Vec<u8> = Vec::new();
    while data.len() < n
        invariant
            data@.len() <= n,
            forall|i: int| 0 <= i < data@.len() ==> data@[i] == 0u8,
        decreases n - data@.len(),
    {
        data.push(0);
    }
    data
}

/// Bytes of the working RAM, mapped at 0xC000..0xDFFF.
pub const WORKING_MEM_SIZE: usize = 0x2000;

/// Bytes of the cartridge ROM range, mapped at 0x0000..0x7FFF.
pub const CARTRIDGE_MEM_SIZE: usize = 0x8000;

/// The address bus. It owns the cartridge image and the working RAM and
/// routes every LCD-owned range to the LCD controller it also owns.
#[derive(PartialEq, Eq, Clone, Debug)]
pub struct Memory {
    pub cartridge_mem: Vec<u8>,
    pub working_mem: Vec<u8>,
    pub lcd: LCD,
}

impl Memory {
    /// Well-formedness: the working RAM has its mapped size and the LCD
    /// controller is itself well-formed. The cartridge image may be any
    /// length; reads past its end are unmapped.
    pub open spec fn wf(self) -> bool {
        &&& self.working_mem@.len() == WORKING_MEM_SIZE
        &&& self.lcd.wf()
    }
}

/// The byte read from the bus at `addr`, or the `UnmappedAddress` error
/// when no range owns it: the cartridge ROM up to its length, the
/// working RAM, and every LCD-owned range.
pub open spec fn spec_mem_read(m: Memory, addr: u16) -> Result<u8, BusError> {
    if addr < 0x8000 {
        if (addr as int) < m.cartridge_mem@.len() {
            Ok(m.cartridge_mem@[addr as int])
        } else {
            Err(BusError::UnmappedAddress { addr })
        }
    } else if lcd_owns(addr) {
        Ok(spec_lcd_read(m.lcd, addr))
    } else if 0xC000 <= addr && addr <= 0xDFFF {
        Ok(m.working_mem@[addr - 0xC000])
    } else {
        Err(BusError::UnmappedAddress { addr })
    }
}

/// The error a bus write yields, or `None` when the write is accepted:
/// the whole ROM range is read-only, LY rejects writes, and an address
/// no range owns is unmapped.
pub open spec fn spec_mem_write_err(addr: u16) -> Option<BusError> {
    if addr < 0x8000 {
        Some(BusError::ReadOnlyViolation { addr })
    } else if lcd_owns(addr) {
        spec_lcd_write_err(addr)
    } else if 0xC000 <= addr && addr <= 0xDFFF {
        None
    } else {
        Some(BusError::UnmappedAddress { addr })
    }
}

/// Relates the bus before and after an accepted write of `value` at
/// `addr`: exactly the owning byte changes, in the working RAM or in
/// the LCD controller.
pub open spec fn spec_mem_write_post(pre: Memory, post: Memory, addr: u16, value: u8) -> bool {
    &&& post.cartridge_mem == pre.cartridge_mem
    &&& if 0xC000 <= addr && addr <= 0xDFFF {
        &&& post.working_mem@ == pre.working_mem@.update(addr - 0xC000, value)
        &&& post.lcd == pre.lcd
    } else {
        &&& post.working_mem == pre.working_mem
        &&& spec_lcd_write_post(pre.lcd, post.lcd, addr, value)
    }
}

impl Memory {
    /// A bus holding `rom` as its cartridge image, with zeroed working
    /// RAM and the LCD controller at power-on. The flat image is mapped
    /// read-only from address zero.
    pub fn init_from_rom(rom: Vec<u8>) -> (r: Memory)
        ensures
            r.wf(),
            r.cartridge_mem@ == rom@,
            forall|i: int| 0 <= i < WORKING_MEM_SIZE ==> r.working_mem@[i] == 0u8,
            r.lcd.is_power_on(),
    {
        Memory {
            cartridge_mem: rom,
            working_mem: zeroed_bytes(WORKING_MEM_SIZE),
            lcd: LCD::new(),
        }
    }

    /// A bus whose cartridge image is all zeroes except for `prog`,
    /// copied in starting at `offset`; working RAM zeroed and the LCD
    /// controller at power-on. Built for injecting synthetic programs.
    pub fn init_empty_with_instruction(offset: usize, prog: &[u8]) -> (r: Memory)
        requires
            offset + prog@.len() <= CARTRIDGE_MEM_SIZE,
        ensures
            r.wf(),
            r.cartridge_mem@.len() == CARTRIDGE_MEM_SIZE,
            forall|i: int|
                offset <= i < offset + prog@.len() ==> r.cartridge_mem@[i] == prog@[i - offset],
            forall|i: int|
                0 <= i < CARTRIDGE_MEM_SIZE && !(offset <= i < offset + prog@.len())
                    ==> r.cartridge_mem@[i] == 0u8,
            forall|i: int| 0 <= i < WORKING_MEM_SIZE ==> r.working_mem@[i] == 0u8,
            r.lcd.is_power_on(),
    {
        let mut cart_mem = zeroed_bytes(CARTRIDGE_MEM_SIZE);
        let mut x: usize = 0;
        while x < prog.len()
            invariant
                offset + prog@.len() <= CARTRIDGE_MEM_SIZE,
                x <= prog@.len(),
                cart_mem@.len() == CARTRIDGE_MEM_SIZE,
                forall|i: int| offset <= i < offset + x ==> cart_mem@[i] == prog@[i - offset],
                forall|i: int|
                    0 <= i < CARTRIDGE_MEM_SIZE && !(offset <= i < offset + x)
                        ==> cart_mem@[i] == 0u8,
            decreases prog@.len() - x,
        {
            let b = prog[x];
            cart_mem.set(x + offset, b);
            x = x + 1;
        }
        Memory {
            cartridge_mem: cart_mem,
            working_mem: zeroed_bytes(WORKING_MEM_SIZE),
            lcd: LCD::new(),
        }
    }

    /// Reads the byte at `addr`, exactly as `spec_mem_read` describes:
    /// dispatch is strictly by address range, and an address no range
    /// owns yields `UnmappedAddress` instead of a crash.
    pub fn read(&self, addr: u16) -> (r: Result<u8, BusError>)
        requires
            self.wf(),
        ensures
            r == spec_mem_read(*self, addr),
    {
        match addr {
            0x0000..=0x7FFF => {
                if (addr as usize) < self.cartridge_mem.len() {
                    Ok(self.cartridge_mem[addr as usize])
                } else {
                    Err(BusError::UnmappedAddress { addr })
                }
            },
            0x8000..=0x9FFF => self.lcd.read(addr),
            0xC000..=0xDFFF => Ok(self.working_mem[(addr - 0xC000) as usize]),
            0xFE00..=0xFE9F => self.lcd.read(addr),
            0xFF40..=0xFF4B => self.lcd.read(addr),
            _ => Err(BusError::UnmappedAddress { addr }),
        }
    }

    /// Writes the byte at `addr`. The ROM range rejects the write with
    /// `ReadOnlyViolation`, LCD-owned ranges follow the controller's own
    /// rules, and an address no range owns yields `UnmappedAddress`; a
    /// rejected write leaves the bus unchanged.
    pub fn write(&mut self, addr: u16, data: u8) -> (r: Result<(), BusError>)
        requires
            old(self).wf(),
        ensures
            final(self).wf(),
            match spec_mem_write_err(addr) {
                None => r is Ok && spec_mem_write_post(*old(self), *final(self), addr, data),
                Some(e) => r == Err::<(), BusError>(e) && *final(self) == *old(self),
            },
    {
        match addr {
            0x0000..=0x7FFF => Err(BusError::ReadOnlyViolation { addr }),
            0x8000..=0x9FFF => self.lcd.write(addr, data),
            0xC000..=0xDFFF => {
                self.working_mem.set((addr - 0xC000) as usize, data);
                Ok(())
            },
            0xFE00..=0xFE9F => self.lcd.write(addr, data),
            0xFF40..=0xFF4B => self.lcd.write(addr, data),
            _ => Err(BusError::UnmappedAddress { addr }),
        }
    }
}

} // verus!
