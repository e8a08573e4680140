//! CPU register file: eight 8-bit registers, the packed hardware flag
//! register, program counter and stack pointer, with combined 16-bit views.

use vstd::prelude::*;

verus! {

/// Selects a register, either an 8-bit one, or a combined 16-bit pair,
/// or the program counter / stack pointer.
#[derive(PartialEq, Eq, Clone, Copy, Debug, Structural)]
pub enum RegisterType {
    A,
    B,
    C,
    D,
    E,
    F,
    H,
    L,
    PC,
    SP,
    AF,
    BC,
    DE,
    HL,
}

/// Bit of the flag byte that holds the zero flag.
pub const Z_FLAG: u8 = 0x80;

/// Bit of the flag byte that holds the subtract flag.
pub const N_FLAG: u8 = 0x40;

/// Bit of the flag byte that holds the half-carry flag.
pub const H_FLAG: u8 = 0x20;

/// Bit of the flag byte that holds the carry flag.
pub const C_FLAG: u8 = 0x10;

/// The hardware flag register: the four flags Z, N, H, C packed into the
/// high nibble of a single byte (bits 7, 6, 5, 4). The low nibble of the
/// byte held in a `Registers` value is always zero.
#[derive(PartialEq, Eq, Clone, Copy, Debug, Structural)]
pub struct FLAGS(pub u8);

/// True when the zero flag is set in flag byte `f`.
pub open spec fn flag_z(f: u8) -> bool {
    f & Z_FLAG != 0
}

/// True when the subtract flag is set in flag byte `f`.
pub open spec fn flag_n(f: u8) -> bool {
    f & N_FLAG != 0
}

/// True when the half-carry flag is set in flag byte `f`.
pub open spec fn flag_h(f: u8) -> bool {
    f & H_FLAG != 0
}

/// True when the carry flag is set in flag byte `f`.
pub open spec fn flag_c(f: u8) -> bool {
    f & C_FLAG != 0
}

/// Flag byte `f` with the bits of `mask` set when `v` and cleared otherwise.
pub open spec fn set_bit(f: u8, mask: u8, v: bool) -> u8 {
    if v {
        f | mask
    } else {
        f & !mask
    }
}

impl FLAGS {
    /// Reads the zero flag (bit 7).
    pub fn get_z(&self) -> (r: bool)
        ensures
            r == flag_z(self.0),
    {
        self.0 & Z_FLAG != 0
    }

    /// Writes the zero flag (bit 7), leaving every other bit unchanged.
    pub fn set_z(&mut self, v: bool)
        ensures
            final(self).0 == set_bit(old(self).0, Z_FLAG, v),
    {
        if v {
            self.0 = self.0 | Z_FLAG;
        } else {
            self.0 = self.0 & !Z_FLAG;
        }
    }

    /// Reads the subtract flag (bit 6).
    pub fn get_n(&self) -> (r: bool)
        ensures
            r == flag_n(self.0),
    {
        self.0 & N_FLAG != 0
    }

    /// Writes the subtract flag (bit 6), leaving every other bit unchanged.
    pub fn set_n(&mut self, v: bool)
        ensures
            final(self).0 == set_bit(old(self).0, N_FLAG, v),
    {
        if v {
            self.0 = self.0 | N_FLAG;
        } else {
            self.0 = self.0 & !N_FLAG;
        }
    }

    /// Reads the half-carry flag (bit 5).
    pub fn get_h(&self) -> (r: bool)
        ensures
            r == flag_h(self.0),
    {
        self.0 & H_FLAG != 0
    }

    /// Writes the half-carry flag (bit 5), leaving every other bit unchanged.
    pub fn set_h(&mut self, v: bool)
        ensures
            final(self).0 == set_bit(old(self).0, H_FLAG, v),
    {
        if v {
            self.0 = self.0 | H_FLAG;
        } else {
            self.0 = self.0 & !H_FLAG;
        }
    }

    /// Reads the carry flag (bit 4).
    pub fn get_c(&self) -> (r: bool)
        ensures
            r == flag_c(self.0),
    {
        self.0 & C_FLAG != 0
    }

    /// Writes the carry flag (bit 4), leaving every other bit unchanged.
    pub fn set_c(&mut self, v: bool)
        ensures
            final(self).0 == set_bit(old(self).0, C_FLAG, v),
    {
        if v {
            self.0 = self.0 | C_FLAG;
        } else {
            self.0 = self.0 & !C_FLAG;
        }
    }
}

/// Low byte of a 16-bit value.
pub open spec fn lo8(v: u16) -> u8 {
    v as u8
}

/// High byte of a 16-bit value.
pub open spec fn hi8(v: u16) -> u8 {
    (v >> 8) as u8
}

/// The 16-bit value with high byte `hi` and low byte `lo`.
pub open spec fn word(hi: u8, lo: u8) -> u16 {
    ((hi as u16) << 8) | (lo as u16)
}

/// The CPU register file. Any write to `f` clears its low nibble, so the
/// flag byte always holds flags in the high nibble only.
#[derive(PartialEq, Eq, Clone, Debug, Structural)]
pub struct Registers {
    pub a: u8,
    pub f: FLAGS,
    pub b: u8,
    pub c: u8,
    pub d: u8,
    pub e: u8,
    pub h: u8,
    pub l: u8,
    pub pc: u16,
    pub sp: u16,
}

/// The register file after writing `v` to the register named by `t`:
/// 8-bit targets take the low byte of `v`; a write that reaches `f`
/// clears the low nibble; 16-bit pairs split `v` over their two halves.
pub open spec fn spec_reg_set(r: Registers, t: RegisterType, v: u16) -> Registers {
    match t {
        RegisterType::A => Registers { a: lo8(v), ..r },
        RegisterType::B => Registers { b: lo8(v), ..r },
        RegisterType::C => Registers { c: lo8(v), ..r },
        RegisterType::D => Registers { d: lo8(v), ..r },
        RegisterType::E => Registers { e: lo8(v), ..r },
        RegisterType::F => Registers { f: FLAGS((v & 0xF0) as u8), ..r },
        RegisterType::H => Registers { h: lo8(v), ..r },
        RegisterType::L => Registers { l: lo8(v), ..r },
        RegisterType::PC => Registers { pc: v, ..r },
        RegisterType::SP => Registers { sp: v, ..r },
        RegisterType::AF => Registers { a: hi8(v), f: FLAGS((v & 0xF0) as u8), ..r },
        RegisterType::BC => Registers { b: hi8(v), c: lo8(v), ..r },
        RegisterType::DE => Registers { d: hi8(v), e: lo8(v), ..r },
        RegisterType::HL => Registers { h: hi8(v), l: lo8(v), ..r },
    }
}

/// The value read from the register named by `t`: 8-bit registers are
/// zero-extended, 16-bit pairs combine their two halves.
pub open spec fn spec_reg_get(r: Registers, t: RegisterType) -> u16 {
    match t {
        RegisterType::A => r.a as u16,
        RegisterType::B => r.b as u16,
        RegisterType::C => r.c as u16,
        RegisterType::D => r.d as u16,
        RegisterType::E => r.e as u16,
        RegisterType::F => r.f.0 as u16,
        RegisterType::H => r.h as u16,
        RegisterType::L => r.l as u16,
        RegisterType::PC => r.pc,
        RegisterType::SP => r.sp,
        RegisterType::AF => word(r.a, r.f.0),
        RegisterType::BC => word(r.b, r.c),
        RegisterType::DE => word(r.d, r.e),
        RegisterType::HL => word(r.h, r.l),
    }
}

impl Registers {
    /// The register file at power-on, with the documented reset values.
    pub fn new() -> (r: Registers)
        ensures
            r.a == 0x01,
            r.f == (FLAGS(0xB0)),
            r.b == 0x00,
            r.c == 0x13,
            r.d == 0x00,
            r.e == 0xD8,
            r.h == 0x01,
            r.l == 0x4D,
            r.pc == 0x0100,
            r.sp == 0xFFFE,
    {
        Registers {
            a: 0x01,
            f: FLAGS(0xB0),
            b: 0x00,
            c: 0x13,
            d: 0x00,
            e: 0xD8,
            h: 0x01,
            l: 0x4D,
            pc: 0x0100,
            sp: 0xFFFE,
        }
    }

    /// Reads the combined AF pair.
    pub fn get_af(&self) -> (r: u16)
        ensures
            r == word(self.a, self.f.0),
    {
        ((self.a as u16) << 8) | (self.f.0 as u16)
    }

    /// Writes the combined AF pair; the low nibble of the flag byte is
    /// forced to zero regardless of the input.
    pub fn set_af(&mut self, value: u16)
        ensures
            final(self).a == hi8(value),
            final(self).f.0 == (value & 0xF0) as u8,
            *final(self) == (Registers { a: hi8(value), f: FLAGS((value & 0xF0) as u8), ..*old(self) }),
    {
        self.a = (value >> 8) as u8;
        self.f = FLAGS((value & 0xF0) as u8);
    }

    /// Reads the combined BC pair.
    pub fn get_bc(&self) -> (r: u16)
        ensures
            r == word(self.b, self.c),
    {
        ((self.b as u16) << 8) | (self.c as u16)
    }

    /// Writes the combined BC pair.
    pub fn set_bc(&mut self, value: u16)
        ensures
            *final(self) == (Registers { b: hi8(value), c: lo8(value), ..*old(self) }),
    {
        self.b = (value >> 8) as u8;
        self.c = value as u8;
    }

    /// Reads the combined DE pair.
    pub fn get_de(&self) -> (r: u16)
        ensures
            r == word(self.d, self.e),
    {
        ((self.d as u16) << 8) | (self.e as u16)
    }

    /// Writes the combined DE pair.
    pub fn set_de(&mut self, value: u16)
        ensures
            *final(self) == (Registers { d: hi8(value), e: lo8(value), ..*old(self) }),
    {
        self.d = (value >> 8) as u8;
        self.e = value as u8;
    }

    /// Reads the combined HL pair.
    pub fn get_hl(&self) -> (r: u16)
        ensures
            r == word(self.h, self.l),
    {
        ((self.h as u16) << 8) | (self.l as u16)
    }

    /// Writes the combined HL pair.
    pub fn set_hl(&mut self, value: u16)
        ensures
            *final(self) == (Registers { h: hi8(value), l: lo8(value), ..*old(self) }),
    {
        self.h = (value >> 8) as u8;
        self.l = value as u8;
    }

    /// Replaces the flag register; the low nibble of the stored byte is
    /// forced to zero, so only the four flag bits are kept.
    pub fn set_flags(&mut self, flags: FLAGS)
        ensures
            *final(self) == (Registers { f: FLAGS(flags.0 & 0xF0), ..*old(self) }),
    {
        self.f = FLAGS(flags.0 & 0xF0);
    }

    /// Reads the flag register.
    pub fn get_flags(&self) -> (r: FLAGS)
        ensures
            r == self.f,
    {
        self.f
    }

    /// Writes `value` to the register named by `register_type`, exactly as
    /// `spec_reg_set` describes.
    pub fn set(&mut self, register_type: RegisterType, value: u16)
        ensures
            *final(self) == spec_reg_set(*old(self), register_type, value),
    {
        match register_type {
            RegisterType::A => { self.a = value as u8 },
            RegisterType::B => { self.b = value as u8 },
            RegisterType::C => { self.c = value as u8 },
            RegisterType::D => { self.d = value as u8 },
            RegisterType::E => { self.e = value as u8 },
            RegisterType::F => { self.f = FLAGS((value & 0xF0) as u8) },
            RegisterType::H => { self.h = value as u8 },
            RegisterType::L => { self.l = value as u8 },
            RegisterType::PC => { self.pc = value },
            RegisterType::SP => { self.sp = value },
            RegisterType::AF => { self.set_af(value) },
            RegisterType::BC => { self.set_bc(value) },
            RegisterType::DE => { self.set_de(value) },
            RegisterType::HL => { self.set_hl(value) },
        }
    }

    /// Reads the register named by `register_type`, exactly as
    /// `spec_reg_get` describes.
    pub fn get(&self, register_type: RegisterType) -> (r: u16)
        ensures
            r == spec_reg_get(*self, register_type),
    {
        match register_type {
            RegisterType::A => self.a as u16,
            RegisterType::B => self.b as u16,
            RegisterType::C => self.c as u16,
            RegisterType::D => self.d as u16,
            RegisterType::E => self.e as u16,
            RegisterType::F => self.f.0 as u16,
            RegisterType::H => self.h as u16,
            RegisterType::L => self.l as u16,
            RegisterType::PC => self.pc,
            RegisterType::SP => self.sp,
            RegisterType::AF => self.get_af(),
            RegisterType::BC => self.get_bc(),
            RegisterType::DE => self.get_de(),
            RegisterType::HL => self.get_hl(),
        }
    }
}

/// Splitting a 16-bit value into its two bytes and recombining them
/// gives the value back, so a pair write followed by a pair read is
/// the identity.
pub proof fn lemma_word_split(v: u16)
    ensures
        word(hi8(v), lo8(v)) == v,
{
    assert(((((v >> 8) as u8) as u16) << 8) | ((v as u8) as u16) == v) by (bit_vector);
}

} // verus!
