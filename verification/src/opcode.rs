//! Instruction engine: fetches the opcode at the program counter,
//! decodes it into one of the implemented families, executes it against
//! the register file and the bus, and returns the instruction's cycle
//! cost. Unknown opcodes and illegal accesses become error values with
//! full context, never a crash.

use vstd::prelude::*;

use crate::memory::{BusError, Memory, spec_mem_read, spec_mem_write_err, spec_mem_write_post};
use crate::register::{
    C_FLAG, FLAGS, H_FLAG, N_FLAG, RegisterType, Registers, Z_FLAG, flag_c, flag_h, flag_n,
    flag_z, lo8, set_bit, spec_reg_get, spec_reg_set, word,
};

verus! {

/// A fatal condition of the instruction engine. Decoding or executing
/// cannot continue past any of these; the driving loop is expected to
/// halt and report.
#[derive(PartialEq, Eq, Clone, Copy, Debug, Structural)]
pub enum EmulationError {
    /// A bus access touched an address no range owns.
    UnmappedAddress { addr: u16 },
    /// A write touched a read-only location.
    ReadOnlyViolation { addr: u16 },
    /// The opcode at `pc` is outside the implemented families.
    UnimplementedOpcode { opcode: u8, pc: u16 },
}

/// The engine error that reports a bus error, keeping its address.
pub open spec fn emulation_error_of(e: BusError) -> EmulationError {
    match e {
        BusError::UnmappedAddress { addr } => EmulationError::UnmappedAddress { addr },
        BusError::ReadOnlyViolation { addr } => EmulationError::ReadOnlyViolation { addr },
    }
}

/// Maps a bus error to the engine's error type, keeping its address.
fn bus_to_emulation(e: BusError) -> (r: EmulationError)
    ensures
        r == emulation_error_of(e),
{
    match e {
        BusError::UnmappedAddress { addr } => EmulationError::UnmappedAddress { addr },
        BusError::ReadOnlyViolation { addr } => EmulationError::ReadOnlyViolation { addr },
    }
}

/// A byte decremented by one, wrapping below zero.
pub open spec fn dec8(v: u8) -> u8 {
    if v == 0 {
        0xFF
    } else {
        (v - 1) as u8
    }
}

/// The flag byte after an 8-bit decrement of a value `v`: Z set exactly
/// when the result is zero, N always set, H set exactly when the low
/// nibble of `v` was nonzero before the decrement, C kept, and the low
/// nibble cleared.
pub open spec fn dec_flags(f: u8, v: u8) -> u8 {
    (f & C_FLAG) | (if dec8(v) == 0 {
        Z_FLAG
    } else {
        0
    }) | N_FLAG | (if v & 0x0F != 0 {
        H_FLAG
    } else {
        0
    })
}

/// The flag byte after complementing the accumulator: N and H set,
/// Z and C kept, and the low nibble cleared.
pub open spec fn cpl_flags(f: u8) -> u8 {
    (f & 0xF0) | 0x60
}

/// True for the implemented 8-bit decrement opcodes.
pub open spec fn is_dec8_op(op: u8) -> bool {
    op == 0x05 || op == 0x15 || op == 0x25 || op == 0x35
}

/// True for the 16-bit decrement opcodes.
pub open spec fn is_dec16_op(op: u8) -> bool {
    op == 0x0B || op == 0x1B || op == 0x2B || op == 0x3B
}

/// The pair a 16-bit decrement opcode targets.
pub open spec fn dec16_target(op: u8) -> RegisterType {
    if op == 0x0B {
        RegisterType::BC
    } else if op == 0x1B {
        RegisterType::DE
    } else if op == 0x2B {
        RegisterType::HL
    } else {
        RegisterType::SP
    }
}

/// True for the 8-bit load family: every opcode of the 0x40..0x7F block
/// except 0x76, which this engine does not implement.
pub open spec fn is_load_op(op: u8) -> bool {
    0x40 <= op && op <= 0x7F && op != 0x76
}

/// Destination code of a load opcode: its bits 5..3.
pub open spec fn load_dst(op: u8) -> u8 {
    (op >> 3) & 0x07
}

/// Source code of a load opcode: its bits 2..0.
pub open spec fn load_src(op: u8) -> u8 {
    op & 0x07
}

/// The operand the three-bit code of a load opcode selects: codes 0..5
/// and 7 name 8-bit registers, code 6 names the indirect `(HL)` operand.
pub open spec fn load_code_target(code: u8) -> RegisterType {
    if code == 0 {
        RegisterType::B
    } else if code == 1 {
        RegisterType::C
    } else if code == 2 {
        RegisterType::D
    } else if code == 3 {
        RegisterType::E
    } else if code == 4 {
        RegisterType::H
    } else if code == 5 {
        RegisterType::L
    } else if code == 6 {
        RegisterType::HL
    } else {
        RegisterType::A
    }
}

/// The byte behind an accepted bus read; zero where the read fails,
/// which no contract relies on.
pub open spec fn spec_read_byte(m: Memory, addr: u16) -> u8 {
    match spec_mem_read(m, addr) {
        Ok(b) => b,
        Err(_) => 0,
    }
}

/// The byte a load's source operand holds: the named register, or the
/// byte behind `HL` for the indirect operand.
pub open spec fn spec_load_src_value(r: Registers, m: Memory, op: u8) -> u8 {
    if load_src(op) == 6 {
        spec_read_byte(m, word(r.h, r.l))
    } else {
        spec_reg_get(r, load_code_target(load_src(op))) as u8
    }
}

/// The exact result of one step of the engine on state `(r0, m0)`: the
/// cycle cost of the executed instruction, or the error. A step succeeds
/// exactly when the fetch is mapped, the opcode is implemented, and every
/// bus access the instruction itself makes is legal.
pub open spec fn spec_step_result(r0: Registers, m0: Memory) -> Result<usize, EmulationError> {
    match spec_mem_read(m0, r0.pc) {
        Err(e) => Err(emulation_error_of(e)),
        Ok(op) => {
            if op == 0x00 || op == 0x2F {
                Ok(4)
            } else if is_dec8_op(op) {
                if op != 0x35 {
                    Ok(4)
                } else {
                    let hl = word(r0.h, r0.l);
                    match spec_mem_read(m0, hl) {
                        Err(e) => Err(emulation_error_of(e)),
                        Ok(_) => match spec_mem_write_err(hl) {
                            Some(e) => Err(emulation_error_of(e)),
                            None => Ok(12),
                        },
                    }
                }
            } else if is_dec16_op(op) {
                Ok(8)
            } else if op == 0xC3 {
                match spec_mem_read(m0, r0.pc.wrapping_add(1)) {
                    Err(e) => Err(emulation_error_of(e)),
                    Ok(_) => match spec_mem_read(m0, r0.pc.wrapping_add(2)) {
                        Err(e) => Err(emulation_error_of(e)),
                        Ok(_) => Ok(16),
                    },
                }
            } else if is_load_op(op) {
                let hl = word(r0.h, r0.l);
                if load_src(op) == 6 {
                    match spec_mem_read(m0, hl) {
                        Err(e) => Err(emulation_error_of(e)),
                        Ok(_) => Ok(8),
                    }
                } else if load_dst(op) == 6 {
                    match spec_mem_write_err(hl) {
                        Some(e) => Err(emulation_error_of(e)),
                        None => Ok(8),
                    }
                } else {
                    Ok(4)
                }
            } else {
                Err(EmulationError::UnimplementedOpcode { opcode: op, pc: r0.pc })
            }
        },
    }
}

/// The register file after a successful step on state `(r0, m0)`. Every
/// instruction advances the program counter by exactly its own length
/// exactly once, except the jump, which writes it directly.
pub open spec fn spec_step_regs(r0: Registers, m0: Memory) -> Registers {
    let pc1 = r0.pc.wrapping_add(1);
    match spec_mem_read(m0, r0.pc) {
        Err(_) => r0,
        Ok(op) => {
            if op == 0x00 {
                Registers { pc: pc1, ..r0 }
            } else if op == 0x2F {
                Registers { a: !r0.a, f: FLAGS(cpl_flags(r0.f.0)), pc: pc1, ..r0 }
            } else if op == 0x05 {
                Registers { b: dec8(r0.b), f: FLAGS(dec_flags(r0.f.0, r0.b)), pc: pc1, ..r0 }
            } else if op == 0x15 {
                Registers { d: dec8(r0.d), f: FLAGS(dec_flags(r0.f.0, r0.d)), pc: pc1, ..r0 }
            } else if op == 0x25 {
                Registers { h: dec8(r0.h), f: FLAGS(dec_flags(r0.f.0, r0.h)), pc: pc1, ..r0 }
            } else if op == 0x35 {
                let v = spec_read_byte(m0, word(r0.h, r0.l));
                Registers { f: FLAGS(dec_flags(r0.f.0, v)), pc: pc1, ..r0 }
            } else if is_dec16_op(op) {
                let t = dec16_target(op);
                let nv = spec_reg_get(r0, t).wrapping_sub(1);
                Registers { pc: pc1, ..spec_reg_set(r0, t, nv) }
            } else if op == 0xC3 {
                Registers {
                    pc: word(
                        spec_read_byte(m0, r0.pc.wrapping_add(1)),
                        spec_read_byte(m0, r0.pc.wrapping_add(2)),
                    ),
                    ..r0
                }
            } else if is_load_op(op) {
                let v = spec_load_src_value(r0, m0, op);
                if load_dst(op) == 6 {
                    Registers { pc: pc1, ..r0 }
                } else {
                    Registers { pc: pc1, ..spec_reg_set(r0, load_code_target(load_dst(op)), v as u16) }
                }
            } else {
                r0
            }
        },
    }
}

/// Relates the bus before and after a successful step: only the two
/// memory-writing instructions change it, each through one accepted
/// byte write at `HL`.
pub open spec fn spec_step_mem(r0: Registers, m0: Memory, m1: Memory) -> bool {
    match spec_mem_read(m0, r0.pc) {
        Err(_) => m1 == m0,
        Ok(op) => {
            if op == 0x35 {
                let hl = word(r0.h, r0.l);
                spec_mem_write_post(m0, m1, hl, dec8(spec_read_byte(m0, hl)))
            } else if is_load_op(op) && load_dst(op) == 6 {
                spec_mem_write_post(m0, m1, word(r0.h, r0.l), spec_load_src_value(r0, m0, op))
            } else {
                m1 == m0
            }
        },
    }
}

/// Reads an operand: the named register, or for the indirect operand the
/// byte behind the address the named pair holds.
fn read_value(from: RegisterType, from_memory: bool, registers: &Registers, memory: &Memory) -> (r:
    Result<u16, BusError>)
    requires
        memory.wf(),
    ensures
        from_memory ==> match spec_mem_read(*memory, spec_reg_get(*registers, from)) {
            Ok(b) => r == Ok::<u16, BusError>(b as u16),
            Err(e) => r == Err::<u16, BusError>(e),
        },
        !from_memory ==> r == Ok::<u16, BusError>(spec_reg_get(*registers, from)),
{
    if from_memory {
        match memory.read(registers.get(from)) {
            Ok(b) => Ok(b as u16),
            Err(e) => Err(e),
        }
    } else {
        Ok(registers.get(from))
    }
}

/// Writes an operand: the named register, or for the indirect operand
/// the byte behind the address the named pair holds. A rejected memory
/// write leaves both the registers and the bus unchanged.
fn write_value(
    to: RegisterType,
    value: u16,
    to_memory: bool,
    registers: &mut Registers,
    memory: &mut Memory,
) -> (r: Result<(), BusError>)
    requires
        old(memory).wf(),
    ensures
        final(memory).wf(),
        to_memory ==> {
            let addr = spec_reg_get(*old(registers), to);
            &&& *final(registers) == *old(registers)
            &&& match spec_mem_write_err(addr) {
                None => r is Ok && spec_mem_write_post(*old(memory), *final(memory), addr, lo8(value)),
                Some(e) => r == Err::<(), BusError>(e) && *final(memory) == *old(memory),
            }
        },
        !to_memory ==> {
            &&& r == Ok::<(), BusError>(())
            &&& *final(registers) == spec_reg_set(*old(registers), to, value)
            &&& *final(memory) == *old(memory)
        },
{
    if to_memory {
        let addr = registers.get(to);
        memory.write(addr, value as u8)
    } else {
        registers.set(to, value);
        Ok(())
    }
}

/// Advances the program counter by one, wrapping at the top of the
/// address space.
fn increment_pc(registers: &mut Registers)
    ensures
        *final(registers) == (Registers { pc: old(registers).pc.wrapping_add(1), ..*old(registers) }),
{
    let pc = registers.get(RegisterType::PC);
    registers.set(RegisterType::PC, pc.wrapping_add(1));
}

/// The flag byte left behind by the flag-accessor chain of an 8-bit
/// decrement, written back through the masking `set_flags`.
proof fn lemma_dec_flag_chain(f: u8, z: bool, h: bool)
    ensures
        set_bit(set_bit(f, Z_FLAG, z) | N_FLAG, H_FLAG, h) & 0xF0 == (f & C_FLAG) | (if z {
            Z_FLAG
        } else {
            0
        }) | N_FLAG | (if h {
            H_FLAG
        } else {
            0
        }),
{
    if z {
        if h {
            assert((((f | 0x80u8) | 0x40u8) | 0x20u8) & 0xF0u8 == (((f & 0x10u8) | 0x80u8)
                | 0x40u8) | 0x20u8) by (bit_vector);
        } else {
            assert((((f | 0x80u8) | 0x40u8) & !0x20u8) & 0xF0u8 == (((f & 0x10u8) | 0x80u8)
                | 0x40u8) | 0u8) by (bit_vector);
        }
    } else {
        if h {
            assert(((((f & !0x80u8) | 0x40u8)) | 0x20u8) & 0xF0u8 == (((f & 0x10u8) | 0u8)
                | 0x40u8) | 0x20u8) by (bit_vector);
        } else {
            assert(((((f & !0x80u8) | 0x40u8)) & !0x20u8) & 0xF0u8 == (((f & 0x10u8) | 0u8)
                | 0x40u8) | 0u8) by (bit_vector);
        }
    }
}

/// Handles the 8-bit decrement family: a wrapping decrement of B, D, H
/// or the byte behind `HL`, with the flag semantics of `dec_flags`.
fn handle_dec_n(instruction: u8, registers: &mut Registers, memory: &mut Memory) -> (r: Result<
    usize,
    EmulationError,
>)
    requires
        old(memory).wf(),
        is_dec8_op(instruction),
        spec_mem_read(*old(memory), old(registers).pc) == Ok::<u8, BusError>(instruction),
    ensures
        final(memory).wf(),
        r == spec_step_result(*old(registers), *old(memory)),
        r is Ok ==> *final(registers) == spec_step_regs(*old(registers), *old(memory))
            && spec_step_mem(*old(registers), *old(memory), *final(memory)),
        r is Err ==> *final(registers) == *old(registers) && *final(memory) == *old(memory),
{
    let target = match instruction {
        0x05 => RegisterType::B,
        0x15 => RegisterType::D,
        0x25 => RegisterType::H,
        _ => RegisterType::HL,
    };

    let current_value = match read_value(target, target == RegisterType::HL, registers, memory) {
        Ok(v) => v,
        Err(e) => {
            return Err(bus_to_emulation(e));
        },
    };
    let new_value = current_value.wrapping_sub(1);
    proof {
        assert(current_value <= 0xFF);
        if current_value == 0 {
            assert(0xFFFFu16 as u8 == 0xFFu8) by (bit_vector);
        }
        assert(new_value as u8 == dec8(current_value as u8));
        assert((new_value == 0) == (dec8(current_value as u8) == 0));
        assert((0xF & current_value != 0) == ((current_value as u8) & 0x0F != 0)) by (bit_vector);
    }
    match write_value(target, new_value, RegisterType::HL == target, registers, memory) {
        Ok(_) => {},
        Err(e) => {
            return Err(bus_to_emulation(e));
        },
    }

    let mut flags = registers.get_flags();
    flags.set_z(0x00 == new_value);
    flags.set_n(true);
    flags.set_h(0x00 != (0xF & current_value));
    proof {
        lemma_dec_flag_chain(
            old(registers).f.0,
            0x00 == new_value,
            0x00 != (0xF & current_value),
        );
    }
    registers.set_flags(flags);

    increment_pc(registers);

    if RegisterType::HL == target {
        Ok(12)
    } else {
        Ok(4)
    }
}

/// Handles the 16-bit decrement family: a wrapping decrement of BC, DE,
/// HL or SP; no flags are affected.
fn handle_dec_nn(instruction: u8, registers: &mut Registers) -> (r: Result<usize, EmulationError>)
    requires
        is_dec16_op(instruction),
    ensures
        r == Ok::<usize, EmulationError>(8),
        *final(registers) == (Registers {
            pc: old(registers).pc.wrapping_add(1),
            ..spec_reg_set(
                *old(registers),
                dec16_target(instruction),
                spec_reg_get(*old(registers), dec16_target(instruction)).wrapping_sub(1),
            )
        }),
{
    let target = match instruction {
        0x0B => RegisterType::BC,
        0x1B => RegisterType::DE,
        0x2B => RegisterType::HL,
        _ => RegisterType::SP,
    };

    let value = registers.get(target);
    registers.set(target, value.wrapping_sub(1));
    increment_pc(registers);
    Ok(8)
}

/// Handles the accumulator complement: bitwise NOT of A, setting N and
/// H and keeping Z and C.
fn handle_cpl(registers: &mut Registers) -> (r: Result<usize, EmulationError>)
    ensures
        r == Ok::<usize, EmulationError>(4),
        *final(registers) == (Registers {
            a: !old(registers).a,
            f: FLAGS(cpl_flags(old(registers).f.0)),
            pc: old(registers).pc.wrapping_add(1),
            ..*old(registers)
        }),
{
    let value = registers.get(RegisterType::A);
    registers.set(RegisterType::A, !value);
    proof {
        let a = old(registers).a;
        assert((!(a as u16)) as u8 == !a) by (bit_vector);
        let f = old(registers).f.0;
        assert(((f | 0x40u8) | 0x20u8) & 0xF0u8 == (f & 0xF0u8) | 0x60u8) by (bit_vector);
    }
    let mut flags = registers.get_flags();
    flags.set_n(true);
    flags.set_h(true);
    registers.set_flags(flags);
    increment_pc(registers);
    Ok(4)
}

/// Handles the absolute jump: the 16-bit immediate after the opcode is
/// written to the program counter directly, which is not additionally
/// advanced.
fn handle_jump(program_counter: u16, registers: &mut Registers, memory: &Memory) -> (r: Result<
    usize,
    EmulationError,
>)
    requires
        memory.wf(),
        program_counter == old(registers).pc,
    ensures
        match spec_mem_read(*memory, program_counter.wrapping_add(1)) {
            Err(e) => r == Err::<usize, EmulationError>(emulation_error_of(e)) && *final(registers)
                == *old(registers),
            Ok(hi) => match spec_mem_read(*memory, program_counter.wrapping_add(2)) {
                Err(e) => r == Err::<usize, EmulationError>(emulation_error_of(e))
                    && *final(registers) == *old(registers),
                Ok(lo) => r == Ok::<usize, EmulationError>(16) && *final(registers) == (Registers {
                    pc: word(hi, lo),
                    ..*old(registers)
                }),
            },
        },
{
    let hi = match memory.read(program_counter.wrapping_add(1)) {
        Ok(b) => b,
        Err(e) => {
            return Err(bus_to_emulation(e));
        },
    };
    let lo = match memory.read(program_counter.wrapping_add(2)) {
        Ok(b) => b,
        Err(e) => {
            return Err(bus_to_emulation(e));
        },
    };
    let pc = ((hi as u16) << 8) | (lo as u16);
    registers.set(RegisterType::PC, pc);
    Ok(16)
}

/// Handles no-operation: the program counter advances, nothing else.
fn handle_nop(registers: &mut Registers) -> (r: Result<usize, EmulationError>)
    ensures
        r == Ok::<usize, EmulationError>(4),
        *final(registers) == (Registers {
            pc: old(registers).pc.wrapping_add(1),
            ..*old(registers)
        }),
{
    increment_pc(registers);
    Ok(4)
}

/// Decodes a three-bit operand code of the load family.
fn decode_reg8(code: u8) -> (r: RegisterType)
    ensures
        r == load_code_target(code),
{
    if code == 0 {
        RegisterType::B
    } else if code == 1 {
        RegisterType::C
    } else if code == 2 {
        RegisterType::D
    } else if code == 3 {
        RegisterType::E
    } else if code == 4 {
        RegisterType::H
    } else if code == 5 {
        RegisterType::L
    } else if code == 6 {
        RegisterType::HL
    } else {
        RegisterType::A
    }
}

/// Handles the 8-bit load family: the destination is named by bits 5..3
/// of the opcode and the source by bits 2..0, with code 6 meaning the
/// indirect `(HL)` operand on either side.
fn handle_load(instruction: u8, registers: &mut Registers, memory: &mut Memory) -> (r: Result<
    usize,
    EmulationError,
>)
    requires
        old(memory).wf(),
        is_load_op(instruction),
        spec_mem_read(*old(memory), old(registers).pc) == Ok::<u8, BusError>(instruction),
    ensures
        final(memory).wf(),
        r == spec_step_result(*old(registers), *old(memory)),
        r is Ok ==> *final(registers) == spec_step_regs(*old(registers), *old(memory))
            && spec_step_mem(*old(registers), *old(memory), *final(memory)),
        r is Err ==> *final(registers) == *old(registers) && *final(memory) == *old(memory),
{
    proof {
        let op = instruction;
        assert((op >> 3) & 0x07u8 <= 7 && op & 0x07u8 <= 7) by (bit_vector);
        assert(0x40 <= op <= 0x7F && op != 0x76 ==> !((op >> 3) & 0x07u8 == 6 && op & 0x07u8 == 6))
            by (bit_vector);
    }
    let to = decode_reg8((instruction >> 3) & 0x07);
    let from = decode_reg8(instruction & 0x07);

    let value = match read_value(from, from == RegisterType::HL, registers, memory) {
        Ok(v) => v,
        Err(e) => {
            return Err(bus_to_emulation(e));
        },
    };
    match write_value(to, value, to == RegisterType::HL, registers, memory) {
        Ok(_) => {},
        Err(e) => {
            return Err(bus_to_emulation(e));
        },
    }
    increment_pc(registers);

    if to == RegisterType::HL || from == RegisterType::HL {
        Ok(8)
    } else {
        Ok(4)
    }
}

/// Executes the instruction at the program counter: fetch, decode into
/// a family, execute, and return the cycle cost. The whole step is
/// `spec_step_result` / `spec_step_regs` / `spec_step_mem`: the result
/// is `Ok` exactly when the fetch is mapped, the opcode is implemented
/// and every access the instruction makes is legal, and a failed step
/// leaves registers and bus exactly as they were.
pub fn process_instruction(registers: &mut Registers, memory: &mut Memory) -> (r: Result<
    usize,
    EmulationError,
>)
    requires
        old(memory).wf(),
    ensures
        final(memory).wf(),
        r == spec_step_result(*old(registers), *old(memory)),
        r is Ok ==> *final(registers) == spec_step_regs(*old(registers), *old(memory))
            && spec_step_mem(*old(registers), *old(memory), *final(memory)),
        r is Err ==> *final(registers) == *old(registers) && *final(memory) == *old(memory),
{
    let program_counter = registers.get(RegisterType::PC);
    let instruction = match memory.read(program_counter) {
        Ok(b) => b,
        Err(e) => {
            return Err(bus_to_emulation(e));
        },
    };
    match instruction {
        0x00 => handle_nop(registers),
        0x2F => handle_cpl(registers),
        0x05 | 0x15 | 0x25 | 0x35 => handle_dec_n(instruction, registers, memory),
        0x0B | 0x1B | 0x2B | 0x3B => handle_dec_nn(instruction, registers),
        0xC3 => handle_jump(program_counter, registers, memory),
        0x40..=0x7F => {
            if instruction == 0x76 {
                Err(EmulationError::UnimplementedOpcode {
                    opcode: instruction,
                    pc: program_counter,
                })
            } else {
                handle_load(instruction, registers, memory)
            }
        },
        _ => Err(EmulationError::UnimplementedOpcode { opcode: instruction, pc: program_counter }),
    }
}

/// The flag semantics of the 8-bit decrement, over any starting flags:
/// Z mirrors whether the result is zero, N is always set, H is set
/// exactly when the low nibble was nonzero before the decrement, and C
/// is untouched.
pub proof fn lemma_dec_flags(f: u8, v: u8)
    ensures
        flag_z(dec_flags(f, v)) == (dec8(v) == 0),
        flag_n(dec_flags(f, v)) == true,
        flag_h(dec_flags(f, v)) == (v & 0x0F != 0),
        flag_c(dec_flags(f, v)) == flag_c(f),
{
    let zb: u8 = if dec8(v) == 0 {
        Z_FLAG
    } else {
        0
    };
    let hb: u8 = if v & 0x0F != 0 {
        H_FLAG
    } else {
        0
    };
    assert(dec_flags(f, v) == (((f & C_FLAG) | zb) | N_FLAG) | hb);
    assert((zb == 0x80u8 || zb == 0u8) && (hb == 0x20u8 || hb == 0u8) ==> {
        let t = (((f & 0x10u8) | zb) | 0x40u8) | hb;
        (t & 0x80u8 == zb) && (t & 0x40u8 != 0) && (t & 0x20u8 == hb) && (t & 0x10u8 == f
            & 0x10u8)
    }) by (bit_vector);
}

/// Decrementing an 8-bit value of zero wraps to 0xFF, and because the
/// low nibble of zero is zero there is no borrow: the flags become
/// N set, H clear, Z clear, with C unchanged. This holds for every
/// 8-bit decrement target, which all share `dec8` and `dec_flags`.
pub proof fn lemma_dec_wraps_without_borrow(f: u8)
    ensures
        dec8(0) == 0xFF,
        flag_z(dec_flags(f, 0)) == false,
        flag_n(dec_flags(f, 0)) == true,
        flag_h(dec_flags(f, 0)) == false,
        flag_c(dec_flags(f, 0)) == flag_c(f),
{
    assert(0u8 & 0x0Fu8 == 0u8) by (bit_vector);
    lemma_dec_flags(f, 0);
}

/// Decrementing an 8-bit value whose low nibble is nonzero borrows out
/// of bit 4: the flags become N set, H set, Z set exactly when the
/// result is zero, with C unchanged.
pub proof fn lemma_dec_borrows(f: u8, v: u8)
    requires
        v & 0x0F != 0,
    ensures
        dec8(v) == v - 1,
        flag_z(dec_flags(f, v)) == (v == 1),
        flag_n(dec_flags(f, v)) == true,
        flag_h(dec_flags(f, v)) == true,
        flag_c(dec_flags(f, v)) == flag_c(f),
{
    assert(v & 0x0Fu8 != 0 ==> v != 0) by (bit_vector);
    lemma_dec_flags(f, v);
}

} // verus!
