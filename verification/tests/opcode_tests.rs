use gbcore::memory::{BusError, Memory};
use gbcore::opcode::{process_instruction, EmulationError};
use gbcore::register::Registers;
use gbcore::register::RegisterType::{self, A, B, BC, C, D, DE, E, F, H, HL, L, PC, SP};

fn dec_test(
    instruction: u8,
    target: RegisterType,
    expected_value: u16,
    init_value: u16,
    expected_flags: u16,
    init_flags: u16,
    expected_cycles: usize,
) {
    let mut registers = Registers::new();
    registers.set(target, init_value);
    registers.set(F, init_flags);
    let mut memory = Memory::init_empty_with_instruction(0x0100, &[instruction]);

    let mut expected_registers = registers.clone();
    expected_registers.set(target, expected_value);
    expected_registers.set(PC, 0x0101);
    expected_registers.set(F, expected_flags);
    let expected_memory = memory.clone();

    let cycles = process_instruction(&mut registers, &mut memory).unwrap();
    assert_eq!(expected_cycles, cycles);
    assert_eq!(expected_registers, registers);
    assert_eq!(expected_memory, memory);
}

fn dec_test_memory(
    instruction: u8,
    target: RegisterType,
    expected_value: u8,
    init_value: u8,
    expected_flags: u16,
    init_flags: u16,
    expected_cycles: usize,
) {
    let mut registers = Registers::new();
    registers.set(target, 0xD000);
    registers.set(F, init_flags);
    let mut memory = Memory::init_empty_with_instruction(0x0100, &[instruction]);
    memory.write(0xD000, init_value).unwrap();

    let mut expected_registers = registers.clone();
    expected_registers.set(PC, 0x0101);
    expected_registers.set(F, expected_flags);
    let mut expected_memory = memory.clone();
    expected_memory.write(0xD000, expected_value).unwrap();

    let cycles = process_instruction(&mut registers, &mut memory).unwrap();
    assert_eq!(expected_registers, registers);
    assert_eq!(expected_memory, memory);
    assert_eq!(expected_cycles, cycles);
}

fn load_test_only_reg(instruction: u8, to: RegisterType, from: RegisterType) {
    let mut registers = Registers::new();
    registers.set(from, 0xff);
    let mut memory = Memory::init_empty_with_instruction(0x0100, &[instruction]);

    let mut expected_registers = registers.clone();
    expected_registers.set(to, 0xff);
    expected_registers.set(PC, 0x0101);
    let expected_memory = memory.clone();

    let cycles = process_instruction(&mut registers, &mut memory).unwrap();
    assert_eq!(4, cycles);
    assert_eq!(expected_registers, registers);
    assert_eq!(expected_memory, memory);
}

fn load_test_to_memory(instruction: u8, to: RegisterType, from: RegisterType) {
    let mut registers = Registers::new();
    registers.set(from, 0xff);
    registers.set(to, 0xD000);
    let mut memory = Memory::init_empty_with_instruction(0x0100, &[instruction]);

    let mut expected_registers = registers.clone();
    expected_registers.set(PC, 0x0101);
    let mut expected_memory = memory.clone();
    expected_memory.write(0xD000, 0xFF).unwrap();

    let cycles = process_instruction(&mut registers, &mut memory).unwrap();
    assert_eq!(8, cycles);
    assert_eq!(expected_registers, registers);
    assert_eq!(expected_memory, memory);
}

#[test]
fn test_0x05() {
    dec_test(0x05, B, 0b11111111, 0b00000000, 0b01000000, 0x0, 4);
    dec_test(0x05, B, 0b00100000, 0b00100001, 0b01100000, 0x0, 4);
    dec_test(0x05, B, 0b00001111, 0b00010000, 0b01000000, 0x0, 4);
    dec_test(0x05, B, 0b00000000, 0b00000001, 0b11100000, 0x0, 4);
}

#[test]
fn test_0x15() {
    dec_test(0x15, D, 0b11111111, 0b00000000, 0b01000000, 0x0, 4);
    dec_test(0x15, D, 0b00100000, 0b00100001, 0b01100000, 0x0, 4);
    dec_test(0x15, D, 0b00001111, 0b00010000, 0b01000000, 0x0, 4);
    dec_test(0x15, D, 0b00000000, 0b00000001, 0b11100000, 0x0, 4);
}

#[test]
fn test_0x25() {
    dec_test(0x25, H, 0b11111111, 0b00000000, 0b01000000, 0x0, 4);
    dec_test(0x25, H, 0b00100000, 0b00100001, 0b01100000, 0x0, 4);
    dec_test(0x25, H, 0b00001111, 0b00010000, 0b01000000, 0x0, 4);
    dec_test(0x25, H, 0b00000000, 0b00000001, 0b11100000, 0x0, 4);
}

#[test]
fn test_0x35() {
    dec_test_memory(0x35, HL, 0b11111111, 0b00000000, 0b01000000, 0x0, 12);
    dec_test_memory(0x35, HL, 0b00100000, 0b00100001, 0b01100000, 0x0, 12);
    dec_test_memory(0x35, HL, 0b00001111, 0b00010000, 0b01000000, 0x0, 12);
    dec_test_memory(0x35, HL, 0b00000000, 0b00000001, 0b11100000, 0x0, 12);
}

#[test]
#[allow(non_snake_case)]
fn test_0x0B() {
    dec_test(0x0B, BC, 0xFFFF, 0x0000, 0x00, 0x00, 8)
}

#[test]
#[allow(non_snake_case)]
fn test_0x1B() {
    dec_test(0x1B, DE, 0xFFFF, 0x0000, 0x00, 0x00, 8)
}

#[test]
#[allow(non_snake_case)]
fn test_0x2B() {
    dec_test(0x2B, HL, 0xFFFF, 0x0000, 0x00, 0x00, 8)
}

#[test]
#[allow(non_snake_case)]
fn test_0x3B() {
    dec_test(0x3B, SP, 0xFFFF, 0x0000, 0x00, 0x00, 8)
}

#[test]
#[allow(non_snake_case)]
fn test_0x2F() {
    let mut registers = Registers::new();
    let mut memory = Memory::init_empty_with_instruction(0x0100, &[0x2F]);

    let mut expected_registers = registers.clone();
    expected_registers.set(PC, 0x0101);
    expected_registers.set(F, 0b11110000);
    expected_registers.set(A, 0xFE);
    let expected_memory = memory.clone();

    let cycles = process_instruction(&mut registers, &mut memory).unwrap();
    assert_eq!(4, cycles);
    assert_eq!(expected_registers, registers);
    assert_eq!(expected_memory, memory);
}

#[test]
#[allow(non_snake_case)]
fn test_0xC3() {
    let mut registers = Registers::new();
    let mut memory = Memory::init_empty_with_instruction(0x0100, &[0xC3, 0x12, 0x34]);

    let mut expected_registers = registers.clone();
    expected_registers.set(PC, 0x1234);
    let expected_memory = memory.clone();

    let cycles = process_instruction(&mut registers, &mut memory).unwrap();
    assert_eq!(16, cycles);
    assert_eq!(expected_registers, registers);
    assert_eq!(expected_memory, memory);
}

#[test]
fn test_0x00() {
    let mut registers = Registers::new();
    let mut memory = Memory::init_empty_with_instruction(0x0100, &[0x00]);

    let mut expected_registers = registers.clone();
    expected_registers.set(PC, 0x0101);
    let expected_memory = memory.clone();

    let cycles = process_instruction(&mut registers, &mut memory).unwrap();
    assert_eq!(4, cycles);
    assert_eq!(expected_registers, registers);
    assert_eq!(expected_memory, memory);
}

#[test]
fn test_x42() {
    load_test_only_reg(0x42, B, D);
}

#[test]
fn test_x52() {
    load_test_only_reg(0x52, D, D);
}

#[test]
fn test_x62() {
    load_test_only_reg(0x62, H, D);
}

#[test]
fn test_x72() {
    load_test_to_memory(0x72, HL, D);
}

#[test]
#[allow(non_snake_case)]
fn test_x4A() {
    load_test_only_reg(0x4A, C, D);
}

#[test]
#[allow(non_snake_case)]
fn test_x5A() {
    load_test_only_reg(0x5A, E, D);
}

#[test]
#[allow(non_snake_case)]
fn test_x6A() {
    load_test_only_reg(0x6A, L, D);
}

#[test]
#[allow(non_snake_case)]
fn test_x7A() {
    load_test_only_reg(0x7A, A, D);
}

#[test]
fn test_x40() {
    load_test_only_reg(0x40, B, B);
}

#[test]
fn test_x50() {
    load_test_only_reg(0x50, D, B);
}

#[test]
fn test_x60() {
    load_test_only_reg(0x60, H, B);
}

#[test]
fn test_x70() {
    load_test_to_memory(0x70, HL, B);
}

#[test]
fn test_x48() {
    load_test_only_reg(0x48, C, B);
}

#[test]
fn test_x58() {
    load_test_only_reg(0x58, E, B);
}

#[test]
fn test_x68() {
    load_test_only_reg(0x68, L, B);
}

#[test]
fn test_x78() {
    load_test_only_reg(0x78, A, B);
}

#[test]
fn test_x41() {
    load_test_only_reg(0x41, B, C);
}

#[test]
fn test_x51() {
    load_test_only_reg(0x51, D, C);
}

#[test]
fn test_x61() {
    load_test_only_reg(0x61, H, C);
}

#[test]
fn test_x71() {
    load_test_to_memory(0x71, HL, C)
}

#[test]
fn test_x49() {
    load_test_only_reg(0x49, C, C);
}

#[test]
fn test_x59() {
    load_test_only_reg(0x59, E, C);
}

#[test]
fn test_x69() {
    load_test_only_reg(0x69, L, C);
}

#[test]
fn test_x79() {
    load_test_only_reg(0x79, A, C);
}

#[test]
fn load_sources_beyond_the_first_three_columns() {
    load_test_only_reg(0x43, B, E);
    load_test_only_reg(0x44, B, H);
    load_test_only_reg(0x45, B, L);
    load_test_only_reg(0x47, B, A);
    load_test_only_reg(0x7D, A, L);
}

#[test]
fn load_from_hl_indirect() {
    let mut registers = Registers::new();
    registers.set(HL, 0xD000);
    let mut memory = Memory::init_empty_with_instruction(0x0100, &[0x46]);
    memory.write(0xD000, 0xAB).unwrap();

    let mut expected_registers = registers.clone();
    expected_registers.set(B, 0xAB);
    expected_registers.set(PC, 0x0101);
    let expected_memory = memory.clone();

    let cycles = process_instruction(&mut registers, &mut memory).unwrap();
    assert_eq!(8, cycles);
    assert_eq!(expected_registers, registers);
    assert_eq!(expected_memory, memory);
}

#[test]
fn dec16_keeps_flags() {
    dec_test(0x0B, BC, 0xFFFF, 0x0000, 0xF0, 0xF0, 8);
    dec_test(0x3B, SP, 0x1233, 0x1234, 0xF0, 0xF0, 8);
}

#[test]
fn halt_opcode_is_unimplemented() {
    let mut registers = Registers::new();
    let mut memory = Memory::init_empty_with_instruction(0x0100, &[0x76]);
    let expected_registers = registers.clone();
    let expected_memory = memory.clone();

    let result = process_instruction(&mut registers, &mut memory);
    assert_eq!(
        result,
        Err(EmulationError::UnimplementedOpcode { opcode: 0x76, pc: 0x0100 })
    );
    assert_eq!(expected_registers, registers);
    assert_eq!(expected_memory, memory);
}

#[test]
fn unknown_opcode_is_reported_with_context() {
    let mut registers = Registers::new();
    let mut memory = Memory::init_empty_with_instruction(0x0100, &[0xFD]);

    let result = process_instruction(&mut registers, &mut memory);
    assert_eq!(
        result,
        Err(EmulationError::UnimplementedOpcode { opcode: 0xFD, pc: 0x0100 })
    );
}

#[test]
fn fetch_from_unmapped_address_fails() {
    let mut registers = Registers::new();
    registers.set(PC, 0xA000);
    let mut memory = Memory::init_empty_with_instruction(0x0100, &[0x00]);
    let expected_registers = registers.clone();

    let result = process_instruction(&mut registers, &mut memory);
    assert_eq!(result, Err(EmulationError::UnmappedAddress { addr: 0xA000 }));
    assert_eq!(expected_registers, registers);
}

#[test]
fn dec_memory_in_rom_is_a_read_only_violation() {
    let mut registers = Registers::new();
    registers.set(HL, 0x0200);
    let mut memory = Memory::init_empty_with_instruction(0x0100, &[0x35]);
    let expected_registers = registers.clone();
    let expected_memory = memory.clone();

    let result = process_instruction(&mut registers, &mut memory);
    assert_eq!(result, Err(EmulationError::ReadOnlyViolation { addr: 0x0200 }));
    assert_eq!(expected_registers, registers);
    assert_eq!(expected_memory, memory);
}

#[test]
fn store_to_rom_is_a_read_only_violation() {
    let mut registers = Registers::new();
    registers.set(HL, 0x0300);
    registers.set(B, 0x55);
    let mut memory = Memory::init_empty_with_instruction(0x0100, &[0x70]);
    let expected_registers = registers.clone();

    let result = process_instruction(&mut registers, &mut memory);
    assert_eq!(result, Err(EmulationError::ReadOnlyViolation { addr: 0x0300 }));
    assert_eq!(expected_registers, registers);
}

#[test]
fn store_through_bus_reaches_video_memory() {
    let mut registers = Registers::new();
    registers.set(HL, 0x8000);
    registers.set(B, 0x3C);
    let mut memory = Memory::init_empty_with_instruction(0x0100, &[0x70]);

    let cycles = process_instruction(&mut registers, &mut memory).unwrap();
    assert_eq!(8, cycles);
    assert_eq!(memory.read(0x8000), Ok(0x3C));
}

#[test]
fn error_kinds_are_distinguishable() {
    assert_ne!(
        EmulationError::UnmappedAddress { addr: 0x0100 },
        EmulationError::ReadOnlyViolation { addr: 0x0100 }
    );
    assert_ne!(
        BusError::UnmappedAddress { addr: 0x0100 },
        BusError::ReadOnlyViolation { addr: 0x0100 }
    );
}
