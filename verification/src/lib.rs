//! Core of a cycle-stepped emulator for an 8-bit handheld console:
//! a CPU register file with packed hardware flags, a memory-mapped
//! address bus, an opcode decode/execute engine with per-instruction
//! cycle costs, and an LCD controller whose four-state timing automaton
//! stays phase-locked to the cycles the CPU produces.

pub mod lcd;
pub mod memory;
pub mod opcode;
pub mod register;
