/// Condition flags and their byte form.
pub mod flags;
/// Arithmetic, logic, rotate and bit operations of the processor.
pub mod alu;
/// The address bus and its memory map.
pub mod bus;
/// Opcode tables.
pub mod decode;
/// Registers, interrupt state and the fetch-decode-execute step.
pub mod cpu;
/// A processor bound to its bus.
pub mod vm;
/// Sound units of the audio block.
pub mod apu;
/// Screen, keypad, timers, RAM and stack of the 4 KiB virtual machine.
pub mod chip8;
/// Cartridge, memory map, status register and instructions of the 6502 console.
pub mod nes;
/// Flag arithmetic of the 6502 processor.
pub mod mos6502;
