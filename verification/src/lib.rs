//! Instruction-level model of an 8-bit game console: the CPU core, the
//! memory bus that unifies RAM, the video chip's register ports and
//! cartridge access, and the cartridge mapper variants that implement
//! address translation.
//!
//! The crate is a library: a driver constructs a [`mapper::Mapper`] from a
//! parsed [`rom::Rom`] image, wires it together with [`memory::RAM`] and a
//! [`ppu::PPU`] into a [`cpu::CPU`], calls [`cpu::CPU::reset`] once and then
//! [`cpu::CPU::step`] repeatedly.  Every bus access and every instruction is
//! specified against a mathematical view of the machine state.

pub mod bus;
pub mod cpu;
pub mod emu_config;
pub mod font_map;
pub mod nes;
pub mod mapper;
pub mod memory;
pub mod ppu;
pub mod rom;
