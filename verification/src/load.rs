//! Loading a file into the machine, by its extension.

use crate::bin::{bin_image, load_bin, started_bare};
use crate::cpu_exec::CpuRunState;
use crate::engine::{
    engine_memory, engine_quiet, engine_registers, engine_rom, lemma_written_range_overlays,
    overlaid, registers, set_registers, set_rom_range, write_range, written_range, Registers,
    MEMORY_SIZE,
};
use crate::error::LoadError;
use crate::sna::{apply_sna, resumed, sna_registers, with_ram, SnaSnapshot, ROM_END, SIZE_SNA};
use crate::z80::{apply_z80, header_registers, z80_image, Z80Snapshot};
use vstd::prelude::*;
use zilog_z80::cpu::CPU;

verus! {

/// The size of the ROM of a 48K machine.
pub const ROM_SIZE: usize = 16384;

/// The kind of file that was loaded.
#[derive(Debug, Clone, Copy, PartialEq, Eq, Structural)]
pub enum LoadResult {
    Rom,
    Sna,
    Z80,
    Bin,
}

/// Whether `c` is the character `lower`, or its upper-case form where
/// `lower` is a small letter.
pub open spec fn same_letter(c: char, lower: char) -> bool {
    c == lower || ('a' <= lower <= 'z' && c as u32 + 32 == lower as u32)
}

/// Whether `ext` is the three given characters, in either case.
pub open spec fn spells(ext: Seq<char>, a: char, b: char, c: char) -> bool {
    ext.len() == 3 && same_letter(ext[0], a) && same_letter(ext[1], b) && same_letter(ext[2], c)
}

/// The kind of file that an extension stands for.
pub open spec fn format_of(ext: Seq<char>) -> Option<LoadResult> {
    if spells(ext, 'r', 'o', 'm') {
        Some(LoadResult::Rom)
    } else if spells(ext, 's', 'n', 'a') {
        Some(LoadResult::Sna)
    } else if spells(ext, 'z', '8', '0') {
        Some(LoadResult::Z80)
    } else if spells(ext, 'b', 'i', 'n') {
        Some(LoadResult::Bin)
    } else {
        None
    }
}

/// The run state after a ROM was loaded: the machine runs, interrupts are
/// allowed, and the count starts from zero.
pub open spec fn restarted(run: CpuRunState) -> CpuRunState {
    CpuRunState { halted: false, iff1_pending: false, t_states: 0, allow_interrupts: true, ..run }
}

fn letter(c: char, lower: char) -> (same: bool)
    ensures
        same == same_letter(c, lower),
{
    c == lower || ('a' <= lower && lower <= 'z' && c as u32 + 32 == lower as u32)
}

fn ext_is(ext: &str, a: char, b: char, c: char) -> (yes: bool)
    ensures
        yes == spells(ext@, a, b, c),
{
    ext.unicode_len() == 3 && letter(ext.get_char(0), a) && letter(ext.get_char(1), b) && letter(
        ext.get_char(2),
        c,
    )
}

/// Tells the kind of file that an extension stands for.
pub fn file_kind(ext: &str) -> (kind: Option<LoadResult>)
    ensures
        kind == format_of(ext@),
{
    if ext_is(ext, 'r', 'o', 'm') {
        Some(LoadResult::Rom)
    } else if ext_is(ext, 's', 'n', 'a') {
        Some(LoadResult::Sna)
    } else if ext_is(ext, 'z', '8', '0') {
        Some(LoadResult::Z80)
    } else if ext_is(ext, 'b', 'i', 'n') {
        Some(LoadResult::Bin)
    } else {
        None
    }
}

/// Loads a ROM image of exactly 16 KiB at address zero, protects it, and
/// points the program counter at it.
pub fn load_rom(cpu: &mut CPU, run_state: &mut CpuRunState, data: &[u8]) -> (r: Result<
    (),
    LoadError,
>)
    requires
        engine_memory(*old(cpu)).len() == MEMORY_SIZE,
    ensures
        engine_quiet(*final(cpu)) == engine_quiet(*old(cpu)),
        r is Ok <==> data@.len() == ROM_SIZE,
        match r {
            Ok(_) => {
                &&& engine_memory(*final(cpu)) == overlaid(engine_memory(*old(cpu)), 0, data@)
                &&& engine_rom(*final(cpu)) == Some((0u16, ROM_END))
                &&& engine_registers(*final(cpu)) == Registers {
                    pc: 0,
                    ..engine_registers(*old(cpu))
                }
                &&& *final(run_state) == restarted(*old(run_state))
            },
            Err(e) => {
                &&& e == LoadError::SizeMismatch
                &&& *final(cpu) == *old(cpu)
                &&& *final(run_state) == *old(run_state)
            },
        },
{
    if data.len() != ROM_SIZE {
        return Err(LoadError::SizeMismatch);
    }
    store_rom(cpu, data);
    let mut r = registers(cpu);
    r.pc = 0;
    set_registers(cpu, &r);
    run_state.halted = false;
    run_state.iff1_pending = false;
    run_state.t_states = 0;
    run_state.allow_interrupts = true;
    Ok(())
}

/// Writes a ROM image at address zero, whatever was protected before, and
/// protects the first 16 KiB.
pub fn store_rom(cpu: &mut CPU, data: &[u8])
    requires
        data@.len() == ROM_SIZE,
        engine_memory(*old(cpu)).len() == MEMORY_SIZE,
    ensures
        engine_memory(*final(cpu)) == overlaid(engine_memory(*old(cpu)), 0, data@),
        engine_rom(*final(cpu)) == Some((0u16, ROM_END)),
        engine_registers(*final(cpu)) == engine_registers(*old(cpu)),
        engine_quiet(*final(cpu)) == engine_quiet(*old(cpu)),
{
    set_rom_range(cpu, 1, 0);
    proof {
        lemma_written_range_overlays(engine_memory(*cpu), Some((1u16, 0u16)), 0, data@);
    }
    write_range(cpu, 0, data);
    set_rom_range(cpu, 0, ROM_END);
}

/// What a load leaves in the machine, for a file `data` with extension
/// `ext`: the kind of file, or the reason for which nothing was loaded.
pub open spec fn load_outcome(ext: Seq<char>, data: Seq<u8>) -> Result<LoadResult, LoadError> {
    match format_of(ext) {
        None => Err(LoadError::UnsupportedFormat),
        Some(LoadResult::Rom) => if data.len() == ROM_SIZE {
            Ok(LoadResult::Rom)
        } else {
            Err(LoadError::SizeMismatch)
        },
        Some(LoadResult::Sna) => if data.len() == SIZE_SNA {
            Ok(LoadResult::Sna)
        } else {
            Err(LoadError::SizeMismatch)
        },
        Some(LoadResult::Z80) => match z80_image(data) {
            Ok(_) => Ok(LoadResult::Z80),
            Err(e) => Err(e),
        },
        Some(LoadResult::Bin) => match bin_image(data) {
            Ok(_) => Ok(LoadResult::Bin),
            Err(e) => Err(e),
        },
    }
}

/// Whether `cpu1` and `run1` are what a load of the file `data` with
/// extension `ext` makes of `cpu0` and `run0`. A ROM goes to address zero
/// and a snapshot's image to the RAM, and either protects the first 16 KiB;
/// a binary image is written through the bus as it is protected. A file
/// that is refused leaves everything as it was.
pub open spec fn loaded(
    cpu0: CPU,
    run0: CpuRunState,
    cpu1: CPU,
    run1: CpuRunState,
    ext: Seq<char>,
    data: Seq<u8>,
) -> bool {
    let m0 = engine_memory(cpu0);
    let r0 = engine_registers(cpu0);
    &&& engine_quiet(cpu1) == engine_quiet(cpu0)
    &&& match load_outcome(ext, data) {
        Ok(LoadResult::Rom) => {
            &&& engine_memory(cpu1) == overlaid(m0, 0, data)
            &&& engine_rom(cpu1) == Some((0u16, ROM_END))
            &&& engine_registers(cpu1) == Registers { pc: 0, ..r0 }
            &&& run1 == restarted(run0)
        },
        Ok(LoadResult::Sna) => {
            &&& engine_memory(cpu1) == with_ram(m0, data.subrange(27, SIZE_SNA as int))
            &&& engine_rom(cpu1) == Some((0u16, ROM_END))
            &&& engine_registers(cpu1) == sna_registers(data, engine_memory(cpu1))
            &&& run1 == resumed(run0, data[19] != 0, data[25] % 4)
        },
        Ok(LoadResult::Z80) => {
            &&& engine_memory(cpu1) == with_ram(m0, z80_image(data)->Ok_0.1)
            &&& engine_rom(cpu1) == Some((0u16, ROM_END))
            &&& engine_registers(cpu1) == header_registers(data, z80_image(data)->Ok_0.0)
            &&& run1 == resumed(run0, data[27] != 0, data[29] % 4)
        },
        Ok(LoadResult::Bin) => {
            &&& engine_memory(cpu1) == written_range(
                m0,
                engine_rom(cpu0),
                bin_image(data)->Ok_0.0,
                bin_image(data)->Ok_0.2,
            )
            &&& engine_rom(cpu1) == engine_rom(cpu0)
            &&& engine_registers(cpu1) == Registers { pc: bin_image(data)->Ok_0.1, ..r0 }
            &&& run1 == started_bare(run0)
        },
        Err(_) => cpu1 == cpu0 && run1 == run0,
    }
}

/// Loads the file `data` by its extension `ext`, which is read without
/// regard to case: `rom`, `sna`, `z80` or `bin`. The file is read to its
/// end before the machine is touched: a file that is refused leaves the
/// machine as it was. After any load but that of a `bin` file, the first
/// 16 KiB are protected.
pub fn load_file(cpu: &mut CPU, run_state: &mut CpuRunState, ext: &str, data: &[u8]) -> (r: Result<
    LoadResult,
    LoadError,
>)
    requires
        engine_memory(*old(cpu)).len() == MEMORY_SIZE,
    ensures
        r == load_outcome(ext@, data@),
        loaded(*old(cpu), *old(run_state), *final(cpu), *final(run_state), ext@, data@),
        engine_memory(*final(cpu)).len() == MEMORY_SIZE,
{
    match file_kind(ext) {
        None => Err(LoadError::UnsupportedFormat),
        Some(LoadResult::Rom) => match load_rom(cpu, run_state, data) {
            Ok(_) => Ok(LoadResult::Rom),
            Err(e) => Err(e),
        },
        Some(LoadResult::Sna) => match SnaSnapshot::load(data) {
            Ok(snap) => {
                apply_sna(cpu, run_state, &snap);
                Ok(LoadResult::Sna)
            },
            Err(e) => Err(e),
        },
        Some(LoadResult::Z80) => match Z80Snapshot::load(data) {
            Ok(snap) => {
                apply_z80(cpu, run_state, &snap);
                Ok(LoadResult::Z80)
            },
            Err(e) => Err(e),
        },
        Some(LoadResult::Bin) => {
            proof {
                crate::engine::lemma_written_range_keeps_rom(
                    engine_memory(*cpu),
                    engine_rom(*cpu),
                    bin_image(data@)->Ok_0.0,
                    bin_image(data@)->Ok_0.2,
                );
            }
            match load_bin(cpu, run_state, data) {
                Ok(_) => Ok(LoadResult::Bin),
                Err(e) => Err(e),
            }
        },
    }
}

} // verus!
