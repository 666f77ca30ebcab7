//! Raw binary images: either a bare block of code for address 0x8000, or
//! one behind a ten-byte header that says where it goes.

use crate::cpu_exec::CpuRunState;
use crate::engine::{
    engine_memory, engine_quiet, engine_registers, engine_rom, le16, read_le16, registers,
    set_registers, write_range, written_range, Registers,
};
use crate::error::LoadError;
use vstd::prelude::*;
use vstd::slice::slice_subrange;
use zilog_z80::cpu::CPU;

verus! {

/// Where an image without header is loaded and started.
pub const DIR_BIN_DEFAULT: u16 = 0x8000;

/// The size of the header of an image that has one.
pub const BIN_HEADER: usize = 10;

/// Whether the image starts with the signature `ZX`.
pub open spec fn has_signature(data: Seq<u8>) -> bool {
    data[0] == 0x5A && data[1] == 0x58
}

/// Where an image goes, where it starts and what its code is, or the reason
/// for which it is refused. The header is the signature, then the origin,
/// the start address and the size of the code, each in two bytes, and two
/// spare bytes.
pub open spec fn bin_image(data: Seq<u8>) -> Result<(u16, u16, Seq<u8>), LoadError> {
    if data.len() < 4 {
        Err(LoadError::TruncatedHeader)
    } else if !has_signature(data) {
        Ok((DIR_BIN_DEFAULT, DIR_BIN_DEFAULT, data))
    } else if data.len() < BIN_HEADER {
        Err(LoadError::TruncatedHeader)
    } else if data.len() < BIN_HEADER + le16(data, 6) {
        Err(LoadError::TruncatedBlock)
    } else {
        Ok(
            (
                le16(data, 2),
                le16(data, 4),
                data.subrange(BIN_HEADER as int, BIN_HEADER + le16(data, 6)),
            ),
        )
    }
}

/// The run state after a binary image was loaded: the machine runs with
/// interrupts off and not allowed, in mode 1, and counts from zero.
pub open spec fn started_bare(run: CpuRunState) -> CpuRunState {
    CpuRunState {
        halted: false,
        iff1: false,
        iff1_pending: false,
        im: 1,
        t_states: 0,
        allow_interrupts: false,
        ..run
    }
}

/// Loads a binary image and points the program counter at its start. The
/// code is written through the bus, so protected addresses keep their
/// bytes. A refused image changes nothing.
pub fn load_bin(cpu: &mut CPU, run_state: &mut CpuRunState, data: &[u8]) -> (r: Result<
    (),
    LoadError,
>)
    ensures
        engine_rom(*final(cpu)) == engine_rom(*old(cpu)),
        engine_quiet(*final(cpu)) == engine_quiet(*old(cpu)),
        match bin_image(data@) {
            Ok((org, pc, code)) => {
                &&& r is Ok
                &&& engine_memory(*final(cpu)) == written_range(
                    engine_memory(*old(cpu)),
                    engine_rom(*old(cpu)),
                    org,
                    code,
                )
                &&& engine_registers(*final(cpu)) == Registers { pc, ..engine_registers(*old(cpu)) }
                &&& *final(run_state) == started_bare(*old(run_state))
            },
            Err(e) => {
                &&& r == Err::<(), LoadError>(e)
                &&& *final(cpu) == *old(cpu)
                &&& *final(run_state) == *old(run_state)
            },
        },
{
    if data.len() < 4 {
        return Err(LoadError::TruncatedHeader);
    }
    let mut r = registers(cpu);
    if data[0] == 0x5A && data[1] == 0x58 {
        if data.len() < BIN_HEADER {
            return Err(LoadError::TruncatedHeader);
        }
        let org = read_le16(data, 2);
        let pc = read_le16(data, 4);
        let size = read_le16(data, 6) as usize;
        if data.len() < BIN_HEADER + size {
            return Err(LoadError::TruncatedBlock);
        }
        write_range(cpu, org, slice_subrange(data, BIN_HEADER, BIN_HEADER + size));
        r.pc = pc;
    } else {
        write_range(cpu, DIR_BIN_DEFAULT, data);
        r.pc = DIR_BIN_DEFAULT;
    }
    set_registers(cpu, &r);
    run_state.halted = false;
    run_state.allow_interrupts = false;
    run_state.t_states = 0;
    run_state.iff1 = false;
    run_state.iff1_pending = false;
    run_state.im = 1;
    Ok(())
}

} // verus!
