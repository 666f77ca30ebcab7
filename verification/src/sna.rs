//! The .SNA snapshot of a 48K machine: 27 bytes of registers and 48 KiB of
//! RAM.

use crate::cpu_exec::CpuRunState;
use crate::engine::{
    addr_add, byte_at, engine_memory, engine_quiet, engine_registers, engine_rom, le16,
    lemma_written_range_overlays, overlaid, read, read_le16, registers, set_registers,
    set_rom_range, word, write_range, Registers, MEMORY_SIZE,
};
use crate::error::LoadError;
use vstd::prelude::*;
use vstd::slice::{slice_subrange, slice_to_vec};
use zilog_z80::cpu::CPU;

verus! {

/// The size of a .SNA file.
pub const SIZE_SNA: usize = 49179;

/// The size of the header of a .SNA file.
pub const SNA_HEADER: usize = 27;

/// The size of the RAM of a 48K machine.
pub const RAM_LEN_MAX: usize = 49152;

/// The first address of RAM.
pub const RAM_START: u16 = 0x4000;

/// The last address of ROM.
pub const ROM_END: u16 = 0x3FFF;

/// What a .SNA file holds. The program counter is not among the registers:
/// it lies on the stack in the RAM image.
pub struct SnaSnapshot {
    pub i: u8,
    pub hl_: u16,
    pub de_: u16,
    pub bc_: u16,
    pub af_: u16,
    pub hl: u16,
    pub de: u16,
    pub bc: u16,
    pub iy: u16,
    pub ix: u16,
    pub iff2: bool,
    pub r: u8,
    pub af: u16,
    pub sp: u16,
    pub im: u8,
    pub border: u8,
    /// The RAM from 0x4000 to 0xFFFF.
    pub ram: Vec<u8>,
}

impl SnaSnapshot {
    /// Whether the record holds what the file `data` says.
    pub open spec fn describes(&self, data: Seq<u8>) -> bool {
        &&& self.i == data[0]
        &&& self.hl_ == le16(data, 1)
        &&& self.de_ == le16(data, 3)
        &&& self.bc_ == le16(data, 5)
        &&& self.af_ == le16(data, 7)
        &&& self.hl == le16(data, 9)
        &&& self.de == le16(data, 11)
        &&& self.bc == le16(data, 13)
        &&& self.iy == le16(data, 15)
        &&& self.ix == le16(data, 17)
        &&& self.iff2 == (data[19] != 0)
        &&& self.r == data[20]
        &&& self.af == le16(data, 21)
        &&& self.sp == le16(data, 23)
        &&& self.im == data[25] % 4
        &&& self.border == data[26]
        &&& self.ram@ == data.subrange(SNA_HEADER as int, SIZE_SNA as int)
    }

    /// Whether the record has the RAM of a 48K machine.
    pub open spec fn wf(&self) -> bool {
        self.ram@.len() == RAM_LEN_MAX
    }

    /// Reads a .SNA file. A file of any size but 49179 bytes is refused.
    pub fn load(data: &[u8]) -> (r: Result<SnaSnapshot, LoadError>)
        ensures
            r is Ok <==> data@.len() == SIZE_SNA,
            r matches Ok(s) ==> s.describes(data@) && s.wf(),
            r matches Err(e) ==> e == LoadError::SizeMismatch,
    {
        if data.len() != SIZE_SNA {
            return Err(LoadError::SizeMismatch);
        }
        let ram = slice_to_vec(slice_subrange(data, SNA_HEADER, SIZE_SNA));
        Ok(
            SnaSnapshot {
                i: data[0],
                hl_: read_le16(data, 1),
                de_: read_le16(data, 3),
                bc_: read_le16(data, 5),
                af_: read_le16(data, 7),
                hl: read_le16(data, 9),
                de: read_le16(data, 11),
                bc: read_le16(data, 13),
                iy: read_le16(data, 15),
                ix: read_le16(data, 17),
                iff2: data[19] != 0,
                r: data[20],
                af: read_le16(data, 21),
                sp: read_le16(data, 23),
                im: data[25] % 4,
                border: data[26],
                ram,
            },
        )
    }
}

/// The run state after a snapshot has been applied: the machine runs, with
/// the snapshot's interrupt state, and counts from zero.
pub open spec fn resumed(run: CpuRunState, iff1: bool, im: u8) -> CpuRunState {
    CpuRunState {
        halted: false,
        iff1,
        iff1_pending: false,
        im,
        t_states: 0,
        allow_interrupts: true,
        ..run
    }
}

/// The registers that a .SNA file leaves in a machine whose memory is then
/// `memory`: those of the header, but the program counter, which is the
/// word on top of the header's stack, and the stack pointer, which has
/// moved past that word.
pub open spec fn sna_registers(data: Seq<u8>, memory: Seq<u8>) -> Registers {
    Registers {
        pc: word(byte_at(memory, addr_add(le16(data, 23), 1)), byte_at(memory, le16(data, 23))),
        sp: addr_add(le16(data, 23), 2),
        af: le16(data, 21),
        bc: le16(data, 13),
        de: le16(data, 11),
        hl: le16(data, 9),
        ix: le16(data, 17),
        iy: le16(data, 15),
        af_: le16(data, 7),
        bc_: le16(data, 5),
        de_: le16(data, 3),
        hl_: le16(data, 1),
        i: data[0],
        r: data[20],
    }
}

/// The memory after a 48 KiB image was laid over the RAM.
pub open spec fn with_ram(memory: Seq<u8>, ram: Seq<u8>) -> Seq<u8> {
    overlaid(memory, RAM_START as int, ram)
}

/// Puts a .SNA snapshot into the machine: the RAM image, the registers,
/// and the program counter, which is popped from the image's stack. The
/// first 16 KiB become the protected range.
pub fn apply_sna(cpu: &mut CPU, run_state: &mut CpuRunState, sna: &SnaSnapshot)
    requires
        sna.wf(),
        engine_memory(*old(cpu)).len() == MEMORY_SIZE,
    ensures
        engine_memory(*final(cpu)) == with_ram(engine_memory(*old(cpu)), sna.ram@),
        engine_rom(*final(cpu)) == Some((0u16, ROM_END)),
        engine_quiet(*final(cpu)) == engine_quiet(*old(cpu)),
        engine_registers(*final(cpu)) == (Registers {
            pc: word(
                byte_at(engine_memory(*final(cpu)), addr_add(sna.sp, 1)),
                byte_at(engine_memory(*final(cpu)), sna.sp),
            ),
            sp: addr_add(sna.sp, 2),
            af: sna.af,
            bc: sna.bc,
            de: sna.de,
            hl: sna.hl,
            ix: sna.ix,
            iy: sna.iy,
            af_: sna.af_,
            bc_: sna.bc_,
            de_: sna.de_,
            hl_: sna.hl_,
            i: sna.i,
            r: sna.r,
        }),
        *final(run_state) == resumed(*old(run_state), sna.iff2, sna.im),
{
    load_ram(cpu, sna.ram.as_slice());
    let pcl = read(cpu, sna.sp);
    let pch = read(cpu, sna.sp.wrapping_add(1));
    let r = Registers {
        pc: pch as u16 * 256 + pcl as u16,
        sp: sna.sp.wrapping_add(2),
        af: sna.af,
        bc: sna.bc,
        de: sna.de,
        hl: sna.hl,
        ix: sna.ix,
        iy: sna.iy,
        af_: sna.af_,
        bc_: sna.bc_,
        de_: sna.de_,
        hl_: sna.hl_,
        i: sna.i,
        r: sna.r,
    };
    set_registers(cpu, &r);
    resume(run_state, sna.iff2, sna.im);
}

/// Protects the first 16 KiB and lays a 48 KiB image over the RAM.
pub fn load_ram(cpu: &mut CPU, ram: &[u8])
    requires
        ram@.len() == RAM_LEN_MAX,
        engine_memory(*old(cpu)).len() == MEMORY_SIZE,
    ensures
        engine_memory(*final(cpu)) == with_ram(engine_memory(*old(cpu)), ram@),
        engine_rom(*final(cpu)) == Some((0u16, ROM_END)),
        engine_registers(*final(cpu)) == engine_registers(*old(cpu)),
        engine_quiet(*final(cpu)) == engine_quiet(*old(cpu)),
{
    set_rom_range(cpu, 0, ROM_END);
    proof {
        lemma_written_range_overlays(
            engine_memory(*cpu),
            Some((0u16, ROM_END)),
            RAM_START,
            ram@,
        );
    }
    write_range(cpu, RAM_START, ram);
}

/// Lets the machine run with the given interrupt state, counting from
/// zero.
pub fn resume(run_state: &mut CpuRunState, iff1: bool, im: u8)
    ensures
        *final(run_state) == resumed(*old(run_state), iff1, im),
{
    run_state.iff1 = iff1;
    run_state.iff1_pending = false;
    run_state.im = im;
    run_state.halted = false;
    run_state.allow_interrupts = true;
    run_state.t_states = 0;
}

} // verus!
