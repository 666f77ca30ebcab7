//! The Z80 opcode engine and the 64 KiB of memory that it owns.
//!
//! The engine is the `zilog_z80` crate's `CPU`. Verus does not see inside it:
//! this module names what the engine holds (its registers, its memory, its
//! read-only range), states what each of its operations does to them, and
//! builds the memory bus on top: reads, guarded writes, range writes.

use vstd::prelude::*;
use zilog_z80::cpu::CPU;

verus! {

/// The number of bytes that the Z80 addresses.
pub const MEMORY_SIZE: usize = 0x10000;

/// The engine's register file, as plain values. The 8-bit registers are the
/// halves of the pairs: A is the high byte of `af` and F the low one.
#[derive(Copy, Clone, Debug, PartialEq, Eq, Structural)]
pub struct Registers {
    pub pc: u16,
    pub sp: u16,
    pub af: u16,
    pub bc: u16,
    pub de: u16,
    pub hl: u16,
    pub ix: u16,
    pub iy: u16,
    pub af_: u16,
    pub bc_: u16,
    pub de_: u16,
    pub hl_: u16,
    pub i: u8,
    pub r: u8,
}

/// What one run of the engine leaves behind: the registers, the memory, and
/// the T-states that the instruction took.
pub struct Outcome {
    pub registers: Registers,
    pub memory: Seq<u8>,
    pub cycles: u32,
}

/// The engine: `zilog_z80::cpu::CPU`, registers and memory in one.
#[verifier::external_type_specification]
#[verifier::external_body]
pub struct ExCpu(CPU);

/// The registers that the engine holds.
pub uninterp spec fn engine_registers(cpu: CPU) -> Registers;

/// The bytes of the engine's memory, by address.
pub uninterp spec fn engine_memory(cpu: CPU) -> Seq<u8>;

/// The first and last address of the engine's read-only range, if one is set.
pub uninterp spec fn engine_rom(cpu: CPU) -> Option<(u16, u16)>;

/// Whether the engine is free of interrupt requests and has its tracing
/// switched off, as a new engine is.
pub uninterp spec fn engine_quiet(cpu: CPU) -> bool;

/// What the engine's next instruction leaves behind.
pub uninterp spec fn engine_outcome(cpu: CPU) -> Outcome;

/// The high byte of a 16-bit word.
pub open spec fn hi(w: u16) -> u8 {
    (w / 256) as u8
}

/// The low byte of a 16-bit word.
pub open spec fn lo(w: u16) -> u8 {
    (w % 256) as u8
}

/// The word with the given high and low byte.
pub open spec fn word(high: u8, low: u8) -> u16 {
    (high as int * 256 + low as int) as u16
}

/// The address `offset` bytes after `addr`, wrapping at the top of memory.
pub open spec fn addr_add(addr: u16, offset: int) -> u16 {
    ((addr as int + offset) % 0x10000) as u16
}

/// Whether writes to `addr` are suppressed.
pub open spec fn protected(rom: Option<(u16, u16)>, addr: u16) -> bool {
    match rom {
        Some((start, end)) => start <= addr <= end,
        None => false,
    }
}

/// The byte that a read of `addr` gives.
pub open spec fn byte_at(memory: Seq<u8>, addr: u16) -> u8 {
    if addr < memory.len() {
        memory[addr as int]
    } else {
        0
    }
}

/// The memory after a write of `value` to `addr`: nothing changes where the
/// address is protected.
pub open spec fn written(memory: Seq<u8>, rom: Option<(u16, u16)>, addr: u16, value: u8) -> Seq<
    u8,
> {
    if addr < memory.len() && !protected(rom, addr) {
        memory.update(addr as int, value)
    } else {
        memory
    }
}

/// The memory after writing `bytes` to consecutive addresses from `start`,
/// wrapping at the top of memory.
pub open spec fn written_range(
    memory: Seq<u8>,
    rom: Option<(u16, u16)>,
    start: u16,
    bytes: Seq<u8>,
) -> Seq<u8>
    decreases bytes.len(),
{
    if bytes.len() == 0 {
        memory
    } else {
        written(
            written_range(memory, rom, start, bytes.drop_last()),
            rom,
            addr_add(start, bytes.len() - 1),
            bytes.last(),
        )
    }
}

/// The memory with zeros from `start` to `end`, both included.
pub open spec fn cleared(memory: Seq<u8>, start: u16, end: u16) -> Seq<u8> {
    Seq::new(
        memory.len(),
        |a: int|
            if start <= a <= end {
                0u8
            } else {
                memory[a]
            },
    )
}

/// The word that two bytes of `data` from `at` on spell, low byte first.
pub open spec fn le16(data: Seq<u8>, at: int) -> u16 {
    word(data[at + 1], data[at])
}

/// The memory with `bytes` from address `start` on, where they fit below
/// the top of memory.
pub open spec fn overlaid(memory: Seq<u8>, start: int, bytes: Seq<u8>) -> Seq<u8> {
    Seq::new(
        memory.len(),
        |a: int|
            if start <= a < start + bytes.len() {
                bytes[a - start]
            } else {
                memory[a]
            },
    )
}

/// Whether the engine's own writes leave `addr` alone: the address is
/// protected, and it is not the first byte of a range that starts above
/// address zero (the engine writes the second byte of a word without asking).
pub open spec fn sealed(rom: Option<(u16, u16)>, addr: u16) -> bool {
    match rom {
        Some((start, end)) => start <= addr <= end && (addr != start || start == 0),
        None => false,
    }
}

/// Whether `after` has the bytes of `before` at every sealed address.
pub open spec fn rom_kept(before: Seq<u8>, after: Seq<u8>, rom: Option<(u16, u16)>) -> bool {
    forall|a: u16|
        #![trigger after[a as int]]
        sealed(rom, a) ==> after[a as int] == before[a as int]
}

/// An engine that the library can drive: it has the whole address space and
/// nobody has asked it for an interrupt.
pub open spec fn engine_wf(cpu: CPU) -> bool {
    &&& engine_memory(cpu).len() == MEMORY_SIZE
    &&& engine_quiet(cpu)
}

/// The four bytes from `pc` on, wrapping at the top of memory.
pub open spec fn fetch_window(memory: Seq<u8>, pc: u16) -> Seq<u8> {
    seq![
        byte_at(memory, pc),
        byte_at(memory, addr_add(pc, 1)),
        byte_at(memory, addr_add(pc, 2)),
        byte_at(memory, addr_add(pc, 3)),
    ]
}

/// Whether the first opcode byte is a relative jump (JR, JR cc, DJNZ).
pub open spec fn is_relative_jump(b0: u8) -> bool {
    b0 == 0x10 || b0 == 0x18 || (0x20 <= b0 <= 0x38 && b0 % 8 == 0)
}

/// Whether the unprefixed opcode reads a word from the stack (RET, RET cc,
/// POP, EX (SP),HL).
pub open spec fn pops_stack(b0: u8) -> bool {
    (b0 >= 0xC0 && (b0 % 8 == 0 || b0 % 16 == 1)) || b0 == 0xC9 || b0 == 0xE3
}

/// Whether the unprefixed opcode writes a word to the stack (CALL, CALL cc,
/// PUSH, RST).
pub open spec fn pushes_stack(b0: u8) -> bool {
    (b0 >= 0xC0 && (b0 % 8 == 4 || b0 % 8 == 7 || b0 % 16 == 5)) || b0 == 0xCD
}

/// Whether the opcode after a DD or FD prefix addresses memory through the
/// index register and a displacement.
pub open spec fn uses_displacement(b1: u8) -> bool {
    b1 == 0x34 || b1 == 0x35 || b1 == 0x36 || b1 == 0xCB || (0x40 <= b1 < 0xC0 && (b1 % 8 == 6
        || b1 / 8 == 14))
}

/// Whether `base` moved by the signed byte `d` stays inside the address
/// space.
pub open spec fn displaced_in_range(base: int, d: u8) -> bool {
    if d < 128 {
        base + d <= 0xFFFF
    } else {
        base >= 256 - d
    }
}

/// The register pair that bits 4 and 5 of an opcode select: BC, DE, HL, SP.
pub open spec fn selected_pair(r: Registers, opcode: u8) -> u16 {
    let sel = (opcode / 16) % 4;
    if sel == 0 {
        r.bc
    } else if sel == 1 {
        r.de
    } else if sel == 2 {
        r.hl
    } else {
        r.sp
    }
}

/// Whether the engine can run the instruction in `window`, which stands at
/// `r.pc`, without an address or a sum running over the ends of its 16-bit
/// range. The engine computes operand addresses, jump targets and the second
/// byte of each word with plain sums, so it cannot take:
/// an instruction whose four-byte window passes the top of memory; a
/// relative jump whose target lies past either end; an indexed access whose
/// address does; a word at 0xFFFF, be it an operand's address or the stack's
/// top; a 16-bit ADC or SBC of 0xFFFF with the carry set.
pub open spec fn engine_ready(r: Registers, window: Seq<u8>) -> bool
    recommends
        window.len() == 4,
{
    let b0 = window[0];
    let b1 = window[1];
    let b2 = window[2];
    let b3 = window[3];
    &&& r.pc <= 0xFFFB
    &&& if b0 == 0xED {
        &&& 0x40 <= b1 < 0x80 && (b1 % 16 == 3 || b1 % 16 == 11) ==> word(b3, b2) != 0xFFFF
        &&& b1 == 0x45 || b1 == 0x4D ==> r.sp != 0xFFFF
        &&& 0x40 <= b1 < 0x80 && (b1 % 16 == 2 || b1 % 16 == 10) ==> !(r.af % 2 == 1
            && selected_pair(r, b1) == 0xFFFF)
    } else if b0 == 0xDD || b0 == 0xFD {
        let index = if b0 == 0xDD {
            r.ix
        } else {
            r.iy
        };
        &&& uses_displacement(b1) ==> displaced_in_range(index as int, b2)
        &&& b1 == 0x22 || b1 == 0x2A ==> word(b3, b2) != 0xFFFF
        &&& b1 == 0xE5 ==> r.sp != 1
        &&& b1 == 0xE1 || b1 == 0xE3 ==> r.sp != 0xFFFF
    } else if b0 == 0xCB {
        true
    } else {
        &&& is_relative_jump(b0) ==> displaced_in_range(r.pc + 2, b1)
        &&& b0 == 0x22 || b0 == 0x2A ==> word(b2, b1) != 0xFFFF
        &&& pops_stack(b0) ==> r.sp != 0xFFFF
        &&& pushes_stack(b0) ==> r.sp != 1
    }
}

/// `CPU::new` with the top address 0xFFFF: an engine with all registers at
/// zero, 64 KiB of zeroed memory, no read-only range and no interrupt
/// request.
#[verifier::external_body]
fn engine_new() -> (cpu: CPU)
    ensures
        engine_registers(cpu) == (Registers {
            pc: 0,
            sp: 0,
            af: 0,
            bc: 0,
            de: 0,
            hl: 0,
            ix: 0,
            iy: 0,
            af_: 0,
            bc_: 0,
            de_: 0,
            hl_: 0,
            i: 0,
            r: 0,
        }),
        engine_memory(cpu) == Seq::new(MEMORY_SIZE as nat, |a: int| 0u8),
        engine_rom(cpu) == None::<(u16, u16)>,
        engine_quiet(cpu),
{
    CPU::new(0xFFFF)
}

/// Reads the public fields of `CPU::reg` and `CPU::alt` and the pair getters
/// of `Registers` (`get_af`, `get_bc`, `get_de`, `get_hl`, `get_ix`,
/// `get_iy`): the result is the register file that the engine holds.
#[verifier::external_body]
fn engine_read_registers(cpu: &CPU) -> (r: Registers)
    ensures
        r == engine_registers(*cpu),
{
    Registers {
        pc: cpu.reg.pc, sp: cpu.reg.sp, af: cpu.reg.get_af(), bc: cpu.reg.get_bc(),
        de: cpu.reg.get_de(), hl: cpu.reg.get_hl(), ix: cpu.reg.get_ix(), iy: cpu.reg.get_iy(),
        af_: cpu.alt.get_af(), bc_: cpu.alt.get_bc(), de_: cpu.alt.get_de(),
        hl_: cpu.alt.get_hl(), i: cpu.reg.i, r: cpu.reg.r,
    }
}

/// Writes the public fields of `CPU::reg` and `CPU::alt` through the pair
/// setters of `Registers` (`set_af`, `set_bc`, `set_de`, `set_hl`, `set_ix`,
/// `set_iy`): the engine then holds the given register file, and its memory,
/// its read-only range and its interrupt state are as before.
#[verifier::external_body]
fn engine_write_registers(cpu: &mut CPU, r: &Registers)
    ensures
        engine_registers(*final(cpu)) == *r,
        engine_memory(*final(cpu)) == engine_memory(*old(cpu)),
        engine_rom(*final(cpu)) == engine_rom(*old(cpu)),
        engine_quiet(*final(cpu)) == engine_quiet(*old(cpu)),
{
    cpu.reg.pc = r.pc;
    cpu.reg.sp = r.sp;
    cpu.reg.i = r.i;
    cpu.reg.r = r.r;
    cpu.reg.set_af(r.af);
    cpu.reg.set_bc(r.bc);
    cpu.reg.set_de(r.de);
    cpu.reg.set_hl(r.hl);
    cpu.reg.set_ix(r.ix);
    cpu.reg.set_iy(r.iy);
    cpu.alt.set_af(r.af_);
    cpu.alt.set_bc(r.bc_);
    cpu.alt.set_de(r.de_);
    cpu.alt.set_hl(r.hl_);
}

/// `Bus::read_byte`: the byte at the address, or zero for an address beyond
/// the memory.
#[verifier::external_body]
fn engine_read_byte(cpu: &CPU, addr: u16) -> (b: u8)
    ensures
        b == byte_at(engine_memory(*cpu), addr),
{
    cpu.bus.read_byte(addr)
}

/// `Bus::write_byte`: stores the byte unless the address lies beyond the
/// memory or inside the read-only range. Nothing else changes.
#[verifier::external_body]
fn engine_write_byte(cpu: &mut CPU, addr: u16, value: u8)
    ensures
        engine_memory(*final(cpu)) == written(
            engine_memory(*old(cpu)),
            engine_rom(*old(cpu)),
            addr,
            value,
        ),
        engine_registers(*final(cpu)) == engine_registers(*old(cpu)),
        engine_rom(*final(cpu)) == engine_rom(*old(cpu)),
        engine_quiet(*final(cpu)) == engine_quiet(*old(cpu)),
{
    cpu.bus.write_byte(addr, value)
}

/// `Bus::set_romspace`: makes `start..=end` the read-only range, in place of
/// any earlier one. Nothing else changes.
#[verifier::external_body]
fn engine_set_romspace(cpu: &mut CPU, start: u16, end: u16)
    ensures
        engine_rom(*final(cpu)) == Some((start, end)),
        engine_memory(*final(cpu)) == engine_memory(*old(cpu)),
        engine_registers(*final(cpu)) == engine_registers(*old(cpu)),
        engine_quiet(*final(cpu)) == engine_quiet(*old(cpu)),
{
    cpu.bus.set_romspace(start, end)
}

/// `Bus::clear_mem_slice`: zeroes the bytes from `start` to `end`, both
/// included, the read-only range too. It indexes past the memory when `end`
/// is not an address of it.
#[verifier::external_body]
fn engine_clear_mem_slice(cpu: &mut CPU, start: u16, end: u16)
    requires
        end < engine_memory(*old(cpu)).len(),
    ensures
        engine_memory(*final(cpu)) == cleared(engine_memory(*old(cpu)), start, end),
        engine_registers(*final(cpu)) == engine_registers(*old(cpu)),
        engine_rom(*final(cpu)) == engine_rom(*old(cpu)),
        engine_quiet(*final(cpu)) == engine_quiet(*old(cpu)),
{
    cpu.bus.clear_mem_slice(start as usize, end as usize)
}

/// `CPU::execute`: runs the instruction at the program counter and returns
/// the T-states it took. What it leaves in the registers and the memory is
/// `engine_outcome` of the engine before the call. Of every outcome the
/// source shows this much: the memory keeps its size and the read-only range
/// stays as it was; a protected byte keeps its value (but the first byte of a
/// range that does not start at address zero, which the second half of a
/// word write can reach); the cycle count is a table entry of one byte plus
/// at most 13; no interrupt request is left.
#[verifier::external_body]
fn engine_execute(cpu: &mut CPU) -> (cycles: u32)
    requires
        engine_wf(*old(cpu)),
        engine_ready(
            engine_registers(*old(cpu)),
            fetch_window(engine_memory(*old(cpu)), engine_registers(*old(cpu)).pc),
        ),
    ensures
        engine_registers(*final(cpu)) == engine_outcome(*old(cpu)).registers,
        engine_memory(*final(cpu)) == engine_outcome(*old(cpu)).memory,
        cycles == engine_outcome(*old(cpu)).cycles,
        cycles <= 268,
        engine_memory(*final(cpu)).len() == engine_memory(*old(cpu)).len(),
        engine_rom(*final(cpu)) == engine_rom(*old(cpu)),
        engine_quiet(*final(cpu)),
        rom_kept(engine_memory(*old(cpu)), engine_memory(*final(cpu)), engine_rom(*old(cpu))),
{
    cpu.execute()
}

/// A new engine: registers and memory at zero, nothing protected.
pub fn new_engine() -> (cpu: CPU)
    ensures
        engine_wf(cpu),
        engine_registers(cpu) == (Registers {
            pc: 0,
            sp: 0,
            af: 0,
            bc: 0,
            de: 0,
            hl: 0,
            ix: 0,
            iy: 0,
            af_: 0,
            bc_: 0,
            de_: 0,
            hl_: 0,
            i: 0,
            r: 0,
        }),
        forall|a: int| 0 <= a < MEMORY_SIZE ==> engine_memory(cpu)[a] == 0,
        engine_rom(cpu) == None::<(u16, u16)>,
{
    engine_new()
}

/// The engine's registers.
pub fn registers(cpu: &CPU) -> (r: Registers)
    ensures
        r == engine_registers(*cpu),
{
    engine_read_registers(cpu)
}

/// Replaces the engine's registers and leaves the rest of it alone.
pub fn set_registers(cpu: &mut CPU, r: &Registers)
    ensures
        engine_registers(*final(cpu)) == *r,
        engine_memory(*final(cpu)) == engine_memory(*old(cpu)),
        engine_rom(*final(cpu)) == engine_rom(*old(cpu)),
        engine_quiet(*final(cpu)) == engine_quiet(*old(cpu)),
{
    engine_write_registers(cpu, r)
}

/// Reads the byte at `addr`.
pub fn read(cpu: &CPU, addr: u16) -> (b: u8)
    ensures
        b == byte_at(engine_memory(*cpu), addr),
{
    engine_read_byte(cpu, addr)
}

/// Writes `value` to `addr`. A write to a protected address does nothing.
pub fn write(cpu: &mut CPU, addr: u16, value: u8)
    ensures
        engine_memory(*final(cpu)) == written(
            engine_memory(*old(cpu)),
            engine_rom(*old(cpu)),
            addr,
            value,
        ),
        engine_registers(*final(cpu)) == engine_registers(*old(cpu)),
        engine_rom(*final(cpu)) == engine_rom(*old(cpu)),
        engine_quiet(*final(cpu)) == engine_quiet(*old(cpu)),
{
    engine_write_byte(cpu, addr, value)
}

/// Writes `bytes` to consecutive addresses from `start`, wrapping at the top
/// of memory and skipping protected addresses.
pub fn write_range(cpu: &mut CPU, start: u16, bytes: &[u8])
    ensures
        engine_memory(*final(cpu)) == written_range(
            engine_memory(*old(cpu)),
            engine_rom(*old(cpu)),
            start,
            bytes@,
        ),
        engine_registers(*final(cpu)) == engine_registers(*old(cpu)),
        engine_rom(*final(cpu)) == engine_rom(*old(cpu)),
        engine_quiet(*final(cpu)) == engine_quiet(*old(cpu)),
{
    let mut i: usize = 0;
    let mut addr: u16 = start;
    while i < bytes.len()
        invariant
            i <= bytes@.len(),
            addr == addr_add(start, i as int),
            engine_memory(*cpu) == written_range(
                engine_memory(*old(cpu)),
                engine_rom(*old(cpu)),
                start,
                bytes@.take(i as int),
            ),
            engine_registers(*cpu) == engine_registers(*old(cpu)),
            engine_rom(*cpu) == engine_rom(*old(cpu)),
            engine_quiet(*cpu) == engine_quiet(*old(cpu)),
        decreases bytes@.len() - i,
    {
        proof {
            let next = bytes@.take(i as int + 1);
            assert(next.drop_last() =~= bytes@.take(i as int));
            assert(next.last() == bytes@[i as int]);
        }
        engine_write_byte(cpu, addr, bytes[i]);
        addr = addr.wrapping_add(1);
        i = i + 1;
    }
    proof {
        assert(bytes@.take(i as int) =~= bytes@);
    }
}

/// Protects `start..=end` against writes, in place of any earlier range.
pub fn set_rom_range(cpu: &mut CPU, start: u16, end: u16)
    ensures
        engine_rom(*final(cpu)) == Some((start, end)),
        engine_memory(*final(cpu)) == engine_memory(*old(cpu)),
        engine_registers(*final(cpu)) == engine_registers(*old(cpu)),
        engine_quiet(*final(cpu)) == engine_quiet(*old(cpu)),
{
    engine_set_romspace(cpu, start, end)
}

/// Zeroes the bytes from `start` to `end`, both included, protected or not.
pub fn clear_range(cpu: &mut CPU, start: u16, end: u16)
    requires
        engine_memory(*old(cpu)).len() == MEMORY_SIZE,
    ensures
        engine_memory(*final(cpu)) == cleared(engine_memory(*old(cpu)), start, end),
        engine_registers(*final(cpu)) == engine_registers(*old(cpu)),
        engine_rom(*final(cpu)) == engine_rom(*old(cpu)),
        engine_quiet(*final(cpu)) == engine_quiet(*old(cpu)),
{
    engine_clear_mem_slice(cpu, start, end)
}

/// Reads the four bytes from `pc` on, wrapping at the top of memory.
pub fn fetch(cpu: &CPU, pc: u16) -> (window: [u8; 4])
    ensures
        window@ == fetch_window(engine_memory(*cpu), pc),
{
    let window = [
        engine_read_byte(cpu, pc),
        engine_read_byte(cpu, pc.wrapping_add(1)),
        engine_read_byte(cpu, pc.wrapping_add(2)),
        engine_read_byte(cpu, pc.wrapping_add(3)),
    ];
    assert(window@ =~= fetch_window(engine_memory(*cpu), pc));
    window
}

/// Tells whether the engine can run the instruction in `window`, which
/// stands at `r.pc`.
pub fn can_execute(r: &Registers, window: &[u8; 4]) -> (ready: bool)
    ensures
        ready == engine_ready(*r, window@),
{
    let b0 = window[0];
    let b1 = window[1];
    let b2 = window[2];
    let b3 = window[3];
    if r.pc > 0xFFFB {
        return false;
    }
    if b0 == 0xED {
        let in_quarter = 0x40 <= b1 && b1 < 0x80;
        let word_ok = !(in_quarter && (b1 % 16 == 3 || b1 % 16 == 11)) || !(b2 == 0xFF && b3
            == 0xFF);
        let ret_ok = !(b1 == 0x45 || b1 == 0x4D) || r.sp != 0xFFFF;
        let sel = (b1 / 16) % 4;
        let pair = if sel == 0 {
            r.bc
        } else if sel == 1 {
            r.de
        } else if sel == 2 {
            r.hl
        } else {
            r.sp
        };
        let sum_ok = !(in_quarter && (b1 % 16 == 2 || b1 % 16 == 10)) || !(r.af % 2 == 1 && pair
            == 0xFFFF);
        word_ok && ret_ok && sum_ok
    } else if b0 == 0xDD || b0 == 0xFD {
        let index = if b0 == 0xDD {
            r.ix
        } else {
            r.iy
        };
        let displaced = b1 == 0x34 || b1 == 0x35 || b1 == 0x36 || b1 == 0xCB || (0x40 <= b1 && b1
            < 0xC0 && (b1 % 8 == 6 || b1 / 8 == 14));
        let reach_ok = !displaced || in_range(index as u32, b2);
        let word_ok = !(b1 == 0x22 || b1 == 0x2A) || !(b2 == 0xFF && b3 == 0xFF);
        let push_ok = b1 != 0xE5 || r.sp != 1;
        let pop_ok = !(b1 == 0xE1 || b1 == 0xE3) || r.sp != 0xFFFF;
        reach_ok && word_ok && push_ok && pop_ok
    } else if b0 == 0xCB {
        true
    } else {
        let relative = b0 == 0x10 || b0 == 0x18 || (0x20 <= b0 && b0 <= 0x38 && b0 % 8 == 0);
        let jump_ok = !relative || in_range(r.pc as u32 + 2, b1);
        let word_ok = !(b0 == 0x22 || b0 == 0x2A) || !(b1 == 0xFF && b2 == 0xFF);
        let pops = (b0 >= 0xC0 && (b0 % 8 == 0 || b0 % 16 == 1)) || b0 == 0xC9 || b0 == 0xE3;
        let pushes = (b0 >= 0xC0 && (b0 % 8 == 4 || b0 % 8 == 7 || b0 % 16 == 5)) || b0 == 0xCD;
        jump_ok && word_ok && (!pops || r.sp != 0xFFFF) && (!pushes || r.sp != 1)
    }
}

fn in_range(base: u32, d: u8) -> (ok: bool)
    requires
        base <= 0x10001,
    ensures
        ok == displaced_in_range(base as int, d),
{
    if d < 128 {
        base + d as u32 <= 0xFFFF
    } else {
        base >= 256 - d as u32
    }
}

/// Runs the instruction at the program counter and returns the T-states it
/// took.
pub fn execute(cpu: &mut CPU) -> (cycles: u32)
    requires
        engine_wf(*old(cpu)),
        engine_ready(
            engine_registers(*old(cpu)),
            fetch_window(engine_memory(*old(cpu)), engine_registers(*old(cpu)).pc),
        ),
    ensures
        engine_wf(*final(cpu)),
        engine_registers(*final(cpu)) == engine_outcome(*old(cpu)).registers,
        engine_memory(*final(cpu)) == engine_outcome(*old(cpu)).memory,
        cycles == engine_outcome(*old(cpu)).cycles,
        cycles <= 268,
        engine_rom(*final(cpu)) == engine_rom(*old(cpu)),
        rom_kept(engine_memory(*old(cpu)), engine_memory(*final(cpu)), engine_rom(*old(cpu))),
{
    engine_execute(cpu)
}

/// Runs the instruction at the program counter if the engine can take it,
/// and returns the T-states it took. Where the engine cannot, nothing
/// changes and the result is `None`.
pub fn try_execute(cpu: &mut CPU) -> (cycles: Option<u32>)
    requires
        engine_wf(*old(cpu)),
    ensures
        engine_wf(*final(cpu)),
        engine_rom(*final(cpu)) == engine_rom(*old(cpu)),
        rom_kept(engine_memory(*old(cpu)), engine_memory(*final(cpu)), engine_rom(*old(cpu))),
        cycles is Some <==> engine_ready(
            engine_registers(*old(cpu)),
            fetch_window(engine_memory(*old(cpu)), engine_registers(*old(cpu)).pc),
        ),
        match cycles {
            Some(n) => {
                &&& engine_registers(*final(cpu)) == engine_outcome(*old(cpu)).registers
                &&& engine_memory(*final(cpu)) == engine_outcome(*old(cpu)).memory
                &&& n == engine_outcome(*old(cpu)).cycles
            },
            None => {
                &&& engine_registers(*final(cpu)) == engine_registers(*old(cpu))
                &&& engine_memory(*final(cpu)) == engine_memory(*old(cpu))
            },
        },
{
    let r = engine_read_registers(cpu);
    let window = fetch(cpu, r.pc);
    if can_execute(&r, &window) {
        Some(engine_execute(cpu))
    } else {
        None
    }
}

/// Reads the word at `at`, low byte first.
pub fn read_le16(data: &[u8], at: usize) -> (w: u16)
    requires
        at + 1 < data@.len(),
    ensures
        w == le16(data@, at as int),
{
    let n = data.len();
    assert(at + 1 < n);
    data[at + 1] as u16 * 256 + data[at] as u16
}

/// ROM protection and bus identity: a read after a write gives the old
/// byte at a protected address and the written byte at any other.
pub proof fn lemma_read_after_write(memory: Seq<u8>, rom: Option<(u16, u16)>, addr: u16, value: u8)
    requires
        memory.len() == MEMORY_SIZE,
    ensures
        byte_at(written(memory, rom, addr, value), addr) == if protected(rom, addr) {
            byte_at(memory, addr)
        } else {
            value
        },
        forall|other: u16|
            other != addr ==> byte_at(written(memory, rom, addr, value), other) == byte_at(
                memory,
                other,
            ),
{
}

/// Bus identity: while the first 16 KiB are the protected range, or none
/// is, the RAM from 0x4000 on gives back what was written.
pub proof fn lemma_ram_write_sticks(memory: Seq<u8>, rom: Option<(u16, u16)>, addr: u16, value: u8)
    requires
        memory.len() == MEMORY_SIZE,
        rom == Some((0u16, 0x3FFFu16)) || rom is None,
        addr >= 0x4000,
    ensures
        byte_at(written(memory, rom, addr, value), addr) == value,
{
}

/// ROM protection: while the first 16 KiB are the protected range, a write
/// below 0x4000 changes nothing.
pub proof fn lemma_rom_write_dropped(memory: Seq<u8>, addr: u16, value: u8)
    requires
        addr <= 0x3FFF,
    ensures
        written(memory, Some((0u16, 0x3FFFu16)), addr, value) == memory,
{
}

/// A range write that neither wraps nor meets a protected address lays the
/// bytes over the memory.
pub proof fn lemma_written_range_overlays(
    memory: Seq<u8>,
    rom: Option<(u16, u16)>,
    start: u16,
    bytes: Seq<u8>,
)
    requires
        memory.len() == MEMORY_SIZE,
        start + bytes.len() <= MEMORY_SIZE,
        forall|a: u16| start <= a < start + bytes.len() ==> !protected(rom, a),
    ensures
        written_range(memory, rom, start, bytes) == overlaid(memory, start as int, bytes),
    decreases bytes.len(),
{
    if bytes.len() == 0 {
        assert(overlaid(memory, start as int, bytes) =~= memory);
    } else {
        lemma_written_range_overlays(memory, rom, start, bytes.drop_last());
        let addr = addr_add(start, bytes.len() - 1);
        assert(addr == start + bytes.len() - 1);
        assert(!protected(rom, addr));
        assert(written_range(memory, rom, start, bytes) =~= overlaid(memory, start as int, bytes));
    }
}

/// A range write leaves every protected byte as it was.
pub proof fn lemma_written_range_keeps_rom(
    memory: Seq<u8>,
    rom: Option<(u16, u16)>,
    start: u16,
    bytes: Seq<u8>,
)
    ensures
        written_range(memory, rom, start, bytes).len() == memory.len(),
        forall|a: u16|
            protected(rom, a) && a < memory.len() ==> #[trigger] written_range(
                memory,
                rom,
                start,
                bytes,
            )[a as int] == memory[a as int],
    decreases bytes.len(),
{
    if bytes.len() > 0 {
        lemma_written_range_keeps_rom(memory, rom, start, bytes.drop_last());
    }
}

} // verus!
